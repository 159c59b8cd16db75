//! Conversion of 16-bit numbers between the order of the host and that of the network.

use vstd::prelude::*;
use vstd::endian::{endianness, Endian};

verus! {

/// `u` with its two bytes exchanged.
pub open spec fn swapped(u: u16) -> u16 {
    ((u % 256) * 256 + u / 256) as u16
}

/// A number of the host in the order of the network, which is big-endian: the number
/// itself on a big-endian host, the number with its bytes exchanged on a little-endian
/// one. Stored as the host stores it, the result has the more significant byte of `u`
/// first.
pub open spec fn network_order(u: u16) -> u16 {
    match endianness() {
        Endian::Big => u,
        Endian::Little => swapped(u),
    }
}

/// A number in the order of the network as a number of the host. The conversion is the
/// same in both directions.
pub open spec fn host_order(n: u16) -> u16 {
    network_order(n)
}

/// `u16::to_be` of the standard library. Its documentation says that it leaves the
/// number as it is on a big-endian target and exchanges the bytes on a little-endian
/// one. The contract says that, with `vstd::endian::endianness` for the order of the
/// target; which of the two orders that is stays open.
pub assume_specification[ u16::to_be ](x: u16) -> (r: u16)
    ensures
        r == network_order(x),
;

/// `u16::from_be` of the standard library. Its documentation says that it leaves the
/// number as it is on a big-endian target and exchanges the bytes on a little-endian
/// one. The contract says that, with `vstd::endian::endianness` for the order of the
/// target; which of the two orders that is stays open.
pub assume_specification[ u16::from_be ](x: u16) -> (r: u16)
    ensures
        r == host_order(x),
;

/// A number of the host in the order of the network.
pub fn htons(u: u16) -> (r: u16)
    ensures
        r == network_order(u),
{
    u.to_be()
}

/// A number in the order of the network as a number of the host.
pub fn ntohs(u: u16) -> (r: u16)
    ensures
        r == host_order(u),
{
    u16::from_be(u)
}

/// Exchanging the bytes twice gives the number back.
pub proof fn lemma_swapped_twice(u: u16)
    ensures
        swapped(swapped(u)) == u,
{
}

/// Each of the two conversions undoes the other, whatever the order of the host.
pub proof fn lemma_host_order_of_network_order(u: u16)
    ensures
        host_order(network_order(u)) == u,
        network_order(host_order(u)) == u,
{
    lemma_swapped_twice(u);
}

/// Whatever the order of the host, a conversion gives the number or the number with
/// its bytes exchanged, and so keeps a number whose two bytes are equal.
pub proof fn lemma_network_order_keeps_or_swaps(u: u16)
    ensures
        network_order(u) == u || network_order(u) == swapped(u),
        u / 256 == u % 256 ==> network_order(u) == u,
{
}

} // verus!
