//! Hardware addresses and their text form.

use vstd::prelude::*;
use vstd::string::StringExecFns;
use crate::error::Error;
use crate::text::{chars_of, digit_char, digit_of, digit_value, push_digit};

verus! {

/// A six-byte hardware address.
#[derive(Clone, Copy, Debug, PartialEq, Eq)]
pub struct MacAddr {
    pub bytes: [u8; 6],
}

impl View for MacAddr {
    type V = Seq<u8>;

    open spec fn view(&self) -> Seq<u8> {
        self.bytes@
    }
}

/// The six bytes of the broadcast address, which every station on a link listens to:
/// all bits set.
pub open spec fn broadcast() -> Seq<u8> {
    Seq::new(6, |i: int| 0xFFu8)
}

/// The text of an address: six pairs of upper-case hexadecimal digits with a colon
/// between each two pairs.
pub open spec fn mac_text(addr: Seq<u8>) -> Seq<char> {
    Seq::new(
        17,
        |i: int|
            if i % 3 == 2 {
                ':'
            } else if i % 3 == 0 {
                digit_char((addr[i / 3] / 16) as nat)
            } else {
                digit_char((addr[i / 3] % 16) as nat)
            },
    )
}

/// Whether `text` is six pairs of hexadecimal digits with a colon between each two
/// pairs, and nothing else.
pub open spec fn is_mac_text(text: Seq<char>) -> bool {
    &&& text.len() == 17
    &&& forall|k: int|
        0 <= k < 6 ==> digit_value(#[trigger] text[3 * k]) is Some && digit_value(
            text[3 * k + 1],
        ) is Some
    &&& forall|k: int| 0 <= k < 5 ==> #[trigger] text[3 * k + 2] == ':'
}

/// The address that `text` denotes, where it denotes one.
pub open spec fn parse_mac(text: Seq<char>) -> Option<Seq<u8>> {
    if is_mac_text(text) {
        Some(
            Seq::new(
                6,
                |k: int|
                    (16 * digit_value(text[3 * k])->0 + digit_value(text[3 * k + 1])->0) as u8,
            ),
        )
    } else {
        None
    }
}

impl MacAddr {
    /// The broadcast address.
    pub fn broadcast() -> (r: MacAddr)
        ensures
            r@ == broadcast(),
    {
        MacAddr { bytes: [0xFF, 0xFF, 0xFF, 0xFF, 0xFF, 0xFF] }
    }

    /// Byte-wise equality.
    pub fn equals(&self, other: MacAddr) -> (r: bool)
        ensures
            r == (self@ == other@),
            r == (*self == other),
    {
        let mut i: usize = 0;
        while i < 6
            invariant
                i <= 6,
                forall|j: int| 0 <= j < i ==> self.bytes@[j] == other.bytes@[j],
            decreases 6 - i,
        {
            if self.bytes[i] != other.bytes[i] {
                return false;
            }
            i += 1;
        }
        assert(self.bytes =~= other.bytes);
        true
    }

    /// Reads an address from its text. Either case of the digits is taken; anything
    /// but six two-digit octets joined by colons is refused.
    pub fn from_str(text: &str) -> (r: Result<MacAddr, Error>)
        ensures
            match parse_mac(text@) {
                Some(addr) => r is Ok && r->Ok_0@ == addr,
                None => r == Err::<MacAddr, Error>(Error::Format),
            },
    {
        let chars = chars_of(text);
        MacAddr::from_chars(chars.as_slice())
    }

    /// Reads an address from the characters of its text, as `from_str` does.
    pub fn from_chars(chars: &[char]) -> (r: Result<MacAddr, Error>)
        ensures
            match parse_mac(chars@) {
                Some(addr) => r is Ok && r->Ok_0@ == addr,
                None => r == Err::<MacAddr, Error>(Error::Format),
            },
    {
        if chars.len() != 17 {
            return Err(Error::Format);
        }
        let mut bytes: [u8; 6] = [0, 0, 0, 0, 0, 0];
        let mut k: usize = 0;
        while k < 6
            invariant
                k <= 6,
                chars@.len() == 17,
                forall|j: int|
                    0 <= j < k ==> digit_value(#[trigger] chars@[3 * j]) is Some && digit_value(
                        chars@[3 * j + 1],
                    ) is Some,
                forall|j: int| 0 <= j < k && j < 5 ==> #[trigger] chars@[3 * j + 2] == ':',
                forall|j: int|
                    0 <= j < k ==> #[trigger] bytes@[j] == (16 * digit_value(chars@[3 * j])->0
                        + digit_value(chars@[3 * j + 1])->0) as u8,
            decreases 6 - k,
        {
            let high = digit_of(chars[3 * k]);
            let low = digit_of(chars[3 * k + 1]);
            match (high, low) {
                (Some(h), Some(l)) => {
                    if k < 5 && chars[3 * k + 2] != ':' {
                        return Err(Error::Format);
                    }
                    bytes[k] = h * 16 + l;
                },
                _ => {
                    return Err(Error::Format);
                },
            }
            k += 1;
        }
        Ok(MacAddr { bytes })
    }

    /// Writes the address as text.
    pub fn to_string(&self) -> (s: String)
        ensures
            s@ == mac_text(self@),
    {
        let mut s = String::new();
        let mut k: usize = 0;
        while k < 6
            invariant
                k <= 6,
                s@ == mac_text(self@).take(if k < 6 { 3 * k } else { 17 }),
            decreases 6 - k,
        {
            let b = self.bytes[k];
            push_digit(&mut s, b / 16);
            push_digit(&mut s, b % 16);
            if k < 5 {
                proof {
                    reveal_strlit(":");
                }
                s.append(":");
            }
            k += 1;
        }
        s
    }
}

/// Reading the text of an address gives the address back.
pub proof fn lemma_parse_mac_text(addr: Seq<u8>)
    requires
        addr.len() == 6,
    ensures
        parse_mac(mac_text(addr)) == Some(addr),
{
}

/// The text of an address holds digits and colons only.
pub proof fn lemma_mac_text_chars(addr: Seq<u8>)
    ensures
        forall|i: int|
            0 <= i < 17 ==> (#[trigger] mac_text(addr)[i]) == ':' || digit_value(
                mac_text(addr)[i],
            ) is Some,
{
}

} // verus!
