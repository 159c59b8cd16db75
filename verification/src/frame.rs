//! Ethernet II frames and their wire form: destination, source, a big-endian type
//! field, then the payload.

use vstd::prelude::*;
use crate::mac::MacAddr;

verus! {

/// The number of bytes that the header takes on the wire.
pub const HEADER_LEN: usize = 14;

/// The fixed part of a frame.
#[derive(Clone, Copy, Debug, PartialEq, Eq)]
pub struct EthernetIIHeader {
    pub dst: MacAddr,
    pub src: MacAddr,
    pub ethertype: u16,
}

/// A frame: header and payload.
#[derive(Debug, PartialEq, Eq)]
pub struct EthernetII {
    pub header: EthernetIIHeader,
    pub data: Vec<u8>,
}

/// A frame as a mathematical value.
pub struct Frame {
    pub dst: Seq<u8>,
    pub src: Seq<u8>,
    pub ethertype: u16,
    pub payload: Seq<u8>,
}

impl Frame {
    /// Both addresses have six bytes.
    pub open spec fn wf(self) -> bool {
        self.dst.len() == 6 && self.src.len() == 6
    }
}

impl View for EthernetII {
    type V = Frame;

    open spec fn view(&self) -> Frame {
        Frame {
            dst: self.header.dst@,
            src: self.header.src@,
            ethertype: self.header.ethertype,
            payload: self.data@,
        }
    }
}

/// The two bytes of a 16-bit number, most significant first.
pub open spec fn be_bytes(n: u16) -> Seq<u8> {
    seq![(n / 256) as u8, (n % 256) as u8]
}

/// The wire form of a frame.
pub open spec fn encode(frame: Frame) -> Seq<u8> {
    frame.dst + frame.src + be_bytes(frame.ethertype) + frame.payload
}

/// The frame that `bytes` holds: none where they are too few for a header, else the
/// header fields from the first fourteen bytes and every further byte as payload.
pub open spec fn decode(bytes: Seq<u8>) -> Option<Frame> {
    if bytes.len() < HEADER_LEN {
        None
    } else {
        Some(
            Frame {
                dst: bytes.subrange(0, 6),
                src: bytes.subrange(6, 12),
                ethertype: (bytes[12] * 256 + bytes[13]) as u16,
                payload: bytes.skip(HEADER_LEN as int),
            },
        )
    }
}

/// Decoding the wire form of a frame gives the frame back, whatever its payload.
pub proof fn lemma_decode_encode(frame: Frame)
    requires
        frame.wf(),
    ensures
        decode(encode(frame)) == Some(frame),
{
    let bytes = encode(frame);
    let back = decode(bytes)->0;
    assert(back.dst =~= frame.dst);
    assert(back.src =~= frame.src);
    assert(back.payload =~= frame.payload);
}

/// Encoding what a buffer decodes to gives the buffer back.
pub proof fn lemma_encode_decode(bytes: Seq<u8>)
    requires
        decode(bytes) is Some,
    ensures
        encode(decode(bytes)->0) == bytes,
        decode(bytes)->0.wf(),
{
}

/// Appends `src` to `out`.
fn extend(out: &mut Vec<u8>, src: &[u8])
    ensures
        final(out)@ == old(out)@ + src@,
{
    let mut i: usize = 0;
    while i < src.len()
        invariant
            i <= src@.len(),
            out@ == old(out)@ + src@.take(i as int),
        decreases src@.len() - i,
    {
        out.push(src[i]);
        i += 1;
    }
}

/// The address that stands in `bytes` at `at`.
fn addr_at(bytes: &[u8], at: usize) -> (r: MacAddr)
    requires
        at + 6 <= bytes@.len(),
    ensures
        r@ == bytes@.subrange(at as int, at + 6),
{
    MacAddr {
        bytes: [
            bytes[at],
            bytes[at + 1],
            bytes[at + 2],
            bytes[at + 3],
            bytes[at + 4],
            bytes[at + 5],
        ],
    }
}

impl EthernetII {
    /// Reads a frame from its wire form. Fewer bytes than a header takes hold no frame.
    pub fn from_bytes(bytes: &[u8]) -> (r: Option<EthernetII>)
        ensures
            match decode(bytes@) {
                Some(frame) => r is Some && r->0@ == frame,
                None => r is None,
            },
    {
        if bytes.len() < HEADER_LEN {
            return None;
        }
        let dst = addr_at(bytes, 0);
        let src = addr_at(bytes, 6);
        let ethertype: u16 = (bytes[12] as u16) * 256 + bytes[13] as u16;
        let data = vstd::slice::slice_to_vec(
            vstd::slice::slice_subrange(bytes, HEADER_LEN, bytes.len()),
        );
        Some(EthernetII { header: EthernetIIHeader { dst, src, ethertype }, data })
    }

    /// Writes the frame in its wire form.
    pub fn to_bytes(&self) -> (bytes: Vec<u8>)
        ensures
            bytes@ == encode(self@),
    {
        let mut bytes: Vec<u8> = Vec::new();
        extend(&mut bytes, &self.header.dst.bytes);
        extend(&mut bytes, &self.header.src.bytes);
        bytes.push((self.header.ethertype / 256) as u8);
        bytes.push((self.header.ethertype % 256) as u8);
        extend(&mut bytes, self.data.as_slice());
        bytes
    }
}

} // verus!
