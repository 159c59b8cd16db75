//! The conversation resource: one link, one peer filter, one type filter, and at most
//! one payload waiting to be read.
//!
//! The resource never touches the link itself. Whoever drives it reads and writes the
//! link and hands over what the link returned; every decision about a frame is taken
//! here.
//!
//! A blocking read calls [`EthernetResource::read`]; as long as that finds nothing
//! waiting, it reads one frame from the link, hands the outcome to
//! [`EthernetResource::receive`], stops at an error and else calls `read` again. A write
//! hands the frame of [`EthernetResource::write`] to the link in one write and the
//! outcome to [`EthernetResource::written`]. A duplicate is made by
//! [`EthernetResource::dup`] from the duplicate of the link.

use vstd::prelude::*;
use vstd::string::StringExecFns;
use crate::error::Error;
use crate::frame::{decode, encode, EthernetII, EthernetIIHeader, Frame};
use crate::mac::{broadcast, mac_text, MacAddr};
use crate::text::{lemma_number_text_digits, number_text, push_number};

verus! {

/// A conversation over a link of type `L`.
pub struct EthernetResource<L> {
    /// The link that carries the conversation.
    pub network: L,
    /// The payload that the next read hands out, if one is waiting.
    pub data: Option<Vec<u8>>,
    /// The station spoken with; the broadcast address stands for any station.
    pub peer_addr: MacAddr,
    /// The type of the frames that belong to the conversation.
    pub ethertype: u16,
    /// The address of this station.
    pub own_addr: MacAddr,
}

/// A conversation as a mathematical value.
pub struct Conversation<L> {
    pub network: L,
    pub pending: Option<Seq<u8>>,
    pub peer: Seq<u8>,
    pub ethertype: u16,
    pub own: Seq<u8>,
}

impl<L> View for EthernetResource<L> {
    type V = Conversation<L>;

    open spec fn view(&self) -> Conversation<L> {
        Conversation {
            network: self.network,
            pending: match self.data {
                Some(payload) => Some(payload@),
                None => None,
            },
            peer: self.peer_addr@,
            ethertype: self.ethertype,
            own: self.own_addr@,
        }
    }
}

/// Whether a frame sent to `dst` is meant for the station `own`: it names that station
/// or every station.
pub open spec fn addressed_to(own: Seq<u8>, dst: Seq<u8>) -> bool {
    dst == own || dst == broadcast()
}

impl<L> Conversation<L> {
    /// Whether `frame` belongs to the conversation: it has the conversation's type, it
    /// is meant for this station, and it comes from the peer, or the peer filter takes
    /// any sender.
    pub open spec fn accepts(self, frame: Frame) -> bool {
        &&& frame.ethertype == self.ethertype
        &&& addressed_to(self.own, frame.dst)
        &&& (frame.src == self.peer || self.peer == broadcast())
    }

    /// Whether `raw` holds a frame that belongs to the conversation.
    pub open spec fn takes(self, raw: Seq<u8>) -> bool {
        decode(raw) matches Some(frame) && self.accepts(frame)
    }

    /// The conversation after the link delivered `raw`: the payload is kept where the
    /// frame belongs to the conversation, and nothing changes where it does not.
    pub open spec fn receive(self, raw: Seq<u8>) -> Self {
        if self.takes(raw) {
            Conversation { pending: Some(decode(raw)->0.payload), ..self }
        } else {
            self
        }
    }

    /// The conversation after the link delivered each of `raws`, in order.
    pub open spec fn receive_all(self, raws: Seq<Seq<u8>>) -> Self
        decreases raws.len(),
    {
        if raws.len() == 0 {
            self
        } else {
            self.receive_all(raws.drop_last()).receive(raws.last())
        }
    }

    /// The conversation after a read: nothing is waiting any more.
    pub open spec fn drained(self) -> Self {
        Conversation { pending: None, ..self }
    }

    /// The frame that carries `payload` to the peer.
    pub open spec fn outgoing(self, payload: Seq<u8>) -> Frame {
        Frame { dst: self.peer, src: self.own, ethertype: self.ethertype, payload }
    }

    /// The reference that names the conversation within its scheme: the peer, a slash
    /// and the type in base 16.
    pub open spec fn reference(self) -> Seq<char> {
        mac_text(self.peer) + seq!['/'] + number_text(self.ethertype as nat)
    }

    /// The path of the conversation: the scheme, a colon and the reference.
    pub open spec fn path(self) -> Seq<char> {
        "ethernet:"@ + self.reference()
    }
}

/// The smaller of two lengths.
pub open spec fn shorter(a: nat, b: nat) -> nat {
    if a <= b {
        a
    } else {
        b
    }
}

/// What `buf` holds after `src` was copied into it: as much of `src` as fits, then what
/// `buf` held before.
pub open spec fn overlay(buf: Seq<u8>, src: Seq<u8>) -> Seq<u8> {
    let n = shorter(buf.len(), src.len()) as int;
    src.take(n) + buf.skip(n)
}

/// The bytes of a text whose characters are all below 128.
pub open spec fn ascii_bytes(text: Seq<char>) -> Seq<u8> {
    Seq::new(text.len(), |i: int| text[i] as u8)
}

/// Copies as much of `src` as fits into `buf` and says how much that was.
fn copy_into(buf: &mut [u8], src: &[u8]) -> (n: usize)
    ensures
        n == shorter(old(buf)@.len(), src@.len()),
        final(buf)@ == overlay(old(buf)@, src@),
{
    let mut i: usize = 0;
    while i < buf.len() && i < src.len()
        invariant
            i <= buf@.len(),
            i <= src@.len(),
            buf@.len() == old(buf)@.len(),
            buf@ == src@.take(i as int) + old(buf)@.skip(i as int),
        decreases src@.len() - i,
    {
        buf[i] = src[i];
        i += 1;
    }
    i
}

impl<L> EthernetResource<L> {
    /// A conversation with `peer_addr` over `network`, with nothing waiting.
    pub fn new(network: L, own_addr: MacAddr, peer_addr: MacAddr, ethertype: u16) -> (r: Self)
        ensures
            r@ == (Conversation {
                network,
                pending: None,
                peer: peer_addr@,
                ethertype,
                own: own_addr@,
            }),
    {
        EthernetResource { network, data: None, peer_addr, ethertype, own_addr }
    }

    /// A second handle on the conversation, over `network`, the duplicate of this
    /// handle's link. It has the same filters and its own copy of the payload that is
    /// waiting here. Where the link could not be duplicated, its error is handed on.
    pub fn dup(&self, network: Result<L, Error>) -> (r: Result<EthernetResource<L>, Error>)
        ensures
            match network {
                Ok(link) => r is Ok && r->Ok_0@ == (Conversation { network: link, ..self@ }),
                Err(e) => r == Err::<EthernetResource<L>, Error>(e),
            },
    {
        match network {
            Ok(link) => {
                let data = match &self.data {
                    Some(payload) => {
                        let copy = payload.clone();
                        Some(copy)
                    },
                    None => None,
                };
                Ok(
                    EthernetResource {
                        network: link,
                        data,
                        peer_addr: self.peer_addr,
                        ethertype: self.ethertype,
                        own_addr: self.own_addr,
                    },
                )
            },
            Err(e) => Err(e),
        }
    }

    /// The path of the conversation as text.
    pub fn path_string(&self) -> (s: String)
        ensures
            s@ == self@.path(),
    {
        let mut s = String::from_str("ethernet:");
        let peer = self.peer_addr.to_string();
        s.append(peer.as_str());
        proof {
            reveal_strlit("/");
        }
        s.append("/");
        push_number(&mut s, self.ethertype);
        s
    }

    /// Writes the path of the conversation into `buf`, as far as it fits, and says how
    /// many bytes were written.
    pub fn path(&self, buf: &mut [u8]) -> (r: Result<usize, Error>)
        ensures
            r == Ok::<usize, Error>(shorter(old(buf)@.len(), self@.path().len()) as usize),
            final(buf)@ == overlay(old(buf)@, ascii_bytes(self@.path())),
    {
        let path = self.path_string();
        let text = path.as_str();
        proof {
            lemma_path_is_ascii(self@);
            vstd::string::is_ascii_spec_bytes(text);
        }
        let n = copy_into(buf, text.as_bytes());
        Ok(n)
    }

    /// Hands the waiting payload to the caller: as much of it as fits into `buf`; what
    /// does not fit is lost. `None` says that nothing was waiting: the next frame has to
    /// come from the link, through `receive`.
    pub fn read(&mut self, buf: &mut [u8]) -> (r: Option<usize>)
        ensures
            final(self)@ == old(self)@.drained(),
            match old(self)@.pending {
                Some(payload) => r == Some(shorter(old(buf)@.len(), payload.len()) as usize)
                    && final(buf)@ == overlay(old(buf)@, payload),
                None => r is None && final(buf)@ == old(buf)@,
            },
    {
        let r = match &self.data {
            Some(payload) => Some(copy_into(buf, payload.as_slice())),
            None => None,
        };
        self.data = None;
        r
    }

    /// Takes in what one read of the link returned. A frame that belongs to the
    /// conversation leaves its payload waiting, in place of any that waited before; any
    /// other frame, and bytes too few for a frame, are dropped without a trace. An error
    /// of the link is handed on as it is. `Ok(true)` says that a payload is now waiting.
    pub fn receive(&mut self, link: Result<&[u8], Error>) -> (r: Result<bool, Error>)
        ensures
            match link {
                Ok(raw) => r == Ok::<bool, Error>(old(self)@.takes(raw@)) && final(self)@ == old(
                    self,
                )@.receive(raw@),
                Err(e) => r == Err::<bool, Error>(e) && final(self)@ == old(self)@,
            },
    {
        match link {
            Ok(raw) => {
                match EthernetII::from_bytes(raw) {
                    Some(frame) => {
                        if frame.header.ethertype == self.ethertype && (frame.header.dst.equals(
                            self.own_addr,
                        ) || frame.header.dst.equals(MacAddr::broadcast())) && (
                        frame.header.src.equals(self.peer_addr) || self.peer_addr.equals(
                            MacAddr::broadcast(),
                        )) {
                            self.data = Some(frame.data);
                            Ok(true)
                        } else {
                            Ok(false)
                        }
                    },
                    None => Ok(false),
                }
            },
            Err(e) => Err(e),
        }
    }

    /// The frame that carries `buf` to the peer, in wire form: from this station, to the
    /// peer, with the conversation's type and all of `buf` as payload. It is to be
    /// handed to the link in one write.
    pub fn write(&self, buf: &[u8]) -> (wire: Vec<u8>)
        ensures
            wire@ == encode(self@.outgoing(buf@)),
    {
        let frame = EthernetII {
            header: EthernetIIHeader {
                src: self.own_addr,
                dst: self.peer_addr,
                ethertype: self.ethertype,
            },
            data: vstd::slice::slice_to_vec(buf),
        };
        frame.to_bytes()
    }

    /// What a write of `buf` returns once the link has returned `link` for the frame:
    /// the length of `buf` where the link took the frame, else the link's error.
    pub fn written(&self, buf: &[u8], link: Result<usize, Error>) -> (r: Result<usize, Error>)
        ensures
            r == match link {
                Ok(_) => Ok::<usize, Error>(buf@.len() as usize),
                Err(e) => Err::<usize, Error>(e),
            },
    {
        match link {
            Ok(_) => Ok(buf.len()),
            Err(e) => Err(e),
        }
    }
}

/// Frames that do not belong to a conversation leave no trace in it, however many the
/// link delivers.
pub proof fn lemma_rejected_frames_leave_no_trace<L>(c: Conversation<L>, raws: Seq<Seq<u8>>)
    requires
        forall|i: int| 0 <= i < raws.len() ==> !c.takes(#[trigger] raws[i]),
    ensures
        c.receive_all(raws) == c,
    decreases raws.len(),
{
    if raws.len() > 0 {
        lemma_rejected_frames_leave_no_trace(c, raws.drop_last());
    }
}

/// Of a run of frames of which only the last belongs to the conversation, exactly the
/// payload of the last is waiting afterwards, and nothing else has changed.
pub proof fn lemma_first_accepted_frame_is_kept<L>(
    c: Conversation<L>,
    rejected: Seq<Seq<u8>>,
    accepted: Seq<u8>,
)
    requires
        forall|i: int| 0 <= i < rejected.len() ==> !c.takes(#[trigger] rejected[i]),
        c.takes(accepted),
    ensures
        c.receive_all(rejected.push(accepted)) == (Conversation {
            pending: Some(decode(accepted)->0.payload),
            ..c
        }),
{
    let raws = rejected.push(accepted);
    assert(raws.drop_last() == rejected);
    lemma_rejected_frames_leave_no_trace(c, rejected);
}

/// Once a payload was read nothing of it is left, whatever the buffer could not hold:
/// nothing is waiting, and what waits after the next frame of the link is the payload
/// of that frame or nothing.
pub proof fn lemma_read_leaves_nothing<L>(c: Conversation<L>, raw: Seq<u8>)
    ensures
        c.drained().pending is None,
        c.drained().receive(raw).pending == if c.takes(raw) {
            Some(decode(raw)->0.payload)
        } else {
            None
        },
{
}

/// Every character of a path is below 128.
pub proof fn lemma_path_is_ascii<L>(c: Conversation<L>)
    ensures
        vstd::utf8::is_ascii_chars(c.path()),
{
    reveal_strlit("ethernet:");
    lemma_number_text_digits(c.ethertype as nat);
}

} // verus!
