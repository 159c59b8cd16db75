//! The scheme: what a reference asks for, and the opening of a conversation.
//!
//! A directed open names its peer and is done at once. A listening open names none: it
//! waits for the first frame of the right type that is meant for this station, and
//! takes the sender of that frame as its peer.
//!
//! An open is a small machine, [`OpenState`]. [`EthernetScheme::open`] gives its first
//! state. While that is `AwaitingFrame`, whoever drives the open reads one frame from
//! the link in that state and hands the outcome to [`OpenState::receive`]. `Matched` and
//! `Failed` end the open.

use vstd::prelude::*;
use crate::error::Error;
use crate::frame::{decode, EthernetII, Frame};
use crate::mac::{lemma_mac_text_chars, lemma_parse_mac_text, mac_text, parse_mac, MacAddr};
use crate::resource::{addressed_to, Conversation, EthernetResource};
use crate::text::{
    chars_of, find, find_from, hex_u16, lemma_find_skips, lemma_hex_u16_of_number_text,
    lemma_number_text_digits, number_text, parse_hex_u16,
};

verus! {

/// The Ethernet scheme of one station.
pub struct EthernetScheme {
    /// The address of this station.
    pub own_addr: MacAddr,
}

/// What a reference asks for.
pub struct Target {
    /// The peer of a directed open; none for a listening open.
    pub peer: Option<Seq<u8>>,
    /// The type of the frames of the conversation.
    pub ethertype: u16,
}

/// What the reference `text` asks for. A reference is a peer, a slash and a type in
/// base 16; what follows a second slash is not looked at. Without a slash the type is
/// missing. An empty peer asks for a listening open.
pub open spec fn parse_reference(text: Seq<char>) -> Result<Target, Error> {
    let slash = find_from(text, '/', 0);
    if slash >= text.len() {
        Err(Error::NotFound)
    } else {
        let host = text.subrange(0, slash);
        let end = find_from(text, '/', slash + 1);
        match hex_u16(text.subrange(slash + 1, end)) {
            None => Err(Error::Format),
            Some(ethertype) => if host.len() == 0 {
                Ok(Target { peer: None, ethertype })
            } else {
                match parse_mac(host) {
                    Some(peer) => Ok(Target { peer: Some(peer), ethertype }),
                    None => Err(Error::Format),
                }
            },
        }
    }
}

/// An open in progress.
pub enum OpenState<L> {
    /// Listening: no frame has qualified yet, and the next one is awaited.
    AwaitingFrame { network: L, ethertype: u16, own_addr: MacAddr },
    /// Done: the conversation stands.
    Matched(EthernetResource<L>),
    /// Given up: there is no conversation, and the link is released.
    Failed(Error),
}

/// An open in progress as a mathematical value.
pub enum Opening<L> {
    AwaitingFrame { network: L, ethertype: u16, own: Seq<u8> },
    Matched(Conversation<L>),
    Failed(Error),
}

impl<L> View for OpenState<L> {
    type V = Opening<L>;

    open spec fn view(&self) -> Opening<L> {
        match *self {
            OpenState::AwaitingFrame { network, ethertype, own_addr } => Opening::AwaitingFrame {
                network,
                ethertype,
                own: own_addr@,
            },
            OpenState::Matched(resource) => Opening::Matched(resource@),
            OpenState::Failed(e) => Opening::Failed(e),
        }
    }
}

/// Whether `frame` ends a listening open for frames of type `ethertype` at the station
/// `own`: it has that type and is meant for that station.
pub open spec fn qualifies(own: Seq<u8>, ethertype: u16, frame: Frame) -> bool {
    frame.ethertype == ethertype && addressed_to(own, frame.dst)
}

impl<L> Opening<L> {
    /// The open after the link delivered `raw`. While a frame is awaited, one that
    /// qualifies makes the conversation: its sender is the peer, and its payload waits
    /// for the first read. Any other frame changes nothing, and neither does any frame
    /// once the open is over.
    pub open spec fn receive(self, raw: Seq<u8>) -> Self {
        match self {
            Opening::AwaitingFrame { network, ethertype, own } => match decode(raw) {
                Some(frame) if qualifies(own, ethertype, frame) => Opening::Matched(
                    Conversation {
                        network,
                        pending: Some(frame.payload),
                        peer: frame.src,
                        ethertype,
                        own,
                    },
                ),
                _ => self,
            },
            _ => self,
        }
    }

    /// The open after the link failed with `e`. While a frame is awaited this ends the
    /// open with that error; once the open is over it changes nothing.
    pub open spec fn fail(self, e: Error) -> Self {
        match self {
            Opening::AwaitingFrame { .. } => Opening::Failed(e),
            _ => self,
        }
    }

    /// The open after the link delivered each of `raws`, in order.
    pub open spec fn receive_all(self, raws: Seq<Seq<u8>>) -> Self
        decreases raws.len(),
    {
        if raws.len() == 0 {
            self
        } else {
            self.receive_all(raws.drop_last()).receive(raws.last())
        }
    }
}

/// The state in which an open at the station `own` starts, given the reference and
/// what opening the link gave. Without a link, and without a type in the reference,
/// nothing is found; a type or a peer that cannot be read is a format error.
pub open spec fn opening<L>(own: Seq<u8>, reference: Seq<char>, network: Result<L, Error>)
    -> Opening<L> {
    match network {
        Err(_) => Opening::Failed(Error::NotFound),
        Ok(link) => match parse_reference(reference) {
            Err(e) => Opening::Failed(e),
            Ok(target) => match target.peer {
                Some(peer) => Opening::Matched(
                    Conversation {
                        network: link,
                        pending: None,
                        peer,
                        ethertype: target.ethertype,
                        own,
                    },
                ),
                None => Opening::AwaitingFrame {
                    network: link,
                    ethertype: target.ethertype,
                    own,
                },
            },
        },
    }
}

/// Reads a reference: the peer of a directed open, or none, and the type.
fn read_reference(reference: &str) -> (r: Result<(Option<MacAddr>, u16), Error>)
    ensures
        match parse_reference(reference@) {
            Ok(target) => r is Ok && r->Ok_0.1 == target.ethertype && match target.peer {
                Some(peer) => r->Ok_0.0 is Some && r->Ok_0.0->0@ == peer,
                None => r->Ok_0.0 is None,
            },
            Err(e) => r == Err::<(Option<MacAddr>, u16), Error>(e),
        },
{
    let chars = chars_of(reference);
    let text = chars.as_slice();
    let slash = find(text, '/', 0);
    if slash >= text.len() {
        return Err(Error::NotFound);
    }
    let end = find(text, '/', slash + 1);
    let ethertype = match parse_hex_u16(vstd::slice::slice_subrange(text, slash + 1, end)) {
        Some(ethertype) => ethertype,
        None => {
            return Err(Error::Format);
        },
    };
    if slash == 0 {
        return Ok((None, ethertype));
    }
    match MacAddr::from_chars(vstd::slice::slice_subrange(text, 0, slash)) {
        Ok(peer) => Ok((Some(peer), ethertype)),
        Err(e) => Err(e),
    }
}

impl EthernetScheme {
    /// The scheme of the station with the address `own_addr`.
    pub fn new(own_addr: MacAddr) -> (r: Self)
        ensures
            r.own_addr == own_addr,
    {
        EthernetScheme { own_addr }
    }

    /// The name of the scheme.
    pub fn scheme(&self) -> (name: &'static str)
        ensures
            name@ == "ethernet"@,
    {
        "ethernet"
    }

    /// Starts an open. `network` is what opening the link gave. A directed open is
    /// over at once, with nothing waiting and no frame taken from the link; a listening
    /// open awaits its first frame. The flags play no part.
    pub fn open<L>(&self, reference: &str, _flags: usize, network: Result<L, Error>) -> (r:
        OpenState<L>)
        ensures
            r@ == opening(self.own_addr@, reference@, network),
    {
        let link = match network {
            Ok(link) => link,
            Err(_) => {
                return OpenState::Failed(Error::NotFound);
            },
        };
        match read_reference(reference) {
            Ok((Some(peer), ethertype)) => OpenState::Matched(
                EthernetResource::new(link, self.own_addr, peer, ethertype),
            ),
            Ok((None, ethertype)) => OpenState::AwaitingFrame {
                network: link,
                ethertype,
                own_addr: self.own_addr,
            },
            Err(e) => OpenState::Failed(e),
        }
    }
}

impl<L> OpenState<L> {
    /// Takes in what one read of the link returned. See [`Opening::receive`] for a
    /// frame and [`Opening::fail`] for an error of the link.
    pub fn receive(self, link: Result<&[u8], Error>) -> (r: OpenState<L>)
        ensures
            r@ == match link {
                Ok(raw) => self@.receive(raw@),
                Err(e) => self@.fail(e),
            },
    {
        match self {
            OpenState::AwaitingFrame { network, ethertype, own_addr } => match link {
                Ok(raw) => {
                    match EthernetII::from_bytes(raw) {
                        Some(frame) => {
                            if frame.header.ethertype == ethertype && (frame.header.dst.equals(
                                own_addr,
                            ) || frame.header.dst.equals(MacAddr::broadcast())) {
                                OpenState::Matched(
                                    EthernetResource {
                                        network,
                                        data: Some(frame.data),
                                        peer_addr: frame.header.src,
                                        ethertype,
                                        own_addr,
                                    },
                                )
                            } else {
                                OpenState::AwaitingFrame { network, ethertype, own_addr }
                            }
                        },
                        None => OpenState::AwaitingFrame { network, ethertype, own_addr },
                    }
                },
                Err(e) => OpenState::Failed(e),
            },
            done => done,
        }
    }
}

/// Frames that do not qualify leave a listening open as it was.
pub proof fn lemma_unqualified_frames_are_skipped<L>(
    network: L,
    ethertype: u16,
    own: Seq<u8>,
    raws: Seq<Seq<u8>>,
)
    requires
        forall|i: int|
            0 <= i < raws.len() ==> !(decode(#[trigger] raws[i]) matches Some(frame) && qualifies(
                own,
                ethertype,
                frame,
            )),
    ensures
        (Opening::AwaitingFrame { network, ethertype, own }).receive_all(raws) == (
        Opening::AwaitingFrame { network, ethertype, own }),
    decreases raws.len(),
{
    if raws.len() > 0 {
        lemma_unqualified_frames_are_skipped(network, ethertype, own, raws.drop_last());
    }
}

/// A listening open ends at the first frame that qualifies: the conversation is with
/// the sender of that frame, over the same link, and the payload of that frame waits
/// for the first read. The frames before it have left no trace.
pub proof fn lemma_listening_open_takes_first_qualifying_frame<L>(
    network: L,
    ethertype: u16,
    own: Seq<u8>,
    skipped: Seq<Seq<u8>>,
    hit: Seq<u8>,
)
    requires
        forall|i: int|
            0 <= i < skipped.len() ==> !(decode(#[trigger] skipped[i]) matches Some(frame)
                && qualifies(own, ethertype, frame)),
        decode(hit) matches Some(frame) && qualifies(own, ethertype, frame),
    ensures
        (Opening::AwaitingFrame { network, ethertype, own }).receive_all(skipped.push(hit)) == (
        Opening::Matched(
            Conversation {
                network,
                pending: Some(decode(hit)->0.payload),
                peer: decode(hit)->0.src,
                ethertype,
                own,
            },
        )),
{
    assert(skipped.push(hit).drop_last() == skipped);
    lemma_unqualified_frames_are_skipped(network, ethertype, own, skipped);
}

/// A failure of the link while a listening open awaits its frame ends the open with
/// that very error, whatever frames were skipped before, and leaves no conversation.
pub proof fn lemma_link_failure_ends_listening_open<L>(
    network: L,
    ethertype: u16,
    own: Seq<u8>,
    skipped: Seq<Seq<u8>>,
    e: Error,
)
    requires
        forall|i: int|
            0 <= i < skipped.len() ==> !(decode(#[trigger] skipped[i]) matches Some(frame)
                && qualifies(own, ethertype, frame)),
    ensures
        (Opening::AwaitingFrame { network, ethertype, own }).receive_all(skipped).fail(e)
            == Opening::<L>::Failed(e),
{
    lemma_unqualified_frames_are_skipped(network, ethertype, own, skipped);
}

/// The reference in the path of a conversation asks for a directed open of that very
/// conversation.
pub proof fn lemma_reference_names_the_conversation<L>(c: Conversation<L>)
    requires
        c.peer.len() == 6,
    ensures
        parse_reference(c.reference()) == Ok::<Target, Error>(
            Target { peer: Some(c.peer), ethertype: c.ethertype },
        ),
{
    let text = c.reference();
    let number = number_text(c.ethertype as nat);
    lemma_mac_text_chars(c.peer);
    lemma_number_text_digits(c.ethertype as nat);
    lemma_find_skips(text, '/', 0, 17);
    lemma_find_skips(text, '/', 18, text.len() as int);
    assert(text.subrange(0, 17) =~= mac_text(c.peer));
    assert(text.subrange(18, text.len() as int) =~= number);
    lemma_parse_mac_text(c.peer);
    lemma_hex_u16_of_number_text(c.ethertype);
}

/// An open that is over stays as it is, whatever the link delivers or fails with.
pub proof fn lemma_open_states_are_terminal<L>(o: Opening<L>, raw: Seq<u8>, e: Error)
    requires
        !(o is AwaitingFrame),
    ensures
        o.receive(raw) == o,
        o.fail(e) == o,
{
}

} // verus!
