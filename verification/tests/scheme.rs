use ethernet::error::Error;
use ethernet::frame::{EthernetII, EthernetIIHeader};
use ethernet::mac::MacAddr;
use ethernet::resource::EthernetResource;
use ethernet::scheme::{EthernetScheme, OpenState};

const OWN: MacAddr = MacAddr { bytes: [0x02, 0x00, 0x00, 0x00, 0x00, 0x01] };
const SENDER: MacAddr = MacAddr { bytes: [0x52, 0x54, 0x00, 0x12, 0x34, 0x56] };
const OTHER: MacAddr = MacAddr { bytes: [0x52, 0x54, 0x00, 0x12, 0x34, 0x57] };
const IPV4: u16 = 0x0800;
const ARP: u16 = 0x0806;

/// A link that hands out what it was given, in order, and counts how often it was read.
struct Tape {
    events: Vec<Result<Vec<u8>, Error>>,
    reads: usize,
}

impl Tape {
    fn new(events: Vec<Result<Vec<u8>, Error>>) -> Tape {
        Tape { events, reads: 0 }
    }

    fn read(&mut self) -> Result<Vec<u8>, Error> {
        let event = self.events.get(self.reads).cloned().unwrap_or(Err(Error::Io));
        self.reads += 1;
        event
    }
}

/// A blocking open: feeds the open with frames of the link until it is over.
fn open(reference: &str, link: Result<Tape, Error>) -> Result<EthernetResource<Tape>, Error> {
    let mut state = EthernetScheme::new(OWN).open(reference, 0, link);
    loop {
        let event = match &mut state {
            OpenState::Matched(_) | OpenState::Failed(_) => break,
            OpenState::AwaitingFrame { network, .. } => network.read(),
        };
        state = match &event {
            Ok(raw) => state.receive(Ok(raw.as_slice())),
            Err(e) => state.receive(Err(*e)),
        };
    }
    match state {
        OpenState::Matched(resource) => Ok(resource),
        OpenState::Failed(e) => Err(e),
        OpenState::AwaitingFrame { .. } => unreachable!(),
    }
}

fn error_of(opened: Result<EthernetResource<Tape>, Error>) -> Error {
    match opened {
        Ok(_) => panic!("the open made a resource"),
        Err(e) => e,
    }
}

fn resource_of(opened: Result<EthernetResource<Tape>, Error>) -> EthernetResource<Tape> {
    match opened {
        Ok(resource) => resource,
        Err(e) => panic!("{:?}", e),
    }
}

fn wire(dst: MacAddr, src: MacAddr, ethertype: u16, payload: &[u8]) -> Vec<u8> {
    EthernetII { header: EthernetIIHeader { dst, src, ethertype }, data: payload.to_vec() }
        .to_bytes()
}

#[test]
fn the_scheme_is_called_ethernet() {
    assert_eq!(EthernetScheme::new(OWN).scheme(), "ethernet");
    assert_eq!(EthernetScheme::new(OWN).own_addr, OWN);
}

#[test]
fn a_directed_open_is_done_at_once_and_reads_no_frame() {
    let link = Tape::new(vec![Ok(wire(OWN, SENDER, IPV4, b"untouched"))]);
    let resource = resource_of(open("52:54:00:12:34:56/800", Ok(link)));
    assert_eq!(resource.peer_addr, SENDER);
    assert_eq!(resource.own_addr, OWN);
    assert_eq!(resource.ethertype, IPV4);
    assert_eq!(resource.data, None);
    assert_eq!(resource.network.reads, 0);
}

#[test]
fn a_directed_open_starts_matched() {
    let state = EthernetScheme::new(OWN).open("ff:ff:ff:ff:ff:ff/86dd", 7, Ok(()));
    match state {
        OpenState::Matched(resource) => {
            assert_eq!(resource.peer_addr, MacAddr::broadcast());
            assert_eq!(resource.ethertype, 0x86DD);
        },
        _ => panic!("not matched"),
    }
}

#[test]
fn a_listening_open_starts_awaiting_a_frame() {
    let state = EthernetScheme::new(OWN).open("/0806", 0, Ok(5u8));
    match state {
        OpenState::AwaitingFrame { network, ethertype, own_addr } => {
            assert_eq!(network, 5);
            assert_eq!(ethertype, ARP);
            assert_eq!(own_addr, OWN);
        },
        _ => panic!("not awaiting a frame"),
    }
}

#[test]
fn a_listening_open_takes_the_sender_of_the_first_frame_that_qualifies() {
    let link = Tape::new(vec![
        Ok(wire(OWN, OTHER, ARP, b"wrong type")),
        Ok(wire(OTHER, OTHER, IPV4, b"wrong destination")),
        Ok(wire(OWN, SENDER, IPV4, b"first words")),
        Ok(wire(OWN, SENDER, IPV4, b"second words")),
    ]);
    let mut resource = resource_of(open("/800", Ok(link)));
    assert_eq!(resource.peer_addr, SENDER);
    assert_eq!(resource.ethertype, IPV4);
    assert_eq!(resource.own_addr, OWN);
    assert_eq!(resource.network.reads, 3);

    let mut buf = [0u8; 32];
    assert_eq!(resource.read(&mut buf), Some(11));
    assert_eq!(&buf[..11], b"first words");
    assert_eq!(resource.network.reads, 3);
    assert_eq!(resource.read(&mut buf), None);
}

#[test]
fn a_listening_open_takes_a_frame_to_every_station() {
    let link = Tape::new(vec![Ok(wire(MacAddr::broadcast(), SENDER, ARP, b"who has"))]);
    let resource = resource_of(open("/806", Ok(link)));
    assert_eq!(resource.peer_addr, SENDER);
    assert_eq!(resource.data, Some(b"who has".to_vec()));
}

#[test]
fn a_listening_open_skips_bytes_too_few_for_a_header() {
    let link = Tape::new(vec![
        Ok(Vec::new()),
        Ok(vec![0u8; 13]),
        Ok(wire(OWN, SENDER, IPV4, b"")),
    ]);
    let resource = resource_of(open("/800", Ok(link)));
    assert_eq!(resource.peer_addr, SENDER);
    assert_eq!(resource.data, Some(Vec::new()));
    assert_eq!(resource.network.reads, 3);
}

#[test]
fn a_frame_without_payload_that_opened_is_read_without_the_link() {
    let link = Tape::new(vec![Ok(wire(OWN, SENDER, IPV4, b""))]);
    let mut resource = resource_of(open("/800", Ok(link)));
    let mut buf = [1u8; 4];
    assert_eq!(resource.read(&mut buf), Some(0));
    assert_eq!(buf, [1u8; 4]);
    assert_eq!(resource.network.reads, 1);
}

#[test]
fn a_failure_of_the_link_ends_a_listening_open_with_that_error() {
    for error in [Error::Io, Error::NotFound, Error::Format] {
        let link = Tape::new(vec![
            Ok(wire(OWN, SENDER, ARP, b"wrong type")),
            Err(error),
            Ok(wire(OWN, SENDER, IPV4, b"too late")),
        ]);
        assert_eq!(error_of(open("/800", Ok(link))), error);
    }
}

#[test]
fn a_failure_at_the_first_read_ends_a_listening_open() {
    assert_eq!(error_of(open("/800", Ok(Tape::new(vec![Err(Error::Io)])))), Error::Io);
}

#[test]
fn without_a_link_nothing_is_found() {
    for error in [Error::Io, Error::NotFound, Error::Format] {
        assert_eq!(error_of(open("52:54:00:12:34:56/800", Err(error))), Error::NotFound);
        assert_eq!(error_of(open("/800", Err(error))), Error::NotFound);
        assert_eq!(error_of(open("oops", Err(error))), Error::NotFound);
        assert_eq!(error_of(open("oops/oops", Err(error))), Error::NotFound);
    }
}

#[test]
fn without_a_type_nothing_is_found() {
    for reference in ["", "52:54:00:12:34:56", "800", "no slash at all"] {
        assert_eq!(
            error_of(open(reference, Ok(Tape::new(Vec::new())))),
            Error::NotFound,
            "{:?}",
            reference
        );
    }
}

#[test]
fn a_type_that_is_no_16_bit_hex_number_is_a_format_error() {
    for reference in [
        "/",
        "52:54:00:12:34:56/",
        "/10000",
        "/0x800",
        "/8 00",
        "52:54:00:12:34:56/ipv4",
        "//800",
        "52:54:00:12:34:56//800",
    ] {
        assert_eq!(
            error_of(open(reference, Ok(Tape::new(Vec::new())))),
            Error::Format,
            "{:?}",
            reference
        );
    }
}

#[test]
fn a_peer_that_is_no_address_is_a_format_error() {
    for reference in [
        "52:54:00:12:34/800",
        "52:54:00:12:34:56:78/800",
        "525400123456/800",
        "52-54-00-12-34-56/800",
        "peer/800",
        " /800",
        "52:54:00:12:34:5g/800",
    ] {
        assert_eq!(
            error_of(open(reference, Ok(Tape::new(Vec::new())))),
            Error::Format,
            "{:?}",
            reference
        );
    }
}

#[test]
fn what_follows_a_second_slash_is_not_looked_at() {
    let resource = resource_of(open("52:54:00:12:34:56/800/and/more", Ok(Tape::new(Vec::new()))));
    assert_eq!(resource.peer_addr, SENDER);
    assert_eq!(resource.ethertype, IPV4);
    let listening = EthernetScheme::new(OWN).open("/806/\u{e9}", 0, Ok(()));
    assert!(matches!(listening, OpenState::AwaitingFrame { ethertype: ARP, .. }));
}

#[test]
fn the_type_is_read_in_either_case_and_with_leading_zeros() {
    for reference in ["52:54:00:12:34:56/86dd", "52:54:00:12:34:56/86DD", "52:54:00:12:34:56/00086Dd"] {
        let resource = resource_of(open(reference, Ok(Tape::new(Vec::new()))));
        assert_eq!(resource.ethertype, 0x86DD);
    }
}

#[test]
fn the_path_of_a_resource_opens_the_same_conversation() {
    let first = resource_of(open("52:54:00:12:34:56/806", Ok(Tape::new(Vec::new()))));
    let path = first.path_string();
    assert_eq!(path, "ethernet:52:54:00:12:34:56/806");
    let reference = &path["ethernet:".len()..];
    let second = resource_of(open(reference, Ok(Tape::new(Vec::new()))));
    assert_eq!(second.peer_addr, first.peer_addr);
    assert_eq!(second.ethertype, first.ethertype);
}

#[test]
fn an_open_that_is_over_stays_as_it_is() {
    let failed: OpenState<()> = OpenState::Failed(Error::NotFound);
    let failed = failed.receive(Ok(&wire(OWN, SENDER, IPV4, b"late")));
    assert!(matches!(failed, OpenState::Failed(Error::NotFound)));
    let failed = failed.receive(Err(Error::Io));
    assert!(matches!(failed, OpenState::Failed(Error::NotFound)));

    let matched = EthernetScheme::new(OWN).open("52:54:00:12:34:56/800", 0, Ok(()));
    let matched = matched.receive(Ok(&wire(OWN, OTHER, IPV4, b"late")));
    let matched = matched.receive(Err(Error::Io));
    match matched {
        OpenState::Matched(resource) => {
            assert_eq!(resource.peer_addr, SENDER);
            assert_eq!(resource.data, None);
        },
        _ => panic!("not matched"),
    }
}
