//! The link layer of a system in which every device is a resource behind a path.
//!
//! [`scheme`] opens conversations on an Ethernet link, [`resource`] is such a
//! conversation, [`frame`] and [`mac`] are the frames and addresses on the wire. Nothing
//! here performs I/O: the caller reads and writes the link and hands over what the link
//! returned. [`byteorder`] and [`rtc`] serve the drivers beside the link: the order of
//! bytes on the network, and the time that the clock of the machine shows.

pub mod byteorder;
pub mod error;
pub mod frame;
pub mod mac;
pub mod resource;
pub mod rtc;
pub mod scheme;
pub mod text;
