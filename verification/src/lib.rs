//! Wire format, fragmentation and connection logic of a small real-time
//! media transport: a fixed 17-byte packet header, its parser and
//! serializer, the datagrams built from it, and the decisions taken while
//! punching a hole through a NAT and while receiving packets.

pub mod buf;
pub mod error;
pub mod header;

pub use error::PacketError;
pub mod clock;
pub mod random;
pub mod udp;
pub mod capture;
