//! Ethernet frame handling: the EtherType codec, typed packets that are
//! validated as Ethernet II frames, the construction of outgoing frames and
//! the decisions of a pool of capturing devices.

pub mod addr;
pub mod checksum;
pub mod device;
pub mod dump;
pub mod error;
pub mod ethtype;
pub mod frame;
pub mod packet;
pub mod pool;

pub use addr::cvt;
pub use error::RlinkError;
pub use ethtype::EtherType;
pub use packet::{Eth, Packet, PacketHeader, Raw, Type};
