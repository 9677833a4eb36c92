use vstd::prelude::*;
use crate::packet::{Packet, Raw};

verus! {

/// Failures of frame construction, frame validation and the device pool.
#[derive(Debug)]
pub enum RlinkError {
    /// No interface of the requested name exists.
    InvalidDeviceName,
    /// The payload does not fit into one frame.
    PayloadTooLarge,
    /// The payload length differs from the length field of the EtherType.
    PayloadLengthMismatch,
    /// The buffer is shorter than a minimal frame; the packet is handed back.
    FrameTooSmall(Packet<Raw>),
    /// The trailer is not the checksum of the frame; the packet is handed back.
    ChecksumMismatch(Packet<Raw>),
    /// Every device of the pool has stopped reading packets.
    BrokenDevicePool,
}

} // verus!
