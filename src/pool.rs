use vstd::prelude::*;
use crate::error::RlinkError;
use crate::packet::{Packet, Raw};

verus! {

/// What a pool worker does after one read from its device.
#[derive(Debug)]
pub enum WorkerStep {
    /// Hand the packet to the pool.
    Forward(Packet<Raw>),
    /// Read again.
    Retry,
}

/// The decision of a pool worker on the outcome of one read: `None` for a
/// transport failure, `Some(None)` for no packet yet, `Some(Some(p))` for a
/// packet. Only a packet is forwarded; failures are passed over.
pub fn worker_step(read: Option<Option<Packet<Raw>>>) -> (r: WorkerStep)
    ensures
        read matches Some(Some(p)) ==> r == WorkerStep::Forward(p),
        !(read is Some && read->0 is Some) ==> r is Retry,
{
    match read {
        Some(Some(p)) => WorkerStep::Forward(p),
        _ => WorkerStep::Retry,
    }
}

/// The result of `select` from what the fan-in queue gave: `None` once no
/// worker is left to send.
pub fn select_outcome(received: Option<Packet<Raw>>) -> (r: Result<Packet<Raw>, RlinkError>)
    ensures
        received matches Some(p) ==> r == Ok::<Packet<Raw>, RlinkError>(p),
        received is None ==> r matches Err(RlinkError::BrokenDevicePool),
{
    match received {
        Some(p) => Ok(p),
        None => Err(RlinkError::BrokenDevicePool),
    }
}

} // verus!
