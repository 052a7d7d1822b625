use vstd::prelude::*;

verus! {

/// Failure taxonomy of the capture layer.
///
/// Every operation surfaces its failure to the immediate caller; OS
/// failures are carried verbatim and never reinterpreted.
#[derive(Clone, Copy, Debug, PartialEq, Eq, Structural)]
pub enum CaptureError {
    /// Every candidate in the device-node pool failed to open.
    NoDeviceAvailable,
    /// Locally detected bad input; no OS call was issued for it.
    InvalidArgument,
    /// An OS control call or read failed; the raw error code is kept.
    OsError(i32),
    /// A non-suspending read attempt found nothing available. This is a
    /// distinguished outcome, not a fault; blocking and suspending reads
    /// never surface it.
    WouldBlock,
}

/// Why one read attempt yielded no bytes.
#[derive(Clone, Copy, Debug, PartialEq, Eq, Structural)]
pub enum ReadFailure {
    /// Nothing was available to a non-blocking attempt.
    WouldBlock,
    /// The OS reported a failure with this code.
    Os(i32),
}

} // verus!
