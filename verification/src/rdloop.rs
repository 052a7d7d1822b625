use vstd::prelude::*;
use crate::errors::{CaptureError, ReadFailure};

verus! {

/// What a suspending read does after one attempt on a ready handle.
#[derive(Clone, Copy, Debug, PartialEq, Eq, Structural)]
pub enum SuspendStep {
    /// Bytes arrived: hand this count to the caller.
    Deliver(usize),
    /// The attempt raced with readiness consumption: clear the
    /// readiness state and suspend again.
    WaitAgain,
    /// A real failure: surface this code verbatim.
    Fail(i32),
}

/// The decision a suspending read takes after each attempt. A
/// would-block outcome means the readiness that caused the wake-up was
/// consumed elsewhere; the read waits again, and never surfaces a
/// spurious would-block to its caller. Every other outcome is final.
pub fn suspending_read_step(outcome: Result<usize, ReadFailure>) -> (r: SuspendStep)
    ensures
        match outcome {
            Ok(n) => r == SuspendStep::Deliver(n),
            Err(ReadFailure::WouldBlock) => r == SuspendStep::WaitAgain,
            Err(ReadFailure::Os(e)) => r == SuspendStep::Fail(e),
        },
        r is WaitAgain <==> outcome == Err::<usize, ReadFailure>(ReadFailure::WouldBlock),
{
    match outcome {
        Ok(n) => SuspendStep::Deliver(n),
        Err(ReadFailure::WouldBlock) => SuspendStep::WaitAgain,
        Err(ReadFailure::Os(e)) => SuspendStep::Fail(e),
    }
}

/// The outcome a non-suspending attempt surfaces: exactly one read
/// attempt, with nothing-available reported as the distinguished
/// would-block outcome rather than as an OS failure, so the caller can
/// poll or multiplex externally.
pub fn attempt_read_result(outcome: Result<usize, ReadFailure>)
    -> (r: Result<usize, CaptureError>)
    ensures
        match outcome {
            Ok(n) => r == Ok::<usize, CaptureError>(n),
            Err(ReadFailure::WouldBlock) => r == Err::<usize, CaptureError>(
                CaptureError::WouldBlock,
            ),
            Err(ReadFailure::Os(e)) => r == Err::<usize, CaptureError>(
                CaptureError::OsError(e),
            ),
        },
{
    match outcome {
        Ok(n) => Ok(n),
        Err(ReadFailure::WouldBlock) => Err(CaptureError::WouldBlock),
        Err(ReadFailure::Os(e)) => Err(CaptureError::OsError(e)),
    }
}

} // verus!
