//! The error taxonomy of the bootstrap core.

use vstd::prelude::*;

verus! {

/// Every way the one-shot bootstrap can fail.
///
/// All of these are terminal for a single run except `SyncTimeoutError`,
/// which leaves the job re-awaitable, and `InvalidStateError`, which reports
/// a state-machine precondition failure (a transition attempted out of
/// order) rather than a driver rejection.
#[derive(Clone, Copy, Debug, PartialEq, Eq, Structural)]
pub enum CoreError {
    /// No enumerated physical device exposes a queue family with the
    /// required capabilities (also raised on an empty enumeration).
    NoSuitableDeviceError,
    /// A chosen device exposes no queue family with the required
    /// capabilities.
    NoQueueFamilyError,
    /// Logical-device creation was rejected.
    DeviceCreationError,
    /// Buffer, pipeline or binding-set creation was rejected.
    ResourceAllocationError,
    /// The queue rejected the submitted command sequence.
    SubmissionError,
    /// The completion signal did not reach `Signaled` within the timeout.
    SyncTimeoutError,
    /// A job transition was attempted from the wrong state.
    InvalidStateError,
}

} // verus!
