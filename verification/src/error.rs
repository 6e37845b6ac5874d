//! The error taxonomy of the protocol core.

use vstd::prelude::*;

verus! {

/// Every fallible operation of this crate reports one of these kinds.
///
/// `NotReady` is transient: the caller is expected to retry, either by
/// driving progress (queue pressure) or by recomputing the grain window
/// (data availability). `OutOfRangeTooEarly` and `OutOfRangeTooLate`
/// classify data availability and are not hard failures. `Interrupted`
/// reports cooperative cancellation; it is terminal for the current call,
/// never for the session. The remaining kinds are caller errors or
/// collaborator reports, fatal to the call that raised them.
#[derive(Clone, Copy, PartialEq, Eq, Structural, Debug)]
pub enum Error {
    /// Nothing completed within the call's budget; retry after driving progress.
    NotReady,
    /// The requested grain has not been produced yet; retry the same index later.
    OutOfRangeTooEarly,
    /// The requested grain was already evicted by the producer; resynchronise.
    OutOfRangeTooLate,
    /// The call observed an external cancellation request.
    Interrupted,
    /// The session configuration is unusable (for example, empty or released regions).
    InvalidConfig,
    /// A slice range with its start past its end.
    InvalidRange,
    /// The provider name is not one of the recognised transports.
    UnknownProvider,
    /// The descriptor text is not a well-formed encoding.
    MalformedDescriptor,
    /// The target is already attached to this initiator.
    DuplicateTarget,
    /// The target is not attached to this initiator.
    UnknownTarget,
    /// Setup was attempted on a session that is past its setup state.
    SetupFailed,
    /// The flow buffer no longer exposes stable memory.
    BufferUnavailable,
    /// The operation is not valid in the session's current lifecycle state.
    InvalidState,
}

} // verus!
