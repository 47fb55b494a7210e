use vstd::prelude::*;

use crate::error::{blocking_err, Error, OperationError};
use crate::file::OpenOptions;

verus! {

/// One blocking unit of work, described as data. A façade operation builds
/// one of these with owned copies of its path arguments, so the work outlives
/// the caller's borrows; the surrounding runtime performs it on a worker
/// thread and reports back an `OffloadEvent`.
#[derive(Clone, Debug, PartialEq, Eq)]
pub enum FsOperation {
    /// Create a new, empty directory at the path.
    CreateDir(String),
    /// Create a directory and every missing ancestor component of the path.
    CreateDirAll(String),
    /// Remove an existing, empty directory at the path.
    RemoveDir(String),
    /// Remove a file at the path.
    RemoveFile(String),
    /// Rename the first path to the second, replacing the destination if it
    /// exists.
    Rename(String, String),
    /// Open the file at the path with the snapshot of open flags.
    Open(String, OpenOptions),
}

/// What the scheduling layer reports back for one submitted unit of work.
/// `T` is the success value of the work itself; the library never inspects
/// it, only routes it.
#[derive(Debug)]
pub enum OffloadEvent<T> {
    /// No runtime offload facility was reachable from the calling context,
    /// so the work was never scheduled.
    RuntimeAbsent,
    /// The worker pool failed to run the work (pool shut down, fault inside
    /// the work, cancellation); carries the failure's description.
    Faulted(String),
    /// The work ran to completion on a worker thread, with the operation's
    /// own result.
    Completed(Result<T, OperationError>),
}

/// The result owed to the caller for each possible event: an absent runtime
/// becomes the distinguished offload-unavailable error, a pool failure is
/// coerced into the common error surface with its description kept, and a
/// completed operation's own outcome is passed through unchanged.
pub open spec fn resolution<T>(event: OffloadEvent<T>) -> Result<T, Error> {
    match event {
        OffloadEvent::RuntimeAbsent => Err(Error::OffloadUnavailable),
        OffloadEvent::Faulted(reason) => Err(Error::OffloadFailed(reason)),
        OffloadEvent::Completed(outcome) => match outcome {
            Ok(value) => Ok(value),
            Err(e) => Err(Error::Operation(e)),
        },
    }
}

/// Resolve one submitted unit of work: turn what the scheduling layer
/// reported back into the single result the caller observes.
pub fn resolve<T>(event: OffloadEvent<T>) -> (r: Result<T, Error>)
    ensures
        r == resolution(event),
{
    match event {
        OffloadEvent::RuntimeAbsent => Err(blocking_err()),
        OffloadEvent::Faulted(reason) => Err(Error::OffloadFailed(reason)),
        OffloadEvent::Completed(outcome) => match outcome {
            Ok(value) => Ok(value),
            Err(e) => Err(Error::Operation(e)),
        },
    }
}

/// Law: whatever unit of work was submitted, the caller sees the
/// offload-unavailable error exactly when no runtime offload facility was
/// reachable; and that error is a variant of its own, distinguishable by
/// inspection from every operation error and every pool failure.
pub proof fn lemma_offload_unavailable_distinguishable<T>(event: OffloadEvent<T>, e: Error)
    ensures
        resolution(event) == Err::<T, Error>(Error::OffloadUnavailable) <==> event is RuntimeAbsent,
        e is OffloadUnavailable ==> !(e is Operation) && !(e is OffloadFailed),
        e is OffloadUnavailable ==> e.spec_operation_kind() is None,
{
}

} // verus!
