use vstd::prelude::*;

verus! {

/// The classes of operating-system failure that a blocking filesystem call
/// can report. The class travels with the error so that callers can react to
/// it without parsing the message.
#[derive(Clone, Copy, Debug, PartialEq, Eq, Structural)]
pub enum ErrorKind {
    NotFound,
    PermissionDenied,
    AlreadyExists,
    DirectoryNotEmpty,
    InvalidInput,
    Interrupted,
    Other,
}

/// A failure of the underlying filesystem call itself: the OS-provided
/// classification together with the OS-provided message, kept intact.
#[derive(Clone, Debug, PartialEq, Eq)]
pub struct OperationError {
    pub kind: ErrorKind,
    pub message: String,
}

/// The single error surface of this library. Every asynchronous operation
/// resolves with exactly one of these three failure modes, so callers handle
/// one type and can still tell misuse apart from genuine filesystem failure
/// by inspecting the variant.
#[derive(Clone, Debug, PartialEq, Eq)]
pub enum Error {
    /// The blocking filesystem call ran and failed; its error is passed
    /// through unchanged.
    Operation(OperationError),
    /// No runtime offload facility was reachable from the calling context:
    /// a usage error, not a filesystem error.
    OffloadUnavailable,
    /// The worker pool failed to run the submitted work; carries the
    /// description of the underlying failure.
    OffloadFailed(String),
}

impl Error {
    /// The OS classification, for errors of the filesystem call itself.
    pub open spec fn spec_operation_kind(self) -> Option<ErrorKind> {
        match self {
            Error::Operation(e) => Some(e.kind),
            _ => None,
        }
    }

    /// True exactly when the filesystem call itself failed.
    pub fn is_operation(&self) -> (r: bool)
        ensures
            r == (self is Operation),
    {
        matches!(self, Error::Operation(_))
    }

    /// True exactly when the call was made with no runtime offload facility
    /// reachable.
    pub fn is_offload_unavailable(&self) -> (r: bool)
        ensures
            r == (self is OffloadUnavailable),
    {
        matches!(self, Error::OffloadUnavailable)
    }

    /// True exactly when the worker pool failed to run the submitted work.
    pub fn is_offload_failed(&self) -> (r: bool)
        ensures
            r == (self is OffloadFailed),
    {
        matches!(self, Error::OffloadFailed(_))
    }

    /// The OS classification of an operation failure, and `None` for the two
    /// offload failure modes.
    pub fn kind(&self) -> (k: Option<ErrorKind>)
        ensures
            k == self.spec_operation_kind(),
    {
        match self {
            Error::Operation(e) => Some(e.kind),
            _ => None,
        }
    }
}

/// The distinguished error produced when a façade operation is driven from a
/// context with no reachable runtime offload facility: blocking work must be
/// scheduled from within the runtime that owns the worker pool.
pub fn blocking_err() -> (e: Error)
    ensures
        e == Error::OffloadUnavailable,
{
    Error::OffloadUnavailable
}

} // verus!
