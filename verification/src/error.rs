//! The agent's failure taxonomy.

use vstd::prelude::*;

verus! {

/// What went wrong. `NotFound` is the only error surfaced synchronously
/// from a submission; the others are recorded on the failing task.
#[derive(Clone, Copy, PartialEq, Eq, Structural, Debug)]
pub enum ErrorKind {
    /// A referenced software, config-file or task id does not exist.
    NotFound,
    /// A deployment's declared source path does not exist.
    SourceMissing,
    /// The underlying process exited non-zero or failed to spawn.
    ExecutionFailure,
    /// A filesystem operation failed.
    IOFailure,
}

/// A failure with its human-readable message (for an execution failure,
/// the captured standard-error text).
#[derive(Debug)]
pub struct Failure {
    pub kind: ErrorKind,
    pub message: String,
}

impl Failure {
    pub fn new(kind: ErrorKind, message: String) -> (r: Failure)
        ensures
            r.kind == kind,
            r.message == message,
    {
        Failure { kind, message }
    }
}

} // verus!
