//! Failure taxonomy shared by the toolkit's components.

use vstd::prelude::*;

verus! {

/// Every typed failure the toolkit can report.
///
/// - `NotFound`: the port allocator exhausted its window.
/// - `StructureMismatch`: a document patch met a non-mapping node where a
///   mapping was required.
/// - `ExecutionFailure`: a child process exited non-zero and the caller
///   opted not to ignore failures.
/// - `IoFailure`: a file read or write on a configuration artifact failed.
/// - `EnvironmentFailure`: a required environment or home-directory lookup
///   was missing.
#[derive(Clone, Copy, Debug, PartialEq, Eq, Structural)]
pub enum UtilError {
    NotFound,
    StructureMismatch,
    ExecutionFailure,
    IoFailure,
    EnvironmentFailure,
}

impl UtilError {
    /// A short description, for callers that report failures as text.
    pub fn describe(&self) -> (r: &'static str)
        ensures
            self is NotFound ==> r@ == "resource not found"@,
            self is StructureMismatch ==> r@ == "structure mismatch"@,
            self is ExecutionFailure ==> r@ == "execution failure"@,
            self is IoFailure ==> r@ == "i/o failure"@,
            self is EnvironmentFailure ==> r@ == "environment lookup failure"@,
    {
        match self {
            UtilError::NotFound => "resource not found",
            UtilError::StructureMismatch => "structure mismatch",
            UtilError::ExecutionFailure => "execution failure",
            UtilError::IoFailure => "i/o failure",
            UtilError::EnvironmentFailure => "environment lookup failure",
        }
    }
}

} // verus!
