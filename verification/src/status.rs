//! Child exit status and the tool's error conditions.

use vstd::prelude::*;
use vstd::string::*;

verus! {

/// How a spawned child process terminated: either it exited with a
/// status code, or it was terminated without one (killed by a signal).
#[derive(Clone, Copy, Debug, PartialEq, Eq, Structural)]
pub enum ChildStatus {
    Exited(i32),
    Terminated,
}

/// A child run counts as a success exactly when it exited with code zero.
pub open spec fn is_success(status: ChildStatus) -> bool {
    status == ChildStatus::Exited(0)
}

impl ChildStatus {
    /// Whether this status counts as a success.
    pub fn success(&self) -> (r: bool)
        ensures
            r == is_success(*self),
    {
        match self {
            ChildStatus::Exited(code) => *code == 0,
            ChildStatus::Terminated => false,
        }
    }
}

/// The error conditions the tool can report. All of them are fatal:
/// the tool is single-shot, so an error becomes a message and a
/// non-zero exit code.
#[derive(Debug)]
pub enum MessyError {
    /// The environment root does not exist where an operation other
    /// than initialization requires it.
    RootNotFound,
    /// A spawned child terminated with a non-success status; the raw
    /// status is kept for diagnostic display.
    ChildProcessFailure { status: ChildStatus },
    /// A directory creation or file write failed; the message carries
    /// the underlying description.
    FilesystemError { message: String },
    /// The target executable could not be started at all.
    SpawnFailure { message: String },
}

impl MessyError {
    /// A short description of the error for the operator.
    pub fn describe(&self) -> (r: String)
        ensures
            (self is RootNotFound) ==> r@ == ".messyenv/ not found"@,
            (self is ChildProcessFailure) ==> r@ == "child process error"@,
            (self matches MessyError::FilesystemError { message } ==> r@ == message@),
            (self matches MessyError::SpawnFailure { message } ==> r@ == message@),
    {
        match self {
            MessyError::RootNotFound => String::from_str(".messyenv/ not found"),
            MessyError::ChildProcessFailure { status: _ } => String::from_str("child process error"),
            MessyError::FilesystemError { message } => message.clone(),
            MessyError::SpawnFailure { message } => message.clone(),
        }
    }
}

} // verus!
