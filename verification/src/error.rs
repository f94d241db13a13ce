//! The error types that the library's operations answer with.
use vstd::prelude::*;

verus! {

/// An engine error; every failure of the lance seam is internal to a flow
/// and carries its message.
#[derive(Debug)]
pub enum Z8Error {
    Internal(String),
}

impl Z8Error {
    /// The message of the error.
    pub open spec fn message(self) -> Seq<char> {
        match self {
            Z8Error::Internal(m) => m@,
        }
    }
}

/// An error of the plugin runtime.
#[derive(Debug)]
pub enum RuntimeError {
    /// A module could not be loaded, written or removed.
    ModuleLoad(String),
    /// A module or plugin that was asked for is not there.
    ModuleNotFound(String),
    /// A manifest is missing, malformed or refused.
    Manifest(String),
}

} // verus!
