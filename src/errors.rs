//! Errors of a lifecycle operation.
use crate::process;
use vstd::prelude::*;

verus! {

/// Why a lifecycle operation failed.
#[derive(Debug)]
pub enum Error {
    /// A supplied path cannot be written as text.
    PathError,
    /// The tool could not be launched, or a pipe failed.
    IOError(String),
    /// The supervised run failed.
    ProcessError(process::Error),
}

impl From<process::Error> for Error {
    fn from(e: process::Error) -> (r: Error)
        ensures
            r == Error::ProcessError(e),
    {
        Error::ProcessError(e)
    }
}

impl vstd::std_specs::convert::FromSpecImpl<process::Error> for Error {
    open spec fn obeys_from_spec() -> bool {
        true
    }

    open spec fn from_spec(e: process::Error) -> Error {
        Error::ProcessError(e)
    }
}

} // verus!
