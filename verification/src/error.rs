//! The ways in which an operation of the engine can fail.

use vstd::prelude::*;

verus! {

/// Why an operation was refused. A refused operation changes nothing.
#[derive(Clone, Copy, Debug, PartialEq, Eq, Structural)]
pub enum Error {
    /// A task was offered for registration with an interval of zero.
    InvalidInterval,
    /// The creator's authorization for a registration was missing or invalid.
    Unauthorized,
    /// No task is registered under the identifier.
    TaskNotFound,
    /// The target was invoked and failed.
    TargetFailed,
}

impl Error {
    /// The numeric code of the error, where it has one: `InvalidInterval`
    /// is reported as code 1, and the others abort the operation without a
    /// code of their own.
    pub open spec fn code_of(self) -> Option<u32> {
        match self {
            Error::InvalidInterval => Some(1u32),
            _ => None,
        }
    }

    /// The numeric code of the error, where it has one.
    pub fn code(&self) -> (result: Option<u32>)
        ensures
            result == self.code_of(),
    {
        match self {
            Error::InvalidInterval => Some(1),
            _ => None,
        }
    }
}

} // verus!
