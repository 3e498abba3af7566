//! The error vocabulary of the kernel task calls.

use vstd::prelude::*;

use crate::syscall::SyscallError;

verus! {

/// What a kernel task call can report.
#[derive(Clone, Copy, Debug, PartialEq, Eq, Structural)]
pub enum Error {
    /// There was no active task on the current hardware thread.
    NoTask,
}

impl Error {
    /// The result code this error stands for.
    pub open spec fn spec_code(self) -> u64 {
        match self {
            Error::NoTask => 1,
        }
    }

    /// The result code this error stands for.
    pub fn code(self) -> (r: u64)
        ensures
            r == self.spec_code(),
    {
        match self {
            Error::NoTask => 1,
        }
    }
}

impl SyscallError for Error {
    open spec fn spec_from_code(code: u64) -> Option<Error> {
        if code == 1 {
            Some(Error::NoTask)
        } else {
            None
        }
    }

    fn try_from_code(code: u64) -> (r: Option<Error>) {
        match code {
            1 => Some(Error::NoTask),
            _ => None,
        }
    }
}

} // verus!
