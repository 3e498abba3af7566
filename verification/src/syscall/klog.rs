//! The error vocabulary of the kernel journal calls.

use vstd::prelude::*;

use crate::syscall::SyscallError;

verus! {

/// What a kernel journal call can report.
#[derive(Clone, Copy, Debug, PartialEq, Eq, Structural)]
pub enum Error {
    /// The log string was not mapped into memory.
    NotMapped,
    /// The log string was invalid UTF-8.
    InvalidUtf8,
}

impl Error {
    /// The result code this error stands for.
    pub open spec fn spec_code(self) -> u64 {
        match self {
            Error::NotMapped => 1,
            Error::InvalidUtf8 => 2,
        }
    }

    /// The result code this error stands for.
    pub fn code(self) -> (r: u64)
        ensures
            r == self.spec_code(),
    {
        match self {
            Error::NotMapped => 1,
            Error::InvalidUtf8 => 2,
        }
    }
}

impl SyscallError for Error {
    open spec fn spec_from_code(code: u64) -> Option<Error> {
        if code == 1 {
            Some(Error::NotMapped)
        } else if code == 2 {
            Some(Error::InvalidUtf8)
        } else {
            None
        }
    }

    fn try_from_code(code: u64) -> (r: Option<Error>) {
        match code {
            1 => Some(Error::NotMapped),
            2 => Some(Error::InvalidUtf8),
            _ => None,
        }
    }
}

} // verus!
