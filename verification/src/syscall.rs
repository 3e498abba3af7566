//! The numeric vocabulary of the kernel call interface: vector numbers and
//! the decoding of a call's raw result.
//!
//! Performing a call is a machine trap and belongs to the program around
//! this library; what is verified here is the part that computes, namely
//! which number names each call and how a returned `(code, value)` pair is
//! read back into a `Result`.

pub mod klog;
pub mod task;

use vstd::prelude::*;

verus! {

/// The vector naming each kernel call: the number placed in the vector
/// register for the trap.
#[derive(Clone, Copy, Debug, PartialEq, Eq, Hash, Structural)]
pub enum Vector {
    KlogTrace,
    KlogDebug,
    KlogInfo,
    KlogWarn,
    KlogError,
    TaskKill,
    TaskDefer,
}

impl Vector {
    /// The number of this vector.
    pub open spec fn spec_number(self) -> u64 {
        match self {
            Vector::KlogTrace => 0x10_0000,
            Vector::KlogDebug => 0x10_0001,
            Vector::KlogInfo => 0x10_0002,
            Vector::KlogWarn => 0x10_0003,
            Vector::KlogError => 0x10_0004,
            Vector::TaskKill => 0x20_0000,
            Vector::TaskDefer => 0x20_0001,
        }
    }

    /// The number of this vector.
    pub fn number(self) -> (r: u64)
        ensures
            r == self.spec_number(),
    {
        match self {
            Vector::KlogTrace => 0x10_0000,
            Vector::KlogDebug => 0x10_0001,
            Vector::KlogInfo => 0x10_0002,
            Vector::KlogWarn => 0x10_0003,
            Vector::KlogError => 0x10_0004,
            Vector::TaskKill => 0x20_0000,
            Vector::TaskDefer => 0x20_0001,
        }
    }
}

/// An error vocabulary of one family of kernel calls: each error stands for
/// a nonzero result code.
pub trait SyscallError: Sized {
    /// The error that `code` stands for, if any.
    spec fn spec_from_code(code: u64) -> Option<Self>;

    /// Decodes an error code.
    fn try_from_code(code: u64) -> (r: Option<Self>)
        ensures
            r == Self::spec_from_code(code),
    ;
}

/// Converts a `code` and `value` pair from a kernel system call into a
/// `Result`: code zero carries the value, a known nonzero code carries its
/// error. A code the vocabulary does not know would be a broken kernel
/// contract, which the caller rules out.
pub fn into_result<TError: SyscallError>(code: u64, value: u64) -> (r: Result<u64, TError>)
    requires
        code == 0 || TError::spec_from_code(code) is Some,
    ensures
        code == 0 ==> r == Ok::<u64, TError>(value),
        code != 0 ==> (r matches Err(e) && TError::spec_from_code(code) == Some(e)),
{
    if code == 0 {
        Ok(value)
    } else {
        match TError::try_from_code(code) {
            Some(error) => Err(error),
            None => vstd::pervasive::unreached(),
        }
    }
}

} // verus!
