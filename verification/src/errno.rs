//! Error numbers.

use crate::abi::einval;
use vstd::prelude::*;

verus! {

/// The error number of a failed operation.
///
/// `EINVAL` is the only one that this library raises by itself; every other number
/// comes from the kernel and is carried as it is.
#[derive(Clone, Copy, Debug, PartialEq, Eq, Structural, Hash)]
pub enum Errno {
    /// Invalid argument.
    EINVAL,
    /// Any other error number.
    Other(i32),
}

/// What a system call came back with: its return value, and the value of `errno`
/// right after it.
#[derive(Clone, Copy, Debug, PartialEq, Eq, Structural, Hash)]
pub struct SyscallReturn {
    pub value: i32,
    pub errno: i32,
}

/// The number of `EINVAL`, the same on every Linux architecture.
pub open spec fn einval_number() -> i32 {
    22
}

/// The error that stands for the number `raw`.
pub open spec fn errno_of(raw: i32) -> Errno {
    if raw == einval_number() {
        Errno::EINVAL
    } else {
        Errno::Other(raw)
    }
}

/// The number that stands for the error `e`.
pub open spec fn errno_number(e: Errno) -> i32 {
    match e {
        Errno::EINVAL => einval_number(),
        Errno::Other(raw) => raw,
    }
}

/// A system call fails exactly when it returns -1, and the error is then in `errno`.
pub open spec fn syscall_outcome(ret: SyscallReturn) -> Result<i32, Errno> {
    if ret.value == -1 {
        Err(errno_of(ret.errno))
    } else {
        Ok(ret.value)
    }
}

/// The same for a call whose return value carries nothing but success.
pub open spec fn syscall_done(ret: SyscallReturn) -> Result<(), Errno> {
    if ret.value == -1 {
        Err(errno_of(ret.errno))
    } else {
        Ok(())
    }
}

/// A result with its value taken by its view.
pub open spec fn viewed<T: View>(r: Result<T, Errno>) -> Result<T::V, Errno> {
    match r {
        Ok(value) => Ok(value@),
        Err(e) => Err(e),
    }
}

impl Errno {
    /// The error that stands for an error number.
    pub fn from_raw(raw: i32) -> (r: Errno)
        ensures
            r == errno_of(raw),
    {
        if raw == einval() {
            Errno::EINVAL
        } else {
            Errno::Other(raw)
        }
    }

    /// The number of this error.
    pub fn as_raw(self) -> (r: i32)
        ensures
            r == errno_number(self),
    {
        match self {
            Errno::EINVAL => einval(),
            Errno::Other(raw) => raw,
        }
    }

    /// The return value of a system call, or the error it reported.
    pub fn result(ret: SyscallReturn) -> (r: Result<i32, Errno>)
        ensures
            r == syscall_outcome(ret),
    {
        if ret.value == -1 {
            Err(Errno::from_raw(ret.errno))
        } else {
            Ok(ret.value)
        }
    }
}

/// No error number is lost: taking the number of an error gives back the number it was
/// made from, so different numbers are different errors.
pub proof fn lemma_errno_number_is_kept(raw: i32)
    ensures
        errno_number(errno_of(raw)) == raw,
{
}

} // verus!
