//! Laws of errors, and of the qualification check.

use crate::errno::{Errno, SyscallReturn};
use crate::qualification::{validate_qualification_target_metadata, QualificationError};
use vstd::prelude::*;

verus! {

/// The number 22 and no other is read as `EINVAL`; every other number is carried as it is.
pub proof fn law_from_raw(raw: i32, e: Errno)
    requires
        call_ensures(Errno::from_raw, (raw,), e),
    ensures
        call_requires(Errno::from_raw, (raw,)),
        e == (if raw == 22 {
            Errno::EINVAL
        } else {
            Errno::Other(raw)
        }),
{
}

/// The number of `EINVAL` is 22; every other error gives the number it carries.
pub proof fn law_as_raw(e: Errno, raw: i32)
    requires
        call_ensures(Errno::as_raw, (e,), raw),
    ensures
        call_requires(Errno::as_raw, (e,)),
        raw == (match e {
            Errno::EINVAL => 22i32,
            Errno::Other(n) => n,
        }),
{
}

/// An error made from a number gives that number back.
pub proof fn law_number_round_trip(raw: i32, e: Errno, back: i32)
    requires
        call_ensures(Errno::from_raw, (raw,), e),
        call_ensures(Errno::as_raw, (e,), back),
    ensures
        back == raw,
{
}

/// A system call failed exactly if it returned -1. Its error is then the one that `errno`
/// numbers, and otherwise its return value is handed on, whatever `errno` is.
pub proof fn law_result(ret: SyscallReturn, r: Result<i32, Errno>)
    requires
        call_ensures(Errno::result, (ret,), r),
    ensures
        call_requires(Errno::result, (ret,)),
        match r {
            Ok(value) => ret.value != -1 && value == ret.value,
            Err(e) => ret.value == -1 && e == (if ret.errno == 22 {
                Errno::EINVAL
            } else {
                Errno::Other(ret.errno)
            }),
        },
{
}

/// A device and a directory qualify exactly if the device is a block device and its number
/// is that of the device that holds the directory. A device that is no block device is
/// refused as such, whatever the numbers are.
pub proof fn law_qualification(
    is_block: bool,
    rdev: u64,
    dev: u64,
    r: Result<(), QualificationError>,
)
    requires
        call_ensures(validate_qualification_target_metadata, (is_block, rdev, dev), r),
    ensures
        call_requires(validate_qualification_target_metadata, (is_block, rdev, dev)),
        r is Ok <==> is_block && rdev == dev,
        r == Err::<(), QualificationError>(QualificationError::NotBlockSpecial) <==> !is_block,
        r == Err::<(), QualificationError>(QualificationError::OtherDevice) <==> is_block && rdev
            != dev,
{
}

/// Each refusal has its own words.
pub proof fn law_qualification_message(e: QualificationError, message: &'static str)
    requires
        call_ensures(QualificationError::message, (e,), message),
    ensures
        call_requires(QualificationError::message, (e,)),
        e is NotBlockSpecial ==> message@ == "project-quota device must be block-special"@,
        e is OtherDevice ==> message@
            == "project-quota device does not back the qualification directory"@,
{
}

} // verus!
