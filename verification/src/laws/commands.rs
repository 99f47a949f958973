//! Laws of the command word and its parts.

use crate::command::{QuotaCmd, QuotaFmt, QuotaSubCmd, QuotaType};
use crate::errno::Errno;
use vstd::prelude::*;

verus! {

/// The kernel knows user, group and project quotas as 0, 1 and 2.
pub proof fn law_quota_type_number(scope: QuotaType, n: i32)
    requires
        call_ensures(QuotaType::as_raw, (scope,), n),
    ensures
        call_requires(QuotaType::as_raw, (scope,)),
        n == 0 <==> scope == QuotaType::USRQUOTA,
        n == 1 <==> scope == QuotaType::GRPQUOTA,
        n == 2 <==> scope == QuotaType::PRJQUOTA,
        0 <= n <= 2,
{
}

/// A number is read as a scope exactly if it is 0, 1 or 2, and any other is invalid.
pub proof fn law_quota_type_from_number(value: i32, r: Result<QuotaType, Errno>)
    requires
        call_ensures(<QuotaType as TryFrom<i32>>::try_from, (value,), r),
    ensures
        call_requires(<QuotaType as TryFrom<i32>>::try_from, (value,)),
        r == Ok::<QuotaType, Errno>(QuotaType::USRQUOTA) <==> value == 0,
        r == Ok::<QuotaType, Errno>(QuotaType::GRPQUOTA) <==> value == 1,
        r == Ok::<QuotaType, Errno>(QuotaType::PRJQUOTA) <==> value == 2,
        r == Err::<QuotaType, Errno>(Errno::EINVAL) <==> value < 0 || value > 2,
{
}

/// Reading the number of a scope gives the scope, and the number of the scope read is the
/// number it was read from.
pub proof fn law_quota_type_round_trip(value: i32, r: Result<QuotaType, Errno>, back: i32)
    requires
        call_ensures(<QuotaType as TryFrom<i32>>::try_from, (value,), r),
        r is Ok,
        call_ensures(QuotaType::as_raw, (r->Ok_0,), back),
    ensures
        back == value,
{
}

/// The kernel knows the original, the v0 and the v1 format as 1, 2 and 4.
pub proof fn law_quota_format_number(format: QuotaFmt, n: i32)
    requires
        call_ensures(QuotaFmt::as_raw, (format,), n),
    ensures
        call_requires(QuotaFmt::as_raw, (format,)),
        format == QuotaFmt::QFMT_VFS_OLD ==> n == 1,
        format == QuotaFmt::QFMT_VFS_V0 ==> n == 2,
        format == QuotaFmt::QFMT_VFS_V1 ==> n == 4,
{
}

/// The kernel's numbers of the sub-commands.
pub proof fn law_sub_command_number(sub: QuotaSubCmd, n: i32)
    requires
        call_ensures(QuotaSubCmd::as_raw, (sub,), n),
    ensures
        call_requires(QuotaSubCmd::as_raw, (sub,)),
        sub == QuotaSubCmd::Q_SYNC ==> n == 0x800001,
        sub == QuotaSubCmd::Q_QUOTAON ==> n == 0x800002,
        sub == QuotaSubCmd::Q_QUOTAOFF ==> n == 0x800003,
        sub == QuotaSubCmd::Q_GETINFO ==> n == 0x800005,
        sub == QuotaSubCmd::Q_GETQUOTA ==> n == 0x800007,
        sub == QuotaSubCmd::Q_SETQUOTA ==> n == 0x800008,
{
}

/// The low byte of a command word is the number of its scope, and the three bytes above it
/// are the number of its sub-command.
pub proof fn law_command_word(cmd: &QuotaCmd, word: i32, sub: i32, scope: i32)
    requires
        call_ensures(QuotaCmd::as_int, (cmd,), word),
        call_ensures(QuotaSubCmd::as_raw, (cmd.0,), sub),
        call_ensures(QuotaType::as_raw, (cmd.1,), scope),
    ensures
        call_requires(QuotaCmd::as_int, (cmd,)),
        word & 0xff == scope,
        (word >> 8) & 0x00ff_ffff == sub,
{
    crate::command::lemma_command_word_holds_its_parts(*cmd);
}

} // verus!
