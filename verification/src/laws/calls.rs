//! Laws of the `quotactl` calls.

use crate::call::{
    nul_terminated, project_quota, project_quota_active, quotactl, quotactl_get,
    quotactl_get_reply, quotactl_off, quotactl_on, quotactl_reply, quotactl_set, quotactl_sync,
    set_project_quota, QuotactlAddr, QuotactlCall,
};
use crate::command::{QuotaCmd, QuotaFmt, QuotaSubCmd, QuotaType};
use crate::dqblk::{Dqblk, RawDqblk};
use crate::errno::{Errno, SyscallReturn};
use crate::flags::QuotaValidFlags;
use crate::project::{project_quota_reply, ProjectId, ProjectQuota};
use vstd::prelude::*;

verus! {

/// Every path that holds no NUL, of whatever length, is handed over byte by byte with one NUL
/// behind it; a path that holds one is invalid.
pub proof fn law_nul_terminated(path: &[u8], r: Result<Vec<u8>, Errno>)
    requires
        call_ensures(nul_terminated, (path,), r),
    ensures
        call_requires(nul_terminated, (path,)),
        r is Ok <==> forall|i: int| 0 <= i < path@.len() ==> path@[i] != 0,
        match r {
            Ok(bytes) => {
                &&& bytes@.len() == path@.len() + 1
                &&& forall|i: int| 0 <= i < path@.len() ==> bytes@[i] == path@[i]
                &&& bytes@[path@.len() as int] == 0
            },
            Err(e) => e == Errno::EINVAL,
        },
{
    if exists|i: int| 0 <= i < path@.len() && path@[i] == 0 {
        let i = choose|i: int| 0 <= i < path@.len() && path@[i] == 0;
        assert(path@.contains(path@[i]));
    }
}

/// A call is made exactly if the device's path holds no NUL. Its word holds the sub-command
/// and the scope, and the rest of it is what was given.
pub proof fn law_quotactl(
    cmd: QuotaCmd,
    special: Option<&[u8]>,
    id: i32,
    addr: QuotactlAddr,
    sub: i32,
    scope: i32,
    r: Result<QuotactlCall, Errno>,
)
    requires
        call_ensures(quotactl, (cmd, special, id, addr), r),
        call_ensures(QuotaSubCmd::as_raw, (cmd.0,), sub),
        call_ensures(QuotaType::as_raw, (cmd.1,), scope),
    ensures
        call_requires(quotactl, (cmd, special, id, addr)),
        special is None ==> r is Ok,
        special matches Some(path) ==> (r is Ok <==> !path@.contains(0)),
        r is Err ==> r->Err_0 == Errno::EINVAL,
        r matches Ok(call) ==> {
            &&& call.cmd & 0xff == scope
            &&& (call.cmd >> 8) & 0x00ff_ffff == sub
            &&& call.special is Some <==> special is Some
            &&& special matches Some(path) ==> call.special->Some_0@ == path@.push(0)
            &&& call.id == id
            &&& call.addr == addr
        },
{
    crate::command::lemma_command_word_holds_its_parts(cmd);
}

/// Turning quotas on hands over the device, the format's number and the quota file, if neither
/// path holds a NUL.
pub proof fn law_quotactl_on(
    which: QuotaType,
    special: &[u8],
    format: QuotaFmt,
    quota_file: &[u8],
    r: Result<QuotactlCall, Errno>,
)
    requires
        call_ensures(quotactl_on, (which, special, format, quota_file), r),
    ensures
        call_requires(quotactl_on, (which, special, format, quota_file)),
        r is Ok <==> !special@.contains(0) && !quota_file@.contains(0),
        r is Err ==> r->Err_0 == Errno::EINVAL,
        r matches Ok(call) ==> {
            &&& call.cmd & 0xff == (match which {
                QuotaType::USRQUOTA => 0i32,
                QuotaType::GRPQUOTA => 1i32,
                QuotaType::PRJQUOTA => 2i32,
            })
            &&& (call.cmd >> 8) & 0x00ff_ffff == 0x800002
            &&& call.special is Some
            &&& call.special->Some_0@ == special@.push(0)
            &&& call.id == (match format {
                QuotaFmt::QFMT_VFS_OLD => 1i32,
                QuotaFmt::QFMT_VFS_V0 => 2i32,
                QuotaFmt::QFMT_VFS_V1 => 4i32,
            })
            &&& call.addr is QuotaFile
            &&& call.addr->QuotaFile_0@ == quota_file@.push(0)
        },
{
    crate::command::lemma_command_word_holds_its_parts(QuotaCmd(QuotaSubCmd::Q_QUOTAON, which));
}

/// Turning quotas off hands over the device and nothing else.
pub proof fn law_quotactl_off(
    which: QuotaType,
    special: &[u8],
    r: Result<QuotactlCall, Errno>,
)
    requires
        call_ensures(quotactl_off, (which, special), r),
    ensures
        call_requires(quotactl_off, (which, special)),
        r is Ok <==> !special@.contains(0),
        r is Err ==> r->Err_0 == Errno::EINVAL,
        r matches Ok(call) ==> {
            &&& call.cmd & 0xff == (match which {
                QuotaType::USRQUOTA => 0i32,
                QuotaType::GRPQUOTA => 1i32,
                QuotaType::PRJQUOTA => 2i32,
            })
            &&& (call.cmd >> 8) & 0x00ff_ffff == 0x800003
            &&& call.special is Some
            &&& call.special->Some_0@ == special@.push(0)
            &&& call.id == 0
            &&& call.addr is Null
        },
{
    crate::command::lemma_command_word_holds_its_parts(QuotaCmd(QuotaSubCmd::Q_QUOTAOFF, which));
}

/// Syncing hands over the device that is given, or none if none is.
pub proof fn law_quotactl_sync(
    which: QuotaType,
    special: Option<&[u8]>,
    r: Result<QuotactlCall, Errno>,
)
    requires
        call_ensures(quotactl_sync, (which, special), r),
    ensures
        call_requires(quotactl_sync, (which, special)),
        r is Ok <==> (special matches Some(path) ==> !path@.contains(0)),
        r is Err ==> r->Err_0 == Errno::EINVAL,
        r matches Ok(call) ==> {
            &&& call.cmd & 0xff == (match which {
                QuotaType::USRQUOTA => 0i32,
                QuotaType::GRPQUOTA => 1i32,
                QuotaType::PRJQUOTA => 2i32,
            })
            &&& (call.cmd >> 8) & 0x00ff_ffff == 0x800001
            &&& call.special is Some <==> special is Some
            &&& special matches Some(path) ==> call.special->Some_0@ == path@.push(0)
            &&& call.id == 0
            &&& call.addr is Null
        },
{
    crate::command::lemma_command_word_holds_its_parts(QuotaCmd(QuotaSubCmd::Q_SYNC, which));
}

/// Getting a record hands over the device and the identifier, and room for a record.
pub proof fn law_quotactl_get(
    which: QuotaType,
    special: &[u8],
    id: i32,
    r: Result<QuotactlCall, Errno>,
)
    requires
        call_ensures(quotactl_get, (which, special, id), r),
    ensures
        call_requires(quotactl_get, (which, special, id)),
        r is Ok <==> !special@.contains(0),
        r is Err ==> r->Err_0 == Errno::EINVAL,
        r matches Ok(call) ==> {
            &&& call.cmd & 0xff == (match which {
                QuotaType::USRQUOTA => 0i32,
                QuotaType::GRPQUOTA => 1i32,
                QuotaType::PRJQUOTA => 2i32,
            })
            &&& (call.cmd >> 8) & 0x00ff_ffff == 0x800007
            &&& call.special is Some
            &&& call.special->Some_0@ == special@.push(0)
            &&& call.id == id
            &&& call.addr is DqblkRoom
        },
{
    crate::command::lemma_command_word_holds_its_parts(QuotaCmd(QuotaSubCmd::Q_GETQUOTA, which));
}

/// Setting a record hands over the device, the identifier and the record as it is, but for its
/// mask, which is that of the chosen fields.
pub proof fn law_quotactl_set(
    which: QuotaType,
    special: &[u8],
    id: i32,
    dqblk: &Dqblk,
    fields: QuotaValidFlags,
    bits: u32,
    r: Result<QuotactlCall, Errno>,
)
    requires
        call_ensures(quotactl_set, (which, special, id, dqblk, fields), r),
        call_ensures(QuotaValidFlags::bits, (&fields,), bits),
    ensures
        call_requires(quotactl_set, (which, special, id, dqblk, fields)),
        r is Ok <==> !special@.contains(0),
        r is Err ==> r->Err_0 == Errno::EINVAL,
        r matches Ok(call) ==> {
            &&& call.cmd & 0xff == (match which {
                QuotaType::USRQUOTA => 0i32,
                QuotaType::GRPQUOTA => 1i32,
                QuotaType::PRJQUOTA => 2i32,
            })
            &&& (call.cmd >> 8) & 0x00ff_ffff == 0x800008
            &&& call.special is Some
            &&& call.special->Some_0@ == special@.push(0)
            &&& call.id == id
            &&& call.addr is Dqblk
            &&& call.addr->Dqblk_0.dqb_valid == bits
            &&& call.addr->Dqblk_0.dqb_bhardlimit == dqblk.0.dqb_bhardlimit
            &&& call.addr->Dqblk_0.dqb_bsoftlimit == dqblk.0.dqb_bsoftlimit
            &&& call.addr->Dqblk_0.dqb_curspace == dqblk.0.dqb_curspace
            &&& call.addr->Dqblk_0.dqb_ihardlimit == dqblk.0.dqb_ihardlimit
            &&& call.addr->Dqblk_0.dqb_isoftlimit == dqblk.0.dqb_isoftlimit
            &&& call.addr->Dqblk_0.dqb_curinodes == dqblk.0.dqb_curinodes
            &&& call.addr->Dqblk_0.dqb_btime == dqblk.0.dqb_btime
            &&& call.addr->Dqblk_0.dqb_itime == dqblk.0.dqb_itime
        },
{
    crate::command::lemma_command_word_holds_its_parts(QuotaCmd(QuotaSubCmd::Q_SETQUOTA, which));
}

/// Whether project quota is active is asked of the device, in the project scope.
pub proof fn law_project_quota_active(
    special: &[u8],
    r: Result<QuotactlCall, Errno>,
)
    requires
        call_ensures(project_quota_active, (special,), r),
    ensures
        call_requires(project_quota_active, (special,)),
        r is Ok <==> !special@.contains(0),
        r is Err ==> r->Err_0 == Errno::EINVAL,
        r matches Ok(call) ==> {
            &&& call.cmd & 0xff == 2
            &&& (call.cmd >> 8) & 0x00ff_ffff == 0x800005
            &&& call.special is Some
            &&& call.special->Some_0@ == special@.push(0)
            &&& call.id == 0
            &&& call.addr is DqinfoRoom
        },
{
    crate::command::lemma_command_word_holds_its_parts(
        QuotaCmd(QuotaSubCmd::Q_GETINFO, QuotaType::PRJQUOTA),
    );
}

/// A project's quota is asked for by the project's own number, in the project scope.
pub proof fn law_project_quota(
    special: &[u8],
    project_id: ProjectId,
    id: u32,
    r: Result<QuotactlCall, Errno>,
)
    requires
        call_ensures(project_quota, (special, project_id), r),
        call_ensures(ProjectId::as_u32, (project_id,), id),
    ensures
        call_requires(project_quota, (special, project_id)),
        r is Ok <==> !special@.contains(0),
        r is Err ==> r->Err_0 == Errno::EINVAL,
        r matches Ok(call) ==> {
            &&& call.cmd & 0xff == 2
            &&& (call.cmd >> 8) & 0x00ff_ffff == 0x800007
            &&& call.special is Some
            &&& call.special->Some_0@ == special@.push(0)
            &&& call.id == id
            &&& call.addr is DqblkRoom
        },
{
    crate::command::lemma_command_word_holds_its_parts(
        QuotaCmd(QuotaSubCmd::Q_GETQUOTA, QuotaType::PRJQUOTA),
    );
}

/// A project's quota is set by the project's own number, in the project scope, in a record that
/// holds its limits in blocks of 1024 bytes, marks the block limits alone, and is 0 otherwise.
pub proof fn law_set_project_quota(
    special: &[u8],
    project_id: ProjectId,
    quota: ProjectQuota,
    id: u32,
    soft: u64,
    hard: u64,
    r: Result<QuotactlCall, Errno>,
)
    requires
        call_ensures(set_project_quota, (special, project_id, quota), r),
        call_ensures(ProjectId::as_u32, (project_id,), id),
        call_ensures(ProjectQuota::soft_limit_bytes, (quota,), soft),
        call_ensures(ProjectQuota::hard_limit_bytes, (quota,), hard),
    ensures
        call_requires(set_project_quota, (special, project_id, quota)),
        r is Ok <==> !special@.contains(0),
        r is Err ==> r->Err_0 == Errno::EINVAL,
        r matches Ok(call) ==> {
            &&& call.cmd & 0xff == 2
            &&& (call.cmd >> 8) & 0x00ff_ffff == 0x800008
            &&& call.special is Some
            &&& call.special->Some_0@ == special@.push(0)
            &&& call.id == id
            &&& call.addr is Dqblk
            &&& call.addr->Dqblk_0.dqb_bsoftlimit * 1024 == soft
            &&& call.addr->Dqblk_0.dqb_bhardlimit * 1024 == hard
            &&& call.addr->Dqblk_0.dqb_valid == 0x01
            &&& call.addr->Dqblk_0.dqb_curspace == 0
            &&& call.addr->Dqblk_0.dqb_ihardlimit == 0
            &&& call.addr->Dqblk_0.dqb_isoftlimit == 0
            &&& call.addr->Dqblk_0.dqb_curinodes == 0
            &&& call.addr->Dqblk_0.dqb_btime == 0
            &&& call.addr->Dqblk_0.dqb_itime == 0
        },
{
    crate::command::lemma_command_word_holds_its_parts(
        QuotaCmd(QuotaSubCmd::Q_SETQUOTA, QuotaType::PRJQUOTA),
    );
}

/// A call succeeded exactly if it did not return -1; a failure gives the kernel's error.
pub proof fn law_quotactl_reply(ret: SyscallReturn, r: Result<(), Errno>)
    requires
        call_ensures(quotactl_reply, (ret,), r),
    ensures
        call_requires(quotactl_reply, (ret,)),
        ret.value != -1 ==> r == Ok::<(), Errno>(()),
        ret.value == -1 ==> r == Err::<(), Errno>(
            if ret.errno == 22 {
                Errno::EINVAL
            } else {
                Errno::Other(ret.errno)
            },
        ),
{
}

/// A record that was read is given as the kernel wrote it; a failure gives the kernel's error.
pub proof fn law_quotactl_get_reply(ret: SyscallReturn, record: RawDqblk, r: Result<Dqblk, Errno>)
    requires
        call_ensures(quotactl_get_reply, (ret, record), r),
    ensures
        call_requires(quotactl_get_reply, (ret, record)),
        ret.value != -1 ==> r == Ok::<Dqblk, Errno>(Dqblk(record)),
        ret.value == -1 ==> r == Err::<Dqblk, Errno>(
            if ret.errno == 22 {
                Errno::EINVAL
            } else {
                Errno::Other(ret.errno)
            },
        ),
{
}

/// A limit set on a fresh record reaches the kernel when the record is set with `QIF_BLIMITS`:
/// the record handed over has the limit, and is read as having it.
pub proof fn law_blocks_hard_limit_reaches_the_kernel(
    record: &mut Dqblk,
    limit: u64,
    which: QuotaType,
    special: &[u8],
    id: i32,
    fields: QuotaValidFlags,
    r: Result<QuotactlCall, Errno>,
)
    requires
        call_ensures(<Dqblk as Default>::default, (), *old(record)),
        call_ensures(Dqblk::set_blocks_hard_limit, (record, limit), ()),
        call_ensures(QuotaValidFlags::QIF_BLIMITS, (), fields),
        call_ensures(quotactl_set, (which, special, id, &*final(record), fields), r),
        r is Ok,
    ensures
        r->Ok_0.addr is Dqblk,
        r->Ok_0.addr->Dqblk_0.dqb_bhardlimit == limit,
        forall|reading: Option<u64>| #[trigger]
            call_ensures(Dqblk::blocks_hard_limit, (&Dqblk(r->Ok_0.addr->Dqblk_0),), reading)
                ==> reading == Some(limit),
{
    assert(0x01u32 & 0x01 == 0x01 && 0x04u32 & 0x04 == 0x04) by (bit_vector);
}

/// A limit set on a fresh record reaches the kernel when the record is set with `QIF_ILIMITS`:
/// the record handed over has the limit, and is read as having it.
pub proof fn law_inodes_hard_limit_reaches_the_kernel(
    record: &mut Dqblk,
    limit: u64,
    which: QuotaType,
    special: &[u8],
    id: i32,
    fields: QuotaValidFlags,
    r: Result<QuotactlCall, Errno>,
)
    requires
        call_ensures(<Dqblk as Default>::default, (), *old(record)),
        call_ensures(Dqblk::set_inodes_hard_limit, (record, limit), ()),
        call_ensures(QuotaValidFlags::QIF_ILIMITS, (), fields),
        call_ensures(quotactl_set, (which, special, id, &*final(record), fields), r),
        r is Ok,
    ensures
        r->Ok_0.addr is Dqblk,
        r->Ok_0.addr->Dqblk_0.dqb_ihardlimit == limit,
        forall|reading: Option<u64>| #[trigger]
            call_ensures(Dqblk::inodes_hard_limit, (&Dqblk(r->Ok_0.addr->Dqblk_0),), reading)
                ==> reading == Some(limit),
{
    assert(0x01u32 & 0x01 == 0x01 && 0x04u32 & 0x04 == 0x04) by (bit_vector);
}

/// The quota that was set is the quota that is read, if the kernel's record of the project
/// then holds the block limits that were handed over, and marks them.
pub proof fn law_project_quota_reads_back(
    special: &[u8],
    project_id: ProjectId,
    quota: ProjectQuota,
    soft: u64,
    hard: u64,
    set: Result<QuotactlCall, Errno>,
    ret: SyscallReturn,
    record: RawDqblk,
    read: Result<ProjectQuota, Errno>,
)
    requires
        call_ensures(ProjectQuota::soft_limit_bytes, (quota,), soft),
        call_ensures(ProjectQuota::hard_limit_bytes, (quota,), hard),
        call_ensures(set_project_quota, (special, project_id, quota), set),
        set is Ok,
        ret.value != -1,
        record.dqb_bsoftlimit == set->Ok_0.addr->Dqblk_0.dqb_bsoftlimit,
        record.dqb_bhardlimit == set->Ok_0.addr->Dqblk_0.dqb_bhardlimit,
        record.dqb_valid & 0x01 != 0,
        call_ensures(project_quota_reply, (ret, record), read),
    ensures
        read == Ok::<ProjectQuota, Errno>(quota),
{
    let valid = record.dqb_valid;
    assert((valid & 0x01 == 0x01) == (valid & 0x01 != 0)) by (bit_vector);
    crate::project::lemma_quota_is_its_limits(read->Ok_0, quota);
}

} // verus!
