//! The `quotactl` calls.

use crate::command::{QuotaCmd, QuotaFmt, QuotaSubCmd, QuotaType};
use crate::dqblk::{Dqblk, RawDqblk};
use crate::errno::{Errno, SyscallReturn};
use crate::flags::QuotaValidFlags;
use crate::project::{ProjectId, ProjectQuota};
use crate::units::quota_blocks_from_bytes;
use vstd::prelude::*;

verus! {

/// What the last argument of `quotactl` points to.
#[derive(Debug, PartialEq, Eq)]
pub enum QuotactlAddr {
    /// Nothing: the null pointer.
    Null,
    /// The path of a quota file, with its terminating NUL.
    QuotaFile(Vec<u8>),
    /// Room for a quota record that the kernel writes.
    DqblkRoom,
    /// A quota record that the kernel reads.
    Dqblk(RawDqblk),
    /// Room for what the kernel reports of a quota file as a whole.
    DqinfoRoom,
}

/// A `quotactl` call to make.
#[derive(Debug, PartialEq, Eq)]
pub struct QuotactlCall {
    /// The command word.
    pub cmd: i32,
    /// The path of the block device, with its terminating NUL, or the null pointer.
    pub special: Option<Vec<u8>>,
    /// The user, group or project, or the format of a quota file.
    pub id: i32,
    /// What the last argument points to.
    pub addr: QuotactlAddr,
}

/// What a [`QuotactlAddr`] stands for.
pub enum AddrView {
    Null,
    QuotaFile(Seq<u8>),
    DqblkRoom,
    Dqblk(RawDqblk),
    DqinfoRoom,
}

/// What a [`QuotactlCall`] stands for.
pub struct CallView {
    pub cmd: i32,
    pub special: Option<Seq<u8>>,
    pub id: i32,
    pub addr: AddrView,
}

impl View for QuotactlAddr {
    type V = AddrView;

    open spec fn view(&self) -> AddrView {
        match *self {
            QuotactlAddr::Null => AddrView::Null,
            QuotactlAddr::QuotaFile(path) => AddrView::QuotaFile(path@),
            QuotactlAddr::DqblkRoom => AddrView::DqblkRoom,
            QuotactlAddr::Dqblk(record) => AddrView::Dqblk(record),
            QuotactlAddr::DqinfoRoom => AddrView::DqinfoRoom,
        }
    }
}

impl View for QuotactlCall {
    type V = CallView;

    open spec fn view(&self) -> CallView {
        CallView {
            cmd: self.cmd,
            special: match self.special {
                Some(path) => Some(path@),
                None => None,
            },
            id: self.id,
            addr: self.addr@,
        }
    }
}

/// A path as the kernel takes it: its bytes and a terminating NUL. A path that holds a NUL
/// by itself is invalid.
pub open spec fn c_path(path: Seq<u8>) -> Result<Seq<u8>, Errno> {
    if path.contains(0) {
        Err(Errno::EINVAL)
    } else {
        Ok(path.push(0))
    }
}

/// The call of these parts, unless the device's path is invalid.
pub open spec fn call_of(
    cmd: QuotaCmd,
    special: Option<Seq<u8>>,
    id: i32,
    addr: AddrView,
) -> Result<CallView, Errno> {
    match special {
        Some(path) => match c_path(path) {
            Ok(path) => Ok(CallView { cmd: cmd.word(), special: Some(path), id, addr }),
            Err(e) => Err(e),
        },
        None => Ok(CallView { cmd: cmd.word(), special: None, id, addr }),
    }
}

/// A path with its terminating NUL.
pub fn nul_terminated(path: &[u8]) -> (r: Result<Vec<u8>, Errno>)
    ensures
        crate::errno::viewed(r) == c_path(path@),
        r is Ok <==> !path@.contains(0),
        r matches Ok(bytes) ==> bytes@ == path@.push(0),
{
    let mut bytes: Vec<u8> = Vec::new();
    let mut i: usize = 0;
    while i < path.len()
        invariant
            i <= path.len(),
            bytes@ == path@.take(i as int),
            !path@.take(i as int).contains(0),
        decreases path.len() - i,
    {
        let byte: u8 = path[i];
        if byte == 0 {
            assert(path@[i as int] == 0);
            return Err(Errno::EINVAL);
        }
        bytes.push(byte);
        assert(path@.take(i + 1) =~= path@.take(i as int).push(byte));
        i = i + 1;
    }
    assert(path@.take(i as int) =~= path@);
    bytes.push(0);
    Ok(bytes)
}

/// The call of these parts. The device's path comes without its terminating NUL.
pub fn quotactl(cmd: QuotaCmd, special: Option<&[u8]>, id: i32, addr: QuotactlAddr) -> (r: Result<
    QuotactlCall,
    Errno,
>)
    ensures
        crate::errno::viewed(r) == call_of(
            cmd,
            match special {
                Some(path) => Some(path@),
                None => None,
            },
            id,
            addr@,
        ),
        r matches Ok(call) ==> call.cmd == cmd.word() && call.id == id && call.addr == addr,
{
    let special: Option<Vec<u8>> = match special {
        Some(path) => match nul_terminated(path) {
            Ok(path) => Some(path),
            Err(e) => return Err(e),
        },
        None => None,
    };
    Ok(QuotactlCall { cmd: cmd.as_int(), special, id, addr })
}

/// Whether a call succeeded, or the kernel's error.
pub fn quotactl_reply(ret: SyscallReturn) -> (r: Result<(), Errno>)
    ensures
        r == crate::errno::syscall_done(ret),
{
    match Errno::result(ret) {
        Ok(_) => Ok(()),
        Err(e) => Err(e),
    }
}

/// Turn on disk quotas for a block device.
pub fn quotactl_on(which: QuotaType, special: &[u8], format: QuotaFmt, quota_file: &[u8]) -> (r:
    Result<QuotactlCall, Errno>)
    ensures
        crate::errno::viewed(r) == (match c_path(quota_file@) {
            Ok(path) => call_of(
                QuotaCmd(QuotaSubCmd::Q_QUOTAON, which),
                Some(special@),
                format.number(),
                AddrView::QuotaFile(path),
            ),
            Err(e) => Err::<CallView, Errno>(e),
        }),
{
    match nul_terminated(quota_file) {
        Ok(path) => quotactl(
            QuotaCmd(QuotaSubCmd::Q_QUOTAON, which),
            Some(special),
            format.as_raw(),
            QuotactlAddr::QuotaFile(path),
        ),
        Err(e) => Err(e),
    }
}

/// Disable disk quotas for a block device.
pub fn quotactl_off(which: QuotaType, special: &[u8]) -> (r: Result<QuotactlCall, Errno>)
    ensures
        crate::errno::viewed(r) == call_of(
            QuotaCmd(QuotaSubCmd::Q_QUOTAOFF, which),
            Some(special@),
            0,
            AddrView::Null,
        ),
{
    quotactl(QuotaCmd(QuotaSubCmd::Q_QUOTAOFF, which), Some(special), 0, QuotactlAddr::Null)
}

/// Update the on-disk copy of quota usages for a filesystem.
///
/// If `special` is `None`, then all file systems with active quotas are sync'd.
pub fn quotactl_sync(which: QuotaType, special: Option<&[u8]>) -> (r: Result<QuotactlCall, Errno>)
    ensures
        crate::errno::viewed(r) == call_of(
            QuotaCmd(QuotaSubCmd::Q_SYNC, which),
            match special {
                Some(path) => Some(path@),
                None => None,
            },
            0,
            AddrView::Null,
        ),
{
    quotactl(QuotaCmd(QuotaSubCmd::Q_SYNC, which), special, 0, QuotactlAddr::Null)
}

/// Get disk quota limits and current usage for the given user/group id.
pub fn quotactl_get(which: QuotaType, special: &[u8], id: i32) -> (r: Result<QuotactlCall, Errno>)
    ensures
        crate::errno::viewed(r) == call_of(
            QuotaCmd(QuotaSubCmd::Q_GETQUOTA, which),
            Some(special@),
            id,
            AddrView::DqblkRoom,
        ),
{
    quotactl(
        QuotaCmd(QuotaSubCmd::Q_GETQUOTA, which),
        Some(special),
        id,
        QuotactlAddr::DqblkRoom,
    )
}

/// Read the reply to the call of `quotactl_get`: the record that the kernel wrote, or its
/// error.
pub fn quotactl_get_reply(ret: SyscallReturn, dqblk: RawDqblk) -> (r: Result<Dqblk, Errno>)
    ensures
        r == (match crate::errno::syscall_done(ret) {
            Ok(_) => Ok::<Dqblk, Errno>(Dqblk(dqblk)),
            Err(e) => Err::<Dqblk, Errno>(e),
        }),
{
    match quotactl_reply(ret) {
        Ok(_) => Ok(Dqblk(dqblk)),
        Err(e) => Err(e),
    }
}

/// Configure quota values for the specified fields for a given user/group id.
pub fn quotactl_set(
    which: QuotaType,
    special: &[u8],
    id: i32,
    dqblk: &Dqblk,
    fields: QuotaValidFlags,
) -> (r: Result<QuotactlCall, Errno>)
    ensures
        crate::errno::viewed(r) == call_of(
            QuotaCmd(QuotaSubCmd::Q_SETQUOTA, which),
            Some(special@),
            id,
            AddrView::Dqblk(RawDqblk { dqb_valid: fields@, ..dqblk.0 }),
        ),
{
    let mut dqblk_copy = *dqblk;
    dqblk_copy.0.dqb_valid = fields.bits();
    quotactl(
        QuotaCmd(QuotaSubCmd::Q_SETQUOTA, which),
        Some(special),
        id,
        QuotactlAddr::Dqblk(dqblk_copy.0),
    )
}

/// The call that reads active project-quota information.
pub open spec fn project_quota_active_call(special: Seq<u8>) -> Result<CallView, Errno> {
    call_of(
        QuotaCmd(QuotaSubCmd::Q_GETINFO, QuotaType::PRJQUOTA),
        Some(special),
        0,
        AddrView::DqinfoRoom,
    )
}

/// The call that reads the limits of a project.
pub open spec fn project_quota_call(special: Seq<u8>, id: u32) -> Result<CallView, Errno> {
    call_of(
        QuotaCmd(QuotaSubCmd::Q_GETQUOTA, QuotaType::PRJQUOTA),
        Some(special),
        id as i32,
        AddrView::DqblkRoom,
    )
}

/// The call that sets the limits of a project: its record holds the limits in quota blocks,
/// marks the block limits as holding and nothing else, and is 0 otherwise.
pub open spec fn set_project_quota_call(
    special: Seq<u8>,
    id: u32,
    limits: crate::project::Limits,
) -> Result<CallView, Errno> {
    call_of(
        QuotaCmd(QuotaSubCmd::Q_SETQUOTA, QuotaType::PRJQUOTA),
        Some(special),
        id as i32,
        AddrView::Dqblk(RawDqblk { dqb_valid: QuotaValidFlags::blimits(), ..limits.as_record() }),
    )
}

/// Read active project-quota information for a filesystem.
///
/// The reply goes to `project_quota_active_reply`.
pub fn project_quota_active(special: &[u8]) -> (r: Result<QuotactlCall, Errno>)
    ensures
        crate::errno::viewed(r) == project_quota_active_call(special@),
{
    quotactl(
        QuotaCmd(QuotaSubCmd::Q_GETINFO, QuotaType::PRJQUOTA),
        Some(special),
        0,
        QuotactlAddr::DqinfoRoom,
    )
}

/// Read finite exact project quota limits for `project_id`.
///
/// The reply goes to `project_quota_reply`.
pub fn project_quota(special: &[u8], project_id: ProjectId) -> (r: Result<QuotactlCall, Errno>)
    ensures
        crate::errno::viewed(r) == project_quota_call(special@, project_id@),
{
    quotactl_get(QuotaType::PRJQUOTA, special, project_id.as_u32() as i32)
}

/// Set finite exact project quota limits for `project_id`.
///
/// Call [`project_quota_active`] first when setup needs to prove that project
/// quota accounting is active before assigning limits.
pub fn set_project_quota(special: &[u8], project_id: ProjectId, quota: ProjectQuota) -> (r: Result<
    QuotactlCall,
    Errno,
>)
    ensures
        crate::errno::viewed(r) == set_project_quota_call(special@, project_id@, quota@),
{
    let mut dqblk = Dqblk::default();
    match quota_blocks_from_bytes(quota.soft_limit_bytes()) {
        Ok(blocks) => dqblk.set_blocks_soft_limit(blocks),
        Err(e) => return Err(e),
    }
    match quota_blocks_from_bytes(quota.hard_limit_bytes()) {
        Ok(blocks) => dqblk.set_blocks_hard_limit(blocks),
        Err(e) => return Err(e),
    }
    quotactl_set(
        QuotaType::PRJQUOTA,
        special,
        project_id.as_u32() as i32,
        &dqblk,
        QuotaValidFlags::QIF_BLIMITS(),
    )
}

/// Setting a project's limits and reading them name the same record: the same device, the
/// same identifier, and the project scope. If the record read then holds the block limits
/// that were written, what is read is the very quota that was set.
///
/// `reply` is what `project_quota_reply` makes of a success and the record read.
pub proof fn lemma_project_quota_reads_back(
    special: Seq<u8>,
    id: ProjectId,
    quota: ProjectQuota,
    written: RawDqblk,
    read: RawDqblk,
    reply: Result<ProjectQuota, Errno>,
)
    requires
        crate::project::is_project_id(id@),
        quota@.are_exact(),
        set_project_quota_call(special, id@, quota@) is Ok,
        set_project_quota_call(special, id@, quota@)->Ok_0.addr == AddrView::Dqblk(written),
        read.dqb_bsoftlimit == written.dqb_bsoftlimit,
        read.dqb_bhardlimit == written.dqb_bhardlimit,
        crate::flags::has_bits(read.dqb_valid, QuotaValidFlags::blimits()),
        crate::errno::viewed(reply) == crate::project::limits_of_record(read),
    ensures
        reply == Ok::<ProjectQuota, Errno>(quota),
        project_quota_call(special, id@) is Ok,
        ({
            let set = set_project_quota_call(special, id@, quota@)->Ok_0;
            let get = project_quota_call(special, id@)->Ok_0;
            &&& get.special == set.special
            &&& get.id == set.id == id@
            &&& get.cmd & 0xff == set.cmd & 0xff == QuotaType::PRJQUOTA.number()
        }),
{
    lemma_project_calls_have_project_scope(special, id@, quota@);
    crate::project::lemma_limits_survive_storage(quota@, read);
    crate::project::lemma_quota_is_its_limits(reply->Ok_0, quota);
}

/// Whatever is asked of a project is asked in the project scope, and no other.
pub proof fn lemma_project_calls_have_project_scope(
    special: Seq<u8>,
    id: u32,
    limits: crate::project::Limits,
)
    ensures
        project_quota_active_call(special) matches Ok(call) ==> call.cmd & 0xff
            == QuotaType::PRJQUOTA.number(),
        project_quota_call(special, id) matches Ok(call) ==> call.cmd & 0xff
            == QuotaType::PRJQUOTA.number(),
        set_project_quota_call(special, id, limits) matches Ok(call) ==> call.cmd & 0xff
            == QuotaType::PRJQUOTA.number(),
{
    crate::command::lemma_command_word_holds_its_parts(
        QuotaCmd(QuotaSubCmd::Q_GETINFO, QuotaType::PRJQUOTA),
    );
    crate::command::lemma_command_word_holds_its_parts(
        QuotaCmd(QuotaSubCmd::Q_GETQUOTA, QuotaType::PRJQUOTA),
    );
    crate::command::lemma_command_word_holds_its_parts(
        QuotaCmd(QuotaSubCmd::Q_SETQUOTA, QuotaType::PRJQUOTA),
    );
}

/// The record that `quotactl_set` hands over gives out the chosen fields with the given
/// record's own values, and no other field, whatever the given record marked as holding.
pub proof fn lemma_set_hands_over_chosen_fields(record: RawDqblk, fields: u32)
    ensures
        ({
            let chosen = |mask: u32, value: u64|
                if crate::flags::has_bits(fields, mask) {
                    Some(value)
                } else {
                    None::<u64>
                };
            Dqblk(RawDqblk { dqb_valid: fields, ..record }).readings() == (crate::dqblk::Readings {
                blocks_hard_limit: chosen(QuotaValidFlags::blimits(), record.dqb_bhardlimit),
                blocks_soft_limit: chosen(QuotaValidFlags::blimits(), record.dqb_bsoftlimit),
                occupied_space: chosen(QuotaValidFlags::space(), record.dqb_curspace),
                inodes_hard_limit: chosen(QuotaValidFlags::ilimits(), record.dqb_ihardlimit),
                inodes_soft_limit: chosen(QuotaValidFlags::ilimits(), record.dqb_isoftlimit),
                allocated_inodes: chosen(QuotaValidFlags::inodes(), record.dqb_curinodes),
                block_time_limit: chosen(QuotaValidFlags::btime(), record.dqb_btime),
                inode_time_limit: chosen(QuotaValidFlags::itime(), record.dqb_itime),
            })
        }),
{
}

/// A path survives being handed over: without its last byte, which is the only NUL in it,
/// the path that the kernel gets is the path that was given.
pub proof fn lemma_path_is_kept(path: Seq<u8>)
    requires
        c_path(path) is Ok,
    ensures
        c_path(path)->Ok_0.drop_last() == path,
        forall|i: int|
            0 <= i < c_path(path)->Ok_0.len() ==> (#[trigger] c_path(path)->Ok_0[i] == 0 <==> i
                == path.len()),
{
    assert(path.push(0).drop_last() =~= path);
    assert forall|i: int| 0 <= i < path.len() implies path[i] != 0 by {
        if path[i] == 0 {
            assert(path.contains(0));
        }
    }
}

} // verus!
