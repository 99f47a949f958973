//! Project identifiers, attributes and limits.

use crate::dqblk::{Dqblk, RawDqblk};
use crate::errno::{Errno, SyscallReturn};
use crate::flags::QuotaValidFlags;
use crate::fsxattr::{Fsxattr, FS_XFLAG_PROJINHERIT};
use crate::units::{quota_blocks_from_bytes, quota_bytes_from_blocks};
use vstd::prelude::*;

verus! {

/// A Linux project identifier accepted by `quotactl`.
///
/// Linux stores project identifiers as `u32`, but the `quotactl` ABI accepts
/// its identifier in a signed `int`.  Values greater than `i32::MAX` are
/// therefore rejected instead of being silently reinterpreted.
#[derive(Clone, Copy, Debug, PartialEq, Eq, Structural, Hash)]
pub struct ProjectId(u32);

/// Can `quotactl` be handed this project identifier?
pub open spec fn is_project_id(id: u32) -> bool {
    id <= i32::MAX
}

impl View for ProjectId {
    type V = u32;

    /// The Linux project identifier.
    closed spec fn view(&self) -> u32 {
        self.0
    }
}

impl ProjectId {
    #[verifier::type_invariant]
    spec fn is_representable(self) -> bool {
        is_project_id(self.0)
    }

    /// Construct a project identifier which is representable by `quotactl`.
    pub fn new(id: u32) -> (r: Result<Self, Errno>)
        ensures
            crate::errno::viewed(r) == (if is_project_id(id) {
                Ok::<u32, Errno>(id)
            } else {
                Err::<u32, Errno>(Errno::EINVAL)
            }),
    {
        if id > i32::MAX as u32 {
            return Err(Errno::EINVAL);
        }
        Ok(ProjectId(id))
    }

    /// Return the Linux project identifier.
    pub fn as_u32(self) -> (r: u32)
        ensures
            r == self@,
            is_project_id(r),
    {
        proof {
            use_type_invariant(&self);
        }
        self.0
    }
}

/// Project attributes associated with an inode or directory.
#[derive(Clone, Copy, Debug, PartialEq, Eq, Structural, Hash)]
pub struct ProjectAttributes {
    project_id: ProjectId,
    project_inherit: bool,
}

/// What project attributes say.
pub struct AttributesView {
    pub project_id: u32,
    pub project_inherit: bool,
}

impl View for ProjectAttributes {
    type V = AttributesView;

    closed spec fn view(&self) -> AttributesView {
        AttributesView { project_id: self.project_id@, project_inherit: self.project_inherit }
    }
}

impl ProjectAttributes {
    /// Project identifier assigned to this inode.
    pub fn project_id(self) -> (r: ProjectId)
        ensures
            r@ == self@.project_id,
    {
        self.project_id
    }

    /// Whether new children inherit this directory's project identifier.
    pub fn project_inherit(self) -> (r: bool)
        ensures
            r == self@.project_inherit,
    {
        self.project_inherit
    }
}

/// The project attributes that an inode's attributes hold, unless its project identifier
/// is one that `quotactl` cannot be handed.
pub open spec fn attributes_of(attributes: Fsxattr) -> Result<AttributesView, Errno> {
    if is_project_id(attributes.fsx_projid) {
        Ok(
            AttributesView {
                project_id: attributes.fsx_projid,
                project_inherit: attributes.fsx_xflags & FS_XFLAG_PROJINHERIT != 0,
            },
        )
    } else {
        Err(Errno::EINVAL)
    }
}

/// Read a file or directory's Linux project identifier and inheritance bit, from what
/// reading its attributes gave.
///
/// Filesystems which do not implement `FS_IOC_FSGETXATTR` return their normal
/// filesystem error, commonly `EINVAL`, `ENOTTY`, or `EOPNOTSUPP`.
pub fn project_attributes(read: Result<Fsxattr, Errno>) -> (r: Result<ProjectAttributes, Errno>)
    ensures
        crate::errno::viewed(r) == (match read {
            Ok(attributes) => attributes_of(attributes),
            Err(e) => Err::<AttributesView, Errno>(e),
        }),
{
    let attributes = match read {
        Ok(attributes) => attributes,
        Err(e) => return Err(e),
    };
    match ProjectId::new(attributes.fsx_projid) {
        Ok(project_id) => Ok(
            ProjectAttributes {
                project_id,
                project_inherit: attributes.fsx_xflags & FS_XFLAG_PROJINHERIT != 0,
            },
        ),
        Err(e) => Err(e),
    }
}

/// Exact finite project quota limits in bytes.
///
/// Linux quota block limits are measured in 1024-byte units.  This type does
/// not permit zero (unlimited) limits or inexact byte values.
#[derive(Clone, Copy, Debug, PartialEq, Eq, Structural, Hash)]
pub struct ProjectQuota {
    soft_limit_bytes: u64,
    hard_limit_bytes: u64,
}

/// A soft and a hard limit, in bytes.
pub struct Limits {
    pub soft: u64,
    pub hard: u64,
}

impl Limits {
    /// Are both limits finite, and a whole number of quota blocks?
    pub open spec fn are_exact(self) -> bool {
        crate::units::is_exact_limit(self.soft) && crate::units::is_exact_limit(self.hard)
    }

    /// These limits in quota blocks, in a record in which everything else is 0 and no
    /// field is marked as holding.
    pub open spec fn as_record(self) -> RawDqblk {
        RawDqblk {
            dqb_bsoftlimit: self.soft / crate::units::QUOTA_BLOCK_BYTES,
            dqb_bhardlimit: self.hard / crate::units::QUOTA_BLOCK_BYTES,
            ..crate::dqblk::empty_record()
        }
    }
}

/// The limits that a record holds: `EINVAL` unless its block limits are marked as holding,
/// and both are finite and can be counted in bytes.
pub open spec fn limits_of_record(record: RawDqblk) -> Result<Limits, Errno> {
    if crate::flags::has_bits(record.dqb_valid, QuotaValidFlags::blimits())
        && crate::units::is_countable_limit(record.dqb_bsoftlimit)
        && crate::units::is_countable_limit(record.dqb_bhardlimit) {
        Ok(
            Limits {
                soft: (record.dqb_bsoftlimit * crate::units::QUOTA_BLOCK_BYTES) as u64,
                hard: (record.dqb_bhardlimit * crate::units::QUOTA_BLOCK_BYTES) as u64,
            },
        )
    } else {
        Err(Errno::EINVAL)
    }
}

impl View for ProjectQuota {
    type V = Limits;

    closed spec fn view(&self) -> Limits {
        Limits { soft: self.soft_limit_bytes, hard: self.hard_limit_bytes }
    }
}

impl ProjectQuota {
    #[verifier::type_invariant]
    spec fn is_exact(self) -> bool {
        self@.are_exact()
    }

    /// Construct finite, exactly representable soft and hard byte limits.
    pub fn new(soft_limit_bytes: u64, hard_limit_bytes: u64) -> (r: Result<Self, Errno>)
        ensures
            crate::errno::viewed(r) == ({
                let limits = Limits { soft: soft_limit_bytes, hard: hard_limit_bytes };
                if limits.are_exact() {
                    Ok::<Limits, Errno>(limits)
                } else {
                    Err::<Limits, Errno>(Errno::EINVAL)
                }
            }),
            r is Ok <==> {
                &&& soft_limit_bytes != 0 && soft_limit_bytes % 1024 == 0
                &&& hard_limit_bytes != 0 && hard_limit_bytes % 1024 == 0
            },
    {
        match quota_blocks_from_bytes(soft_limit_bytes) {
            Ok(_) => {},
            Err(e) => return Err(e),
        }
        match quota_blocks_from_bytes(hard_limit_bytes) {
            Ok(_) => {},
            Err(e) => return Err(e),
        }
        Ok(ProjectQuota { soft_limit_bytes, hard_limit_bytes })
    }

    /// The finite soft limit in bytes.
    pub fn soft_limit_bytes(self) -> (r: u64)
        ensures
            r == self@.soft,
            crate::units::is_exact_limit(r),
    {
        proof {
            use_type_invariant(&self);
        }
        self.soft_limit_bytes
    }

    /// The finite hard limit in bytes.
    pub fn hard_limit_bytes(self) -> (r: u64)
        ensures
            r == self@.hard,
            crate::units::is_exact_limit(r),
    {
        proof {
            use_type_invariant(&self);
        }
        self.hard_limit_bytes
    }

    /// The limits that a quota record holds.
    pub fn from_dqblk(dqblk: &Dqblk) -> (r: Result<Self, Errno>)
        ensures
            crate::errno::viewed(r) == limits_of_record(dqblk.0),
    {
        proof {
            assert(0x3fu32 & 0x01u32 == 0x01u32) by (bit_vector);
            crate::flags::lemma_truncation_keeps_fields(
                dqblk.0.dqb_valid,
                QuotaValidFlags::blimits(),
            );
        }
        if !QuotaValidFlags::from_bits_truncate(dqblk.0.dqb_valid).contains(
            QuotaValidFlags::QIF_BLIMITS(),
        ) {
            return Err(Errno::EINVAL);
        }
        let soft: u64 = match quota_bytes_from_blocks(dqblk.0.dqb_bsoftlimit) {
            Ok(bytes) => bytes,
            Err(e) => return Err(e),
        };
        let hard: u64 = match quota_bytes_from_blocks(dqblk.0.dqb_bhardlimit) {
            Ok(bytes) => bytes,
            Err(e) => return Err(e),
        };
        ProjectQuota::new(soft, hard)
    }
}

/// What the kernel reports of a quota file as a whole.
#[derive(Clone, Copy, Debug, PartialEq, Eq, Structural, Hash)]
pub struct Dqinfo {
    /// Time before the block soft limit becomes a hard limit.
    pub dqi_bgrace: u64,
    /// Time before the inode soft limit becomes a hard limit.
    pub dqi_igrace: u64,
    /// Flags of the quota file.
    pub dqi_flags: u32,
    /// Which of the fields hold.
    pub dqi_valid: u32,
}

/// The bit of `dqi_valid` that says that the flags hold.
pub const IIF_FLAGS: u32 = 4;

/// Information returned by the active Linux project-quota interface.
#[derive(Clone, Copy, Debug, PartialEq, Eq, Structural, Hash)]
pub struct ProjectQuotaInfo {
    flags: u32,
}

impl View for ProjectQuotaInfo {
    type V = u32;

    /// The quota flags.
    closed spec fn view(&self) -> u32 {
        self.flags
    }
}

impl ProjectQuotaInfo {
    /// Filesystem-specific quota flags reported by `Q_GETINFO`.
    pub fn flags(self) -> (r: u32)
        ensures
            r == self@,
    {
        self.flags
    }
}

/// What the reply to `project_quota_active` says: the quota flags, or the kernel's error,
/// or `EINVAL` where the kernel succeeded without marking the flags as holding.
pub open spec fn active_info(ret: SyscallReturn, info: Dqinfo) -> Result<u32, Errno> {
    match crate::errno::syscall_done(ret) {
        Err(e) => Err(e),
        Ok(_) => if info.dqi_valid & IIF_FLAGS != 0 {
            Ok(info.dqi_flags)
        } else {
            Err(Errno::EINVAL)
        },
    }
}

/// Read the reply to the call of `project_quota_active`.
///
/// A successful `Q_GETINFO` with the flags validity bit proves that the kernel
/// has an active project-quota interface; it is not inferred
/// merely from the presence of a quota record.
pub fn project_quota_active_reply(ret: SyscallReturn, info: Dqinfo) -> (r: Result<
    ProjectQuotaInfo,
    Errno,
>)
    ensures
        crate::errno::viewed(r) == active_info(ret, info),
        r is Ok <==> ret.value != -1 && info.dqi_valid & 4 != 0,
        r matches Ok(active) ==> active@ == info.dqi_flags,
{
    match Errno::result(ret) {
        Ok(_) => {},
        Err(e) => return Err(e),
    }
    if info.dqi_valid & IIF_FLAGS == 0 {
        return Err(Errno::EINVAL);
    }
    Ok(ProjectQuotaInfo { flags: info.dqi_flags })
}

/// Read the reply to the call of `project_quota`.
pub fn project_quota_reply(ret: SyscallReturn, dqblk: RawDqblk) -> (r: Result<ProjectQuota, Errno>)
    ensures
        crate::errno::viewed(r) == (match crate::errno::syscall_done(ret) {
            Ok(_) => limits_of_record(dqblk),
            Err(e) => Err::<Limits, Errno>(e),
        }),
{
    match Errno::result(ret) {
        Ok(_) => ProjectQuota::from_dqblk(&Dqblk(dqblk)),
        Err(e) => Err(e),
    }
}

/// Project identifiers with the same number are the same identifier.
pub proof fn lemma_project_id_is_its_number(a: ProjectId, b: ProjectId)
    requires
        a@ == b@,
    ensures
        a == b,
{
}

/// Project attributes that say the same are the same attributes.
pub proof fn lemma_attributes_are_what_they_say(a: ProjectAttributes, b: ProjectAttributes)
    requires
        a@ == b@,
    ensures
        a == b,
{
}

/// Quotas with the same limits are the same quota.
pub proof fn lemma_quota_is_its_limits(a: ProjectQuota, b: ProjectQuota)
    requires
        a@ == b@,
    ensures
        a == b,
{
}

/// Information with the same flags is the same information.
pub proof fn lemma_info_is_its_flags(a: ProjectQuotaInfo, b: ProjectQuotaInfo)
    requires
        a@ == b@,
    ensures
        a == b,
{
}

/// Limits survive being stored: a record that holds the block limits in which exact limits
/// are written is read as those limits.
pub proof fn lemma_limits_survive_storage(limits: Limits, record: RawDqblk)
    requires
        limits.are_exact(),
        record.dqb_bsoftlimit == limits.as_record().dqb_bsoftlimit,
        record.dqb_bhardlimit == limits.as_record().dqb_bhardlimit,
        crate::flags::has_bits(record.dqb_valid, QuotaValidFlags::blimits()),
    ensures
        limits_of_record(record) == Ok::<Limits, Errno>(limits),
{
}

/// Whatever limits are read from a record are finite and exact, and are the record's own
/// when written in quota blocks again.
pub proof fn lemma_limits_read_are_exact(record: RawDqblk)
    requires
        limits_of_record(record) is Ok,
    ensures
        limits_of_record(record)->Ok_0.are_exact(),
        limits_of_record(record)->Ok_0.as_record().dqb_bsoftlimit == record.dqb_bsoftlimit,
        limits_of_record(record)->Ok_0.as_record().dqb_bhardlimit == record.dqb_bhardlimit,
{
}

/// A project identifier is handed to `quotactl` as the number it is.
pub proof fn lemma_project_id_is_not_reinterpreted(id: u32)
    requires
        is_project_id(id),
    ensures
        id as i32 == id,
{
}

} // verus!
