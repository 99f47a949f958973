//! Laws of limits: units, project identifiers, and project quotas.

use crate::dqblk::{Dqblk, RawDqblk};
use crate::errno::{Errno, SyscallReturn};
use crate::project::{
    project_quota_active_reply, project_quota_reply, Dqinfo, ProjectId, ProjectQuota,
    ProjectQuotaInfo,
};
use crate::units::{quota_blocks_from_bytes, quota_bytes_from_blocks};
use vstd::prelude::*;

verus! {

/// Bytes convert to the number of blocks of 1024 bytes that they make up exactly. Only zero
/// and what is no multiple of 1024 is refused.
pub proof fn law_blocks_from_bytes(bytes: u64, r: Result<u64, Errno>)
    requires
        call_ensures(quota_blocks_from_bytes, (bytes,), r),
    ensures
        call_requires(quota_blocks_from_bytes, (bytes,)),
        match r {
            Ok(blocks) => blocks >= 1 && blocks * 1024 == bytes,
            Err(e) => e == Errno::EINVAL && (bytes == 0 || bytes % 1024 != 0),
        },
{
}

/// Blocks convert to 1024 bytes each. Only zero and what makes up more bytes than 64 bits
/// count is refused.
pub proof fn law_bytes_from_blocks(blocks: u64, r: Result<u64, Errno>)
    requires
        call_ensures(quota_bytes_from_blocks, (blocks,), r),
    ensures
        call_requires(quota_bytes_from_blocks, (blocks,)),
        match r {
            Ok(bytes) => blocks >= 1 && bytes == blocks * 1024,
            Err(e) => e == Errno::EINVAL && (blocks == 0 || blocks * 1024
                > u64::MAX),
        },
{
}

/// Every finite number of blocks whose bytes can be counted converts to bytes and back.
pub proof fn law_conversions_are_inverse(
    blocks: u64,
    bytes: Result<u64, Errno>,
    back: Result<u64, Errno>,
)
    requires
        1 <= blocks <= u64::MAX / 1024,
        call_ensures(quota_bytes_from_blocks, (blocks,), bytes),
        call_ensures(quota_blocks_from_bytes, (bytes->Ok_0,), back),
    ensures
        bytes is Ok,
        back == Ok::<u64, Errno>(blocks),
{
}

/// Exactly the numbers up to the largest signed 32-bit integer are project identifiers, and
/// an identifier is the number that it was made from.
pub proof fn law_project_id(id: u32, r: Result<ProjectId, Errno>)
    requires
        call_ensures(ProjectId::new, (id,), r),
    ensures
        call_requires(ProjectId::new, (id,)),
        match r {
            Ok(project_id) => id <= 0x7fff_ffff && forall|n: u32| #[trigger]
                call_ensures(ProjectId::as_u32, (project_id,), n) ==> n == id,
            Err(e) => e == Errno::EINVAL && id > 0x7fff_ffff,
        },
{
}

/// No project identifier is above the largest signed 32-bit integer.
pub proof fn law_project_id_range(project_id: ProjectId, n: u32)
    requires
        call_ensures(ProjectId::as_u32, (project_id,), n),
    ensures
        call_requires(ProjectId::as_u32, (project_id,)),
        n <= 0x7fff_ffff,
{
}

/// A quota can be built from any two limits that are multiples of 1024 and not zero, however
/// large and in whatever order, and from no others. It has the limits that it was built from.
pub proof fn law_project_quota_new(soft: u64, hard: u64, r: Result<ProjectQuota, Errno>)
    requires
        call_ensures(ProjectQuota::new, (soft, hard), r),
    ensures
        call_requires(ProjectQuota::new, (soft, hard)),
        match r {
            Ok(quota) => {
                &&& soft != 0 && soft % 1024 == 0
                &&& hard != 0 && hard % 1024 == 0
                &&& forall|n: u64| #[trigger]
                    call_ensures(ProjectQuota::soft_limit_bytes, (quota,), n) ==> n == soft
                &&& forall|n: u64| #[trigger]
                    call_ensures(ProjectQuota::hard_limit_bytes, (quota,), n) ==> n == hard
            },
            Err(e) => e == Errno::EINVAL && (soft == 0 || soft % 1024 != 0 || hard == 0 || hard
                % 1024 != 0),
        },
{
}

/// Any two numbers of blocks whose bytes can be counted are the limits of a quota.
pub proof fn law_project_quota_of_blocks(
    soft_blocks: u64,
    hard_blocks: u64,
    r: Result<ProjectQuota, Errno>,
)
    requires
        1 <= soft_blocks <= u64::MAX / 1024,
        1 <= hard_blocks <= u64::MAX / 1024,
        call_ensures(
            ProjectQuota::new,
            ((1024 * soft_blocks) as u64, (1024 * hard_blocks) as u64),
            r,
        ),
    ensures
        r is Ok,
        forall|n: u64| #[trigger]
            call_ensures(ProjectQuota::soft_limit_bytes, (r->Ok_0,), n) ==> n == 1024
                * soft_blocks,
        forall|n: u64| #[trigger]
            call_ensures(ProjectQuota::hard_limit_bytes, (r->Ok_0,), n) ==> n == 1024
                * hard_blocks,
{
}

/// No quota has a limit that is zero or not a multiple of 1024.
pub proof fn law_project_quota_is_exact(quota: ProjectQuota, soft: u64, hard: u64)
    requires
        call_ensures(ProjectQuota::soft_limit_bytes, (quota,), soft),
        call_ensures(ProjectQuota::hard_limit_bytes, (quota,), hard),
    ensures
        call_requires(ProjectQuota::soft_limit_bytes, (quota,)),
        call_requires(ProjectQuota::hard_limit_bytes, (quota,)),
        soft != 0 && soft % 1024 == 0,
        hard != 0 && hard % 1024 == 0,
{
}

/// A record is read as a quota exactly if it marks its block limits, and both are finite and
/// make up a number of bytes that 64 bits count. The quota's limits are 1024 bytes for each
/// block of the record's; nothing else in the record matters.
pub proof fn law_quota_from_record(record: &Dqblk, r: Result<ProjectQuota, Errno>)
    requires
        call_ensures(ProjectQuota::from_dqblk, (record,), r),
    ensures
        call_requires(ProjectQuota::from_dqblk, (record,)),
        r is Ok <==> {
            &&& record.0.dqb_valid & 0x01 != 0
            &&& 1 <= record.0.dqb_bsoftlimit <= u64::MAX / 1024
            &&& 1 <= record.0.dqb_bhardlimit <= u64::MAX / 1024
        },
        match r {
            Ok(quota) => {
                &&& forall|n: u64| #[trigger]
                    call_ensures(ProjectQuota::soft_limit_bytes, (quota,), n) ==> n == 1024
                        * record.0.dqb_bsoftlimit
                &&& forall|n: u64| #[trigger]
                    call_ensures(ProjectQuota::hard_limit_bytes, (quota,), n) ==> n == 1024
                        * record.0.dqb_bhardlimit
            },
            Err(e) => e == Errno::EINVAL,
        },
{
    let valid = record.0.dqb_valid;
    assert((valid & 0x01 == 0x01) == (valid & 0x01 != 0)) by (bit_vector);
}

/// A failed reading of a project's quota gives the kernel's error, whatever the record holds;
/// a successful one gives what the record is read as.
pub proof fn law_project_quota_reply(
    ret: SyscallReturn,
    record: RawDqblk,
    r: Result<ProjectQuota, Errno>,
)
    requires
        call_ensures(project_quota_reply, (ret, record), r),
    ensures
        call_requires(project_quota_reply, (ret, record)),
        ret.value == -1 ==> r == Err::<ProjectQuota, Errno>(
            if ret.errno == 22 {
                Errno::EINVAL
            } else {
                Errno::Other(ret.errno)
            },
        ),
        ret.value != -1 ==> (r is Ok <==> {
            &&& record.dqb_valid & 0x01 != 0
            &&& 1 <= record.dqb_bsoftlimit <= u64::MAX / 1024
            &&& 1 <= record.dqb_bhardlimit <= u64::MAX / 1024
        }),
        match r {
            Ok(quota) => {
                &&& forall|n: u64| #[trigger]
                    call_ensures(ProjectQuota::soft_limit_bytes, (quota,), n) ==> n == 1024
                        * record.dqb_bsoftlimit
                &&& forall|n: u64| #[trigger]
                    call_ensures(ProjectQuota::hard_limit_bytes, (quota,), n) ==> n == 1024
                        * record.dqb_bhardlimit
            },
            Err(e) => ret.value != -1 ==> e == Errno::EINVAL,
        },
{
    let valid = record.dqb_valid;
    assert((valid & 0x01 == 0x01) == (valid & 0x01 != 0)) by (bit_vector);
}

/// Project quota is active exactly if the kernel succeeded and marked the flags, whatever
/// they are; the flags are then handed on. A failure gives the kernel's error.
pub proof fn law_project_quota_active_reply(
    ret: SyscallReturn,
    info: Dqinfo,
    r: Result<ProjectQuotaInfo, Errno>,
)
    requires
        call_ensures(project_quota_active_reply, (ret, info), r),
    ensures
        call_requires(project_quota_active_reply, (ret, info)),
        r is Ok <==> ret.value != -1 && info.dqi_valid & 4 != 0,
        match r {
            Ok(active) => forall|flags: u32| #[trigger]
                call_ensures(ProjectQuotaInfo::flags, (active,), flags) ==> flags
                    == info.dqi_flags,
            Err(e) => e == (if ret.value != -1 || ret.errno == 22 {
                Errno::EINVAL
            } else {
                Errno::Other(ret.errno)
            }),
        },
{
}

} // verus!
