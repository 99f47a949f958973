//! Verified logic for setting and reading Linux disk quotas of users, groups and
//! projects.
//!
//! The functions here decide which system call to make, what goes into it and what
//! its reply means; they make no system call themselves. Every call is a plain value
//! ([`QuotactlCall`], [`FsxattrCall`]) that the caller performs, and every reply is a
//! plain value that the caller hands back.
//!
//! - `errno`: error numbers, and the convention by which a system call reports one.
//! - `abi`: the numbers and encodings taken from the C library's headers.
//! - `command`: the `quotactl` command word.
//! - `flags`, `dqblk`: the quota record and its validity mask.
//! - `units`: exact conversion between bytes and quota blocks.
//! - `project`: project identifiers, attributes and limits.
//! - `ioctl`, `fsxattr`: request codes and the inode's project attributes.
//! - `call`: the `quotactl` calls.
//! - `qualification`: is a block device the one behind a directory?
//! - `laws`: what the operations are for.

mod abi;
pub mod call;
pub mod command;
pub mod dqblk;
pub mod errno;
pub mod flags;
pub mod fsxattr;
pub mod ioctl;
pub mod laws;
pub mod project;
pub mod qualification;
pub mod units;

pub use call::{
    nul_terminated, project_quota, project_quota_active, quotactl, quotactl_get,
    quotactl_get_reply, quotactl_off, quotactl_on, quotactl_reply, quotactl_set, quotactl_sync,
    set_project_quota, QuotactlAddr, QuotactlCall,
};
pub use command::{QuotaCmd, QuotaFmt, QuotaSubCmd, QuotaType};
pub use dqblk::{Dqblk, RawDqblk};
pub use errno::{Errno, SyscallReturn};
pub use flags::QuotaValidFlags;
pub use fsxattr::{
    fsgetxattr_code, fssetxattr_code, fsxattr_get, fsxattr_get_reply, fsxattr_requests,
    fsxattr_set, fsxattr_set_reply, set_project_attributes, set_project_values, Fsxattr,
    FsxattrCall, FsxattrRequests, FSXATTR_BYTES, FS_XFLAG_PROJINHERIT,
};
pub use ioctl::{IoctlDirection, IoctlLayout};
pub use project::{
    project_attributes, project_quota_active_reply, project_quota_reply, Dqinfo,
    ProjectAttributes, ProjectId, ProjectQuota, ProjectQuotaInfo,
};
pub use qualification::{validate_qualification_target_metadata, QualificationError};
pub use units::{quota_blocks_from_bytes, quota_bytes_from_blocks};
