//! Numbers and encodings that the C library's Linux headers define.
//!
//! Every item of this module rests on the `libc` crate and is believed, not proved.

use crate::ioctl::{IoctlDirection, IoctlLayout};
use vstd::prelude::*;

verus! {

/// `libc::QCMD`: the command word of `quotactl`, with the sub-command above the low
/// byte and the quota type in it.
pub assume_specification[ libc::QCMD ](cmd: i32, type_: i32) -> (r: i32)
    ensures
        r == (cmd << 8) | (type_ & 0x00ff),
;

/// `libc::EINVAL`: the number of the error for an invalid argument.
#[verifier::external_body]
pub(crate) fn einval() -> (r: i32)
    ensures
        r == crate::errno::einval_number(),
{
    libc::EINVAL
}

/// The quota types that the C library numbers.
pub(crate) struct QuotaTypeNumbers {
    pub usrquota: i32,
    pub grpquota: i32,
}

/// `libc::USRQUOTA` and `libc::GRPQUOTA`: user quotas are 0 and group quotas 1.
#[verifier::external_body]
pub(crate) fn quota_type_numbers() -> (r: QuotaTypeNumbers)
    ensures
        r.usrquota == 0,
        r.grpquota == 1,
{
    QuotaTypeNumbers { usrquota: libc::USRQUOTA, grpquota: libc::GRPQUOTA }
}

/// The sub-commands of `quotactl`.
pub(crate) struct SubCommandNumbers {
    pub sync: i32,
    pub quotaon: i32,
    pub quotaoff: i32,
    pub getquota: i32,
    pub setquota: i32,
    pub getinfo: i32,
}

/// `libc::Q_SYNC`, `libc::Q_QUOTAON`, `libc::Q_QUOTAOFF`, `libc::Q_GETQUOTA`,
/// `libc::Q_SETQUOTA` and `libc::Q_GETINFO`: the numbers of the sub-commands.
#[verifier::external_body]
pub(crate) fn sub_command_numbers() -> (r: SubCommandNumbers)
    ensures
        r.sync == 0x800001,
        r.quotaon == 0x800002,
        r.quotaoff == 0x800003,
        r.getquota == 0x800007,
        r.setquota == 0x800008,
        r.getinfo == 0x800005,
{
    SubCommandNumbers {
        sync: libc::Q_SYNC,
        quotaon: libc::Q_QUOTAON,
        quotaoff: libc::Q_QUOTAOFF,
        getquota: libc::Q_GETQUOTA,
        setquota: libc::Q_SETQUOTA,
        getinfo: libc::Q_GETINFO,
    }
}

/// The quota file formats.
pub(crate) struct FormatNumbers {
    pub vfs_old: i32,
    pub vfs_v0: i32,
    pub vfs_v1: i32,
}

/// `libc::QFMT_VFS_OLD`, `libc::QFMT_VFS_V0` and `libc::QFMT_VFS_V1`: the numbers of the
/// formats.
#[verifier::external_body]
pub(crate) fn format_numbers() -> (r: FormatNumbers)
    ensures
        r.vfs_old == 1,
        r.vfs_v0 == 2,
        r.vfs_v1 == 4,
{
    FormatNumbers {
        vfs_old: libc::QFMT_VFS_OLD,
        vfs_v0: libc::QFMT_VFS_V0,
        vfs_v1: libc::QFMT_VFS_V1,
    }
}

/// The masks for the parts of a quota record.
pub(crate) struct ValidityMasks {
    pub blimits: u32,
    pub space: u32,
    pub ilimits: u32,
    pub inodes: u32,
    pub btime: u32,
    pub itime: u32,
    pub limits: u32,
    pub usage: u32,
    pub times: u32,
    pub all: u32,
}

/// `libc::QIF_BLIMITS`, `libc::QIF_SPACE`, `libc::QIF_ILIMITS`, `libc::QIF_INODES`,
/// `libc::QIF_BTIME` and `libc::QIF_ITIME`: one bit each, from the lowest up.
/// `libc::QIF_LIMITS`, `libc::QIF_USAGE`, `libc::QIF_TIMES` and `libc::QIF_ALL`: the unions
/// of the two limits, the two usages, the two times and of all six.
#[verifier::external_body]
pub(crate) fn validity_masks() -> (r: ValidityMasks)
    ensures
        r.blimits == 0x01,
        r.space == 0x02,
        r.ilimits == 0x04,
        r.inodes == 0x08,
        r.btime == 0x10,
        r.itime == 0x20,
        r.limits == 0x05,
        r.usage == 0x0a,
        r.times == 0x30,
        r.all == 0x3f,
{
    ValidityMasks {
        blimits: libc::QIF_BLIMITS,
        space: libc::QIF_SPACE,
        ilimits: libc::QIF_ILIMITS,
        inodes: libc::QIF_INODES,
        btime: libc::QIF_BTIME,
        itime: libc::QIF_ITIME,
        limits: libc::QIF_LIMITS,
        usage: libc::QIF_USAGE,
        times: libc::QIF_TIMES,
        all: libc::QIF_ALL,
    }
}

/// The codes of a request that reads an argument and of one that writes it.
pub(crate) struct RequestCodes {
    pub read: u32,
    pub write: u32,
}

/// `libc::_IOR` and `libc::_IOW`, for an argument of `N` bytes: the codes of the requests
/// `read_nr` and `write_nr` of group `ty`, both in the layout of the machine's architecture.
/// Which of the two layouts that is, is not said.
#[verifier::external_body]
pub(crate) fn request_codes<const N: usize>(ty: u32, read_nr: u32, write_nr: u32) -> (r:
    RequestCodes)
    requires
        ty <= 0xff,
        read_nr <= 0xff,
        write_nr <= 0xff,
        N <= 0x1fff,
    ensures
        exists|layout: IoctlLayout|
            {
                &&& r.read == #[trigger] layout.code(
                    IoctlDirection::Read,
                    ty as nat,
                    read_nr as nat,
                    N as nat,
                )
                &&& r.write == layout.code(
                    IoctlDirection::Write,
                    ty as nat,
                    write_nr as nat,
                    N as nat,
                )
            },
{
    RequestCodes {
        read: libc::_IOR::<[u8; N]>(ty, read_nr) as u32,
        write: libc::_IOW::<[u8; N]>(ty, write_nr) as u32,
    }
}

} // verus!
