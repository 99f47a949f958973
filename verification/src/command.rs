//! The command word of `quotactl`.

use crate::abi::{format_numbers, quota_type_numbers, sub_command_numbers};
use crate::errno::Errno;
use vstd::prelude::*;

verus! {

/// The scope of the quota.
#[non_exhaustive]
#[derive(Clone, Copy, Debug, PartialEq, Eq, Structural, Hash)]
pub enum QuotaType {
    /// Specify a user quota.
    USRQUOTA,
    /// Specify a group quota.
    GRPQUOTA,
    /// Specify a project quota.
    PRJQUOTA,
}

/// The number of `PRJQUOTA`, a Linux constant that the C library does not expose.
const PRJQUOTA_NUMBER: i32 = 2;

impl QuotaType {
    /// The number by which the kernel knows this scope.
    pub open spec fn number(self) -> i32 {
        match self {
            QuotaType::USRQUOTA => 0,
            QuotaType::GRPQUOTA => 1,
            QuotaType::PRJQUOTA => 2,
        }
    }

    /// The number by which the kernel knows this scope.
    pub fn as_raw(self) -> (r: i32)
        ensures
            r == self.number(),
    {
        match self {
            QuotaType::USRQUOTA => quota_type_numbers().usrquota,
            QuotaType::GRPQUOTA => quota_type_numbers().grpquota,
            QuotaType::PRJQUOTA => PRJQUOTA_NUMBER,
        }
    }
}

impl TryFrom<i32> for QuotaType {
    type Error = Errno;

    fn try_from(value: i32) -> (r: Result<Self, Errno>) {
        let numbers = quota_type_numbers();
        if value == numbers.usrquota {
            Ok(QuotaType::USRQUOTA)
        } else if value == numbers.grpquota {
            Ok(QuotaType::GRPQUOTA)
        } else if value == PRJQUOTA_NUMBER {
            Ok(QuotaType::PRJQUOTA)
        } else {
            Err(Errno::EINVAL)
        }
    }
}

impl vstd::std_specs::convert::TryFromSpecImpl<i32> for QuotaType {
    open spec fn obeys_try_from_spec() -> bool {
        true
    }

    /// The scope with that number, or `EINVAL` if none has it.
    open spec fn try_from_spec(value: i32) -> Result<Self, Errno> {
        if value == 0 {
            Ok(QuotaType::USRQUOTA)
        } else if value == 1 {
            Ok(QuotaType::GRPQUOTA)
        } else if value == 2 {
            Ok(QuotaType::PRJQUOTA)
        } else {
            Err(Errno::EINVAL)
        }
    }
}

/// The type of quota format to use, ordered by the kernel's numbers.
///
/// The number itself is what [`QuotaFmt::as_raw`] gives; a cast gives only the position in
/// this list.
#[allow(non_camel_case_types)]
#[non_exhaustive]
#[derive(Clone, Copy, Debug, PartialEq, Eq, Structural, Hash, PartialOrd, Ord)]
pub enum QuotaFmt {
    /// Use the original quota format.
    QFMT_VFS_OLD,
    /// Use the standard VFS v0 quota format.
    ///
    /// Handles 32-bit UIDs/GIDs and quota limits up to 2<sup>32</sup> bytes/2<sup>32</sup> inodes.
    QFMT_VFS_V0,
    /// Use the VFS v1 quota format.
    ///
    /// Handles 32-bit UIDs/GIDs and quota limits of 2<sup>64</sup> bytes/2<sup>64</sup> inodes.
    QFMT_VFS_V1,
}

impl QuotaFmt {
    /// The number by which the kernel knows this format.
    pub open spec fn number(self) -> i32 {
        match self {
            QuotaFmt::QFMT_VFS_OLD => 1,
            QuotaFmt::QFMT_VFS_V0 => 2,
            QuotaFmt::QFMT_VFS_V1 => 4,
        }
    }

    /// The number by which the kernel knows this format.
    pub fn as_raw(self) -> (r: i32)
        ensures
            r == self.number(),
    {
        let numbers = format_numbers();
        match self {
            QuotaFmt::QFMT_VFS_OLD => numbers.vfs_old,
            QuotaFmt::QFMT_VFS_V0 => numbers.vfs_v0,
            QuotaFmt::QFMT_VFS_V1 => numbers.vfs_v1,
        }
    }
}

/// What `quotactl` is asked to do, ordered by the kernel's numbers.
///
/// The number itself is what [`QuotaSubCmd::as_raw`] gives; a cast gives only the position
/// in this list.
#[allow(non_camel_case_types)]
#[derive(Clone, Copy, Debug, PartialEq, Eq, Structural, Hash, PartialOrd, Ord)]
pub enum QuotaSubCmd {
    /// Write the usages to disk.
    Q_SYNC,
    /// Turn quotas on.
    Q_QUOTAON,
    /// Turn quotas off.
    Q_QUOTAOFF,
    /// Read what holds of a quota file as a whole.
    Q_GETINFO,
    /// Read a quota record.
    Q_GETQUOTA,
    /// Write a quota record.
    Q_SETQUOTA,
}

impl QuotaSubCmd {
    /// The number by which the kernel knows this sub-command.
    pub open spec fn number(self) -> i32 {
        match self {
            QuotaSubCmd::Q_SYNC => 0x800001,
            QuotaSubCmd::Q_QUOTAON => 0x800002,
            QuotaSubCmd::Q_QUOTAOFF => 0x800003,
            QuotaSubCmd::Q_GETINFO => 0x800005,
            QuotaSubCmd::Q_GETQUOTA => 0x800007,
            QuotaSubCmd::Q_SETQUOTA => 0x800008,
        }
    }

    /// The number by which the kernel knows this sub-command.
    pub fn as_raw(self) -> (r: i32)
        ensures
            r == self.number(),
    {
        let numbers = sub_command_numbers();
        match self {
            QuotaSubCmd::Q_SYNC => numbers.sync,
            QuotaSubCmd::Q_QUOTAON => numbers.quotaon,
            QuotaSubCmd::Q_QUOTAOFF => numbers.quotaoff,
            QuotaSubCmd::Q_GETINFO => numbers.getinfo,
            QuotaSubCmd::Q_GETQUOTA => numbers.getquota,
            QuotaSubCmd::Q_SETQUOTA => numbers.setquota,
        }
    }
}

/// A sub-command together with the scope it is about.
#[derive(Clone, Copy, Debug, PartialEq, Eq, Structural, Hash)]
pub struct QuotaCmd(pub QuotaSubCmd, pub QuotaType);

impl QuotaCmd {
    /// The command word: the sub-command above the low byte, the scope in it.
    pub open spec fn word(self) -> i32 {
        (self.0.number() << 8) | self.1.number()
    }

    /// The command word.
    pub fn as_int(&self) -> (r: i32)
        ensures
            r == self.word(),
    {
        proof {
            lemma_scope_fits_its_byte(self.1.number());
        }
        libc::QCMD(self.0.as_raw(), self.1.as_raw())
    }
}

proof fn lemma_scope_fits_its_byte(scope: i32)
    requires
        0 <= scope <= 2,
    ensures
        scope & 0x00ff == scope,
{
    assert(scope & 0x00ff == scope) by (bit_vector)
        requires
            0 <= scope <= 2,
    ;
}

/// A command word holds both of its parts: the low byte is the scope, and the three bytes
/// above it are the sub-command.
pub proof fn lemma_command_word_holds_its_parts(cmd: QuotaCmd)
    ensures
        cmd.word() & 0xff == cmd.1.number(),
        (cmd.word() >> 8) & 0x00ff_ffff == cmd.0.number(),
{
    let sub = cmd.0.number();
    let scope = cmd.1.number();
    assert(((sub << 8) | scope) & 0xff == scope) by (bit_vector)
        requires
            0 <= sub <= 0x00ff_ffff,
            0 <= scope <= 2,
    ;
    assert((((sub << 8) | scope) >> 8) & 0x00ff_ffff == sub) by (bit_vector)
        requires
            0 <= sub <= 0x00ff_ffff,
            0 <= scope <= 2,
    ;
}

/// Different commands have different command words.
pub proof fn lemma_command_words_differ(cmd1: QuotaCmd, cmd2: QuotaCmd)
    requires
        cmd1.word() == cmd2.word(),
    ensures
        cmd1 == cmd2,
{
    lemma_command_word_holds_its_parts(cmd1);
    lemma_command_word_holds_its_parts(cmd2);
}

/// Reading a scope's number gives back the scope, and nothing else is read as one.
pub proof fn lemma_quota_type_round_trip(scope: QuotaType, value: i32)
    ensures
        <QuotaType as vstd::std_specs::convert::TryFromSpec<i32>>::try_from_spec(scope.number())
            == Ok::<QuotaType, Errno>(scope),
        <QuotaType as vstd::std_specs::convert::TryFromSpec<i32>>::try_from_spec(value)
            == Ok::<QuotaType, Errno>(scope) ==> value == scope.number(),
{
}

} // verus!
