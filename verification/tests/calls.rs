use quota::{
    nul_terminated, project_quota, project_quota_active, project_quota_active_reply,
    project_quota_reply, quotactl_get, quotactl_get_reply, quotactl_off, quotactl_on,
    quotactl_reply, quotactl_set, quotactl_sync, set_project_quota,
    validate_qualification_target_metadata, Dqblk, Dqinfo, Errno, ProjectId, ProjectQuota,
    QualificationError, QuotaCmd, QuotaFmt, QuotaSubCmd, QuotaType, QuotaValidFlags, QuotactlAddr,
    QuotactlCall, RawDqblk, SyscallReturn,
};

const SUCCESS: SyscallReturn = SyscallReturn { value: 0, errno: 0 };
const FAILURE: SyscallReturn = SyscallReturn { value: -1, errno: libc::ESRCH };

fn device() -> Option<Vec<u8>> {
    Some(b"/dev/sda1\0".to_vec())
}

#[test]
fn project_quota_command_uses_linux_project_selector() {
    assert_eq!(
        QuotaCmd(QuotaSubCmd::Q_GETQUOTA, QuotaType::PRJQUOTA).as_int(),
        libc::QCMD(libc::Q_GETQUOTA, 2),
    );
}

#[test]
fn command_words() {
    let subs = [
        (QuotaSubCmd::Q_SYNC, 0x8000_0100u32),
        (QuotaSubCmd::Q_QUOTAON, 0x8000_0200),
        (QuotaSubCmd::Q_QUOTAOFF, 0x8000_0300),
        (QuotaSubCmd::Q_GETINFO, 0x8000_0500),
        (QuotaSubCmd::Q_GETQUOTA, 0x8000_0700),
        (QuotaSubCmd::Q_SETQUOTA, 0x8000_0800),
    ];
    for (sub, word) in subs {
        assert_eq!(QuotaCmd(sub, QuotaType::USRQUOTA).as_int() as u32, word);
        assert_eq!(QuotaCmd(sub, QuotaType::GRPQUOTA).as_int() as u32, word + 1);
        assert_eq!(QuotaCmd(sub, QuotaType::PRJQUOTA).as_int() as u32, word + 2);
    }
}

#[test]
fn enumerations_are_ordered_by_their_numbers() {
    let subs = [
        QuotaSubCmd::Q_SYNC,
        QuotaSubCmd::Q_QUOTAON,
        QuotaSubCmd::Q_QUOTAOFF,
        QuotaSubCmd::Q_GETQUOTA,
        QuotaSubCmd::Q_SETQUOTA,
        QuotaSubCmd::Q_GETINFO,
    ];
    for a in subs {
        for b in subs {
            assert_eq!(a.cmp(&b), a.as_raw().cmp(&b.as_raw()));
        }
    }
    assert!(QuotaSubCmd::Q_GETINFO < QuotaSubCmd::Q_GETQUOTA);
    let formats = [QuotaFmt::QFMT_VFS_OLD, QuotaFmt::QFMT_VFS_V0, QuotaFmt::QFMT_VFS_V1];
    for a in formats {
        for b in formats {
            assert_eq!(a.cmp(&b), a.as_raw().cmp(&b.as_raw()));
        }
    }
}

#[test]
fn quota_types_are_read_from_their_numbers() {
    assert_eq!(QuotaType::try_from(libc::USRQUOTA), Ok(QuotaType::USRQUOTA));
    assert_eq!(QuotaType::try_from(libc::GRPQUOTA), Ok(QuotaType::GRPQUOTA));
    assert_eq!(QuotaType::try_from(2), Ok(QuotaType::PRJQUOTA));
    assert_eq!(QuotaType::try_from(3), Err(Errno::EINVAL));
    assert_eq!(QuotaType::try_from(-1), Err(Errno::EINVAL));
    assert_eq!(QuotaType::USRQUOTA.as_raw(), 0);
    assert_eq!(QuotaType::GRPQUOTA.as_raw(), 1);
    assert_eq!(QuotaType::PRJQUOTA.as_raw(), 2);
}

#[test]
fn quota_formats_have_their_numbers() {
    assert_eq!(QuotaFmt::QFMT_VFS_OLD.as_raw(), 1);
    assert_eq!(QuotaFmt::QFMT_VFS_V0.as_raw(), 2);
    assert_eq!(QuotaFmt::QFMT_VFS_V1.as_raw(), 4);
}

#[test]
fn error_numbers_are_kept() {
    assert_eq!(Errno::from_raw(libc::EINVAL), Errno::EINVAL);
    assert_eq!(Errno::EINVAL.as_raw(), 22);
    assert_eq!(Errno::from_raw(libc::EDQUOT), Errno::Other(libc::EDQUOT));
    assert_eq!(Errno::from_raw(libc::EDQUOT).as_raw(), libc::EDQUOT);
    assert_eq!(Errno::result(SyscallReturn { value: 5, errno: 9 }), Ok(5));
    assert_eq!(Errno::result(FAILURE), Err(Errno::Other(libc::ESRCH)));
    assert_eq!(
        Errno::result(SyscallReturn { value: -1, errno: libc::EINVAL }),
        Err(Errno::EINVAL)
    );
}

#[test]
fn paths_are_nul_terminated() {
    assert_eq!(nul_terminated(b"aquota.user"), Ok(b"aquota.user\0".to_vec()));
    assert_eq!(nul_terminated(b""), Ok(vec![0]));
    assert_eq!(nul_terminated(b"a\0b"), Err(Errno::EINVAL));
    assert_eq!(nul_terminated(b"a\0"), Err(Errno::EINVAL));
}

#[test]
fn enabling_and_setting_a_quota() {
    let on = quotactl_on(
        QuotaType::USRQUOTA,
        b"/dev/sda1",
        QuotaFmt::QFMT_VFS_V1,
        b"aquota.user",
    );
    assert_eq!(
        on,
        Ok(QuotactlCall {
            cmd: libc::QCMD(libc::Q_QUOTAON, libc::USRQUOTA),
            special: device(),
            id: libc::QFMT_VFS_V1,
            addr: QuotactlAddr::QuotaFile(b"aquota.user\0".to_vec()),
        })
    );
    let mut dqblk: Dqblk = Default::default();
    dqblk.set_blocks_hard_limit(10000);
    dqblk.set_blocks_soft_limit(8000);
    let set = quotactl_set(
        QuotaType::USRQUOTA,
        b"/dev/sda1",
        50,
        &dqblk,
        QuotaValidFlags::QIF_BLIMITS(),
    );
    assert_eq!(
        set,
        Ok(QuotactlCall {
            cmd: libc::QCMD(libc::Q_SETQUOTA, libc::USRQUOTA),
            special: device(),
            id: 50,
            addr: QuotactlAddr::Dqblk(RawDqblk {
                dqb_bhardlimit: 10000,
                dqb_bsoftlimit: 8000,
                dqb_valid: libc::QIF_BLIMITS,
                ..Dqblk::default().0
            }),
        })
    );
}

#[test]
fn set_replaces_the_mask_of_the_record() {
    let mut dqblk = Dqblk::default();
    dqblk.0.dqb_valid = libc::QIF_ALL;
    dqblk.set_inodes_hard_limit(9);
    let call = quotactl_set(
        QuotaType::GRPQUOTA,
        b"/dev/sda1",
        -1,
        &dqblk,
        QuotaValidFlags::QIF_ILIMITS(),
    )
    .unwrap();
    match call.addr {
        QuotactlAddr::Dqblk(record) => {
            assert_eq!(Dqblk(record).inodes_hard_limit(), Some(9));
            assert_eq!(Dqblk(record).blocks_hard_limit(), None);
            assert_eq!(record.dqb_valid, libc::QIF_ILIMITS);
        }
        _ => panic!("no record"),
    }
    assert_eq!(call.id, -1);
    assert_eq!(dqblk.0.dqb_valid, libc::QIF_ALL);
}

#[test]
fn turning_off_syncing_and_getting() {
    assert_eq!(
        quotactl_off(QuotaType::GRPQUOTA, b"/dev/sda1"),
        Ok(QuotactlCall {
            cmd: libc::QCMD(libc::Q_QUOTAOFF, libc::GRPQUOTA),
            special: device(),
            id: 0,
            addr: QuotactlAddr::Null,
        })
    );
    assert_eq!(
        quotactl_sync(QuotaType::USRQUOTA, Some(b"/dev/sda1")),
        Ok(QuotactlCall {
            cmd: libc::QCMD(libc::Q_SYNC, libc::USRQUOTA),
            special: device(),
            id: 0,
            addr: QuotactlAddr::Null,
        })
    );
    assert_eq!(
        quotactl_sync(QuotaType::USRQUOTA, None),
        Ok(QuotactlCall {
            cmd: libc::QCMD(libc::Q_SYNC, libc::USRQUOTA),
            special: None,
            id: 0,
            addr: QuotactlAddr::Null,
        })
    );
    assert_eq!(
        quotactl_get(QuotaType::USRQUOTA, b"/dev/sda1", 1000),
        Ok(QuotactlCall {
            cmd: libc::QCMD(libc::Q_GETQUOTA, libc::USRQUOTA),
            special: device(),
            id: 1000,
            addr: QuotactlAddr::DqblkRoom,
        })
    );
}

#[test]
fn paths_with_a_nul_are_invalid() {
    let bad: &[u8] = b"/dev/\0sda1";
    let id = ProjectId::new(1).unwrap();
    let quota = ProjectQuota::new(1024, 1024).unwrap();
    let user = QuotaType::USRQUOTA;
    let format = QuotaFmt::QFMT_VFS_OLD;
    let fields = QuotaValidFlags::QIF_ALL();
    assert_eq!(quotactl_on(user, bad, format, b"f"), Err(Errno::EINVAL));
    assert_eq!(quotactl_on(user, b"d", format, bad), Err(Errno::EINVAL));
    assert_eq!(quotactl_off(user, bad), Err(Errno::EINVAL));
    assert_eq!(quotactl_sync(user, Some(bad)), Err(Errno::EINVAL));
    assert_eq!(quotactl_get(user, bad, 0), Err(Errno::EINVAL));
    assert_eq!(quotactl_set(user, bad, 0, &Dqblk::default(), fields), Err(Errno::EINVAL));
    assert_eq!(project_quota_active(bad), Err(Errno::EINVAL));
    assert_eq!(project_quota(bad, id), Err(Errno::EINVAL));
    assert_eq!(set_project_quota(bad, id, quota), Err(Errno::EINVAL));
}

#[test]
fn replies_to_quotactl() {
    let record = RawDqblk { dqb_curspace: 5, dqb_valid: libc::QIF_ALL, ..Dqblk::default().0 };
    assert_eq!(quotactl_reply(SUCCESS), Ok(()));
    assert_eq!(quotactl_reply(FAILURE), Err(Errno::Other(libc::ESRCH)));
    assert_eq!(quotactl_get_reply(SUCCESS, record), Ok(Dqblk(record)));
    assert_eq!(quotactl_get_reply(FAILURE, record), Err(Errno::Other(libc::ESRCH)));
}

#[test]
fn active_project_quota_needs_the_flags_bit() {
    assert_eq!(
        project_quota_active(b"/dev/sda1"),
        Ok(QuotactlCall {
            cmd: libc::QCMD(libc::Q_GETINFO, 2),
            special: device(),
            id: 0,
            addr: QuotactlAddr::DqinfoRoom,
        })
    );
    let info = Dqinfo { dqi_bgrace: 1, dqi_igrace: 2, dqi_flags: 0x1_0000, dqi_valid: 7 };
    assert_eq!(project_quota_active_reply(SUCCESS, info).unwrap().flags(), 0x1_0000);
    let unmarked = Dqinfo { dqi_valid: 3, ..info };
    assert_eq!(project_quota_active_reply(SUCCESS, unmarked), Err(Errno::EINVAL));
    assert_eq!(
        project_quota_active_reply(FAILURE, info),
        Err(Errno::Other(libc::ESRCH))
    );
}

#[test]
fn project_limits_read_back_after_they_are_set() {
    let id = ProjectId::new(1000).unwrap();
    let quota = ProjectQuota::new(8 * 1024 * 1024, 16 * 1024 * 1024).unwrap();
    let set = set_project_quota(b"/dev/sda1", id, quota).unwrap();
    let written = RawDqblk {
        dqb_bsoftlimit: 8192,
        dqb_bhardlimit: 16384,
        dqb_valid: libc::QIF_BLIMITS,
        ..Dqblk::default().0
    };
    assert_eq!(
        set,
        QuotactlCall {
            cmd: libc::QCMD(libc::Q_SETQUOTA, 2),
            special: device(),
            id: 1000,
            addr: QuotactlAddr::Dqblk(written),
        }
    );
    let get = project_quota(b"/dev/sda1", id).unwrap();
    assert_eq!(
        get,
        QuotactlCall {
            cmd: libc::QCMD(libc::Q_GETQUOTA, 2),
            special: device(),
            id: 1000,
            addr: QuotactlAddr::DqblkRoom,
        }
    );
    let read = RawDqblk { dqb_curspace: 77, dqb_valid: libc::QIF_ALL, ..written };
    assert_eq!(project_quota_reply(SUCCESS, read), Ok(quota));
    assert_eq!(project_quota_reply(FAILURE, read), Err(Errno::Other(libc::ESRCH)));
    assert_eq!(project_quota_reply(SUCCESS, Dqblk::default().0), Err(Errno::EINVAL));
}

#[test]
fn largest_project_id_is_handed_over_as_it_is() {
    let id = ProjectId::new(i32::MAX as u32).unwrap();
    assert_eq!(project_quota(b"d", id).unwrap().id, i32::MAX);
}

#[test]
fn qualification_target_metadata_is_checked() {
    assert!(validate_qualification_target_metadata(true, 1, 2).is_err());
    assert_eq!(
        validate_qualification_target_metadata(true, 1, 2),
        Err(QualificationError::OtherDevice)
    );
    assert_eq!(
        validate_qualification_target_metadata(false, 1, 1),
        Err(QualificationError::NotBlockSpecial)
    );
    assert_eq!(
        validate_qualification_target_metadata(false, 1, 2),
        Err(QualificationError::NotBlockSpecial)
    );
    assert_eq!(validate_qualification_target_metadata(true, 3, 3), Ok(()));
    assert_eq!(
        QualificationError::NotBlockSpecial.message(),
        "project-quota device must be block-special"
    );
    assert_eq!(
        QualificationError::OtherDevice.message(),
        "project-quota device does not back the qualification directory"
    );
}
