use quota::{
    quota_blocks_from_bytes, quota_bytes_from_blocks, Dqblk, Errno, ProjectId, ProjectQuota,
    QuotaValidFlags, RawDqblk,
};

#[test]
fn project_id_boundaries_are_checked() {
    assert_eq!(ProjectId::new(0).unwrap().as_u32(), 0);
    assert_eq!(
        ProjectId::new(libc::c_int::MAX as u32).unwrap().as_u32(),
        libc::c_int::MAX as u32
    );
    assert_eq!(
        ProjectId::new(libc::c_int::MAX as u32 + 1),
        Err(Errno::EINVAL)
    );
}

#[test]
fn project_id_above_int_is_never_reinterpreted() {
    assert_eq!(ProjectId::new(u32::MAX), Err(Errno::EINVAL));
    assert_eq!(ProjectId::new(1000).unwrap().as_u32() as i32, 1000);
}

#[test]
fn exact_quota_block_conversions() {
    let sixteen_gib = 16 * 1024 * 1024 * 1024;
    assert_eq!(quota_blocks_from_bytes(sixteen_gib), Ok(16_777_216));
    assert_eq!(quota_bytes_from_blocks(16_777_216), Ok(sixteen_gib));
    assert_eq!(quota_blocks_from_bytes(sixteen_gib - 1), Err(Errno::EINVAL));
    assert_eq!(quota_blocks_from_bytes(sixteen_gib + 1), Err(Errno::EINVAL));
    assert_eq!(quota_blocks_from_bytes(0), Err(Errno::EINVAL));
    assert_eq!(quota_bytes_from_blocks(0), Err(Errno::EINVAL));
    assert_eq!(quota_bytes_from_blocks(u64::MAX), Err(Errno::EINVAL));
}

#[test]
fn largest_convertible_limits() {
    let most_blocks: u64 = u64::MAX / 1024;
    assert_eq!(quota_bytes_from_blocks(most_blocks), Ok(most_blocks * 1024));
    assert_eq!(quota_bytes_from_blocks(most_blocks + 1), Err(Errno::EINVAL));
    assert_eq!(quota_blocks_from_bytes(most_blocks * 1024), Ok(most_blocks));
    assert_eq!(quota_blocks_from_bytes(u64::MAX), Err(Errno::EINVAL));
}

#[test]
fn project_quota_requires_limit_validity() {
    let dqblk = Dqblk::default();
    assert_eq!(ProjectQuota::from_dqblk(&dqblk), Err(Errno::EINVAL));
    let mut dqblk = Dqblk::default();
    dqblk.0.dqb_valid = QuotaValidFlags::QIF_BLIMITS().bits();
    dqblk.0.dqb_bsoftlimit = 1;
    dqblk.0.dqb_bhardlimit = 1;
    assert_eq!(
        ProjectQuota::from_dqblk(&dqblk).unwrap().soft_limit_bytes(),
        1024
    );
}

#[test]
fn record_limits_must_be_finite_and_countable() {
    let record = RawDqblk {
        dqb_bsoftlimit: 2,
        dqb_bhardlimit: 3,
        dqb_valid: libc::QIF_ALL,
        ..Dqblk::default().0
    };
    let quota = ProjectQuota::from_dqblk(&Dqblk(record)).unwrap();
    assert_eq!(quota.soft_limit_bytes(), 2048);
    assert_eq!(quota.hard_limit_bytes(), 3072);
    let unlimited_soft = RawDqblk { dqb_bsoftlimit: 0, ..record };
    assert_eq!(ProjectQuota::from_dqblk(&Dqblk(unlimited_soft)), Err(Errno::EINVAL));
    let unlimited_hard = RawDqblk { dqb_bhardlimit: 0, ..record };
    assert_eq!(ProjectQuota::from_dqblk(&Dqblk(unlimited_hard)), Err(Errno::EINVAL));
    let too_large = RawDqblk { dqb_bhardlimit: 1 << 54, ..record };
    assert_eq!(ProjectQuota::from_dqblk(&Dqblk(too_large)), Err(Errno::EINVAL));
    let inode_limits_only = RawDqblk { dqb_valid: libc::QIF_ILIMITS, ..record };
    assert_eq!(ProjectQuota::from_dqblk(&Dqblk(inode_limits_only)), Err(Errno::EINVAL));
}

#[test]
fn project_quota_accepts_only_exact_finite_limits() {
    let quota = ProjectQuota::new(8 * 1024 * 1024, 16 * 1024 * 1024).unwrap();
    assert_eq!(quota.soft_limit_bytes(), 8 * 1024 * 1024);
    assert_eq!(quota.hard_limit_bytes(), 16 * 1024 * 1024);
    assert_eq!(ProjectQuota::new(0, 1024), Err(Errno::EINVAL));
    assert_eq!(ProjectQuota::new(1024, 0), Err(Errno::EINVAL));
    assert_eq!(ProjectQuota::new(1025, 1024), Err(Errno::EINVAL));
    assert_eq!(ProjectQuota::new(1024, 1023), Err(Errno::EINVAL));
    assert!(ProjectQuota::new(2048, 1024).is_ok());
}
