use quota::{Dqblk, QuotaValidFlags, RawDqblk};

fn filled(valid: u32) -> Dqblk {
    Dqblk(RawDqblk {
        dqb_bhardlimit: 1,
        dqb_bsoftlimit: 2,
        dqb_curspace: 3,
        dqb_ihardlimit: 4,
        dqb_isoftlimit: 5,
        dqb_curinodes: 6,
        dqb_btime: 7,
        dqb_itime: 8,
        dqb_valid: valid,
    })
}

fn readings(dqblk: &Dqblk) -> [Option<u64>; 8] {
    [
        dqblk.blocks_hard_limit(),
        dqblk.blocks_soft_limit(),
        dqblk.occupied_space(),
        dqblk.inodes_hard_limit(),
        dqblk.inodes_soft_limit(),
        dqblk.allocated_inodes(),
        dqblk.block_time_limit(),
        dqblk.inode_time_limit(),
    ]
}

#[test]
fn default_record_is_zero_and_gives_nothing() {
    let dqblk = Dqblk::default();
    assert_eq!(readings(&dqblk), [None; 8]);
    assert_eq!(dqblk, Dqblk(RawDqblk { dqb_valid: 0, ..dqblk.0 }));
    assert_eq!(dqblk.0.dqb_bhardlimit, 0);
    assert_eq!(dqblk.0.dqb_itime, 0);
}

#[test]
fn each_field_is_given_where_its_bit_is_set() {
    assert_eq!(
        readings(&filled(libc::QIF_ALL)),
        [Some(1), Some(2), Some(3), Some(4), Some(5), Some(6), Some(7), Some(8)]
    );
    assert_eq!(
        readings(&filled(libc::QIF_BLIMITS)),
        [Some(1), Some(2), None, None, None, None, None, None]
    );
    assert_eq!(
        readings(&filled(libc::QIF_SPACE)),
        [None, None, Some(3), None, None, None, None, None]
    );
    assert_eq!(
        readings(&filled(libc::QIF_ILIMITS)),
        [None, None, None, Some(4), Some(5), None, None, None]
    );
    assert_eq!(
        readings(&filled(libc::QIF_INODES)),
        [None, None, None, None, None, Some(6), None, None]
    );
    assert_eq!(
        readings(&filled(libc::QIF_BTIME)),
        [None, None, None, None, None, None, Some(7), None]
    );
    assert_eq!(
        readings(&filled(libc::QIF_ITIME)),
        [None, None, None, None, None, None, None, Some(8)]
    );
}

#[test]
fn bits_that_name_no_field_do_not_matter() {
    assert_eq!(readings(&filled(!libc::QIF_ALL)), [None; 8]);
    assert_eq!(
        readings(&filled(0xffff_ff00 | libc::QIF_SPACE)),
        readings(&filled(libc::QIF_SPACE))
    );
}

#[test]
fn setters_change_one_field() {
    let mut dqblk = filled(libc::QIF_ALL);
    dqblk.set_blocks_hard_limit(10);
    assert_eq!(dqblk.0, RawDqblk { dqb_bhardlimit: 10, ..filled(libc::QIF_ALL).0 });
    assert_eq!(dqblk.blocks_hard_limit(), Some(10));
    dqblk.set_blocks_soft_limit(20);
    dqblk.set_inodes_hard_limit(40);
    dqblk.set_inodes_soft_limit(50);
    dqblk.set_block_time_limit(70);
    dqblk.set_inode_time_limit(80);
    assert_eq!(
        readings(&dqblk),
        [Some(10), Some(20), Some(3), Some(40), Some(50), Some(6), Some(70), Some(80)]
    );
}

#[test]
fn setting_a_field_does_not_mark_it() {
    let mut dqblk = Dqblk::default();
    dqblk.set_blocks_hard_limit(10000);
    assert_eq!(dqblk.blocks_hard_limit(), None);
    assert_eq!(dqblk.0.dqb_bhardlimit, 10000);
    assert_eq!(dqblk.0.dqb_valid, 0);
}

#[test]
fn masks_are_those_of_the_headers() {
    assert_eq!(QuotaValidFlags::QIF_BLIMITS().bits(), 1);
    assert_eq!(QuotaValidFlags::QIF_SPACE().bits(), 2);
    assert_eq!(QuotaValidFlags::QIF_ILIMITS().bits(), 4);
    assert_eq!(QuotaValidFlags::QIF_INODES().bits(), 8);
    assert_eq!(QuotaValidFlags::QIF_BTIME().bits(), 16);
    assert_eq!(QuotaValidFlags::QIF_ITIME().bits(), 32);
    assert_eq!(QuotaValidFlags::QIF_LIMITS().bits(), 5);
    assert_eq!(QuotaValidFlags::QIF_USAGE().bits(), 10);
    assert_eq!(QuotaValidFlags::QIF_TIMES().bits(), 48);
    assert_eq!(QuotaValidFlags::QIF_ALL().bits(), 63);
}

#[test]
fn masks_combine() {
    let limits = QuotaValidFlags::QIF_BLIMITS().union(QuotaValidFlags::QIF_ILIMITS());
    assert_eq!(limits, QuotaValidFlags::QIF_LIMITS());
    assert!(limits.contains(QuotaValidFlags::QIF_BLIMITS()));
    assert!(limits.contains(QuotaValidFlags::QIF_ILIMITS()));
    assert!(!limits.contains(QuotaValidFlags::QIF_USAGE()));
    assert!(!QuotaValidFlags::QIF_BLIMITS().contains(limits));
    assert!(QuotaValidFlags::default().contains(QuotaValidFlags::default()));
    assert_eq!(QuotaValidFlags::default().bits(), 0);
    assert_eq!(QuotaValidFlags::from_bits_truncate(0xffff_ffc1).bits(), 1);
    assert_eq!(QuotaValidFlags::from_bits_retain(0xffff_ffc1).bits(), 0xffff_ffc1);
}
