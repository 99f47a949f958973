//! Laws of the quota record and its validity mask.

use crate::dqblk::Dqblk;
use crate::flags::QuotaValidFlags;
use vstd::prelude::*;

verus! {

/// The bits of `QIF_BLIMITS`.
pub proof fn law_qif_blimits(flags: QuotaValidFlags, bits: u32)
    requires
        call_ensures(QuotaValidFlags::QIF_BLIMITS, (), flags),
        call_ensures(QuotaValidFlags::bits, (&flags,), bits),
    ensures
        call_requires(QuotaValidFlags::QIF_BLIMITS, ()),
        bits == 0x01,
{
}

/// The bits of `QIF_SPACE`.
pub proof fn law_qif_space(flags: QuotaValidFlags, bits: u32)
    requires
        call_ensures(QuotaValidFlags::QIF_SPACE, (), flags),
        call_ensures(QuotaValidFlags::bits, (&flags,), bits),
    ensures
        call_requires(QuotaValidFlags::QIF_SPACE, ()),
        bits == 0x02,
{
}

/// The bits of `QIF_ILIMITS`.
pub proof fn law_qif_ilimits(flags: QuotaValidFlags, bits: u32)
    requires
        call_ensures(QuotaValidFlags::QIF_ILIMITS, (), flags),
        call_ensures(QuotaValidFlags::bits, (&flags,), bits),
    ensures
        call_requires(QuotaValidFlags::QIF_ILIMITS, ()),
        bits == 0x04,
{
}

/// The bits of `QIF_INODES`.
pub proof fn law_qif_inodes(flags: QuotaValidFlags, bits: u32)
    requires
        call_ensures(QuotaValidFlags::QIF_INODES, (), flags),
        call_ensures(QuotaValidFlags::bits, (&flags,), bits),
    ensures
        call_requires(QuotaValidFlags::QIF_INODES, ()),
        bits == 0x08,
{
}

/// The bits of `QIF_BTIME`.
pub proof fn law_qif_btime(flags: QuotaValidFlags, bits: u32)
    requires
        call_ensures(QuotaValidFlags::QIF_BTIME, (), flags),
        call_ensures(QuotaValidFlags::bits, (&flags,), bits),
    ensures
        call_requires(QuotaValidFlags::QIF_BTIME, ()),
        bits == 0x10,
{
}

/// The bits of `QIF_ITIME`.
pub proof fn law_qif_itime(flags: QuotaValidFlags, bits: u32)
    requires
        call_ensures(QuotaValidFlags::QIF_ITIME, (), flags),
        call_ensures(QuotaValidFlags::bits, (&flags,), bits),
    ensures
        call_requires(QuotaValidFlags::QIF_ITIME, ()),
        bits == 0x20,
{
}

/// The bits of `QIF_LIMITS`.
pub proof fn law_qif_limits(flags: QuotaValidFlags, bits: u32)
    requires
        call_ensures(QuotaValidFlags::QIF_LIMITS, (), flags),
        call_ensures(QuotaValidFlags::bits, (&flags,), bits),
    ensures
        call_requires(QuotaValidFlags::QIF_LIMITS, ()),
        bits == 0x05,
{
    assert(0x01u32 | 0x04u32 == 0x05u32) by (bit_vector);
}

/// The bits of `QIF_USAGE`.
pub proof fn law_qif_usage(flags: QuotaValidFlags, bits: u32)
    requires
        call_ensures(QuotaValidFlags::QIF_USAGE, (), flags),
        call_ensures(QuotaValidFlags::bits, (&flags,), bits),
    ensures
        call_requires(QuotaValidFlags::QIF_USAGE, ()),
        bits == 0x0a,
{
    assert(0x02u32 | 0x08u32 == 0x0au32) by (bit_vector);
}

/// The bits of `QIF_TIMES`.
pub proof fn law_qif_times(flags: QuotaValidFlags, bits: u32)
    requires
        call_ensures(QuotaValidFlags::QIF_TIMES, (), flags),
        call_ensures(QuotaValidFlags::bits, (&flags,), bits),
    ensures
        call_requires(QuotaValidFlags::QIF_TIMES, ()),
        bits == 0x30,
{
    assert(0x10u32 | 0x20u32 == 0x30u32) by (bit_vector);
}

/// The bits of `QIF_ALL`.
pub proof fn law_qif_all(flags: QuotaValidFlags, bits: u32)
    requires
        call_ensures(QuotaValidFlags::QIF_ALL, (), flags),
        call_ensures(QuotaValidFlags::bits, (&flags,), bits),
    ensures
        call_requires(QuotaValidFlags::QIF_ALL, ()),
        bits == 0x3f,
{
}

/// The default mask has no bit.
pub proof fn law_default_mask(flags: QuotaValidFlags, bits: u32)
    requires
        call_ensures(<QuotaValidFlags as Default>::default, (), flags),
        call_ensures(QuotaValidFlags::bits, (&flags,), bits),
    ensures
        call_requires(<QuotaValidFlags as Default>::default, ()),
        bits == 0,
{
}

/// A mask made to retain bits has those bits.
pub proof fn law_retained_bits(given: u32, flags: QuotaValidFlags, bits: u32)
    requires
        call_ensures(QuotaValidFlags::from_bits_retain, (given,), flags),
        call_ensures(QuotaValidFlags::bits, (&flags,), bits),
    ensures
        call_requires(QuotaValidFlags::from_bits_retain, (given,)),
        call_requires(QuotaValidFlags::bits, (&flags,)),
        bits == given,
{
}

/// A truncated mask has the lowest six bits of those given, and no other.
pub proof fn law_truncated_bits(given: u32, flags: QuotaValidFlags, bits: u32)
    requires
        call_ensures(QuotaValidFlags::from_bits_truncate, (given,), flags),
        call_ensures(QuotaValidFlags::bits, (&flags,), bits),
    ensures
        call_requires(QuotaValidFlags::from_bits_truncate, (given,)),
        bits == given % 64,
{
    assert(given & 0x3f == given % 64) by (bit_vector);
}

/// One mask contains another exactly if no bit of the other is missing from it.
pub proof fn law_contains(
    a: &QuotaValidFlags,
    b: QuotaValidFlags,
    bits_a: u32,
    bits_b: u32,
    r: bool,
)
    requires
        call_ensures(QuotaValidFlags::bits, (a,), bits_a),
        call_ensures(QuotaValidFlags::bits, (&b,), bits_b),
        call_ensures(QuotaValidFlags::contains, (a, b), r),
    ensures
        call_requires(QuotaValidFlags::contains, (a, b)),
        r <==> bits_b & !bits_a == 0,
{
    assert((bits_a & bits_b == bits_b) == (bits_b & !bits_a == 0)) by (bit_vector);
}

/// A union has the bits of both masks, and no other.
pub proof fn law_union(
    a: QuotaValidFlags,
    b: QuotaValidFlags,
    bits_a: u32,
    bits_b: u32,
    r: QuotaValidFlags,
    bits: u32,
)
    requires
        call_ensures(QuotaValidFlags::bits, (&a,), bits_a),
        call_ensures(QuotaValidFlags::bits, (&b,), bits_b),
        call_ensures(QuotaValidFlags::union, (a, b), r),
        call_ensures(QuotaValidFlags::bits, (&r,), bits),
    ensures
        call_requires(QuotaValidFlags::union, (a, b)),
        bits == bits_a | bits_b,
{
}

proof fn lemma_single_bit(valid: u32, mask: u32)
    requires
        mask == 0x01 || mask == 0x02 || mask == 0x04 || mask == 0x08 || mask == 0x10 || mask
            == 0x20,
    ensures
        (valid & mask == mask) == (valid & mask != 0),
{
    assert((valid & mask == mask) == (valid & mask != 0)) by (bit_vector)
        requires
            mask == 0x01 || mask == 0x02 || mask == 0x04 || mask == 0x08 || mask == 0x10 || mask
                == 0x20,
    ;
}

/// In a fresh record every field is 0, the mask too.
pub proof fn law_fresh_record(r: Dqblk)
    requires
        call_ensures(<Dqblk as Default>::default, (), r),
    ensures
        call_requires(<Dqblk as Default>::default, ()),
        r.0.dqb_bhardlimit == 0,
        r.0.dqb_bsoftlimit == 0,
        r.0.dqb_curspace == 0,
        r.0.dqb_ihardlimit == 0,
        r.0.dqb_isoftlimit == 0,
        r.0.dqb_curinodes == 0,
        r.0.dqb_btime == 0,
        r.0.dqb_itime == 0,
        r.0.dqb_valid == 0,
{
}

/// `blocks_hard_limit` is `dqb_bhardlimit` exactly if bit 0 of the mask is set, whatever else the
/// record holds.
pub proof fn law_blocks_hard_limit(record: &Dqblk, r: Option<u64>)
    requires
        call_ensures(Dqblk::blocks_hard_limit, (record,), r),
    ensures
        call_requires(Dqblk::blocks_hard_limit, (record,)),
        record.0.dqb_valid & 0x01 != 0 ==> r == Some(record.0.dqb_bhardlimit),
        record.0.dqb_valid & 0x01 == 0 ==> r is None,
{
    lemma_single_bit(record.0.dqb_valid, 0x01);
}

/// `blocks_soft_limit` is `dqb_bsoftlimit` exactly if bit 0 of the mask is set, whatever else the
/// record holds.
pub proof fn law_blocks_soft_limit(record: &Dqblk, r: Option<u64>)
    requires
        call_ensures(Dqblk::blocks_soft_limit, (record,), r),
    ensures
        call_requires(Dqblk::blocks_soft_limit, (record,)),
        record.0.dqb_valid & 0x01 != 0 ==> r == Some(record.0.dqb_bsoftlimit),
        record.0.dqb_valid & 0x01 == 0 ==> r is None,
{
    lemma_single_bit(record.0.dqb_valid, 0x01);
}

/// `occupied_space` is `dqb_curspace` exactly if bit 1 of the mask is set, whatever else the
/// record holds.
pub proof fn law_occupied_space(record: &Dqblk, r: Option<u64>)
    requires
        call_ensures(Dqblk::occupied_space, (record,), r),
    ensures
        call_requires(Dqblk::occupied_space, (record,)),
        record.0.dqb_valid & 0x02 != 0 ==> r == Some(record.0.dqb_curspace),
        record.0.dqb_valid & 0x02 == 0 ==> r is None,
{
    lemma_single_bit(record.0.dqb_valid, 0x02);
}

/// `inodes_hard_limit` is `dqb_ihardlimit` exactly if bit 2 of the mask is set, whatever else the
/// record holds.
pub proof fn law_inodes_hard_limit(record: &Dqblk, r: Option<u64>)
    requires
        call_ensures(Dqblk::inodes_hard_limit, (record,), r),
    ensures
        call_requires(Dqblk::inodes_hard_limit, (record,)),
        record.0.dqb_valid & 0x04 != 0 ==> r == Some(record.0.dqb_ihardlimit),
        record.0.dqb_valid & 0x04 == 0 ==> r is None,
{
    lemma_single_bit(record.0.dqb_valid, 0x04);
}

/// `inodes_soft_limit` is `dqb_isoftlimit` exactly if bit 2 of the mask is set, whatever else the
/// record holds.
pub proof fn law_inodes_soft_limit(record: &Dqblk, r: Option<u64>)
    requires
        call_ensures(Dqblk::inodes_soft_limit, (record,), r),
    ensures
        call_requires(Dqblk::inodes_soft_limit, (record,)),
        record.0.dqb_valid & 0x04 != 0 ==> r == Some(record.0.dqb_isoftlimit),
        record.0.dqb_valid & 0x04 == 0 ==> r is None,
{
    lemma_single_bit(record.0.dqb_valid, 0x04);
}

/// `allocated_inodes` is `dqb_curinodes` exactly if bit 3 of the mask is set, whatever else the
/// record holds.
pub proof fn law_allocated_inodes(record: &Dqblk, r: Option<u64>)
    requires
        call_ensures(Dqblk::allocated_inodes, (record,), r),
    ensures
        call_requires(Dqblk::allocated_inodes, (record,)),
        record.0.dqb_valid & 0x08 != 0 ==> r == Some(record.0.dqb_curinodes),
        record.0.dqb_valid & 0x08 == 0 ==> r is None,
{
    lemma_single_bit(record.0.dqb_valid, 0x08);
}

/// `block_time_limit` is `dqb_btime` exactly if bit 4 of the mask is set, whatever else the
/// record holds.
pub proof fn law_block_time_limit(record: &Dqblk, r: Option<u64>)
    requires
        call_ensures(Dqblk::block_time_limit, (record,), r),
    ensures
        call_requires(Dqblk::block_time_limit, (record,)),
        record.0.dqb_valid & 0x10 != 0 ==> r == Some(record.0.dqb_btime),
        record.0.dqb_valid & 0x10 == 0 ==> r is None,
{
    lemma_single_bit(record.0.dqb_valid, 0x10);
}

/// `inode_time_limit` is `dqb_itime` exactly if bit 5 of the mask is set, whatever else the
/// record holds.
pub proof fn law_inode_time_limit(record: &Dqblk, r: Option<u64>)
    requires
        call_ensures(Dqblk::inode_time_limit, (record,), r),
    ensures
        call_requires(Dqblk::inode_time_limit, (record,)),
        record.0.dqb_valid & 0x20 != 0 ==> r == Some(record.0.dqb_itime),
        record.0.dqb_valid & 0x20 == 0 ==> r is None,
{
    lemma_single_bit(record.0.dqb_valid, 0x20);
}

/// `set_blocks_hard_limit` stores the limit in `dqb_bhardlimit`, on any record, marked or not,
/// and leaves every other field and the mask as they were.
pub proof fn law_set_blocks_hard_limit(record: &mut Dqblk, limit: u64)
    requires
        call_ensures(Dqblk::set_blocks_hard_limit, (record, limit), ()),
    ensures
        call_requires(Dqblk::set_blocks_hard_limit, (record, limit)),
        final(record).0.dqb_bhardlimit == limit,
        final(record).0.dqb_bsoftlimit == old(record).0.dqb_bsoftlimit,
        final(record).0.dqb_curspace == old(record).0.dqb_curspace,
        final(record).0.dqb_ihardlimit == old(record).0.dqb_ihardlimit,
        final(record).0.dqb_isoftlimit == old(record).0.dqb_isoftlimit,
        final(record).0.dqb_curinodes == old(record).0.dqb_curinodes,
        final(record).0.dqb_btime == old(record).0.dqb_btime,
        final(record).0.dqb_itime == old(record).0.dqb_itime,
        final(record).0.dqb_valid == old(record).0.dqb_valid,
{
}

/// `set_blocks_soft_limit` stores the limit in `dqb_bsoftlimit`, on any record, marked or not,
/// and leaves every other field and the mask as they were.
pub proof fn law_set_blocks_soft_limit(record: &mut Dqblk, limit: u64)
    requires
        call_ensures(Dqblk::set_blocks_soft_limit, (record, limit), ()),
    ensures
        call_requires(Dqblk::set_blocks_soft_limit, (record, limit)),
        final(record).0.dqb_bsoftlimit == limit,
        final(record).0.dqb_bhardlimit == old(record).0.dqb_bhardlimit,
        final(record).0.dqb_curspace == old(record).0.dqb_curspace,
        final(record).0.dqb_ihardlimit == old(record).0.dqb_ihardlimit,
        final(record).0.dqb_isoftlimit == old(record).0.dqb_isoftlimit,
        final(record).0.dqb_curinodes == old(record).0.dqb_curinodes,
        final(record).0.dqb_btime == old(record).0.dqb_btime,
        final(record).0.dqb_itime == old(record).0.dqb_itime,
        final(record).0.dqb_valid == old(record).0.dqb_valid,
{
}

/// `set_inodes_hard_limit` stores the limit in `dqb_ihardlimit`, on any record, marked or not,
/// and leaves every other field and the mask as they were.
pub proof fn law_set_inodes_hard_limit(record: &mut Dqblk, limit: u64)
    requires
        call_ensures(Dqblk::set_inodes_hard_limit, (record, limit), ()),
    ensures
        call_requires(Dqblk::set_inodes_hard_limit, (record, limit)),
        final(record).0.dqb_ihardlimit == limit,
        final(record).0.dqb_bhardlimit == old(record).0.dqb_bhardlimit,
        final(record).0.dqb_bsoftlimit == old(record).0.dqb_bsoftlimit,
        final(record).0.dqb_curspace == old(record).0.dqb_curspace,
        final(record).0.dqb_isoftlimit == old(record).0.dqb_isoftlimit,
        final(record).0.dqb_curinodes == old(record).0.dqb_curinodes,
        final(record).0.dqb_btime == old(record).0.dqb_btime,
        final(record).0.dqb_itime == old(record).0.dqb_itime,
        final(record).0.dqb_valid == old(record).0.dqb_valid,
{
}

/// `set_inodes_soft_limit` stores the limit in `dqb_isoftlimit`, on any record, marked or not,
/// and leaves every other field and the mask as they were.
pub proof fn law_set_inodes_soft_limit(record: &mut Dqblk, limit: u64)
    requires
        call_ensures(Dqblk::set_inodes_soft_limit, (record, limit), ()),
    ensures
        call_requires(Dqblk::set_inodes_soft_limit, (record, limit)),
        final(record).0.dqb_isoftlimit == limit,
        final(record).0.dqb_bhardlimit == old(record).0.dqb_bhardlimit,
        final(record).0.dqb_bsoftlimit == old(record).0.dqb_bsoftlimit,
        final(record).0.dqb_curspace == old(record).0.dqb_curspace,
        final(record).0.dqb_ihardlimit == old(record).0.dqb_ihardlimit,
        final(record).0.dqb_curinodes == old(record).0.dqb_curinodes,
        final(record).0.dqb_btime == old(record).0.dqb_btime,
        final(record).0.dqb_itime == old(record).0.dqb_itime,
        final(record).0.dqb_valid == old(record).0.dqb_valid,
{
}

/// `set_block_time_limit` stores the limit in `dqb_btime`, on any record, marked or not,
/// and leaves every other field and the mask as they were.
pub proof fn law_set_block_time_limit(record: &mut Dqblk, limit: u64)
    requires
        call_ensures(Dqblk::set_block_time_limit, (record, limit), ()),
    ensures
        call_requires(Dqblk::set_block_time_limit, (record, limit)),
        final(record).0.dqb_btime == limit,
        final(record).0.dqb_bhardlimit == old(record).0.dqb_bhardlimit,
        final(record).0.dqb_bsoftlimit == old(record).0.dqb_bsoftlimit,
        final(record).0.dqb_curspace == old(record).0.dqb_curspace,
        final(record).0.dqb_ihardlimit == old(record).0.dqb_ihardlimit,
        final(record).0.dqb_isoftlimit == old(record).0.dqb_isoftlimit,
        final(record).0.dqb_curinodes == old(record).0.dqb_curinodes,
        final(record).0.dqb_itime == old(record).0.dqb_itime,
        final(record).0.dqb_valid == old(record).0.dqb_valid,
{
}

/// `set_inode_time_limit` stores the limit in `dqb_itime`, on any record, marked or not,
/// and leaves every other field and the mask as they were.
pub proof fn law_set_inode_time_limit(record: &mut Dqblk, limit: u64)
    requires
        call_ensures(Dqblk::set_inode_time_limit, (record, limit), ()),
    ensures
        call_requires(Dqblk::set_inode_time_limit, (record, limit)),
        final(record).0.dqb_itime == limit,
        final(record).0.dqb_bhardlimit == old(record).0.dqb_bhardlimit,
        final(record).0.dqb_bsoftlimit == old(record).0.dqb_bsoftlimit,
        final(record).0.dqb_curspace == old(record).0.dqb_curspace,
        final(record).0.dqb_ihardlimit == old(record).0.dqb_ihardlimit,
        final(record).0.dqb_isoftlimit == old(record).0.dqb_isoftlimit,
        final(record).0.dqb_curinodes == old(record).0.dqb_curinodes,
        final(record).0.dqb_btime == old(record).0.dqb_btime,
        final(record).0.dqb_valid == old(record).0.dqb_valid,
{
}

} // verus!
