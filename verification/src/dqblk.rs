//! The quota record.

use crate::flags::QuotaValidFlags;
use vstd::prelude::*;

verus! {

/// A quota record as the kernel keeps it: limits, usages and times, and the mask that says
/// which of them hold.
#[derive(Clone, Copy, Debug, PartialEq, Eq, Structural, Hash)]
pub struct RawDqblk {
    /// Absolute limit on disk quota blocks.
    pub dqb_bhardlimit: u64,
    /// Preferred limit on disk quota blocks.
    pub dqb_bsoftlimit: u64,
    /// Current occupied space, in bytes.
    pub dqb_curspace: u64,
    /// Maximum number of allocated inodes.
    pub dqb_ihardlimit: u64,
    /// Preferred inode limit.
    pub dqb_isoftlimit: u64,
    /// Current number of allocated inodes.
    pub dqb_curinodes: u64,
    /// Time limit for excessive disk use.
    pub dqb_btime: u64,
    /// Time limit for excessive files.
    pub dqb_itime: u64,
    /// Which of the fields hold.
    pub dqb_valid: u32,
}

/// A quota record whose fields are read only where they hold.
#[derive(Clone, Copy, Debug, PartialEq, Eq, Structural, Hash)]
pub struct Dqblk(pub RawDqblk);

/// The record in which every field is 0, and no field holds.
pub open spec fn empty_record() -> RawDqblk {
    RawDqblk {
        dqb_bhardlimit: 0,
        dqb_bsoftlimit: 0,
        dqb_curspace: 0,
        dqb_ihardlimit: 0,
        dqb_isoftlimit: 0,
        dqb_curinodes: 0,
        dqb_btime: 0,
        dqb_itime: 0,
        dqb_valid: 0,
    }
}

/// A field of a record: its value where the record says that the field holds.
pub open spec fn field_where_valid(record: RawDqblk, mask: u32, value: u64) -> Option<u64> {
    if crate::flags::has_bits(record.dqb_valid, mask) {
        Some(value)
    } else {
        None
    }
}

impl Default for Dqblk {
    /// The record in which every field is 0, and no field holds.
    fn default() -> (r: Dqblk)
        ensures
            r.0 == empty_record(),
    {
        Dqblk(
            RawDqblk {
                dqb_bhardlimit: 0,
                dqb_bsoftlimit: 0,
                dqb_curspace: 0,
                dqb_ihardlimit: 0,
                dqb_isoftlimit: 0,
                dqb_curinodes: 0,
                dqb_btime: 0,
                dqb_itime: 0,
                dqb_valid: 0,
            },
        )
    }
}

/// Everything that the readers of a record give out.
pub struct Readings {
    pub blocks_hard_limit: Option<u64>,
    pub blocks_soft_limit: Option<u64>,
    pub occupied_space: Option<u64>,
    pub inodes_hard_limit: Option<u64>,
    pub inodes_soft_limit: Option<u64>,
    pub allocated_inodes: Option<u64>,
    pub block_time_limit: Option<u64>,
    pub inode_time_limit: Option<u64>,
}

/// What each reader gives, and what each setter makes of a record.
impl Dqblk {
    pub open spec fn valid_blocks_hard_limit(self) -> Option<u64> {
        field_where_valid(self.0, QuotaValidFlags::blimits(), self.0.dqb_bhardlimit)
    }

    pub open spec fn valid_blocks_soft_limit(self) -> Option<u64> {
        field_where_valid(self.0, QuotaValidFlags::blimits(), self.0.dqb_bsoftlimit)
    }

    pub open spec fn valid_occupied_space(self) -> Option<u64> {
        field_where_valid(self.0, QuotaValidFlags::space(), self.0.dqb_curspace)
    }

    pub open spec fn valid_inodes_hard_limit(self) -> Option<u64> {
        field_where_valid(self.0, QuotaValidFlags::ilimits(), self.0.dqb_ihardlimit)
    }

    pub open spec fn valid_inodes_soft_limit(self) -> Option<u64> {
        field_where_valid(self.0, QuotaValidFlags::ilimits(), self.0.dqb_isoftlimit)
    }

    pub open spec fn valid_allocated_inodes(self) -> Option<u64> {
        field_where_valid(self.0, QuotaValidFlags::inodes(), self.0.dqb_curinodes)
    }

    pub open spec fn valid_block_time_limit(self) -> Option<u64> {
        field_where_valid(self.0, QuotaValidFlags::btime(), self.0.dqb_btime)
    }

    pub open spec fn valid_inode_time_limit(self) -> Option<u64> {
        field_where_valid(self.0, QuotaValidFlags::itime(), self.0.dqb_itime)
    }

    pub open spec fn readings(self) -> Readings {
        Readings {
            blocks_hard_limit: self.valid_blocks_hard_limit(),
            blocks_soft_limit: self.valid_blocks_soft_limit(),
            occupied_space: self.valid_occupied_space(),
            inodes_hard_limit: self.valid_inodes_hard_limit(),
            inodes_soft_limit: self.valid_inodes_soft_limit(),
            allocated_inodes: self.valid_allocated_inodes(),
            block_time_limit: self.valid_block_time_limit(),
            inode_time_limit: self.valid_inode_time_limit(),
        }
    }

    pub open spec fn with_blocks_hard_limit(self, limit: u64) -> Dqblk {
        Dqblk(RawDqblk { dqb_bhardlimit: limit, ..self.0 })
    }

    pub open spec fn with_blocks_soft_limit(self, limit: u64) -> Dqblk {
        Dqblk(RawDqblk { dqb_bsoftlimit: limit, ..self.0 })
    }

    pub open spec fn with_inodes_hard_limit(self, limit: u64) -> Dqblk {
        Dqblk(RawDqblk { dqb_ihardlimit: limit, ..self.0 })
    }

    pub open spec fn with_inodes_soft_limit(self, limit: u64) -> Dqblk {
        Dqblk(RawDqblk { dqb_isoftlimit: limit, ..self.0 })
    }

    pub open spec fn with_block_time_limit(self, limit: u64) -> Dqblk {
        Dqblk(RawDqblk { dqb_btime: limit, ..self.0 })
    }

    pub open spec fn with_inode_time_limit(self, limit: u64) -> Dqblk {
        Dqblk(RawDqblk { dqb_itime: limit, ..self.0 })
    }
}

impl Dqblk {
    /// The absolute limit on disk quota blocks allocated.
    pub fn blocks_hard_limit(&self) -> (r: Option<u64>)
        ensures
            r == self.valid_blocks_hard_limit(),
    {
        let valid_fields = QuotaValidFlags::from_bits_truncate(self.0.dqb_valid);
        proof {
            lemma_field_survives_truncation(self.0.dqb_valid, QuotaValidFlags::blimits());
        }
        if valid_fields.contains(QuotaValidFlags::QIF_BLIMITS()) {
            Some(self.0.dqb_bhardlimit)
        } else {
            None
        }
    }

    /// Set the absolute limit on disk quota blocks allocated.
    ///
    /// Whether the field holds stays as it was.
    pub fn set_blocks_hard_limit(&mut self, limit: u64)
        ensures
            *final(self) == old(self).with_blocks_hard_limit(limit),
            final(self).0 == (RawDqblk { dqb_bhardlimit: limit, ..old(self).0 }),
    {
        self.0.dqb_bhardlimit = limit;
    }

    /// Preferred limit on disk quota blocks
    pub fn blocks_soft_limit(&self) -> (r: Option<u64>)
        ensures
            r == self.valid_blocks_soft_limit(),
    {
        let valid_fields = QuotaValidFlags::from_bits_truncate(self.0.dqb_valid);
        proof {
            lemma_field_survives_truncation(self.0.dqb_valid, QuotaValidFlags::blimits());
        }
        if valid_fields.contains(QuotaValidFlags::QIF_BLIMITS()) {
            Some(self.0.dqb_bsoftlimit)
        } else {
            None
        }
    }

    /// Set the preferred limit on disk quota blocks allocated.
    ///
    /// Whether the field holds stays as it was.
    pub fn set_blocks_soft_limit(&mut self, limit: u64)
        ensures
            *final(self) == old(self).with_blocks_soft_limit(limit),
            final(self).0 == (RawDqblk { dqb_bsoftlimit: limit, ..old(self).0 }),
    {
        self.0.dqb_bsoftlimit = limit;
    }

    /// Current occupied space (bytes).
    pub fn occupied_space(&self) -> (r: Option<u64>)
        ensures
            r == self.valid_occupied_space(),
    {
        let valid_fields = QuotaValidFlags::from_bits_truncate(self.0.dqb_valid);
        proof {
            lemma_field_survives_truncation(self.0.dqb_valid, QuotaValidFlags::space());
        }
        if valid_fields.contains(QuotaValidFlags::QIF_SPACE()) {
            Some(self.0.dqb_curspace)
        } else {
            None
        }
    }

    /// Maximum number of allocated inodes.
    pub fn inodes_hard_limit(&self) -> (r: Option<u64>)
        ensures
            r == self.valid_inodes_hard_limit(),
    {
        let valid_fields = QuotaValidFlags::from_bits_truncate(self.0.dqb_valid);
        proof {
            lemma_field_survives_truncation(self.0.dqb_valid, QuotaValidFlags::ilimits());
        }
        if valid_fields.contains(QuotaValidFlags::QIF_ILIMITS()) {
            Some(self.0.dqb_ihardlimit)
        } else {
            None
        }
    }

    /// Set the maximum number of allocated inodes.
    ///
    /// Whether the field holds stays as it was.
    pub fn set_inodes_hard_limit(&mut self, limit: u64)
        ensures
            *final(self) == old(self).with_inodes_hard_limit(limit),
            final(self).0 == (RawDqblk { dqb_ihardlimit: limit, ..old(self).0 }),
    {
        self.0.dqb_ihardlimit = limit;
    }

    /// Preferred inode limit
    pub fn inodes_soft_limit(&self) -> (r: Option<u64>)
        ensures
            r == self.valid_inodes_soft_limit(),
    {
        let valid_fields = QuotaValidFlags::from_bits_truncate(self.0.dqb_valid);
        proof {
            lemma_field_survives_truncation(self.0.dqb_valid, QuotaValidFlags::ilimits());
        }
        if valid_fields.contains(QuotaValidFlags::QIF_ILIMITS()) {
            Some(self.0.dqb_isoftlimit)
        } else {
            None
        }
    }

    /// Set the preferred limit of allocated inodes.
    ///
    /// Whether the field holds stays as it was.
    pub fn set_inodes_soft_limit(&mut self, limit: u64)
        ensures
            *final(self) == old(self).with_inodes_soft_limit(limit),
            final(self).0 == (RawDqblk { dqb_isoftlimit: limit, ..old(self).0 }),
    {
        self.0.dqb_isoftlimit = limit;
    }

    /// Current number of allocated inodes.
    pub fn allocated_inodes(&self) -> (r: Option<u64>)
        ensures
            r == self.valid_allocated_inodes(),
    {
        let valid_fields = QuotaValidFlags::from_bits_truncate(self.0.dqb_valid);
        proof {
            lemma_field_survives_truncation(self.0.dqb_valid, QuotaValidFlags::inodes());
        }
        if valid_fields.contains(QuotaValidFlags::QIF_INODES()) {
            Some(self.0.dqb_curinodes)
        } else {
            None
        }
    }

    /// Time limit for excessive disk use.
    pub fn block_time_limit(&self) -> (r: Option<u64>)
        ensures
            r == self.valid_block_time_limit(),
    {
        let valid_fields = QuotaValidFlags::from_bits_truncate(self.0.dqb_valid);
        proof {
            lemma_field_survives_truncation(self.0.dqb_valid, QuotaValidFlags::btime());
        }
        if valid_fields.contains(QuotaValidFlags::QIF_BTIME()) {
            Some(self.0.dqb_btime)
        } else {
            None
        }
    }

    /// Set the time limit for excessive disk use.
    ///
    /// Whether the field holds stays as it was.
    pub fn set_block_time_limit(&mut self, limit: u64)
        ensures
            *final(self) == old(self).with_block_time_limit(limit),
            final(self).0 == (RawDqblk { dqb_btime: limit, ..old(self).0 }),
    {
        self.0.dqb_btime = limit;
    }

    /// Time limit for excessive files.
    pub fn inode_time_limit(&self) -> (r: Option<u64>)
        ensures
            r == self.valid_inode_time_limit(),
    {
        let valid_fields = QuotaValidFlags::from_bits_truncate(self.0.dqb_valid);
        proof {
            lemma_field_survives_truncation(self.0.dqb_valid, QuotaValidFlags::itime());
        }
        if valid_fields.contains(QuotaValidFlags::QIF_ITIME()) {
            Some(self.0.dqb_itime)
        } else {
            None
        }
    }

    /// Set the time limit for excessive files.
    ///
    /// Whether the field holds stays as it was.
    pub fn set_inode_time_limit(&mut self, limit: u64)
        ensures
            *final(self) == old(self).with_inode_time_limit(limit),
            final(self).0 == (RawDqblk { dqb_itime: limit, ..old(self).0 }),
    {
        self.0.dqb_itime = limit;
    }
}

/// Whether a field holds can be read off the mask without the bits that name no field.
proof fn lemma_field_survives_truncation(valid: u32, mask: u32)
    requires
        mask == QuotaValidFlags::blimits() || mask == QuotaValidFlags::space() || mask
            == QuotaValidFlags::ilimits() || mask == QuotaValidFlags::inodes() || mask
            == QuotaValidFlags::btime() || mask == QuotaValidFlags::itime(),
    ensures
        crate::flags::has_bits(valid & QuotaValidFlags::all_bits(), mask)
            == crate::flags::has_bits(valid, mask),
{
    assert(0x3fu32 & mask == mask) by (bit_vector)
        requires
            mask == 0x01 || mask == 0x02 || mask == 0x04 || mask == 0x08 || mask == 0x10 || mask
                == 0x20,
    ;
    crate::flags::lemma_truncation_keeps_fields(valid, mask);
}

/// A record in which no field is marked as holding gives out nothing.
pub proof fn lemma_unmarked_record_gives_nothing(record: Dqblk)
    requires
        record.0.dqb_valid == 0,
    ensures
        record.readings() == (Readings {
            blocks_hard_limit: None,
            blocks_soft_limit: None,
            occupied_space: None,
            inodes_hard_limit: None,
            inodes_soft_limit: None,
            allocated_inodes: None,
            block_time_limit: None,
            inode_time_limit: None,
        }),
{
    assert(forall|mask: u32| #[trigger] (0u32 & mask) == 0) by (bit_vector);
}

/// After `set_blocks_hard_limit`, a record gives out the new value where that field holds, and
/// nothing where it does not. Whatever else it gives out is unchanged.
pub proof fn lemma_read_after_set_blocks_hard_limit(record: Dqblk, limit: u64)
    ensures
        record.with_blocks_hard_limit(limit).readings() == (Readings {
            blocks_hard_limit: field_where_valid(record.0, QuotaValidFlags::blimits(), limit),
            ..record.readings()
        }),
{
}

/// After `set_blocks_soft_limit`, a record gives out the new value where that field holds, and
/// nothing where it does not. Whatever else it gives out is unchanged.
pub proof fn lemma_read_after_set_blocks_soft_limit(record: Dqblk, limit: u64)
    ensures
        record.with_blocks_soft_limit(limit).readings() == (Readings {
            blocks_soft_limit: field_where_valid(record.0, QuotaValidFlags::blimits(), limit),
            ..record.readings()
        }),
{
}

/// After `set_inodes_hard_limit`, a record gives out the new value where that field holds, and
/// nothing where it does not. Whatever else it gives out is unchanged.
pub proof fn lemma_read_after_set_inodes_hard_limit(record: Dqblk, limit: u64)
    ensures
        record.with_inodes_hard_limit(limit).readings() == (Readings {
            inodes_hard_limit: field_where_valid(record.0, QuotaValidFlags::ilimits(), limit),
            ..record.readings()
        }),
{
}

/// After `set_inodes_soft_limit`, a record gives out the new value where that field holds, and
/// nothing where it does not. Whatever else it gives out is unchanged.
pub proof fn lemma_read_after_set_inodes_soft_limit(record: Dqblk, limit: u64)
    ensures
        record.with_inodes_soft_limit(limit).readings() == (Readings {
            inodes_soft_limit: field_where_valid(record.0, QuotaValidFlags::ilimits(), limit),
            ..record.readings()
        }),
{
}

/// After `set_block_time_limit`, a record gives out the new value where that field holds, and
/// nothing where it does not. Whatever else it gives out is unchanged.
pub proof fn lemma_read_after_set_block_time_limit(record: Dqblk, limit: u64)
    ensures
        record.with_block_time_limit(limit).readings() == (Readings {
            block_time_limit: field_where_valid(record.0, QuotaValidFlags::btime(), limit),
            ..record.readings()
        }),
{
}

/// After `set_inode_time_limit`, a record gives out the new value where that field holds, and
/// nothing where it does not. Whatever else it gives out is unchanged.
pub proof fn lemma_read_after_set_inode_time_limit(record: Dqblk, limit: u64)
    ensures
        record.with_inode_time_limit(limit).readings() == (Readings {
            inode_time_limit: field_where_valid(record.0, QuotaValidFlags::itime(), limit),
            ..record.readings()
        }),
{
}

} // verus!
