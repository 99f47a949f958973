//! The validity mask of a quota record.

use crate::abi::validity_masks;
use vstd::prelude::*;

verus! {

/// Indicates the quota fields that are valid to read from.
#[derive(Clone, Copy, Debug, PartialEq, Eq, Structural, Hash, PartialOrd, Ord)]
pub struct QuotaValidFlags {
    bits: u32,
}

/// Does the mask `bits` have every bit of `mask`?
pub open spec fn has_bits(bits: u32, mask: u32) -> bool {
    bits & mask == mask
}

/// The masks of the parts of a record, and of groups of them.
impl QuotaValidFlags {
    pub open spec fn blimits() -> u32 {
        0x01
    }

    pub open spec fn space() -> u32 {
        0x02
    }

    pub open spec fn ilimits() -> u32 {
        0x04
    }

    pub open spec fn inodes() -> u32 {
        0x08
    }

    pub open spec fn btime() -> u32 {
        0x10
    }

    pub open spec fn itime() -> u32 {
        0x20
    }

    pub open spec fn all_bits() -> u32 {
        0x3f
    }
}

impl View for QuotaValidFlags {
    type V = u32;

    /// The bits of the mask.
    closed spec fn view(&self) -> u32 {
        self.bits
    }
}

#[allow(non_snake_case)]
impl QuotaValidFlags {
    /// The block hard & soft limit fields.
    pub fn QIF_BLIMITS() -> (r: Self)
        ensures
            r@ == Self::blimits(),
    {
        QuotaValidFlags { bits: validity_masks().blimits }
    }

    /// The current space field.
    pub fn QIF_SPACE() -> (r: Self)
        ensures
            r@ == Self::space(),
    {
        QuotaValidFlags { bits: validity_masks().space }
    }

    /// The inode hard & soft limit fields.
    pub fn QIF_ILIMITS() -> (r: Self)
        ensures
            r@ == Self::ilimits(),
    {
        QuotaValidFlags { bits: validity_masks().ilimits }
    }

    /// The current inodes field.
    pub fn QIF_INODES() -> (r: Self)
        ensures
            r@ == Self::inodes(),
    {
        QuotaValidFlags { bits: validity_masks().inodes }
    }

    /// The disk use time limit field.
    pub fn QIF_BTIME() -> (r: Self)
        ensures
            r@ == Self::btime(),
    {
        QuotaValidFlags { bits: validity_masks().btime }
    }

    /// The file quote time limit field.
    pub fn QIF_ITIME() -> (r: Self)
        ensures
            r@ == Self::itime(),
    {
        QuotaValidFlags { bits: validity_masks().itime }
    }

    /// All block & inode limits.
    pub fn QIF_LIMITS() -> (r: Self)
        ensures
            r@ == Self::blimits() | Self::ilimits(),
    {
        assert(0x05u32 == 0x01u32 | 0x04u32) by (bit_vector);
        QuotaValidFlags { bits: validity_masks().limits }
    }

    /// The space & inodes usage fields.
    pub fn QIF_USAGE() -> (r: Self)
        ensures
            r@ == Self::space() | Self::inodes(),
    {
        assert(0x0au32 == 0x02u32 | 0x08u32) by (bit_vector);
        QuotaValidFlags { bits: validity_masks().usage }
    }

    /// The time limit fields.
    pub fn QIF_TIMES() -> (r: Self)
        ensures
            r@ == Self::btime() | Self::itime(),
    {
        assert(0x30u32 == 0x10u32 | 0x20u32) by (bit_vector);
        QuotaValidFlags { bits: validity_masks().times }
    }

    /// All fields.
    pub fn QIF_ALL() -> (r: Self)
        ensures
            r@ == Self::all_bits(),
    {
        QuotaValidFlags { bits: validity_masks().all }
    }
}

impl Default for QuotaValidFlags {
    /// No field.
    fn default() -> (r: Self)
        ensures
            r@ == 0,
    {
        QuotaValidFlags { bits: 0 }
    }
}

impl QuotaValidFlags {
    /// The bits of the mask.
    pub fn bits(&self) -> (r: u32)
        ensures
            r == self@,
    {
        self.bits
    }

    /// The mask with exactly these bits, those that name no field included.
    pub fn from_bits_retain(bits: u32) -> (r: Self)
        ensures
            r@ == bits,
    {
        QuotaValidFlags { bits }
    }

    /// The mask with these bits, without those that name no field.
    pub fn from_bits_truncate(bits: u32) -> (r: Self)
        ensures
            r@ == bits & Self::all_bits(),
    {
        QuotaValidFlags { bits: bits & validity_masks().all }
    }

    /// Are all fields of `other` in this mask?
    pub fn contains(&self, other: Self) -> (r: bool)
        ensures
            r == has_bits(self@, other@),
    {
        self.bits & other.bits == other.bits
    }

    /// The fields of either mask.
    pub fn union(self, other: Self) -> (r: Self)
        ensures
            r@ == self@ | other@,
    {
        QuotaValidFlags { bits: self.bits | other.bits }
    }
}

/// Masks with the same bits are the same mask.
pub proof fn lemma_mask_is_its_bits(a: QuotaValidFlags, b: QuotaValidFlags)
    requires
        a@ == b@,
    ensures
        a == b,
{
}

/// Dropping the bits that name no field does not change which fields a mask has.
pub proof fn lemma_truncation_keeps_fields(bits: u32, mask: u32)
    requires
        has_bits(QuotaValidFlags::all_bits(), mask),
    ensures
        has_bits(bits & QuotaValidFlags::all_bits(), mask) == has_bits(bits, mask),
{
    assert(((bits & 0x3f) & mask == mask) == (bits & mask == mask)) by (bit_vector)
        requires
            0x3f & mask == mask,
    ;
}

/// A union has every field of either side.
pub proof fn lemma_union_has_both(bits1: u32, bits2: u32)
    ensures
        has_bits(bits1 | bits2, bits1),
        has_bits(bits1 | bits2, bits2),
{
    assert((bits1 | bits2) & bits1 == bits1) by (bit_vector);
    assert((bits1 | bits2) & bits2 == bits2) by (bit_vector);
}

} // verus!
