//! Exact conversion between bytes and quota blocks.

use crate::errno::Errno;
use vstd::prelude::*;

verus! {

/// Linux measures quota block limits in units of this many bytes.
pub const QUOTA_BLOCK_BYTES: u64 = 1024;

/// Is this a finite limit that is a whole number of quota blocks? Zero is no finite limit:
/// it stands for an unlimited quota.
pub open spec fn is_exact_limit(bytes: u64) -> bool {
    bytes != 0 && bytes % QUOTA_BLOCK_BYTES == 0
}

/// Is this a finite limit in blocks whose bytes can be counted in 64 bits?
pub open spec fn is_countable_limit(blocks: u64) -> bool {
    blocks != 0 && blocks * QUOTA_BLOCK_BYTES <= u64::MAX
}

/// A byte limit in quota blocks.
pub open spec fn blocks_of_bytes(bytes: u64) -> Result<u64, Errno> {
    if is_exact_limit(bytes) {
        Ok(bytes / QUOTA_BLOCK_BYTES)
    } else {
        Err(Errno::EINVAL)
    }
}

/// A quota-block limit in bytes.
pub open spec fn bytes_of_blocks(blocks: u64) -> Result<u64, Errno> {
    if is_countable_limit(blocks) {
        Ok((blocks * QUOTA_BLOCK_BYTES) as u64)
    } else {
        Err(Errno::EINVAL)
    }
}

/// Convert a finite exact byte limit to Linux quota blocks.
pub fn quota_blocks_from_bytes(bytes: u64) -> (r: Result<u64, Errno>)
    ensures
        r == blocks_of_bytes(bytes),
{
    if bytes == 0 || bytes % QUOTA_BLOCK_BYTES != 0 {
        return Err(Errno::EINVAL);
    }
    Ok(bytes / QUOTA_BLOCK_BYTES)
}

/// Convert a finite Linux quota-block limit to exact bytes.
pub fn quota_bytes_from_blocks(blocks: u64) -> (r: Result<u64, Errno>)
    ensures
        r == bytes_of_blocks(blocks),
{
    if blocks == 0 {
        return Err(Errno::EINVAL);
    }
    blocks.checked_mul(QUOTA_BLOCK_BYTES).ok_or(Errno::EINVAL)
}

/// A byte limit that converts to blocks is that many blocks exactly, and converts back to
/// itself.
pub proof fn lemma_bytes_round_trip(bytes: u64)
    requires
        blocks_of_bytes(bytes) is Ok,
    ensures
        blocks_of_bytes(bytes)->Ok_0 * QUOTA_BLOCK_BYTES == bytes,
        bytes_of_blocks(blocks_of_bytes(bytes)->Ok_0) == Ok::<u64, Errno>(bytes),
{
}

/// A block limit that converts to bytes converts back to itself.
pub proof fn lemma_blocks_round_trip(blocks: u64)
    requires
        bytes_of_blocks(blocks) is Ok,
    ensures
        blocks_of_bytes(bytes_of_blocks(blocks)->Ok_0) == Ok::<u64, Errno>(blocks),
{
}

} // verus!
