//! Where the regions of the volume lie, computed from the superblocks.

use vstd::arithmetic::mul::lemma_mul_inequality;
use vstd::arithmetic::power2::pow2;
use vstd::bits::lemma_u64_pow2_no_overflow;
use vstd::bits::lemma_u64_shl_is_mul;
use vstd::prelude::*;

use crate::superblock::ExtendedSuperBlockView;
use crate::superblock::Vdfs4ExtendedSuperBlock;

verus! {

/// A run of blocks.
#[derive(Clone, Copy, Debug, PartialEq, Eq, Structural)]
pub struct Extent {
    pub start_block: u64,
    pub length_blocks: u64,
}

/// The byte offsets of the regions that decoding visits.
#[derive(Clone, Copy, Debug, PartialEq, Eq, Structural)]
pub struct Layout {
    /// Start of the tables region.
    pub tables_offset: u64,
    /// Start of the B-trees region.
    pub btrees_offset: u64,
    /// End of the B-trees region, the first byte past it.
    pub btrees_end_offset: u64,
}

/// The block size in bytes for a given base-two logarithm, where it fits in
/// 64 bits.
pub fn block_size(log_block_size: u8) -> (r: Option<u64>)
    ensures
        match r {
            Some(size) => log_block_size < 64 && size == pow2(log_block_size as nat),
            None => log_block_size >= 64,
        },
{
    if log_block_size >= 64 {
        return None;
    }
    let shift: u64 = log_block_size as u64;
    proof {
        lemma_u64_pow2_no_overflow(shift as nat);
        lemma_u64_shl_is_mul(1u64, shift);
    }
    Some(1u64 << shift)
}

impl ExtendedSuperBlockView {
    /// Whether every offset of the layout fits in 64 bits.
    pub open spec fn locatable(&self, block_size: u64) -> bool {
        &&& self.tables_start_block * block_size <= u64::MAX
        &&& self.btrees_start_block + self.btrees_lenght_blocks <= u64::MAX
        &&& (self.btrees_start_block + self.btrees_lenght_blocks) * block_size <= u64::MAX
    }

    /// Offset of the tables region.
    pub open spec fn tables_offset(&self, block_size: u64) -> int {
        self.tables_start_block * block_size
    }

    /// Offset of the B-trees region.
    pub open spec fn btrees_offset(&self, block_size: u64) -> int {
        self.btrees_start_block * block_size
    }

    /// Offset of the end of the B-trees region.
    pub open spec fn btrees_end_offset(&self, block_size: u64) -> int {
        (self.btrees_start_block + self.btrees_lenght_blocks) * block_size
    }
}

/// Computes the offsets of the tables region and of the B-trees region: a
/// start block, or a start block plus a length, times the block size. There
/// is no layout where one of them does not fit in 64 bits.
pub fn locate(exsb: &Vdfs4ExtendedSuperBlock, block_size: u64) -> (r: Option<Layout>)
    ensures
        match r {
            Some(layout) => {
                &&& exsb@.locatable(block_size)
                &&& layout.tables_offset == exsb@.tables_offset(block_size)
                &&& layout.btrees_offset == exsb@.btrees_offset(block_size)
                &&& layout.btrees_end_offset == exsb@.btrees_end_offset(block_size)
                &&& layout.btrees_offset <= layout.btrees_end_offset
            },
            None => !exsb@.locatable(block_size),
        },
{
    let tables_offset: u64 = match exsb.tables_start_block.checked_mul(block_size) {
        Some(v) => v,
        None => { return None; },
    };
    let end_block: u64 = match exsb.btrees_start_block.checked_add(exsb.btrees_lenght_blocks) {
        Some(v) => v,
        None => { return None; },
    };
    let btrees_end_offset: u64 = match end_block.checked_mul(block_size) {
        Some(v) => v,
        None => { return None; },
    };
    proof {
        lemma_mul_inequality(
            exsb.btrees_start_block as int,
            end_block as int,
            block_size as int,
        );
    }
    let btrees_offset: u64 = exsb.btrees_start_block * block_size;
    Some(Layout { tables_offset, btrees_offset, btrees_end_offset })
}

impl Vdfs4ExtendedSuperBlock {
    /// The extent of the volume.
    pub fn volume_extent(&self) -> (e: Extent)
        ensures
            e.start_block == self.volume_start_block,
            e.length_blocks == self.volume_lenght_blocks,
    {
        Extent { start_block: self.volume_start_block, length_blocks: self.volume_lenght_blocks }
    }

    /// The extent of the debug area.
    pub fn debug_extent(&self) -> (e: Extent)
        ensures
            e.start_block == self.debug_area_start_block,
            e.length_blocks == self.debug_area_lenght_blocks,
    {
        Extent {
            start_block: self.debug_area_start_block,
            length_blocks: self.debug_area_lenght_blocks,
        }
    }

    /// The extent of the tables region.
    pub fn tables_extent(&self) -> (e: Extent)
        ensures
            e.start_block == self.tables_start_block,
            e.length_blocks == self.tables_lenght_blocks,
    {
        Extent { start_block: self.tables_start_block, length_blocks: self.tables_lenght_blocks }
    }

    /// The extent of the B-trees region.
    pub fn btrees_extent(&self) -> (e: Extent)
        ensures
            e.start_block == self.btrees_start_block,
            e.length_blocks == self.btrees_lenght_blocks,
    {
        Extent { start_block: self.btrees_start_block, length_blocks: self.btrees_lenght_blocks }
    }

    /// The extent of the meta hash table.
    pub fn meta_hashtable_extent(&self) -> (e: Extent)
        ensures
            e.start_block == self.meta_hashtable_start_block,
            e.length_blocks == self.meta_hashtable_lenght_blocks,
    {
        Extent {
            start_block: self.meta_hashtable_start_block,
            length_blocks: self.meta_hashtable_lenght_blocks,
        }
    }
}

} // verus!
