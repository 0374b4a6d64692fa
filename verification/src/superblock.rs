//! The superblock, kept twice at offsets 0x200 and 0x400, and the extended
//! superblock at offset 0x600.

use vstd::prelude::*;

use crate::endian::bytes_at;
use crate::endian::lemma_same_window;
use crate::endian::lemma_u32_at_injective;
use crate::endian::lemma_u64_at_injective;
use crate::endian::lemma_window_of_window;
use crate::endian::u32_at;
use crate::endian::u64_at;
use crate::endian::u8_at;
use crate::error::DecodeError;
use crate::reader::take;
use crate::reader::take_u32;
use crate::reader::take_u64;
use crate::reader::take_u8;
use crate::reader::ByteReader;

verus! {

/// The geometry of the volume. Every byte of the record is kept, so that two
/// copies are equal exactly when their bytes are.
#[derive(Clone, Debug)]
pub struct Vdfs4SuperBlock {
    /// `VDFS`
    pub signature: Vec<u8>,
    /// Four digits, such as `2006` or `2007`.
    pub layout_version: Vec<u8>,
    /// The most blocks the volume may grow to.
    pub maximum_blocks_count: u64,
    pub creation_timestamp: Vec<u8>,
    pub volume_uuid: Vec<u8>,
    pub volume_name: Vec<u8>,
    /// Version of the tool that made the volume.
    pub mkfs_version: Vec<u8>,
    pub unused: Vec<u8>,
    /// Base-two logarithm of the block size in bytes.
    pub log_block_size: u8,
    /// Base-two logarithm of the size and alignment of a metadata node.
    pub log_super_page_size: u8,
    /// Base-two logarithm of the granularity of discard requests.
    pub log_erase_block_size: u8,
    /// Non-zero where names are matched without regard to case.
    pub case_insensitive: u8,
    /// Non-zero for a read-only image.
    pub read_only: u8,
    pub image_crc32_present: u8,
    pub force_full_decomp_decrypt: u8,
    pub hash_type: u8,
    pub encryption_flags: u8,
    pub sign_type: u8,
    pub reserved: Vec<u8>,
    pub exsb_checksum: u32,
    pub basetable_checksum: u32,
    pub meta_hashtable_checksum: u32,
    pub image_inode_count: u64,
    pub pad: u32,
    /// Signed hash of the superblock. It is carried, never checked.
    pub sb_hash: Vec<u8>,
    pub checksum: u32,
}

/// A superblock as plain values.
pub struct SuperBlockView {
    pub signature: Seq<u8>,
    pub layout_version: Seq<u8>,
    pub maximum_blocks_count: u64,
    pub creation_timestamp: Seq<u8>,
    pub volume_uuid: Seq<u8>,
    pub volume_name: Seq<u8>,
    pub mkfs_version: Seq<u8>,
    pub unused: Seq<u8>,
    pub log_block_size: u8,
    pub log_super_page_size: u8,
    pub log_erase_block_size: u8,
    pub case_insensitive: u8,
    pub read_only: u8,
    pub image_crc32_present: u8,
    pub force_full_decomp_decrypt: u8,
    pub hash_type: u8,
    pub encryption_flags: u8,
    pub sign_type: u8,
    pub reserved: Seq<u8>,
    pub exsb_checksum: u32,
    pub basetable_checksum: u32,
    pub meta_hashtable_checksum: u32,
    pub image_inode_count: u64,
    pub pad: u32,
    pub sb_hash: Seq<u8>,
    pub checksum: u32,
}

impl View for Vdfs4SuperBlock {
    type V = SuperBlockView;

    open spec fn view(&self) -> SuperBlockView {
        SuperBlockView {
            signature: self.signature@,
            layout_version: self.layout_version@,
            maximum_blocks_count: self.maximum_blocks_count,
            creation_timestamp: self.creation_timestamp@,
            volume_uuid: self.volume_uuid@,
            volume_name: self.volume_name@,
            mkfs_version: self.mkfs_version@,
            unused: self.unused@,
            log_block_size: self.log_block_size,
            log_super_page_size: self.log_super_page_size,
            log_erase_block_size: self.log_erase_block_size,
            case_insensitive: self.case_insensitive,
            read_only: self.read_only,
            image_crc32_present: self.image_crc32_present,
            force_full_decomp_decrypt: self.force_full_decomp_decrypt,
            hash_type: self.hash_type,
            encryption_flags: self.encryption_flags,
            sign_type: self.sign_type,
            reserved: self.reserved@,
            exsb_checksum: self.exsb_checksum,
            basetable_checksum: self.basetable_checksum,
            meta_hashtable_checksum: self.meta_hashtable_checksum,
            image_inode_count: self.image_inode_count,
            pad: self.pad,
            sb_hash: self.sb_hash@,
            checksum: self.checksum,
        }
    }
}

impl PartialEq for Vdfs4SuperBlock {
    fn eq(&self, other: &Self) -> (r: bool) {
        let r: bool = self.signature == other.signature
            && self.layout_version == other.layout_version
            && self.maximum_blocks_count == other.maximum_blocks_count
            && self.creation_timestamp == other.creation_timestamp
            && self.volume_uuid == other.volume_uuid
            && self.volume_name == other.volume_name
            && self.mkfs_version == other.mkfs_version
            && self.unused == other.unused
            && self.log_block_size == other.log_block_size
            && self.log_super_page_size == other.log_super_page_size
            && self.log_erase_block_size == other.log_erase_block_size
            && self.case_insensitive == other.case_insensitive
            && self.read_only == other.read_only
            && self.image_crc32_present == other.image_crc32_present
            && self.force_full_decomp_decrypt == other.force_full_decomp_decrypt
            && self.hash_type == other.hash_type
            && self.encryption_flags == other.encryption_flags
            && self.sign_type == other.sign_type
            && self.reserved == other.reserved
            && self.exsb_checksum == other.exsb_checksum
            && self.basetable_checksum == other.basetable_checksum
            && self.meta_hashtable_checksum == other.meta_hashtable_checksum
            && self.image_inode_count == other.image_inode_count
            && self.pad == other.pad
            && self.sb_hash == other.sb_hash
            && self.checksum == other.checksum;
        proof {
            if r {
                assert(self.signature@ =~= other.signature@);
                assert(self.layout_version@ =~= other.layout_version@);
                assert(self.creation_timestamp@ =~= other.creation_timestamp@);
                assert(self.volume_uuid@ =~= other.volume_uuid@);
                assert(self.volume_name@ =~= other.volume_name@);
                assert(self.mkfs_version@ =~= other.mkfs_version@);
                assert(self.unused@ =~= other.unused@);
                assert(self.reserved@ =~= other.reserved@);
                assert(self.sb_hash@ =~= other.sb_hash@);
            }
        }
        r
    }
}

impl Eq for Vdfs4SuperBlock {

}

impl vstd::std_specs::cmp::PartialEqSpecImpl for Vdfs4SuperBlock {
    open spec fn obeys_eq_spec() -> bool {
        true
    }

    open spec fn eq_spec(&self, other: &Self) -> bool {
        self@ == other@
    }
}

impl Vdfs4SuperBlock {
    /// The superblock that the 512 bytes `b` hold.
    pub open spec fn parse(b: Seq<u8>) -> SuperBlockView {
        SuperBlockView {
            signature: bytes_at(b, 0, 4),
            layout_version: bytes_at(b, 4, 4),
            maximum_blocks_count: u64_at(b, 8),
            creation_timestamp: bytes_at(b, 16, 12),
            volume_uuid: bytes_at(b, 28, 16),
            volume_name: bytes_at(b, 44, 16),
            mkfs_version: bytes_at(b, 60, 64),
            unused: bytes_at(b, 124, 40),
            log_block_size: u8_at(b, 164),
            log_super_page_size: u8_at(b, 165),
            log_erase_block_size: u8_at(b, 166),
            case_insensitive: u8_at(b, 167),
            read_only: u8_at(b, 168),
            image_crc32_present: u8_at(b, 169),
            force_full_decomp_decrypt: u8_at(b, 170),
            hash_type: u8_at(b, 171),
            encryption_flags: u8_at(b, 172),
            sign_type: u8_at(b, 173),
            reserved: bytes_at(b, 174, 54),
            exsb_checksum: u32_at(b, 228),
            basetable_checksum: u32_at(b, 232),
            meta_hashtable_checksum: u32_at(b, 236),
            image_inode_count: u64_at(b, 240),
            pad: u32_at(b, 248),
            sb_hash: bytes_at(b, 252, 256),
            checksum: u32_at(b, 508),
        }
    }

    /// Decodes the superblock at the reader's position and moves past it. Where
    /// fewer than 512 bytes are left the reader stays as it was.
    pub fn decode(reader: &mut ByteReader) -> (r: Result<Self, DecodeError>)
        ensures
            match r {
                Ok(v) => {
                    &&& old(reader).holds(512)
                    &&& v@ == Self::parse(old(reader).upcoming(512))
                    &&& final(reader).pos == old(reader).pos + 512
                    &&& final(reader).data@ == old(reader).data@
                },
                Err(e) => {
                    &&& e == DecodeError::TruncatedInput
                    &&& !old(reader).holds(512)
                    &&& *final(reader) == *old(reader)
                },
            },
    {
        broadcast use lemma_window_of_window;

        if !reader.has(512) {
            return Err(DecodeError::TruncatedInput);
        }
        let mut cur: ByteReader = *reader;
        let signature = take(&mut cur, 4);
        let layout_version = take(&mut cur, 4);
        let maximum_blocks_count: u64 = take_u64(&mut cur);
        let creation_timestamp = take(&mut cur, 12);
        let volume_uuid = take(&mut cur, 16);
        let volume_name = take(&mut cur, 16);
        let mkfs_version = take(&mut cur, 64);
        let unused = take(&mut cur, 40);
        let log_block_size: u8 = take_u8(&mut cur);
        let log_super_page_size: u8 = take_u8(&mut cur);
        let log_erase_block_size: u8 = take_u8(&mut cur);
        let case_insensitive: u8 = take_u8(&mut cur);
        let read_only: u8 = take_u8(&mut cur);
        let image_crc32_present: u8 = take_u8(&mut cur);
        let force_full_decomp_decrypt: u8 = take_u8(&mut cur);
        let hash_type: u8 = take_u8(&mut cur);
        let encryption_flags: u8 = take_u8(&mut cur);
        let sign_type: u8 = take_u8(&mut cur);
        let reserved = take(&mut cur, 54);
        let exsb_checksum: u32 = take_u32(&mut cur);
        let basetable_checksum: u32 = take_u32(&mut cur);
        let meta_hashtable_checksum: u32 = take_u32(&mut cur);
        let image_inode_count: u64 = take_u64(&mut cur);
        let pad: u32 = take_u32(&mut cur);
        let sb_hash = take(&mut cur, 256);
        let checksum: u32 = take_u32(&mut cur);
        *reader = cur;
        Ok(
            Vdfs4SuperBlock {
                signature,
                layout_version,
                maximum_blocks_count,
                creation_timestamp,
                volume_uuid,
                volume_name,
                mkfs_version,
                unused,
                log_block_size,
                log_super_page_size,
                log_erase_block_size,
                case_insensitive,
                read_only,
                image_crc32_present,
                force_full_decomp_decrypt,
                hash_type,
                encryption_flags,
                sign_type,
                reserved,
                exsb_checksum,
                basetable_checksum,
                meta_hashtable_checksum,
                image_inode_count,
                pad,
                sb_hash,
                checksum,
            },
        )
    }
}

/// Counters of the volume and the extents of its regions.
#[derive(Clone, Debug)]
pub struct Vdfs4ExtendedSuperBlock {
    pub files_count: u64,
    pub folders_count: u64,
    /// First block of the volume.
    pub volume_start_block: u64,
    /// Length of the volume in blocks.
    pub volume_lenght_blocks: u64,
    pub mount_count: u32,
    pub sync_count: u32,
    pub unmount_count: u32,
    pub generation: u32,
    /// First block of the debug area.
    pub debug_area_start_block: u64,
    /// Length of the debug area in blocks.
    pub debug_area_lenght_blocks: u64,
    /// Total block count of the B-trees extents.
    pub meta_tbc: u32,
    pub pad: u32,
    /// First block of the tables region.
    pub tables_start_block: u64,
    /// Length of the tables region in blocks.
    pub tables_lenght_blocks: u64,
    /// First block of the B-trees region.
    pub btrees_start_block: u64,
    /// Length of the B-trees region in blocks.
    pub btrees_lenght_blocks: u64,
    /// Room for 95 further B-trees extents; images use the first extent only.
    pub spare_extents: Vec<u8>,
    pub extension: Vec<u8>,
    pub volume_blocks_count: u64,
    pub crc: u8,
    pub volume_uuid: Vec<u8>,
    pub reserved: Vec<u8>,
    pub kbytes_written: u64,
    /// First block of the meta hash table.
    pub meta_hashtable_start_block: u64,
    /// Length of the meta hash table in blocks.
    pub meta_hashtable_lenght_blocks: u64,
    pub reserved_tail: Vec<u8>,
    pub checksum: u32,
}

/// An extended superblock as plain values.
pub struct ExtendedSuperBlockView {
    pub files_count: u64,
    pub folders_count: u64,
    pub volume_start_block: u64,
    pub volume_lenght_blocks: u64,
    pub mount_count: u32,
    pub sync_count: u32,
    pub unmount_count: u32,
    pub generation: u32,
    pub debug_area_start_block: u64,
    pub debug_area_lenght_blocks: u64,
    pub meta_tbc: u32,
    pub pad: u32,
    pub tables_start_block: u64,
    pub tables_lenght_blocks: u64,
    pub btrees_start_block: u64,
    pub btrees_lenght_blocks: u64,
    pub spare_extents: Seq<u8>,
    pub extension: Seq<u8>,
    pub volume_blocks_count: u64,
    pub crc: u8,
    pub volume_uuid: Seq<u8>,
    pub reserved: Seq<u8>,
    pub kbytes_written: u64,
    pub meta_hashtable_start_block: u64,
    pub meta_hashtable_lenght_blocks: u64,
    pub reserved_tail: Seq<u8>,
    pub checksum: u32,
}

impl View for Vdfs4ExtendedSuperBlock {
    type V = ExtendedSuperBlockView;

    open spec fn view(&self) -> ExtendedSuperBlockView {
        ExtendedSuperBlockView {
            files_count: self.files_count,
            folders_count: self.folders_count,
            volume_start_block: self.volume_start_block,
            volume_lenght_blocks: self.volume_lenght_blocks,
            mount_count: self.mount_count,
            sync_count: self.sync_count,
            unmount_count: self.unmount_count,
            generation: self.generation,
            debug_area_start_block: self.debug_area_start_block,
            debug_area_lenght_blocks: self.debug_area_lenght_blocks,
            meta_tbc: self.meta_tbc,
            pad: self.pad,
            tables_start_block: self.tables_start_block,
            tables_lenght_blocks: self.tables_lenght_blocks,
            btrees_start_block: self.btrees_start_block,
            btrees_lenght_blocks: self.btrees_lenght_blocks,
            spare_extents: self.spare_extents@,
            extension: self.extension@,
            volume_blocks_count: self.volume_blocks_count,
            crc: self.crc,
            volume_uuid: self.volume_uuid@,
            reserved: self.reserved@,
            kbytes_written: self.kbytes_written,
            meta_hashtable_start_block: self.meta_hashtable_start_block,
            meta_hashtable_lenght_blocks: self.meta_hashtable_lenght_blocks,
            reserved_tail: self.reserved_tail@,
            checksum: self.checksum,
        }
    }
}

impl PartialEq for Vdfs4ExtendedSuperBlock {
    fn eq(&self, other: &Self) -> (r: bool) {
        let r: bool = self.files_count == other.files_count
            && self.folders_count == other.folders_count
            && self.volume_start_block == other.volume_start_block
            && self.volume_lenght_blocks == other.volume_lenght_blocks
            && self.mount_count == other.mount_count
            && self.sync_count == other.sync_count
            && self.unmount_count == other.unmount_count
            && self.generation == other.generation
            && self.debug_area_start_block == other.debug_area_start_block
            && self.debug_area_lenght_blocks == other.debug_area_lenght_blocks
            && self.meta_tbc == other.meta_tbc
            && self.pad == other.pad
            && self.tables_start_block == other.tables_start_block
            && self.tables_lenght_blocks == other.tables_lenght_blocks
            && self.btrees_start_block == other.btrees_start_block
            && self.btrees_lenght_blocks == other.btrees_lenght_blocks
            && self.spare_extents == other.spare_extents
            && self.extension == other.extension
            && self.volume_blocks_count == other.volume_blocks_count
            && self.crc == other.crc
            && self.volume_uuid == other.volume_uuid
            && self.reserved == other.reserved
            && self.kbytes_written == other.kbytes_written
            && self.meta_hashtable_start_block == other.meta_hashtable_start_block
            && self.meta_hashtable_lenght_blocks == other.meta_hashtable_lenght_blocks
            && self.reserved_tail == other.reserved_tail
            && self.checksum == other.checksum;
        proof {
            if r {
                assert(self.spare_extents@ =~= other.spare_extents@);
                assert(self.extension@ =~= other.extension@);
                assert(self.volume_uuid@ =~= other.volume_uuid@);
                assert(self.reserved@ =~= other.reserved@);
                assert(self.reserved_tail@ =~= other.reserved_tail@);
            }
        }
        r
    }
}

impl Eq for Vdfs4ExtendedSuperBlock {

}

impl vstd::std_specs::cmp::PartialEqSpecImpl for Vdfs4ExtendedSuperBlock {
    open spec fn obeys_eq_spec() -> bool {
        true
    }

    open spec fn eq_spec(&self, other: &Self) -> bool {
        self@ == other@
    }
}

impl Vdfs4ExtendedSuperBlock {
    /// The extended superblock that the 2560 bytes `b` hold.
    pub open spec fn parse(b: Seq<u8>) -> ExtendedSuperBlockView {
        ExtendedSuperBlockView {
            files_count: u64_at(b, 0),
            folders_count: u64_at(b, 8),
            volume_start_block: u64_at(b, 16),
            volume_lenght_blocks: u64_at(b, 24),
            mount_count: u32_at(b, 32),
            sync_count: u32_at(b, 36),
            unmount_count: u32_at(b, 40),
            generation: u32_at(b, 44),
            debug_area_start_block: u64_at(b, 48),
            debug_area_lenght_blocks: u64_at(b, 56),
            meta_tbc: u32_at(b, 64),
            pad: u32_at(b, 68),
            tables_start_block: u64_at(b, 72),
            tables_lenght_blocks: u64_at(b, 80),
            btrees_start_block: u64_at(b, 88),
            btrees_lenght_blocks: u64_at(b, 96),
            spare_extents: bytes_at(b, 104, 1520),
            extension: bytes_at(b, 1624, 16),
            volume_blocks_count: u64_at(b, 1640),
            crc: u8_at(b, 1648),
            volume_uuid: bytes_at(b, 1649, 16),
            reserved: bytes_at(b, 1665, 7),
            kbytes_written: u64_at(b, 1672),
            meta_hashtable_start_block: u64_at(b, 1680),
            meta_hashtable_lenght_blocks: u64_at(b, 1688),
            reserved_tail: bytes_at(b, 1696, 860),
            checksum: u32_at(b, 2556),
        }
    }

    /// Decodes the extended superblock at the reader's position and moves past
    /// it. Where fewer than 2560 bytes are left the reader stays as it was.
    pub fn decode(reader: &mut ByteReader) -> (r: Result<Self, DecodeError>)
        ensures
            match r {
                Ok(v) => {
                    &&& old(reader).holds(2560)
                    &&& v@ == Self::parse(old(reader).upcoming(2560))
                    &&& final(reader).pos == old(reader).pos + 2560
                    &&& final(reader).data@ == old(reader).data@
                },
                Err(e) => {
                    &&& e == DecodeError::TruncatedInput
                    &&& !old(reader).holds(2560)
                    &&& *final(reader) == *old(reader)
                },
            },
    {
        broadcast use lemma_window_of_window;

        if !reader.has(2560) {
            return Err(DecodeError::TruncatedInput);
        }
        let mut cur: ByteReader = *reader;
        let files_count: u64 = take_u64(&mut cur);
        let folders_count: u64 = take_u64(&mut cur);
        let volume_start_block: u64 = take_u64(&mut cur);
        let volume_lenght_blocks: u64 = take_u64(&mut cur);
        let mount_count: u32 = take_u32(&mut cur);
        let sync_count: u32 = take_u32(&mut cur);
        let unmount_count: u32 = take_u32(&mut cur);
        let generation: u32 = take_u32(&mut cur);
        let debug_area_start_block: u64 = take_u64(&mut cur);
        let debug_area_lenght_blocks: u64 = take_u64(&mut cur);
        let meta_tbc: u32 = take_u32(&mut cur);
        let pad: u32 = take_u32(&mut cur);
        let tables_start_block: u64 = take_u64(&mut cur);
        let tables_lenght_blocks: u64 = take_u64(&mut cur);
        let btrees_start_block: u64 = take_u64(&mut cur);
        let btrees_lenght_blocks: u64 = take_u64(&mut cur);
        let spare_extents = take(&mut cur, 1520);
        let extension = take(&mut cur, 16);
        let volume_blocks_count: u64 = take_u64(&mut cur);
        let crc: u8 = take_u8(&mut cur);
        let volume_uuid = take(&mut cur, 16);
        let reserved = take(&mut cur, 7);
        let kbytes_written: u64 = take_u64(&mut cur);
        let meta_hashtable_start_block: u64 = take_u64(&mut cur);
        let meta_hashtable_lenght_blocks: u64 = take_u64(&mut cur);
        let reserved_tail = take(&mut cur, 860);
        let checksum: u32 = take_u32(&mut cur);
        *reader = cur;
        Ok(
            Vdfs4ExtendedSuperBlock {
                files_count,
                folders_count,
                volume_start_block,
                volume_lenght_blocks,
                mount_count,
                sync_count,
                unmount_count,
                generation,
                debug_area_start_block,
                debug_area_lenght_blocks,
                meta_tbc,
                pad,
                tables_start_block,
                tables_lenght_blocks,
                btrees_start_block,
                btrees_lenght_blocks,
                spare_extents,
                extension,
                volume_blocks_count,
                crc,
                volume_uuid,
                reserved,
                kbytes_written,
                meta_hashtable_start_block,
                meta_hashtable_lenght_blocks,
                reserved_tail,
                checksum,
            },
        )
    }
}

/// A superblock keeps every byte of its record: two records decode to equal
/// superblocks exactly when they hold the same bytes.
pub proof fn lemma_super_block_equal_iff_same_bytes(a: Seq<u8>, b: Seq<u8>)
    requires
        a.len() == 512,
        b.len() == 512,
    ensures
        Vdfs4SuperBlock::parse(a) == Vdfs4SuperBlock::parse(b) <==> a == b,
{
    if Vdfs4SuperBlock::parse(a) == Vdfs4SuperBlock::parse(b) {
        lemma_u64_at_injective(a, b, 8);
        lemma_u32_at_injective(a, b, 228);
        lemma_u32_at_injective(a, b, 232);
        lemma_u32_at_injective(a, b, 236);
        lemma_u64_at_injective(a, b, 240);
        lemma_u32_at_injective(a, b, 248);
        lemma_u32_at_injective(a, b, 508);
        assert forall|i: int| 0 <= i < 512 implies a[i] == b[i] by {
            if i < 4 {
                lemma_same_window(a, b, 0, 4, i);
            } else if i < 8 {
                lemma_same_window(a, b, 4, 4, i);
            } else if i < 16 {
                lemma_same_window(a, b, 8, 8, i);
            } else if i < 28 {
                lemma_same_window(a, b, 16, 12, i);
            } else if i < 44 {
                lemma_same_window(a, b, 28, 16, i);
            } else if i < 60 {
                lemma_same_window(a, b, 44, 16, i);
            } else if i < 124 {
                lemma_same_window(a, b, 60, 64, i);
            } else if i < 164 {
                lemma_same_window(a, b, 124, 40, i);
            } else if i < 165 {
                assert(u8_at(a, 164) == u8_at(b, 164));
            } else if i < 166 {
                assert(u8_at(a, 165) == u8_at(b, 165));
            } else if i < 167 {
                assert(u8_at(a, 166) == u8_at(b, 166));
            } else if i < 168 {
                assert(u8_at(a, 167) == u8_at(b, 167));
            } else if i < 169 {
                assert(u8_at(a, 168) == u8_at(b, 168));
            } else if i < 170 {
                assert(u8_at(a, 169) == u8_at(b, 169));
            } else if i < 171 {
                assert(u8_at(a, 170) == u8_at(b, 170));
            } else if i < 172 {
                assert(u8_at(a, 171) == u8_at(b, 171));
            } else if i < 173 {
                assert(u8_at(a, 172) == u8_at(b, 172));
            } else if i < 174 {
                assert(u8_at(a, 173) == u8_at(b, 173));
            } else if i < 228 {
                lemma_same_window(a, b, 174, 54, i);
            } else if i < 232 {
                lemma_same_window(a, b, 228, 4, i);
            } else if i < 236 {
                lemma_same_window(a, b, 232, 4, i);
            } else if i < 240 {
                lemma_same_window(a, b, 236, 4, i);
            } else if i < 248 {
                lemma_same_window(a, b, 240, 8, i);
            } else if i < 252 {
                lemma_same_window(a, b, 248, 4, i);
            } else if i < 508 {
                lemma_same_window(a, b, 252, 256, i);
            } else if i < 512 {
                lemma_same_window(a, b, 508, 4, i);
            }
        }
        assert(a =~= b);
    }
}

/// The two copies of the superblock in an image decode to equal superblocks
/// exactly when the copies are the same, byte for byte. So they do in every
/// image whose copies were left as they were written.
pub proof fn lemma_super_block_copies(image: Seq<u8>)
    requires
        image.len() >= 0x600,
    ensures
        Vdfs4SuperBlock::parse(image.subrange(0x200, 0x400)) == Vdfs4SuperBlock::parse(
            image.subrange(0x400, 0x600),
        ) <==> image.subrange(0x200, 0x400) == image.subrange(0x400, 0x600),
{
    lemma_super_block_equal_iff_same_bytes(
        image.subrange(0x200, 0x400),
        image.subrange(0x400, 0x600),
    );
}

} // verus!
