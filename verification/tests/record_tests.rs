use vdfs4_inspect::btree::Vdfs4GenNodeDescr;
use vdfs4_inspect::btree::Vdfs4RawBtreeHead;
use vdfs4_inspect::catalog::Vdfs4CatalogFileRecord;
use vdfs4_inspect::catalog::Vdfs4CatalogFolderRecord;
use vdfs4_inspect::catalog::Vdfs4Timespec;
use vdfs4_inspect::reader::ByteReader;
use vdfs4_inspect::superblock::Vdfs4ExtendedSuperBlock;
use vdfs4_inspect::superblock::Vdfs4SuperBlock;
use vdfs4_inspect::tables::Vdfs4BaseTable;
use vdfs4_inspect::volume::Vdfs4VolumeBegins;
use vdfs4_inspect::DecodeError;

/// Bytes that differ from their neighbours, so that a field read at the
/// wrong place shows.
fn record_pattern(len: usize) -> Vec<u8> {
    let mut bytes = Vec::with_capacity(len);
    for i in 0..len {
        bytes.push(((i * 7 + 3) % 251) as u8);
    }
    bytes
}

fn record_u16(bytes: &[u8], at: usize) -> u16 {
    u16::from_le_bytes([bytes[at], bytes[at + 1]])
}

fn record_u32(bytes: &[u8], at: usize) -> u32 {
    u32::from_le_bytes([bytes[at], bytes[at + 1], bytes[at + 2], bytes[at + 3]])
}

fn record_u64(bytes: &[u8], at: usize) -> u64 {
    let mut b = [0u8; 8];
    b.copy_from_slice(&bytes[at..at + 8]);
    u64::from_le_bytes(b)
}

#[test]
fn volume_header_fields_lie_where_the_layout_says() {
    let bytes = record_pattern(512);
    let mut reader = ByteReader::new(&bytes);
    let header = Vdfs4VolumeBegins::decode(&mut reader).unwrap();
    assert_eq!(reader.pos, 512);
    assert_eq!(header.signature, &bytes[0..4]);
    assert_eq!(header.layout_version, &bytes[4..8]);
    assert_eq!(header.command_line, &bytes[8..464]);
    assert_eq!(header.creation_time, &bytes[464..480]);
    assert_eq!(header.creator_username, &bytes[480..496]);
    assert_eq!(header.reserved, &bytes[496..508]);
    assert_eq!(header.checksum, record_u32(&bytes, 508));
}

#[test]
fn volume_header_with_known_values() {
    let mut bytes = vec![0u8; 512];
    bytes[0..4].copy_from_slice(b"VDFS");
    bytes[4..8].copy_from_slice(b"2007");
    bytes[8..12].copy_from_slice(b"mkfs");
    bytes[508..512].copy_from_slice(&[0xef, 0xbe, 0xad, 0xde]);
    let mut reader = ByteReader::new(&bytes);
    let header = Vdfs4VolumeBegins::decode(&mut reader).unwrap();
    assert_eq!(header.signature, b"VDFS");
    assert_eq!(header.layout_version_str(), "2007");
    assert_eq!(header.command_line.len(), 456);
    assert_eq!(header.checksum, 0xdead_beef);
}

#[test]
fn volume_header_needs_all_of_its_bytes() {
    let bytes = record_pattern(511);
    let mut reader = ByteReader::new(&bytes);
    assert_eq!(Vdfs4VolumeBegins::decode(&mut reader).err(), Some(DecodeError::TruncatedInput));
    assert_eq!(reader.pos, 0);
}

#[test]
fn volume_headers_are_equal_when_their_bytes_are() {
    let bytes = record_pattern(512);
    let mut other = bytes.clone();
    let a = Vdfs4VolumeBegins::decode(&mut ByteReader::new(&bytes)).unwrap();
    let b = Vdfs4VolumeBegins::decode(&mut ByteReader::new(&other)).unwrap();
    assert!(a == b);
    other[500] ^= 1;
    let c = Vdfs4VolumeBegins::decode(&mut ByteReader::new(&other)).unwrap();
    assert!(a != c);
}

#[test]
fn super_block_fields_lie_where_the_layout_says() {
    let bytes = record_pattern(512);
    let mut reader = ByteReader::new(&bytes);
    let sb = Vdfs4SuperBlock::decode(&mut reader).unwrap();
    assert_eq!(reader.pos, 512);
    assert_eq!(sb.signature, &bytes[0..4]);
    assert_eq!(sb.layout_version, &bytes[4..8]);
    assert_eq!(sb.maximum_blocks_count, record_u64(&bytes, 8));
    assert_eq!(sb.creation_timestamp, &bytes[16..28]);
    assert_eq!(sb.volume_uuid, &bytes[28..44]);
    assert_eq!(sb.volume_name, &bytes[44..60]);
    assert_eq!(sb.mkfs_version, &bytes[60..124]);
    assert_eq!(sb.unused, &bytes[124..164]);
    assert_eq!(sb.log_block_size, bytes[164]);
    assert_eq!(sb.log_super_page_size, bytes[165]);
    assert_eq!(sb.log_erase_block_size, bytes[166]);
    assert_eq!(sb.case_insensitive, bytes[167]);
    assert_eq!(sb.read_only, bytes[168]);
    assert_eq!(sb.image_crc32_present, bytes[169]);
    assert_eq!(sb.force_full_decomp_decrypt, bytes[170]);
    assert_eq!(sb.hash_type, bytes[171]);
    assert_eq!(sb.encryption_flags, bytes[172]);
    assert_eq!(sb.sign_type, bytes[173]);
    assert_eq!(sb.reserved, &bytes[174..228]);
    assert_eq!(sb.exsb_checksum, record_u32(&bytes, 228));
    assert_eq!(sb.basetable_checksum, record_u32(&bytes, 232));
    assert_eq!(sb.meta_hashtable_checksum, record_u32(&bytes, 236));
    assert_eq!(sb.image_inode_count, record_u64(&bytes, 240));
    assert_eq!(sb.pad, record_u32(&bytes, 248));
    assert_eq!(sb.sb_hash, &bytes[252..508]);
    assert_eq!(sb.checksum, record_u32(&bytes, 508));
}

#[test]
fn super_block_with_known_values() {
    let mut bytes = vec![0u8; 512];
    bytes[8..16].copy_from_slice(&[0x00, 0x10, 0, 0, 0, 0, 0, 0]);
    bytes[164] = 12;
    bytes[165] = 14;
    bytes[166] = 19;
    bytes[240..248].copy_from_slice(&[0x2a, 0, 0, 0, 0, 0, 0, 0]);
    let sb = Vdfs4SuperBlock::decode(&mut ByteReader::new(&bytes)).unwrap();
    assert_eq!(sb.maximum_blocks_count, 4096);
    assert_eq!(sb.log_block_size, 12);
    assert_eq!(sb.log_super_page_size, 14);
    assert_eq!(sb.log_erase_block_size, 19);
    assert_eq!(sb.image_inode_count, 42);
}

#[test]
fn super_block_needs_all_of_its_bytes() {
    let bytes = record_pattern(600);
    let mut reader = ByteReader::new(&bytes);
    reader.seek_to(89);
    assert_eq!(Vdfs4SuperBlock::decode(&mut reader).err(), Some(DecodeError::TruncatedInput));
    assert_eq!(reader.pos, 89);
    reader.seek_to(88);
    assert!(Vdfs4SuperBlock::decode(&mut reader).is_ok());
    assert_eq!(reader.pos, 600);
}

#[test]
fn super_blocks_are_equal_exactly_when_their_bytes_are() {
    let bytes = record_pattern(512);
    let a = Vdfs4SuperBlock::decode(&mut ByteReader::new(&bytes)).unwrap();
    let b = Vdfs4SuperBlock::decode(&mut ByteReader::new(&bytes)).unwrap();
    assert!(a == b);
    let places = [
        0usize, 7, 8, 15, 27, 43, 59, 123, 163, 164, 173, 174, 227, 231, 239, 247, 251, 252, 507,
        511,
    ];
    for at in places {
        let mut other = bytes.clone();
        other[at] ^= 0x40;
        let c = Vdfs4SuperBlock::decode(&mut ByteReader::new(&other)).unwrap();
        assert!(a != c, "a change of byte {} went unseen", at);
    }
}

#[test]
fn extended_super_block_fields_lie_where_the_layout_says() {
    let bytes = record_pattern(2560);
    let mut reader = ByteReader::new(&bytes);
    let exsb = Vdfs4ExtendedSuperBlock::decode(&mut reader).unwrap();
    assert_eq!(reader.pos, 2560);
    assert_eq!(exsb.files_count, record_u64(&bytes, 0));
    assert_eq!(exsb.folders_count, record_u64(&bytes, 8));
    assert_eq!(exsb.volume_start_block, record_u64(&bytes, 16));
    assert_eq!(exsb.volume_lenght_blocks, record_u64(&bytes, 24));
    assert_eq!(exsb.mount_count, record_u32(&bytes, 32));
    assert_eq!(exsb.sync_count, record_u32(&bytes, 36));
    assert_eq!(exsb.unmount_count, record_u32(&bytes, 40));
    assert_eq!(exsb.generation, record_u32(&bytes, 44));
    assert_eq!(exsb.debug_area_start_block, record_u64(&bytes, 48));
    assert_eq!(exsb.debug_area_lenght_blocks, record_u64(&bytes, 56));
    assert_eq!(exsb.meta_tbc, record_u32(&bytes, 64));
    assert_eq!(exsb.pad, record_u32(&bytes, 68));
    assert_eq!(exsb.tables_start_block, record_u64(&bytes, 72));
    assert_eq!(exsb.tables_lenght_blocks, record_u64(&bytes, 80));
    assert_eq!(exsb.btrees_start_block, record_u64(&bytes, 88));
    assert_eq!(exsb.btrees_lenght_blocks, record_u64(&bytes, 96));
    assert_eq!(exsb.spare_extents, &bytes[104..1624]);
    assert_eq!(exsb.extension, &bytes[1624..1640]);
    assert_eq!(exsb.volume_blocks_count, record_u64(&bytes, 1640));
    assert_eq!(exsb.crc, bytes[1648]);
    assert_eq!(exsb.volume_uuid, &bytes[1649..1665]);
    assert_eq!(exsb.reserved, &bytes[1665..1672]);
    assert_eq!(exsb.kbytes_written, record_u64(&bytes, 1672));
    assert_eq!(exsb.meta_hashtable_start_block, record_u64(&bytes, 1680));
    assert_eq!(exsb.meta_hashtable_lenght_blocks, record_u64(&bytes, 1688));
    assert_eq!(exsb.reserved_tail, &bytes[1696..2556]);
    assert_eq!(exsb.checksum, record_u32(&bytes, 2556));
}

#[test]
fn extended_super_block_needs_all_of_its_bytes() {
    let bytes = record_pattern(2559);
    let mut reader = ByteReader::new(&bytes);
    assert_eq!(
        Vdfs4ExtendedSuperBlock::decode(&mut reader).err(),
        Some(DecodeError::TruncatedInput)
    );
    assert_eq!(reader.pos, 0);
}

#[test]
fn extended_super_block_extents() {
    let mut bytes = vec![0u8; 2560];
    bytes[16] = 1;
    bytes[24] = 2;
    bytes[48] = 3;
    bytes[56] = 4;
    bytes[72] = 5;
    bytes[80] = 6;
    bytes[88] = 7;
    bytes[96] = 8;
    bytes[1680] = 9;
    bytes[1688] = 10;
    let exsb = Vdfs4ExtendedSuperBlock::decode(&mut ByteReader::new(&bytes)).unwrap();
    assert_eq!((exsb.volume_extent().start_block, exsb.volume_extent().length_blocks), (1, 2));
    assert_eq!((exsb.debug_extent().start_block, exsb.debug_extent().length_blocks), (3, 4));
    assert_eq!((exsb.tables_extent().start_block, exsb.tables_extent().length_blocks), (5, 6));
    assert_eq!((exsb.btrees_extent().start_block, exsb.btrees_extent().length_blocks), (7, 8));
    assert_eq!(
        (
            exsb.meta_hashtable_extent().start_block,
            exsb.meta_hashtable_extent().length_blocks
        ),
        (9, 10)
    );
}

#[test]
fn extended_super_blocks_are_equal_when_their_bytes_are() {
    let bytes = record_pattern(2560);
    let a = Vdfs4ExtendedSuperBlock::decode(&mut ByteReader::new(&bytes)).unwrap();
    let b = Vdfs4ExtendedSuperBlock::decode(&mut ByteReader::new(&bytes)).unwrap();
    assert!(a == b);
    let mut other = bytes.clone();
    other[2000] ^= 1;
    let c = Vdfs4ExtendedSuperBlock::decode(&mut ByteReader::new(&other)).unwrap();
    assert!(a != c);
}

#[test]
fn btree_head_with_known_values() {
    let mut bytes = Vec::new();
    bytes.extend_from_slice(b"eHND");
    bytes.extend_from_slice(&[1, 0, 0, 0]);
    bytes.extend_from_slice(&[2, 0, 0, 0]);
    bytes.extend_from_slice(&[5, 0, 0, 0]);
    bytes.extend_from_slice(&[2, 0]);
    bytes.extend_from_slice(&[0xaa, 0xbb]);
    assert_eq!(bytes.len(), 20);
    let mut reader = ByteReader::new(&bytes);
    let head = Vdfs4RawBtreeHead::decode(&mut reader).unwrap();
    assert_eq!(reader.pos, 20);
    assert_eq!(head.magic, b"eHND");
    assert_eq!(head.version1, 1);
    assert_eq!(head.version2, 2);
    assert_eq!(head.root_bnode_id, 5);
    assert_eq!(head.btree_height, 2);
    assert_eq!(head.padding, 0xbbaa);
}

#[test]
fn btree_head_needs_twenty_bytes() {
    let bytes = record_pattern(19);
    let mut reader = ByteReader::new(&bytes);
    assert_eq!(Vdfs4RawBtreeHead::decode(&mut reader).err(), Some(DecodeError::TruncatedInput));
    assert_eq!(reader.pos, 0);
}

#[test]
fn node_descriptor_fields_lie_where_the_layout_says() {
    let bytes = record_pattern(40);
    let mut reader = ByteReader::new(&bytes);
    reader.seek_to(3);
    let node = Vdfs4GenNodeDescr::decode(&mut reader).unwrap();
    assert_eq!(reader.pos, 35);
    assert_eq!(node.magic, &bytes[3..7]);
    assert_eq!(node.version1, record_u32(&bytes, 7));
    assert_eq!(node.version2, record_u32(&bytes, 11));
    assert_eq!(node.free_space, record_u16(&bytes, 15));
    assert_eq!(node.recs_count, record_u16(&bytes, 17));
    assert_eq!(node.node_id, record_u32(&bytes, 19));
    assert_eq!(node.prev_node_id, record_u32(&bytes, 23));
    assert_eq!(node.next_node_id, record_u32(&bytes, 27));
    assert_eq!(node.node_type, record_u32(&bytes, 31));
}

#[test]
fn node_descriptor_needs_thirty_two_bytes() {
    let bytes = record_pattern(31);
    let mut reader = ByteReader::new(&bytes);
    assert_eq!(Vdfs4GenNodeDescr::decode(&mut reader).err(), Some(DecodeError::TruncatedInput));
    assert_eq!(reader.pos, 0);
}

#[test]
fn base_table_fields_lie_where_the_layout_says() {
    let bytes = record_pattern(104);
    let mut reader = ByteReader::new(&bytes);
    let table = Vdfs4BaseTable::decode(&mut reader).unwrap();
    assert_eq!(reader.pos, 104);
    assert_eq!(table.magic, &bytes[0..4]);
    assert_eq!(table.sync_count, record_u32(&bytes, 4));
    assert_eq!(table.mount_count, record_u64(&bytes, 8));
    assert_eq!(table.checksum_offset, record_u64(&bytes, 16));
    for i in 0..5 {
        assert_eq!(table.last_page_index[i], record_u64(&bytes, 24 + 8 * i));
        assert_eq!(table.translation_table_offsets[i], record_u64(&bytes, 64 + 8 * i));
    }
}

#[test]
fn base_table_with_known_values() {
    let mut bytes = vec![0u8; 104];
    bytes[0..4].copy_from_slice(b"CoWB");
    bytes[4] = 3;
    bytes[8] = 4;
    bytes[16] = 0x68;
    for i in 0..5 {
        bytes[24 + 8 * i] = 10 + i as u8;
        bytes[64 + 8 * i + 1] = 1 + i as u8;
    }
    let table = Vdfs4BaseTable::decode(&mut ByteReader::new(&bytes)).unwrap();
    assert_eq!(table.magic, b"CoWB");
    assert_eq!(table.sync_count, 3);
    assert_eq!(table.mount_count, 4);
    assert_eq!(table.checksum_offset, 104);
    assert_eq!(table.last_page_index, [10, 11, 12, 13, 14]);
    assert_eq!(table.translation_table_offsets, [0x100, 0x200, 0x300, 0x400, 0x500]);
}

#[test]
fn base_table_needs_all_of_its_bytes() {
    let bytes = record_pattern(103);
    let mut reader = ByteReader::new(&bytes);
    assert_eq!(Vdfs4BaseTable::decode(&mut reader).err(), Some(DecodeError::TruncatedInput));
    assert_eq!(reader.pos, 0);
}

#[test]
fn timespec_is_three_integers() {
    let bytes = [1u8, 0, 0, 0, 2, 0, 0, 0, 0x00, 0xca, 0x9a, 0x3b];
    let mut reader = ByteReader::new(&bytes);
    let t = Vdfs4Timespec::decode(&mut reader).unwrap();
    assert_eq!(reader.pos, 12);
    assert_eq!(t, Vdfs4Timespec { seconds: 1, seconds_high: 2, nanoseconds: 1_000_000_000 });
    let mut reader = ByteReader::new(&bytes[..11]);
    assert_eq!(Vdfs4Timespec::decode(&mut reader), Err(DecodeError::TruncatedInput));
    assert_eq!(reader.pos, 0);
}

#[test]
fn folder_record_fields_lie_where_the_layout_says() {
    let bytes = record_pattern(80);
    let mut reader = ByteReader::new(&bytes);
    let record = Vdfs4CatalogFolderRecord::decode(&mut reader).unwrap();
    assert_eq!(reader.pos, 80);
    assert_eq!(record.flags, record_u32(&bytes, 0));
    assert_eq!(record.generation, record_u32(&bytes, 4));
    assert_eq!(record.total_items_count, record_u64(&bytes, 8));
    assert_eq!(record.links_count, record_u64(&bytes, 16));
    assert_eq!(record.next_orphan_id, record_u64(&bytes, 24));
    assert_eq!(record.file_mode, record_u16(&bytes, 32));
    assert_eq!(record.pad, record_u16(&bytes, 34));
    assert_eq!(record.user_id, record_u32(&bytes, 36));
    assert_eq!(record.group_id, record_u32(&bytes, 40));
    assert_eq!(record.creation_time.seconds, record_u32(&bytes, 44));
    assert_eq!(record.creation_time.seconds_high, record_u32(&bytes, 48));
    assert_eq!(record.creation_time.nanoseconds, record_u32(&bytes, 52));
    assert_eq!(record.modification_time.seconds, record_u32(&bytes, 56));
    assert_eq!(record.modification_time.seconds_high, record_u32(&bytes, 60));
    assert_eq!(record.modification_time.nanoseconds, record_u32(&bytes, 64));
    assert_eq!(record.access_time.seconds, record_u32(&bytes, 68));
    assert_eq!(record.access_time.seconds_high, record_u32(&bytes, 72));
    assert_eq!(record.access_time.nanoseconds, record_u32(&bytes, 76));
}

#[test]
fn folder_record_with_known_values() {
    let mut bytes = vec![0u8; 80];
    bytes[8] = 3;
    bytes[16] = 1;
    bytes[32..34].copy_from_slice(&[0xed, 0x41]);
    bytes[36..40].copy_from_slice(&[0xe8, 0x03, 0, 0]);
    bytes[40..44].copy_from_slice(&[0xe9, 0x03, 0, 0]);
    let record = Vdfs4CatalogFolderRecord::decode(&mut ByteReader::new(&bytes)).unwrap();
    assert_eq!(record.total_items_count, 3);
    assert_eq!(record.links_count, 1);
    assert_eq!(record.file_mode, 0o40755);
    assert_eq!(record.user_id, 1000);
    assert_eq!(record.group_id, 1001);
}

#[test]
fn folder_record_needs_eighty_bytes() {
    let bytes = record_pattern(79);
    let mut reader = ByteReader::new(&bytes);
    assert_eq!(Vdfs4CatalogFolderRecord::decode(&mut reader), Err(DecodeError::TruncatedInput));
    assert_eq!(reader.pos, 0);
}

#[test]
fn file_record_is_the_common_record() {
    let bytes = record_pattern(80);
    let folder = Vdfs4CatalogFolderRecord::decode(&mut ByteReader::new(&bytes)).unwrap();
    let mut reader = ByteReader::new(&bytes);
    let file = Vdfs4CatalogFileRecord::decode(&mut reader).unwrap();
    assert_eq!(reader.pos, 80);
    assert_eq!(file.common, folder);
    let mut reader = ByteReader::new(&bytes[..50]);
    assert_eq!(Vdfs4CatalogFileRecord::decode(&mut reader), Err(DecodeError::TruncatedInput));
    assert_eq!(reader.pos, 0);
}

#[test]
fn decoding_a_record_again_gives_the_same_record() {
    let bytes = record_pattern(1024);
    let mut reader = ByteReader::new(&bytes);
    reader.seek_to(100);
    let first = Vdfs4SuperBlock::decode(&mut reader).unwrap();
    reader.seek_to(100);
    let second = Vdfs4SuperBlock::decode(&mut reader).unwrap();
    assert!(first == second);
}
