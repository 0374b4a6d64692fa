use vdfs4_inspect::catalog::RecordKind;
use vdfs4_inspect::events::Event;
use vdfs4_inspect::events::TreeKind;
use vdfs4_inspect::image::End;
use vdfs4_inspect::inspect;
use vdfs4_inspect::layout::Extent;
use vdfs4_inspect::walker::Failure;
use vdfs4_inspect::DecodeError;

const SB1: usize = 0x200;
const SB2: usize = 0x400;
const EXSB: usize = 0x600;

/// An image with blocks of 4096 bytes: the base table in block 1, and a
/// B-trees region of `btrees_length` blocks from block 2 on.
fn small_image(btrees_length: u64) -> Vec<u8> {
    let mut image = vec![0u8; (2 + btrees_length as usize) * 4096];
    image[0..4].copy_from_slice(b"VDFS");
    image[4..8].copy_from_slice(b"2007");
    for sb in [SB1, SB2] {
        image[sb..sb + 4].copy_from_slice(b"VDFS");
        image[sb + 4..sb + 8].copy_from_slice(b"2007");
        image[sb + 8..sb + 16].copy_from_slice(&1000u64.to_le_bytes());
        image[sb + 164] = 12;
        image[sb + 240..sb + 248].copy_from_slice(&77u64.to_le_bytes());
    }
    image[EXSB..EXSB + 8].copy_from_slice(&3u64.to_le_bytes());
    image[EXSB + 8..EXSB + 16].copy_from_slice(&2u64.to_le_bytes());
    image[EXSB + 16..EXSB + 24].copy_from_slice(&0u64.to_le_bytes());
    image[EXSB + 24..EXSB + 32].copy_from_slice(&(2 + btrees_length).to_le_bytes());
    image[EXSB + 48..EXSB + 56].copy_from_slice(&900u64.to_le_bytes());
    image[EXSB + 56..EXSB + 64].copy_from_slice(&4u64.to_le_bytes());
    image[EXSB + 72..EXSB + 80].copy_from_slice(&1u64.to_le_bytes());
    image[EXSB + 80..EXSB + 88].copy_from_slice(&1u64.to_le_bytes());
    image[EXSB + 88..EXSB + 96].copy_from_slice(&2u64.to_le_bytes());
    image[EXSB + 96..EXSB + 104].copy_from_slice(&btrees_length.to_le_bytes());
    image[4096..4100].copy_from_slice(b"CoWB");
    image[4100..4104].copy_from_slice(&6u32.to_le_bytes());
    image[4104..4112].copy_from_slice(&7u64.to_le_bytes());
    image[4112..4120].copy_from_slice(&104u64.to_le_bytes());
    for i in 0..5usize {
        image[4120 + 8 * i..4128 + 8 * i].copy_from_slice(&(i as u64 + 1).to_le_bytes());
        image[4160 + 8 * i..4168 + 8 * i].copy_from_slice(&(i as u64 * 4096).to_le_bytes());
    }
    image
}

fn image_put_head(image: &mut [u8], at: usize, root_bnode_id: u32, height: u16) {
    image[at..at + 4].copy_from_slice(b"eHND");
    image[at + 12..at + 16].copy_from_slice(&root_bnode_id.to_le_bytes());
    image[at + 16..at + 18].copy_from_slice(&height.to_le_bytes());
}

fn image_put_node(image: &mut [u8], at: usize, node_id: u32, recs_count: u16) {
    image[at..at + 4].copy_from_slice(b"Nd\0\0");
    image[at + 14..at + 16].copy_from_slice(&recs_count.to_le_bytes());
    image[at + 16..at + 20].copy_from_slice(&node_id.to_le_bytes());
}

fn image_put_key(
    image: &mut [u8],
    at: usize,
    object_id: u64,
    record_type: u8,
    name: &[u8],
) -> usize {
    let record_len = 26 + name.len();
    image[at + 6..at + 8].copy_from_slice(&(record_len as u16).to_le_bytes());
    image[at + 8..at + 16].copy_from_slice(&1u64.to_le_bytes());
    image[at + 16..at + 24].copy_from_slice(&object_id.to_le_bytes());
    image[at + 24] = record_type;
    image[at + 25] = name.len() as u8;
    image[at + 26..at + record_len].copy_from_slice(name);
    at + record_len
}

fn small_image_head_events(equal: bool) -> Vec<Event> {
    vec![
        Event::VolumeHeaderParsed { layout_version: "2007".to_string() },
        Event::SuperBlocksCompared { equal },
        Event::SuperBlockParsed {
            log_block_size: 12,
            max_block_count: 1000,
            image_inode_count: 77,
        },
    ]
}

fn small_image_exsb_event(btrees_length: u64) -> Event {
    Event::ExtendedSuperBlockParsed {
        files_count: 3,
        folders_count: 2,
        volume_extent: Extent { start_block: 0, length_blocks: 2 + btrees_length },
        debug_extent: Extent { start_block: 900, length_blocks: 4 },
        tables_extent: Extent { start_block: 1, length_blocks: 1 },
        btrees_extent: Extent { start_block: 2, length_blocks: btrees_length },
    }
}

fn small_image_table_event() -> Event {
    Event::BaseTableParsed {
        sync_count: 6,
        mount_count: 7,
        checksum_offset: 104,
        last_page_index: [1, 2, 3, 4, 5],
        translation_table_offsets: [0, 4096, 8192, 12288, 16384],
    }
}

#[test]
fn a_whole_image() {
    let mut image = small_image(12);
    let region = 2 * 4096;
    image[region..region + 4].copy_from_slice(b"fsmb");
    image_put_head(&mut image, region + 4096, 5, 2);
    image_put_node(&mut image, region + 5 * 4096, 1, 3);
    let mut at = region + 5 * 4096 + 32;
    at = image_put_key(&mut image, at, 10, 0x01, b"etc");
    at = image_put_key(&mut image, at, 11, 0x02, b"passwd");
    image_put_key(&mut image, at, 12, 0x02, b"hosts");
    image[region + 9 * 4096..region + 9 * 4096 + 4].copy_from_slice(b"inob");
    let report = inspect(&image);
    let mut expected = small_image_head_events(true);
    expected.push(small_image_exsb_event(12));
    expected.push(small_image_table_event());
    expected.push(Event::BTreeFound {
        index: 0,
        kind: TreeKind::Catalog,
        root_bnode_id: 5,
        height: 2,
    });
    expected.push(Event::NodeFound { node_id: 1, node_type: 0, record_count: 3 });
    expected.push(Event::CatalogEntryFound {
        index_in_node: 0,
        object_id: 10,
        parent_id: 1,
        record_type_byte: 0x01,
        classification: RecordKind::Folder,
        name: "etc".to_string(),
    });
    expected.push(Event::CatalogEntryFound {
        index_in_node: 1,
        object_id: 11,
        parent_id: 1,
        record_type_byte: 0x02,
        classification: RecordKind::File,
        name: "passwd".to_string(),
    });
    expected.push(Event::CatalogEntryFound {
        index_in_node: 2,
        object_id: 12,
        parent_id: 1,
        record_type_byte: 0x02,
        classification: RecordKind::File,
        name: "hosts".to_string(),
    });
    expected.push(Event::BTreesRegionEnded { at_block: 12 });
    expected.push(Event::WalkSummary { total_folder_records: 1, total_file_records: 2 });
    assert_eq!(report.events, expected);
    assert_eq!(report.end, End::RegionEnded);
    assert_eq!(report.total_folder_records, 1);
    assert_eq!(report.total_file_records, 2);
}

#[test]
fn the_first_tree_of_a_region_at_block_one_hundred() {
    let mut image = vec![0u8; 600 * 4096];
    image[SB1 + 164] = 12;
    image[SB2 + 164] = 12;
    image[EXSB + 88..EXSB + 96].copy_from_slice(&100u64.to_le_bytes());
    image[EXSB + 96..EXSB + 104].copy_from_slice(&500u64.to_le_bytes());
    image_put_head(&mut image, 100 * 4096, 5, 2);
    image[104 * 4096..104 * 4096 + 4].copy_from_slice(&[0xed, 0xac, 0xef, 0x0d]);
    let report = inspect(&image);
    assert_eq!(report.end, End::Terminated);
    let n = report.events.len();
    assert_eq!(
        report.events[n - 3],
        Event::BTreeFound { index: 0, kind: TreeKind::Catalog, root_bnode_id: 5, height: 2 }
    );
    assert_eq!(report.events[n - 2], Event::PrematureTerminator { at_block: 4 });
    assert_eq!(
        report.events[n - 1],
        Event::WalkSummary { total_folder_records: 0, total_file_records: 0 }
    );
}

#[test]
fn equal_copies_of_the_superblock_are_told_equal() {
    let image = small_image(0);
    let report = inspect(&image);
    assert_eq!(report.events[1], Event::SuperBlocksCompared { equal: true });
    assert_eq!(&image[SB1..SB1 + 512], &image[SB2..SB2 + 512]);
}

#[test]
fn copies_that_differ_in_one_byte_are_told_apart_and_the_walk_goes_on() {
    let mut image = small_image(4);
    image_put_head(&mut image, 2 * 4096, 9, 1);
    let intact = inspect(&image);
    image[SB2 + 300] ^= 0x01;
    let report = inspect(&image);
    assert_eq!(report.events[1], Event::SuperBlocksCompared { equal: false });
    assert_eq!(report.events[0], intact.events[0]);
    assert_eq!(report.events[2..], intact.events[2..]);
    assert_eq!(report.end, End::RegionEnded);
    assert_eq!(
        report.events[5],
        Event::BTreeFound { index: 0, kind: TreeKind::Catalog, root_bnode_id: 9, height: 1 }
    );
}

#[test]
fn the_block_size_is_that_of_the_first_copy() {
    let mut image = small_image(4);
    image_put_head(&mut image, 2 * 4096, 9, 1);
    image[SB2 + 164] = 13;
    let report = inspect(&image);
    let mut expected = small_image_head_events(false);
    expected.push(small_image_exsb_event(4));
    expected.push(small_image_table_event());
    expected.push(Event::BTreeFound {
        index: 0,
        kind: TreeKind::Catalog,
        root_bnode_id: 9,
        height: 1,
    });
    expected.push(Event::BTreesRegionEnded { at_block: 4 });
    expected.push(Event::WalkSummary { total_folder_records: 0, total_file_records: 0 });
    assert_eq!(report.events, expected);
    assert_eq!(report.end, End::RegionEnded);
}

#[test]
fn every_byte_of_a_superblock_counts() {
    let image = small_image(0);
    for at in [0usize, 3, 8, 20, 50, 163, 164, 173, 200, 230, 247, 250, 400, 511] {
        let mut changed = image.clone();
        changed[SB2 + at] ^= 0x80;
        assert_eq!(
            inspect(&changed).events[1],
            Event::SuperBlocksCompared { equal: false },
            "a change of byte {} went unseen",
            at
        );
    }
}

#[test]
fn an_image_too_short_for_the_volume_header() {
    let image = small_image(0);
    for len in [0usize, 1, 100, 511] {
        let report = inspect(&image[..len]);
        assert!(report.events.is_empty());
        assert_eq!(report.end, End::Unreadable(DecodeError::TruncatedInput));
        assert_eq!((report.total_folder_records, report.total_file_records), (0, 0));
    }
}

#[test]
fn an_image_too_short_for_the_superblocks() {
    let image = small_image(0);
    for len in [512usize, 1023, 1024, 1535] {
        let report = inspect(&image[..len]);
        assert_eq!(
            report.events,
            vec![Event::VolumeHeaderParsed { layout_version: "2007".to_string() }]
        );
        assert_eq!(report.end, End::Unreadable(DecodeError::TruncatedInput));
    }
}

#[test]
fn an_image_too_short_for_the_extended_superblock() {
    let image = small_image(0);
    for len in [1536usize, 2000, 4095] {
        let report = inspect(&image[..len]);
        assert_eq!(report.events, small_image_head_events(true));
        assert_eq!(report.end, End::Unreadable(DecodeError::TruncatedInput));
    }
}

#[test]
fn an_image_too_short_for_the_base_table() {
    let image = small_image(0);
    for len in [4096usize, 4100, 4199] {
        let report = inspect(&image[..len]);
        let mut expected = small_image_head_events(true);
        expected.push(small_image_exsb_event(0));
        assert_eq!(report.events, expected);
        assert_eq!(report.end, End::Unreadable(DecodeError::TruncatedInput));
    }
    let report = inspect(&image[..4200]);
    assert_eq!(report.end, End::RegionEnded);
    assert_eq!(report.events.len(), 7);
}

#[test]
fn a_block_size_that_does_not_fit_is_refused() {
    let mut image = small_image(0);
    image[SB1 + 164] = 64;
    let report = inspect(&image);
    assert_eq!(
        report.events,
        vec![
            Event::VolumeHeaderParsed { layout_version: "2007".to_string() },
            Event::SuperBlocksCompared { equal: false },
            Event::SuperBlockParsed {
                log_block_size: 64,
                max_block_count: 1000,
                image_inode_count: 77,
            },
        ]
    );
    assert_eq!(report.end, End::Unreadable(DecodeError::OffsetOverflow));
}

#[test]
fn a_region_that_does_not_fit_is_refused() {
    let mut image = small_image(0);
    image[EXSB + 88..EXSB + 96].copy_from_slice(&u64::MAX.to_le_bytes());
    image[EXSB + 96..EXSB + 104].copy_from_slice(&1u64.to_le_bytes());
    let report = inspect(&image);
    assert_eq!(report.events.len(), 4);
    assert_eq!(
        report.events[3],
        Event::ExtendedSuperBlockParsed {
            files_count: 3,
            folders_count: 2,
            volume_extent: Extent { start_block: 0, length_blocks: 2 },
            debug_extent: Extent { start_block: 900, length_blocks: 4 },
            tables_extent: Extent { start_block: 1, length_blocks: 1 },
            btrees_extent: Extent { start_block: u64::MAX, length_blocks: 1 },
        }
    );
    assert_eq!(report.end, End::Unreadable(DecodeError::OffsetOverflow));
}

#[test]
fn a_tables_region_outside_the_image_is_truncated_input() {
    let mut image = small_image(2);
    image[EXSB + 72..EXSB + 80].copy_from_slice(&4u64.to_le_bytes());
    let report = inspect(&image);
    assert_eq!(report.events.len(), 4);
    assert_eq!(report.end, End::Unreadable(DecodeError::TruncatedInput));
}

#[test]
fn a_region_cut_short_gives_the_walk_up() {
    let mut image = small_image(8);
    image_put_head(&mut image, 2 * 4096, 1, 1);
    image.truncate(7 * 4096);
    let report = inspect(&image);
    assert_eq!(
        report.end,
        End::WalkAborted(Failure { error: DecodeError::TruncatedInput, block: 5, key: None })
    );
    assert_eq!(report.events.len(), 6);
    assert_eq!(
        report.events[5],
        Event::BTreeFound { index: 0, kind: TreeKind::Catalog, root_bnode_id: 1, height: 1 }
    );
}

#[test]
fn a_bad_key_is_told_with_its_node_and_index() {
    let mut image = small_image(8);
    let region = 2 * 4096;
    image_put_head(&mut image, region, 1, 1);
    image_put_node(&mut image, region + 4 * 4096, 4, 2);
    let at = image_put_key(&mut image, region + 4 * 4096 + 32, 10, 0x01, b"ok");
    image_put_key(&mut image, at, 11, 0x02, b"broken");
    image[at + 6..at + 8].copy_from_slice(&5u16.to_le_bytes());
    let report = inspect(&image);
    assert_eq!(
        report.end,
        End::WalkAborted(Failure { error: DecodeError::InvalidLength, block: 4, key: Some(1) })
    );
    assert_eq!(report.events.len(), 8);
    assert_eq!(report.events[6], Event::NodeFound { node_id: 4, node_type: 0, record_count: 2 });
    assert_eq!((report.total_folder_records, report.total_file_records), (1, 0));
}

#[test]
fn a_terminator_ends_the_walk() {
    let mut image = small_image(8);
    image[2 * 4096 + 4096..2 * 4096 + 4100].copy_from_slice(&[0xed, 0xac, 0xef, 0x0d]);
    let report = inspect(&image);
    assert_eq!(report.end, End::Terminated);
    assert_eq!(report.events.len(), 7);
    assert_eq!(report.events[5], Event::PrematureTerminator { at_block: 1 });
}

#[test]
fn inspecting_an_image_again_reports_the_same() {
    let mut image = small_image(12);
    let region = 2 * 4096;
    image_put_head(&mut image, region, 5, 2);
    image_put_node(&mut image, region + 4 * 4096, 1, 2);
    let at = image_put_key(&mut image, region + 4 * 4096 + 32, 10, 0x01, b"etc");
    image_put_key(&mut image, at, 11, 0x02, b"passwd");
    let copy = image.clone();
    let first = inspect(&image);
    let second = inspect(&image);
    assert_eq!(image, copy);
    assert_eq!(first.events, second.events);
    assert_eq!(first.end, second.end);
    assert_eq!(first.total_folder_records, second.total_folder_records);
    assert_eq!(first.total_file_records, second.total_file_records);
    assert_eq!(first.events.len(), 11);
}

#[test]
fn the_layout_version_is_text_up_to_a_zero_byte() {
    let mut image = small_image(0);
    image[4..8].copy_from_slice(b"20\0x");
    let report = inspect(&image);
    assert_eq!(report.events[0], Event::VolumeHeaderParsed { layout_version: "20".to_string() });
    image[4..8].copy_from_slice(&[0x32, 0xff, 0x30, 0x37]);
    let report = inspect(&image);
    assert_eq!(
        report.events[0],
        Event::VolumeHeaderParsed { layout_version: "2\u{fffd}07".to_string() }
    );
}

#[test]
fn bytes_that_are_never_read_do_not_change_the_report() {
    let mut image = small_image(4);
    image_put_head(&mut image, 2 * 4096, 9, 1);
    image.extend_from_slice(&[0u8; 4096]);
    let report = inspect(&image);
    let mut changed = image.clone();
    for at in 4096 + 104..2 * 4096 {
        changed[at] = 0xa5;
    }
    for at in 6 * 4096..7 * 4096 {
        changed[at] = 0x5a;
    }
    changed.extend_from_slice(b"more");
    let other = inspect(&changed);
    assert_eq!(report.events, other.events);
    assert_eq!(report.end, other.end);
    assert_eq!(report.events.len(), 8);
    changed[2 * 4096 + 12] = 10;
    assert_ne!(inspect(&changed).events, report.events);
}
