//! Decoding an image from its first byte to the end of the walk.
//!
//! The volume header stands at offset 0, the two copies of the superblock at
//! 0x200 and 0x400, the extended superblock at 0x600. The extended superblock
//! tells where the base table and the B-trees region lie.

use vstd::arithmetic::power2::pow2;
use vstd::prelude::*;

use crate::catalog::RECORD_FILE;
use crate::catalog::RECORD_FOLDER;
use crate::endian::lemma_window_of_window;
use crate::error::DecodeError;
use crate::events::entries_of_type;
use crate::events::lemma_entries_add;
use crate::events::lemma_entries_push;
use crate::events::views;
use crate::events::Event;
use crate::events::EventView;
use crate::layout::block_size;
use crate::layout::locate;
use crate::layout::Extent;
use crate::reader::clip;
use crate::reader::clipped;
use crate::reader::ByteReader;
use crate::superblock::lemma_super_block_copies;
use crate::superblock::ExtendedSuperBlockView;
use crate::superblock::SuperBlockView;
use crate::superblock::Vdfs4ExtendedSuperBlock;
use crate::superblock::Vdfs4SuperBlock;
use crate::tables::BaseTableView;
use crate::tables::Vdfs4BaseTable;
use crate::text::lossy_text;
use crate::text::text_bytes;
use crate::volume::Vdfs4VolumeBegins;
use crate::volume::VolumeBeginsView;
use crate::walker::walk;
use crate::walker::Failure;
use crate::walker::Region;
use crate::walker::WalkState;
use crate::walker::WalkerView;

verus! {

/// How the decoding of an image ended.
#[derive(Clone, Copy, Debug, PartialEq, Eq)]
pub enum End {
    /// The walk came to the end of the B-trees region.
    RegionEnded,
    /// The walk met the terminator before the end of the region.
    Terminated,
    /// A record before the B-trees region could not be decoded, or a region
    /// could not be located: there was no walk.
    Unreadable(DecodeError),
    /// The walk was given up.
    WalkAborted(Failure),
}

/// What decoding an image found, and how it ended.
#[derive(Clone, Debug)]
pub struct Report {
    /// Everything found, in the order in which it was found.
    pub events: Vec<Event>,
    pub end: End,
    /// How many folder records the walk met.
    pub total_folder_records: u64,
    /// How many file records the walk met.
    pub total_file_records: u64,
}

/// A report as plain values.
pub struct ReportView {
    pub events: Seq<EventView>,
    pub end: End,
    pub total_folder_records: nat,
    pub total_file_records: nat,
}

impl View for Report {
    type V = ReportView;

    open spec fn view(&self) -> ReportView {
        ReportView {
            events: views(self.events@),
            end: self.end,
            total_folder_records: self.total_folder_records as nat,
            total_file_records: self.total_file_records as nat,
        }
    }
}

/// The block size for a given base-two logarithm, where it fits in 64 bits.
pub open spec fn block_size_of(log_block_size: u8) -> Option<u64> {
    if log_block_size < 64 {
        Some(pow2(log_block_size as nat) as u64)
    } else {
        None
    }
}

/// The event that tells of the volume header.
pub open spec fn header_event(header: VolumeBeginsView) -> EventView {
    EventView::VolumeHeaderParsed { layout_version: lossy_text(text_bytes(header.layout_version)) }
}

/// The event that tells of a superblock.
pub open spec fn super_block_event(sb: SuperBlockView) -> EventView {
    EventView::SuperBlockParsed {
        log_block_size: sb.log_block_size,
        max_block_count: sb.maximum_blocks_count,
        image_inode_count: sb.image_inode_count,
    }
}

/// The event that tells of the extended superblock.
pub open spec fn extended_event(exsb: ExtendedSuperBlockView) -> EventView {
    EventView::ExtendedSuperBlockParsed {
        files_count: exsb.files_count,
        folders_count: exsb.folders_count,
        volume_extent: Extent {
            start_block: exsb.volume_start_block,
            length_blocks: exsb.volume_lenght_blocks,
        },
        debug_extent: Extent {
            start_block: exsb.debug_area_start_block,
            length_blocks: exsb.debug_area_lenght_blocks,
        },
        tables_extent: Extent {
            start_block: exsb.tables_start_block,
            length_blocks: exsb.tables_lenght_blocks,
        },
        btrees_extent: Extent {
            start_block: exsb.btrees_start_block,
            length_blocks: exsb.btrees_lenght_blocks,
        },
    }
}

/// The event that tells of the base table.
pub open spec fn base_table_event(table: BaseTableView) -> EventView {
    EventView::BaseTableParsed {
        sync_count: table.sync_count,
        mount_count: table.mount_count,
        checksum_offset: table.checksum_offset,
        last_page_index: table.last_page_index,
        translation_table_offsets: table.translation_table_offsets,
    }
}

/// The B-trees region that an extended superblock describes.
pub open spec fn region_of(exsb: ExtendedSuperBlockView, block_size: u64) -> Region {
    Region {
        offset: exsb.btrees_offset(block_size) as u64,
        block_size,
        length_blocks: exsb.btrees_lenght_blocks,
    }
}

/// The bytes that an image holds of its B-trees region.
pub open spec fn region_bytes(
    image: Seq<u8>,
    exsb: ExtendedSuperBlockView,
    block_size: u64,
) -> Seq<u8> {
    clipped(image, exsb.btrees_offset(block_size), exsb.btrees_end_offset(block_size))
}

impl ReportView {
    /// The report of a decoding that ended before the walk.
    pub open spec fn unreadable(events: Seq<EventView>, error: DecodeError) -> ReportView {
        ReportView {
            events,
            end: End::Unreadable(error),
            total_folder_records: 0,
            total_file_records: 0,
        }
    }

    /// The report of a decoding that ended with the given walk.
    pub open spec fn walked(events: Seq<EventView>, w: WalkerView) -> ReportView {
        ReportView {
            events: events + w.events,
            end: match w.state {
                WalkState::Done => End::Terminated,
                WalkState::Aborted(failure) => End::WalkAborted(failure),
                _ => End::RegionEnded,
            },
            total_folder_records: w.total_folder_records,
            total_file_records: w.total_file_records,
        }
    }

    /// What decoding the image gives: the volume header first.
    pub open spec fn of(image: Seq<u8>) -> ReportView {
        if image.len() < 0x200 {
            Self::unreadable(Seq::empty(), DecodeError::TruncatedInput)
        } else {
            let header = Vdfs4VolumeBegins::parse(image.subrange(0, 0x200));
            Self::after_header(image, seq![header_event(header)])
        }
    }

    /// Then the two copies of the superblock. They are compared, and the
    /// first one gives the block size whether or not they are equal.
    pub open spec fn after_header(image: Seq<u8>, events: Seq<EventView>) -> ReportView {
        if image.len() < 0x600 {
            Self::unreadable(events, DecodeError::TruncatedInput)
        } else {
            let first = Vdfs4SuperBlock::parse(image.subrange(0x200, 0x400));
            let second = Vdfs4SuperBlock::parse(image.subrange(0x400, 0x600));
            let events = events.push(
                EventView::SuperBlocksCompared { equal: first == second },
            ).push(super_block_event(first));
            match block_size_of(first.log_block_size) {
                None => Self::unreadable(events, DecodeError::OffsetOverflow),
                Some(block_size) => Self::after_super_blocks(image, events, block_size),
            }
        }
    }

    /// Then the extended superblock, which locates the regions.
    pub open spec fn after_super_blocks(
        image: Seq<u8>,
        events: Seq<EventView>,
        block_size: u64,
    ) -> ReportView {
        if image.len() < 0x1000 {
            Self::unreadable(events, DecodeError::TruncatedInput)
        } else {
            let exsb = Vdfs4ExtendedSuperBlock::parse(image.subrange(0x600, 0x1000));
            let events = events.push(extended_event(exsb));
            if !exsb.locatable(block_size) {
                Self::unreadable(events, DecodeError::OffsetOverflow)
            } else {
                Self::after_layout(image, events, exsb, block_size)
            }
        }
    }

    /// Then the base table at the start of the tables region, and last the
    /// walk over the B-trees region.
    pub open spec fn after_layout(
        image: Seq<u8>,
        events: Seq<EventView>,
        exsb: ExtendedSuperBlockView,
        block_size: u64,
    ) -> ReportView {
        let at = exsb.tables_offset(block_size);
        if at + 104 > image.len() {
            Self::unreadable(events, DecodeError::TruncatedInput)
        } else {
            let table = Vdfs4BaseTable::parse(image.subrange(at, at + 104));
            let events = events.push(base_table_event(table));
            let w = WalkerView::start(
                region_bytes(image, exsb, block_size),
                region_of(exsb, block_size),
            ).run().closed();
            Self::walked(events, w)
        }
    }
}

/// The second event of a report tells whether the two copies of the
/// superblock hold the same bytes: the copies are told equal exactly when
/// they are, byte for byte.
pub proof fn lemma_copies_compared(image: Seq<u8>)
    requires
        image.len() >= 0x600,
    ensures
        ReportView::of(image).events.len() >= 3,
        ReportView::of(image).events[1] == (EventView::SuperBlocksCompared {
            equal: image.subrange(0x200, 0x400) == image.subrange(0x400, 0x600),
        }),
{
    lemma_super_block_copies(image);
}

/// A report is fixed by the bytes that decoding reads: the records at the
/// start of the image, the base table, and the B-trees region. Two images
/// that agree on these give the same report, whatever else they hold.
pub proof fn lemma_report_of_what_is_read(a: Seq<u8>, b: Seq<u8>)
    requires
        a.len() >= 0x1000,
        b.len() >= 0x1000,
        a.subrange(0, 0x1000) == b.subrange(0, 0x1000),
        ({
            let exsb = Vdfs4ExtendedSuperBlock::parse(a.subrange(0x600, 0x1000));
            let first = Vdfs4SuperBlock::parse(a.subrange(0x200, 0x400));
            match block_size_of(first.log_block_size) {
                Some(block_size) => exsb.locatable(block_size) ==> {
                    let at = exsb.tables_offset(block_size);
                    &&& clipped(a, at, at + 104) == clipped(b, at, at + 104)
                    &&& region_bytes(a, exsb, block_size) == region_bytes(b, exsb, block_size)
                },
                None => true,
            }
        }),
    ensures
        ReportView::of(a) == ReportView::of(b),
{
    broadcast use lemma_window_of_window;

    let pa = a.subrange(0, 0x1000);
    let pb = b.subrange(0, 0x1000);
    assert(a.subrange(0, 0x200) == pa.subrange(0, 0x200));
    assert(b.subrange(0, 0x200) == pb.subrange(0, 0x200));
    assert(a.subrange(0x200, 0x400) == pa.subrange(0x200, 0x400));
    assert(b.subrange(0x200, 0x400) == pb.subrange(0x200, 0x400));
    assert(a.subrange(0x400, 0x600) == pa.subrange(0x400, 0x600));
    assert(b.subrange(0x400, 0x600) == pb.subrange(0x400, 0x600));
    assert(a.subrange(0x600, 0x1000) == pa.subrange(0x600, 0x1000));
    assert(b.subrange(0x600, 0x1000) == pb.subrange(0x600, 0x1000));
    let header = Vdfs4VolumeBegins::parse(a.subrange(0, 0x200));
    let first = Vdfs4SuperBlock::parse(a.subrange(0x200, 0x400));
    let exsb = Vdfs4ExtendedSuperBlock::parse(a.subrange(0x600, 0x1000));
    assert(ReportView::of(a) == ReportView::after_header(a, seq![header_event(header)]));
    assert(ReportView::of(b) == ReportView::after_header(b, seq![header_event(header)]));
    match block_size_of(first.log_block_size) {
        None => {},
        Some(block_size) => {
            if exsb.locatable(block_size) {
                let at = exsb.tables_offset(block_size);
                assert(at >= 0) by (nonlinear_arith)
                    requires
                        at == exsb.tables_start_block * block_size,
                ;
                if at + 104 <= a.len() {
                    assert(clipped(a, at, at + 104) == a.subrange(at, at + 104));
                    assert(clipped(b, at, at + 104).len() == 104);
                    assert(clipped(b, at, at + 104) == b.subrange(at, at + 104));
                } else {
                    assert(clipped(a, at, at + 104).len() < 104);
                    assert(clipped(b, at, at + 104).len() < 104);
                    assert(at + 104 > b.len());
                }
            }
        },
    }
}

/// Adds to a log an event that is no catalog entry.
fn record(events: &mut Vec<Event>, event: Event)
    requires
        !(event is CatalogEntryFound),
    ensures
        views(final(events)@) == views(old(events)@).push(event@),
        entries_of_type(views(final(events)@), RECORD_FOLDER) == entries_of_type(
            views(old(events)@),
            RECORD_FOLDER,
        ),
        entries_of_type(views(final(events)@), RECORD_FILE) == entries_of_type(
            views(old(events)@),
            RECORD_FILE,
        ),
{
    events.push(event);
    assert(views(events@) =~= views(old(events)@).push(event@));
    proof {
        lemma_entries_push(views(old(events)@), event@, RECORD_FOLDER);
        lemma_entries_push(views(old(events)@), event@, RECORD_FILE);
    }
}

/// The report of a decoding that ended before the walk.
fn unreadable(events: Vec<Event>, error: DecodeError) -> (report: Report)
    ensures
        report@ == ReportView::unreadable(views(events@), error),
        report.events@ == events@,
{
    Report { events, end: End::Unreadable(error), total_folder_records: 0, total_file_records: 0 }
}

/// Decodes an image: the volume header, the two copies of the superblock,
/// the extended superblock, the base table, and the blocks of the B-trees
/// region. The report holds what was found up to the point where decoding
/// ended, and tells how it ended.
pub fn inspect(image: &[u8]) -> (report: Report)
    ensures
        report@ == ReportView::of(image@),
        report.total_folder_records == entries_of_type(report@.events, RECORD_FOLDER),
        report.total_file_records == entries_of_type(report@.events, RECORD_FILE),
{
    let mut events: Vec<Event> = Vec::new();
    assert(views(events@) =~= Seq::empty());
    let mut reader = ByteReader::new(image);
    let header = match Vdfs4VolumeBegins::decode(&mut reader) {
        Ok(header) => header,
        Err(e) => { return unreadable(events, e); },
    };
    record(&mut events, Event::VolumeHeaderParsed { layout_version: header.layout_version_str() });
    assert(views(events@) =~= seq![header_event(header@)]);
    let first = match Vdfs4SuperBlock::decode(&mut reader) {
        Ok(sb) => sb,
        Err(e) => { return unreadable(events, e); },
    };
    let second = match Vdfs4SuperBlock::decode(&mut reader) {
        Ok(sb) => sb,
        Err(e) => { return unreadable(events, e); },
    };
    record(&mut events, Event::SuperBlocksCompared { equal: first == second });
    record(
        &mut events,
        Event::SuperBlockParsed {
            log_block_size: first.log_block_size,
            max_block_count: first.maximum_blocks_count,
            image_inode_count: first.image_inode_count,
        },
    );
    let size: u64 = match block_size(first.log_block_size) {
        Some(size) => size,
        None => { return unreadable(events, DecodeError::OffsetOverflow); },
    };
    let exsb = match Vdfs4ExtendedSuperBlock::decode(&mut reader) {
        Ok(exsb) => exsb,
        Err(e) => { return unreadable(events, e); },
    };
    record(
        &mut events,
        Event::ExtendedSuperBlockParsed {
            files_count: exsb.files_count,
            folders_count: exsb.folders_count,
            volume_extent: exsb.volume_extent(),
            debug_extent: exsb.debug_extent(),
            tables_extent: exsb.tables_extent(),
            btrees_extent: exsb.btrees_extent(),
        },
    );
    let layout = match locate(&exsb, size) {
        Some(layout) => layout,
        None => { return unreadable(events, DecodeError::OffsetOverflow); },
    };
    reader.seek_to(layout.tables_offset);
    let table = match Vdfs4BaseTable::decode(&mut reader) {
        Ok(table) => table,
        Err(e) => { return unreadable(events, e); },
    };
    record(
        &mut events,
        Event::BaseTableParsed {
            sync_count: table.sync_count,
            mount_count: table.mount_count,
            checksum_offset: table.checksum_offset,
            last_page_index: table.last_page_index,
            translation_table_offsets: table.translation_table_offsets,
        },
    );
    let region = Region {
        offset: layout.btrees_offset,
        block_size: size,
        length_blocks: exsb.btrees_lenght_blocks,
    };
    let mut w = walk(clip(image, layout.btrees_offset, layout.btrees_end_offset), region);
    let end = match w.state {
        WalkState::Done => End::Terminated,
        WalkState::Aborted(failure) => End::WalkAborted(failure),
        _ => End::RegionEnded,
    };
    let ghost before = events@;
    let ghost found = w.events@;
    events.append(&mut w.events);
    assert(views(events@) =~= views(before) + views(found));
    proof {
        lemma_entries_add(views(before), views(found), RECORD_FOLDER);
        lemma_entries_add(views(before), views(found), RECORD_FILE);
    }
    Report {
        events,
        end,
        total_folder_records: w.total_folder_records,
        total_file_records: w.total_file_records,
    }
}

} // verus!
