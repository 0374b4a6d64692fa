//! What decoding reports: one event for each thing found in the image.

use vstd::prelude::*;

use crate::catalog::RecordKind;
use crate::layout::Extent;

verus! {

/// Which of the B-trees a tree is, told by its place in the region.
#[derive(Clone, Copy, Debug, PartialEq, Eq, Structural)]
pub enum TreeKind {
    /// The first tree: files and folders by key.
    Catalog,
    /// The second tree.
    Extents,
    /// The third tree.
    Xattrs,
    /// Any tree after the third.
    Unknown,
}

/// The kind of the tree that is found after `index` others.
pub open spec fn tree_kind(index: nat) -> TreeKind {
    if index == 0 {
        TreeKind::Catalog
    } else if index == 1 {
        TreeKind::Extents
    } else if index == 2 {
        TreeKind::Xattrs
    } else {
        TreeKind::Unknown
    }
}

/// Tells the kind of a tree from its place.
pub fn classify_tree(index: u64) -> (kind: TreeKind)
    ensures
        kind == tree_kind(index as nat),
{
    match index {
        0 => TreeKind::Catalog,
        1 => TreeKind::Extents,
        2 => TreeKind::Xattrs,
        _ => TreeKind::Unknown,
    }
}

/// One thing found while decoding.
#[derive(Clone, Debug, PartialEq, Eq)]
pub enum Event {
    VolumeHeaderParsed { layout_version: String },
    /// Whether the two superblock copies hold the same bytes.
    SuperBlocksCompared { equal: bool },
    SuperBlockParsed { log_block_size: u8, max_block_count: u64, image_inode_count: u64 },
    ExtendedSuperBlockParsed {
        files_count: u64,
        folders_count: u64,
        volume_extent: Extent,
        debug_extent: Extent,
        tables_extent: Extent,
        btrees_extent: Extent,
    },
    BaseTableParsed {
        sync_count: u32,
        mount_count: u64,
        checksum_offset: u64,
        last_page_index: [u64; 5],
        translation_table_offsets: [u64; 5],
    },
    /// The head of the tree that follows `index` others.
    BTreeFound { index: u64, kind: TreeKind, root_bnode_id: u32, height: u16 },
    NodeFound { node_id: u32, node_type: u32, record_count: u16 },
    CatalogEntryFound {
        index_in_node: u16,
        object_id: u64,
        parent_id: u64,
        record_type_byte: u8,
        classification: RecordKind,
        name: String,
    },
    /// The walk came to the end of the region.
    BTreesRegionEnded { at_block: u64 },
    /// The walk met the terminator before the end of the region.
    PrematureTerminator { at_block: u64 },
    WalkSummary { total_folder_records: u64, total_file_records: u64 },
}

/// An event as plain values.
pub enum EventView {
    VolumeHeaderParsed { layout_version: Seq<char> },
    SuperBlocksCompared { equal: bool },
    SuperBlockParsed { log_block_size: u8, max_block_count: u64, image_inode_count: u64 },
    ExtendedSuperBlockParsed {
        files_count: u64,
        folders_count: u64,
        volume_extent: Extent,
        debug_extent: Extent,
        tables_extent: Extent,
        btrees_extent: Extent,
    },
    BaseTableParsed {
        sync_count: u32,
        mount_count: u64,
        checksum_offset: u64,
        last_page_index: Seq<u64>,
        translation_table_offsets: Seq<u64>,
    },
    BTreeFound { index: u64, kind: TreeKind, root_bnode_id: u32, height: u16 },
    NodeFound { node_id: u32, node_type: u32, record_count: u16 },
    CatalogEntryFound {
        index_in_node: u16,
        object_id: u64,
        parent_id: u64,
        record_type_byte: u8,
        classification: RecordKind,
        name: Seq<char>,
    },
    BTreesRegionEnded { at_block: u64 },
    PrematureTerminator { at_block: u64 },
    WalkSummary { total_folder_records: u64, total_file_records: u64 },
}

impl View for Event {
    type V = EventView;

    open spec fn view(&self) -> EventView {
        match *self {
            Event::VolumeHeaderParsed { layout_version } => EventView::VolumeHeaderParsed {
                layout_version: layout_version@,
            },
            Event::SuperBlocksCompared { equal } => EventView::SuperBlocksCompared { equal },
            Event::SuperBlockParsed {
                log_block_size,
                max_block_count,
                image_inode_count,
            } => EventView::SuperBlockParsed { log_block_size, max_block_count, image_inode_count },
            Event::ExtendedSuperBlockParsed {
                files_count,
                folders_count,
                volume_extent,
                debug_extent,
                tables_extent,
                btrees_extent,
            } => EventView::ExtendedSuperBlockParsed {
                files_count,
                folders_count,
                volume_extent,
                debug_extent,
                tables_extent,
                btrees_extent,
            },
            Event::BaseTableParsed {
                sync_count,
                mount_count,
                checksum_offset,
                last_page_index,
                translation_table_offsets,
            } => EventView::BaseTableParsed {
                sync_count,
                mount_count,
                checksum_offset,
                last_page_index: last_page_index@,
                translation_table_offsets: translation_table_offsets@,
            },
            Event::BTreeFound { index, kind, root_bnode_id, height } => EventView::BTreeFound {
                index,
                kind,
                root_bnode_id,
                height,
            },
            Event::NodeFound { node_id, node_type, record_count } => EventView::NodeFound {
                node_id,
                node_type,
                record_count,
            },
            Event::CatalogEntryFound {
                index_in_node,
                object_id,
                parent_id,
                record_type_byte,
                classification,
                name,
            } => EventView::CatalogEntryFound {
                index_in_node,
                object_id,
                parent_id,
                record_type_byte,
                classification,
                name: name@,
            },
            Event::BTreesRegionEnded { at_block } => EventView::BTreesRegionEnded { at_block },
            Event::PrematureTerminator { at_block } => EventView::PrematureTerminator { at_block },
            Event::WalkSummary {
                total_folder_records,
                total_file_records,
            } => EventView::WalkSummary { total_folder_records, total_file_records },
        }
    }
}

impl EventView {
    /// Whether the event is a catalog entry with the given record type byte.
    pub open spec fn is_entry_of_type(&self, record_type: u8) -> bool {
        match *self {
            EventView::CatalogEntryFound { record_type_byte, .. } => {
                record_type_byte == record_type
            },
            _ => false,
        }
    }
}

/// The events of a log as plain values.
pub open spec fn views(events: Seq<Event>) -> Seq<EventView> {
    events.map_values(|e: Event| e@)
}

/// How many of the events are catalog entries with the given record type byte.
pub open spec fn entries_of_type(events: Seq<EventView>, record_type: u8) -> nat
    decreases events.len(),
{
    if events.len() == 0 {
        0
    } else {
        entries_of_type(events.drop_last(), record_type) + if events.last().is_entry_of_type(
            record_type,
        ) {
            1nat
        } else {
            0nat
        }
    }
}

/// A log holds no more entries of a type than it holds events.
pub proof fn lemma_entries_bounded(events: Seq<EventView>, record_type: u8)
    ensures
        entries_of_type(events, record_type) <= events.len(),
    decreases events.len(),
{
    if events.len() > 0 {
        lemma_entries_bounded(events.drop_last(), record_type);
    }
}

/// One more event adds one to the count where it is an entry of the type, and
/// nothing where it is not.
pub proof fn lemma_entries_push(events: Seq<EventView>, event: EventView, record_type: u8)
    ensures
        entries_of_type(events.push(event), record_type) == entries_of_type(events, record_type)
            + if event.is_entry_of_type(record_type) {
            1nat
        } else {
            0nat
        },
{
    assert(events.push(event).drop_last() =~= events);
}

/// The entries of two logs put end to end are those of each, added up.
pub proof fn lemma_entries_add(a: Seq<EventView>, b: Seq<EventView>, record_type: u8)
    ensures
        entries_of_type(a + b, record_type) == entries_of_type(a, record_type)
            + entries_of_type(b, record_type),
    decreases b.len(),
{
    if b.len() == 0 {
        assert(a + b =~= a);
    } else {
        lemma_entries_add(a, b.drop_last(), record_type);
        assert((a + b).drop_last() =~= a + b.drop_last());
    }
}

} // verus!
