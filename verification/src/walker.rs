//! The walk over the blocks of the B-trees region.
//!
//! The region is a run of blocks of one size. Each block opens with a tag of
//! four bytes that tells what the block holds. Bitmaps and blocks with an
//! unknown tag take one block; the head of a tree and a node take four. The
//! walker reads the tag, decodes what it names, and moves on to the next
//! block, until the region ends, the terminator is met, or decoding fails.

use vstd::prelude::*;

use crate::btree::Vdfs4GenNodeDescr;
use crate::btree::Vdfs4RawBtreeHead;
use crate::catalog::record_kind;
use crate::catalog::CatTreeKeyView;
use crate::catalog::CatalogKeys;
use crate::catalog::RECORD_FILE;
use crate::catalog::RECORD_FOLDER;
use crate::catalog::Vdfs4CatTreeKey;
use crate::endian::lemma_window_of_window;
use crate::error::DecodeError;
use crate::events::classify_tree;
use crate::events::entries_of_type;
use crate::events::lemma_entries_bounded;
use crate::events::lemma_entries_push;
use crate::events::tree_kind;
use crate::events::views;
use crate::events::Event;
use crate::events::EventView;
use crate::reader::clip;
use crate::reader::clipped;
use crate::reader::read_exact;
use crate::reader::ByteReader;
use crate::tag::classify_tag;
use crate::tag::tag_of;
use crate::tag::Tag;
use crate::tag::TAG_SIZE;
use crate::text::lossy_text;
use crate::text::text_bytes;
use crate::walk_laws::lemma_closed_wf;

verus! {

/// How many blocks the head of a tree or a node takes.
pub const NODE_BLOCKS: u64 = 4;

/// The B-trees region: where it starts in the image, how large its blocks
/// are, and how many of them it has.
#[derive(Clone, Copy, Debug, PartialEq, Eq, Structural)]
pub struct Region {
    /// Byte offset of the region in the image.
    pub offset: u64,
    pub block_size: u64,
    pub length_blocks: u64,
}

/// Why and where a walk was given up.
#[derive(Clone, Copy, Debug, PartialEq, Eq)]
pub struct Failure {
    pub error: DecodeError,
    /// The block, counted from the start of the region, that opens what could
    /// not be decoded.
    pub block: u64,
    /// The index in its node of the key that could not be decoded, where it
    /// was a key.
    pub key: Option<u16>,
}

/// Where a walk stands.
#[derive(Clone, Copy, Debug, PartialEq, Eq)]
pub enum WalkState {
    /// About to read the tag of a block.
    Scanning,
    /// The tag of the block was that of the head of a tree.
    InBTreeHeader,
    /// The tag of the block was that of a node.
    InNode,
    /// The terminator was met.
    Done,
    /// Decoding failed.
    Aborted(Failure),
}

/// A walk in progress over the bytes of a B-trees region.
#[derive(Clone, Debug)]
pub struct Walker<'a> {
    /// The bytes of the region, as far as the image holds them.
    pub bytes: &'a [u8],
    pub region: Region,
    pub state: WalkState,
    /// How many blocks of the region lie behind.
    pub block: u64,
    /// How many heads of trees were found.
    pub trees_seen: u64,
    pub total_folder_records: u64,
    pub total_file_records: u64,
    /// What was found so far.
    pub events: Vec<Event>,
}

/// A walk in progress as plain values.
pub struct WalkerView {
    pub bytes: Seq<u8>,
    pub region: Region,
    pub state: WalkState,
    pub block: nat,
    pub trees_seen: nat,
    pub total_folder_records: nat,
    pub total_file_records: nat,
    pub events: Seq<EventView>,
}

impl<'a> View for Walker<'a> {
    type V = WalkerView;

    open spec fn view(&self) -> WalkerView {
        WalkerView {
            bytes: self.bytes@,
            region: self.region,
            state: self.state,
            block: self.block as nat,
            trees_seen: self.trees_seen as nat,
            total_folder_records: self.total_folder_records as nat,
            total_file_records: self.total_file_records as nat,
            events: views(self.events@),
        }
    }
}

/// The event that tells of the key with the given index in its node.
pub open spec fn entry_of(index: u16, key: CatTreeKeyView) -> EventView {
    EventView::CatalogEntryFound {
        index_in_node: index,
        object_id: key.object_id,
        parent_id: key.parent_id,
        record_type_byte: key.record_type,
        classification: record_kind(key.record_type),
        name: lossy_text(text_bytes(key.name)),
    }
}

impl WalkerView {
    /// A walk that has not begun.
    pub open spec fn start(bytes: Seq<u8>, region: Region) -> WalkerView {
        WalkerView {
            bytes,
            region,
            state: WalkState::Scanning,
            block: 0,
            trees_seen: 0,
            total_folder_records: 0,
            total_file_records: 0,
            events: Seq::empty(),
        }
    }

    /// What holds of every walk: it stands within its region, each tree found
    /// lies four blocks behind, and the two totals are the numbers of folder
    /// and file entries among the events.
    pub open spec fn wf(&self) -> bool {
        &&& self.block <= self.region.length_blocks
        &&& 4 * self.trees_seen <= self.block
        &&& self.total_folder_records == entries_of_type(self.events, RECORD_FOLDER)
        &&& self.total_file_records == entries_of_type(self.events, RECORD_FILE)
    }

    /// Whether the walk is over: the terminator was met, decoding failed, or
    /// the end of the region was reached.
    pub open spec fn is_terminal(&self) -> bool {
        match self.state {
            WalkState::Scanning => self.block >= self.region.length_blocks,
            WalkState::InBTreeHeader => false,
            WalkState::InNode => false,
            WalkState::Done => true,
            WalkState::Aborted(_) => true,
        }
    }

    /// A bound on the steps that the walk can still take.
    pub open spec fn work_left(&self) -> nat {
        let blocks_left: nat = if self.block < self.region.length_blocks {
            (self.region.length_blocks - self.block) as nat
        } else {
            0
        };
        match self.state {
            WalkState::Scanning => if blocks_left == 0 {
                0
            } else {
                2 * blocks_left + 2
            },
            WalkState::InBTreeHeader => 2 * blocks_left + 1,
            WalkState::InNode => 2 * blocks_left + 1,
            WalkState::Done => 0,
            WalkState::Aborted(_) => 0,
        }
    }

    /// The bytes that the region holds of the `count` blocks ahead.
    pub open spec fn span(&self, count: int) -> Seq<u8> {
        clipped(
            self.bytes,
            self.block * self.region.block_size,
            (self.block + count) * self.region.block_size,
        )
    }

    /// The walk given up at the block where it stands.
    pub open spec fn aborted(self, error: DecodeError, key: Option<u16>) -> WalkerView {
        WalkerView {
            state: WalkState::Aborted(Failure { error, block: self.block as u64, key }),
            ..self
        }
    }

    /// The walk moved on by `count` blocks, about to read a tag.
    pub open spec fn advanced(self, count: nat) -> WalkerView {
        WalkerView { state: WalkState::Scanning, block: self.block + count, ..self }
    }

    /// The walk with one more event. An entry for a folder or for a file adds
    /// one to its total.
    pub open spec fn emitted(self, event: EventView) -> WalkerView {
        WalkerView {
            events: self.events.push(event),
            total_folder_records: if event.is_entry_of_type(RECORD_FOLDER) {
                self.total_folder_records + 1
            } else {
                self.total_folder_records
            },
            total_file_records: if event.is_entry_of_type(RECORD_FILE) {
                self.total_file_records + 1
            } else {
                self.total_file_records
            },
            ..self
        }
    }

    /// Reads the tag of the block ahead. A bitmap or an unknown block is
    /// passed over; the terminator ends the walk; the head of a tree and a
    /// node are left to the next step.
    pub open spec fn scan(self) -> WalkerView {
        let block = self.span(1);
        if block.len() < 4 {
            self.aborted(DecodeError::TruncatedInput, None)
        } else {
            match tag_of(block.subrange(0, 4)) {
                Tag::Bitmap => self.advanced(1),
                Tag::InodeBitmap => self.advanced(1),
                Tag::Unrecognized => self.advanced(1),
                Tag::BTreeHeader => WalkerView { state: WalkState::InBTreeHeader, ..self },
                Tag::Node => WalkerView { state: WalkState::InNode, ..self },
                Tag::Terminator => WalkerView {
                    state: WalkState::Done,
                    ..self.emitted(EventView::PrematureTerminator { at_block: self.block as u64 })
                },
            }
        }
    }

    /// Decodes the head of a tree from the four blocks ahead and passes over
    /// them.
    pub open spec fn read_head(self) -> WalkerView {
        let span = self.span(4);
        if self.region.length_blocks - self.block < 4 || span.len() < 20 {
            self.aborted(DecodeError::TruncatedInput, None)
        } else {
            let head = Vdfs4RawBtreeHead::parse(span.subrange(0, 20));
            let found = self.emitted(
                EventView::BTreeFound {
                    index: self.trees_seen as u64,
                    kind: tree_kind(self.trees_seen),
                    root_bnode_id: head.root_bnode_id,
                    height: head.btree_height,
                },
            );
            WalkerView { trees_seen: self.trees_seen + 1, ..found }.advanced(4)
        }
    }

    /// Decodes a node from the four blocks ahead and passes over them. In the
    /// catalog tree, the first of the region, the keys of the node are decoded
    /// too; the nodes of other trees are taken as their descriptor alone.
    pub open spec fn read_node(self) -> WalkerView {
        let span = self.span(4);
        if self.region.length_blocks - self.block < 4 || span.len() < 32 {
            self.aborted(DecodeError::TruncatedInput, None)
        } else {
            let node = Vdfs4GenNodeDescr::parse(span.subrange(0, 32));
            let found = self.emitted(
                EventView::NodeFound {
                    node_id: node.node_id,
                    node_type: node.node_type,
                    record_count: node.recs_count,
                },
            );
            if self.trees_seen == 1 {
                found.read_keys(span.subrange(32, span.len() as int), node.recs_count, 0)
            } else {
                found.advanced(4)
            }
        }
    }

    /// Decodes the keys of a node from the key with the given index on, out
    /// of what is left of the four blocks of the node. The first key that
    /// does not decode ends the walk; after the last key the node is passed
    /// over.
    pub open spec fn read_keys(self, rest: Seq<u8>, count: u16, index: u16) -> WalkerView
        decreases count - index,
    {
        if index >= count {
            self.advanced(4)
        } else {
            match Vdfs4CatTreeKey::parse(rest) {
                Err(e) => self.aborted(e, Some(index)),
                Ok(key) => self.emitted(entry_of(index, key)).read_keys(
                    rest.subrange(key.record_len as int, rest.len() as int),
                    count,
                    (index + 1) as u16,
                ),
            }
        }
    }

    /// One transition of the walk. A walk that is over stays as it is.
    pub open spec fn step(self) -> WalkerView {
        match self.state {
            WalkState::Scanning => if self.block >= self.region.length_blocks {
                self
            } else {
                self.scan()
            },
            WalkState::InBTreeHeader => self.read_head(),
            WalkState::InNode => self.read_node(),
            WalkState::Done => self,
            WalkState::Aborted(_) => self,
        }
    }

    /// The walk taken to its end.
    pub open spec fn run(self) -> WalkerView
        decreases self.work_left(),
    {
        if self.is_terminal() {
            self
        } else {
            proof {
                lemma_step_progress(self);
            }
            self.step().run()
        }
    }

    /// The walk with its closing events: that the end of the region was
    /// reached, where it was, and the two totals, unless decoding failed.
    pub open spec fn closed(self) -> WalkerView {
        match self.state {
            WalkState::Aborted(_) => self,
            WalkState::Done => self.emitted(self.summary()),
            _ => self.emitted(EventView::BTreesRegionEnded { at_block: self.block as u64 }).emitted(
                self.summary(),
            ),
        }
    }

    /// The event that tells the two totals.
    pub open spec fn summary(&self) -> EventView {
        EventView::WalkSummary {
            total_folder_records: self.total_folder_records as u64,
            total_file_records: self.total_file_records as u64,
        }
    }
}

/// Decoding keys ends in one of two ways: the walk is given up where it
/// stands, or it stands four blocks on, about to read a tag.
pub proof fn lemma_read_keys_ends(w: WalkerView, rest: Seq<u8>, count: u16, index: u16)
    ensures
        ({
            let after = w.read_keys(rest, count, index);
            &&& after.region == w.region
            &&& after.bytes == w.bytes
            &&& after.trees_seen == w.trees_seen
            &&& after.state is Aborted || (after.state is Scanning && after.block == w.block + 4)
            &&& after.state is Aborted ==> after.block == w.block
        }),
    decreases count - index,
{
    if index < count {
        match Vdfs4CatTreeKey::parse(rest) {
            Err(e) => {},
            Ok(key) => {
                lemma_read_keys_ends(
                    w.emitted(entry_of(index, key)),
                    rest.subrange(key.record_len as int, rest.len() as int),
                    count,
                    (index + 1) as u16,
                );
            },
        }
    }
}

/// Every step of a walk that is not over brings it nearer to its end, and
/// never takes it back: a step that passes over blocks passes over one at
/// least.
pub proof fn lemma_step_progress(w: WalkerView)
    ensures
        !w.is_terminal() ==> w.step().work_left() < w.work_left(),
        w.step().block >= w.block,
        w.step().block == w.block || w.step().state is Scanning,
        w.step().region == w.region,
        w.step().bytes == w.bytes,
{
    match w.state {
        WalkState::InNode => {
            let span = w.span(4);
            if !(w.region.length_blocks - w.block < 4 || span.len() < 32) {
                let node = Vdfs4GenNodeDescr::parse(span.subrange(0, 32));
                let found = w.emitted(
                    EventView::NodeFound {
                        node_id: node.node_id,
                        node_type: node.node_type,
                        record_count: node.recs_count,
                    },
                );
                lemma_read_keys_ends(
                    found,
                    span.subrange(32, span.len() as int),
                    node.recs_count,
                    0,
                );
            }
        },
        _ => {},
    }
}

impl<'a> Walker<'a> {
    /// A walker at the start of a region, over the bytes that the image holds
    /// of it.
    pub fn new(bytes: &'a [u8], region: Region) -> (w: Self)
        ensures
            w@ == WalkerView::start(bytes@, region),
            w@.wf(),
    {
        let w = Walker {
            bytes,
            region,
            state: WalkState::Scanning,
            block: 0,
            trees_seen: 0,
            total_folder_records: 0,
            total_file_records: 0,
            events: Vec::new(),
        };
        assert(views(w.events@) =~= Seq::empty());
        w
    }

    /// Whether the walk is over.
    pub fn is_finished(&self) -> (r: bool)
        ensures
            r == self@.is_terminal(),
    {
        match self.state {
            WalkState::Scanning => self.block >= self.region.length_blocks,
            WalkState::InBTreeHeader => false,
            WalkState::InNode => false,
            WalkState::Done => true,
            WalkState::Aborted(_) => true,
        }
    }

    /// The byte offset in the image of the block ahead, where it fits in 64
    /// bits.
    pub fn offset(&self) -> (r: Option<u64>)
        ensures
            match r {
                Some(v) => v == self.region.offset + self.block * self.region.block_size,
                None => self.region.offset + self.block * self.region.block_size > u64::MAX,
            },
    {
        match self.block.checked_mul(self.region.block_size) {
            Some(v) => self.region.offset.checked_add(v),
            None => None,
        }
    }

    /// The bytes that the region holds of the `count` blocks ahead.
    fn span(&self, count: u64) -> (r: &'a [u8])
        requires
            self.block + count <= u64::MAX,
        ensures
            r@ == self@.span(count as int),
    {
        let size: u64 = self.region.block_size;
        let end: u64 = self.bytes.len() as u64;
        assert(0 <= self.block * size <= (self.block + count) * size) by (nonlinear_arith);
        match self.block.checked_mul(size) {
            None => clip(self.bytes, end, end),
            Some(from) => match (self.block + count).checked_mul(size) {
                None => clip(self.bytes, from, end),
                Some(to) => clip(self.bytes, from, to),
            },
        }
    }

    /// Gives the walk up at the block where it stands.
    fn abort(&mut self, error: DecodeError, key: Option<u16>)
        requires
            old(self)@.wf(),
        ensures
            final(self)@ == old(self)@.aborted(error, key),
            final(self)@.wf(),
    {
        self.state = WalkState::Aborted(Failure { error, block: self.block, key });
    }

    /// Moves on by `count` blocks.
    fn advance(&mut self, count: u64)
        requires
            old(self)@.wf(),
            old(self).block + count <= old(self).region.length_blocks,
        ensures
            final(self)@ == old(self)@.advanced(count as nat),
            final(self)@.wf(),
    {
        self.block = self.block + count;
        self.state = WalkState::Scanning;
    }

    /// Adds an event, and counts it where it is an entry for a folder or for
    /// a file.
    fn emit(&mut self, event: Event)
        requires
            old(self)@.wf(),
        ensures
            final(self)@ == old(self)@.emitted(event@),
            final(self)@.wf(),
    {
        let (folder, file): (bool, bool) = match &event {
            Event::CatalogEntryFound { record_type_byte, .. } => (
                *record_type_byte == RECORD_FOLDER,
                *record_type_byte == RECORD_FILE,
            ),
            _ => (false, false),
        };
        let ghost before = views(self.events@);
        self.events.push(event);
        proof {
            let after = views(self.events@);
            assert(after =~= before.push(event@));
            lemma_entries_push(before, event@, RECORD_FOLDER);
            lemma_entries_push(before, event@, RECORD_FILE);
            lemma_entries_bounded(after, RECORD_FOLDER);
            lemma_entries_bounded(after, RECORD_FILE);
            assert(after.len() == self.events.len());
        }
        if folder {
            self.total_folder_records = self.total_folder_records + 1;
        }
        if file {
            self.total_file_records = self.total_file_records + 1;
        }
    }

    /// Reads the tag of the block ahead.
    fn scan(&mut self)
        requires
            old(self)@.wf(),
            old(self).block < old(self).region.length_blocks,
        ensures
            final(self)@ == old(self)@.scan(),
            final(self)@.wf(),
    {
        broadcast use lemma_window_of_window;

        let block: &[u8] = self.span(1);
        let mut reader = ByteReader::new(block);
        match read_exact(&mut reader, TAG_SIZE) {
            Err(_) => {
                self.abort(DecodeError::TruncatedInput, None);
            },
            Ok(tag) => {
                match classify_tag(tag.as_slice()) {
                    Tag::Bitmap => {
                        self.advance(1);
                    },
                    Tag::InodeBitmap => {
                        self.advance(1);
                    },
                    Tag::Unrecognized => {
                        self.advance(1);
                    },
                    Tag::BTreeHeader => {
                        self.state = WalkState::InBTreeHeader;
                    },
                    Tag::Node => {
                        self.state = WalkState::InNode;
                    },
                    Tag::Terminator => {
                        self.emit(Event::PrematureTerminator { at_block: self.block });
                        self.state = WalkState::Done;
                    },
                }
            },
        }
    }

    /// Decodes the head of a tree from the four blocks ahead.
    fn read_head(&mut self)
        requires
            old(self)@.wf(),
        ensures
            final(self)@ == old(self)@.read_head(),
            final(self)@.wf(),
    {
        broadcast use lemma_window_of_window;

        if self.region.length_blocks - self.block < NODE_BLOCKS {
            self.abort(DecodeError::TruncatedInput, None);
            return ;
        }
        let span: &[u8] = self.span(NODE_BLOCKS);
        let mut reader = ByteReader::new(span);
        match Vdfs4RawBtreeHead::decode(&mut reader) {
            Err(_) => {
                self.abort(DecodeError::TruncatedInput, None);
            },
            Ok(head) => {
                self.emit(
                    Event::BTreeFound {
                        index: self.trees_seen,
                        kind: classify_tree(self.trees_seen),
                        root_bnode_id: head.root_bnode_id,
                        height: head.btree_height,
                    },
                );
                self.advance(NODE_BLOCKS);
                self.trees_seen = self.trees_seen + 1;
            },
        }
    }

    /// Decodes a node from the four blocks ahead, with its keys where the
    /// node belongs to the catalog tree.
    fn read_node(&mut self)
        requires
            old(self)@.wf(),
        ensures
            final(self)@ == old(self)@.read_node(),
            final(self)@.wf(),
    {
        broadcast use lemma_window_of_window;

        if self.region.length_blocks - self.block < NODE_BLOCKS {
            self.abort(DecodeError::TruncatedInput, None);
            return ;
        }
        let span: &[u8] = self.span(NODE_BLOCKS);
        let mut reader = ByteReader::new(span);
        let node = match Vdfs4GenNodeDescr::decode(&mut reader) {
            Err(_) => {
                self.abort(DecodeError::TruncatedInput, None);
                return ;
            },
            Ok(node) => node,
        };
        self.emit(
            Event::NodeFound {
                node_id: node.node_id,
                node_type: node.node_type,
                record_count: node.recs_count,
            },
        );
        if self.trees_seen != 1 {
            self.advance(NODE_BLOCKS);
            return ;
        }
        let mut keys = CatalogKeys::new(reader, node.recs_count);
        let ghost goal = self@.read_keys(keys.reader.rest(), keys.count, 0);
        assert(keys.reader.rest() =~= span@.subrange(32, span@.len() as int));
        while !keys.is_exhausted()
            invariant
                !keys.failed,
                keys.index <= keys.count,
                self@.wf(),
                self.block + 4 <= self.region.length_blocks,
                keys.reader.pos <= keys.reader.data@.len(),
                self@.read_keys(keys.reader.rest(), keys.count, keys.index) == goal,
                goal == old(self)@.read_node(),
            decreases keys.count - keys.index,
        {
            let ghost rest = keys.reader.rest();
            match keys.next_entry() {
                None => {},
                Some(Err(e)) => {
                    self.abort(e, Some(keys.index));
                    return ;
                },
                Some(Ok(entry)) => {
                    assert(keys.reader.rest() =~= rest.subrange(
                        entry.key.record_len as int,
                        rest.len() as int,
                    ));
                    let name = entry.key.name_str();
                    self.emit(
                        Event::CatalogEntryFound {
                            index_in_node: entry.index,
                            object_id: entry.key.object_id,
                            parent_id: entry.key.parent_id,
                            record_type_byte: entry.key.record_type,
                            classification: entry.kind,
                            name,
                        },
                    );
                },
            }
        }
        self.advance(NODE_BLOCKS);
    }

    /// Takes one step: reads a tag, or decodes what the tag read before
    /// named. A walk that is over stays as it is.
    pub fn step(&mut self)
        requires
            old(self)@.wf(),
        ensures
            final(self)@ == old(self)@.step(),
            final(self)@.wf(),
            !old(self)@.is_terminal() ==> final(self)@.work_left() < old(self)@.work_left(),
            final(self)@.block >= old(self)@.block,
    {
        proof {
            lemma_step_progress(self@);
        }
        match self.state {
            WalkState::Scanning => {
                if self.block < self.region.length_blocks {
                    self.scan();
                }
            },
            WalkState::InBTreeHeader => {
                self.read_head();
            },
            WalkState::InNode => {
                self.read_node();
            },
            WalkState::Done => {},
            WalkState::Aborted(_) => {},
        }
    }

    /// Adds the closing events to a walk that is over.
    fn close(&mut self)
        requires
            old(self)@.wf(),
        ensures
            final(self)@ == old(self)@.closed(),
            final(self)@.wf(),
    {
        match self.state {
            WalkState::Aborted(_) => {},
            WalkState::Done => {
                self.emit(
                    Event::WalkSummary {
                        total_folder_records: self.total_folder_records,
                        total_file_records: self.total_file_records,
                    },
                );
            },
            _ => {
                self.emit(Event::BTreesRegionEnded { at_block: self.block });
                self.emit(
                    Event::WalkSummary {
                        total_folder_records: self.total_folder_records,
                        total_file_records: self.total_file_records,
                    },
                );
            },
        }
    }
}

/// Walks the region from its start to the end of the walk, and adds the
/// closing events. The walk always ends: at the terminator, at the end of the
/// region, or where decoding fails.
pub fn walk<'a>(bytes: &'a [u8], region: Region) -> (w: Walker<'a>)
    ensures
        w@ == WalkerView::start(bytes@, region).run().closed(),
        w@.is_terminal(),
        w@.wf(),
        w.total_folder_records == entries_of_type(w@.events, RECORD_FOLDER),
        w.total_file_records == entries_of_type(w@.events, RECORD_FILE),
        !(w.state is Aborted) ==> w@.events.last() == (EventView::WalkSummary {
            total_folder_records: w.total_folder_records,
            total_file_records: w.total_file_records,
        }),
{
    let mut w = Walker::new(bytes, region);
    while !w.is_finished()
        invariant
            w@.wf(),
            w@.run() == WalkerView::start(bytes@, region).run(),
        decreases w@.work_left(),
    {
        w.step();
    }
    proof {
        lemma_closed_wf(w@);
    }
    w.close();
    w
}

} // verus!
