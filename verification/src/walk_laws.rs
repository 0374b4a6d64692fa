//! What holds of every walk: it ends, it moves forward, its totals are those
//! of its events, and it leaves the bytes that it reads as they were.

use vstd::prelude::*;

use crate::btree::Vdfs4GenNodeDescr;
use crate::btree::Vdfs4RawBtreeHead;
use crate::catalog::RECORD_FILE;
use crate::catalog::RECORD_FOLDER;
use crate::catalog::Vdfs4CatTreeKey;
use crate::events::lemma_entries_push;
use crate::events::tree_kind;
use crate::events::EventView;
use crate::walker::entry_of;
use crate::walker::lemma_read_keys_ends;
use crate::walker::lemma_step_progress;
use crate::walker::Region;
use crate::walker::WalkState;
use crate::walker::WalkerView;

verus! {

/// The walk over one block, from the reading of its tag to the next tag: one
/// step where the block is passed over or the walk ends, two where the tag
/// names the head of a tree or a node.
pub open spec fn over_block(w: WalkerView) -> WalkerView {
    let read = w.step();
    match read.state {
        WalkState::InBTreeHeader => read.step(),
        WalkState::InNode => read.step(),
        _ => read,
    }
}

/// From one tag to the next the walk moves on by one block at least, unless
/// it ends: it never reads the tag of a block twice.
pub proof fn lemma_block_progress(w: WalkerView)
    requires
        w.state is Scanning,
        !w.is_terminal(),
    ensures
        over_block(w).state is Done || over_block(w).state is Aborted || (over_block(
            w,
        ).state is Scanning && over_block(w).block >= w.block + 1),
{
    let read = w.step();
    lemma_step_progress(read);
    if read.state is InNode {
        let span = read.span(4);
        if !(read.region.length_blocks - read.block < 4 || span.len() < 32) {
            let node = Vdfs4GenNodeDescr::parse(span.subrange(0, 32));
            let found = read.emitted(
                EventView::NodeFound {
                    node_id: node.node_id,
                    node_type: node.node_type,
                    record_count: node.recs_count,
                },
            );
            lemma_read_keys_ends(
                found,
                span.subrange(32, span.len() as int),
                node.recs_count,
                0,
            );
        }
    }
}

/// One more event leaves the totals in step with the events.
pub proof fn lemma_emitted_wf(w: WalkerView, event: EventView)
    requires
        w.wf(),
    ensures
        w.emitted(event).wf(),
{
    lemma_entries_push(w.events, event, RECORD_FOLDER);
    lemma_entries_push(w.events, event, RECORD_FILE);
}

/// Decoding keys leaves the totals in step with the events, whether all keys
/// decode or one of them fails.
pub proof fn lemma_read_keys_wf(w: WalkerView, rest: Seq<u8>, count: u16, index: u16)
    requires
        w.wf(),
        w.block + 4 <= w.region.length_blocks,
    ensures
        w.read_keys(rest, count, index).wf(),
    decreases count - index,
{
    if index < count {
        match Vdfs4CatTreeKey::parse(rest) {
            Err(e) => {},
            Ok(key) => {
                lemma_emitted_wf(w, entry_of(index, key));
                lemma_read_keys_wf(
                    w.emitted(entry_of(index, key)),
                    rest.subrange(key.record_len as int, rest.len() as int),
                    count,
                    (index + 1) as u16,
                );
            },
        }
    }
}

/// A step keeps what holds of every walk. With it, at every step the total
/// of folder records is the number of entries with record type 0x01 among the
/// events, and the total of file records the number of those with 0x02.
pub proof fn lemma_step_wf(w: WalkerView)
    requires
        w.wf(),
    ensures
        w.step().wf(),
{
    match w.state {
        WalkState::Scanning => {
            if w.block < w.region.length_blocks {
                lemma_emitted_wf(w, EventView::PrematureTerminator { at_block: w.block as u64 });
            }
        },
        WalkState::InBTreeHeader => {
            let span = w.span(4);
            if !(w.region.length_blocks - w.block < 4 || span.len() < 20) {
                let head = Vdfs4RawBtreeHead::parse(span.subrange(0, 20));
                lemma_emitted_wf(
                    w,
                    EventView::BTreeFound {
                        index: w.trees_seen as u64,
                        kind: tree_kind(w.trees_seen),
                        root_bnode_id: head.root_bnode_id,
                        height: head.btree_height,
                    },
                );
            }
        },
        WalkState::InNode => {
            let span = w.span(4);
            if !(w.region.length_blocks - w.block < 4 || span.len() < 32) {
                let node = Vdfs4GenNodeDescr::parse(span.subrange(0, 32));
                let event = EventView::NodeFound {
                    node_id: node.node_id,
                    node_type: node.node_type,
                    record_count: node.recs_count,
                };
                lemma_emitted_wf(w, event);
                lemma_read_keys_wf(
                    w.emitted(event),
                    span.subrange(32, span.len() as int),
                    node.recs_count,
                    0,
                );
            }
        },
        _ => {},
    }
}

/// Every walk ends, and in one of three ways: the terminator was met, the end
/// of the region was reached, or decoding failed. At its end the totals are
/// still the numbers of folder and file entries among the events, and the
/// bytes and the region are those that the walk began with.
pub proof fn lemma_run_ends(w: WalkerView)
    requires
        w.wf(),
    ensures
        w.run().is_terminal(),
        w.run().state is Done || w.run().state is Aborted || (w.run().state is Scanning
            && w.run().block == w.region.length_blocks),
        w.run().wf(),
        w.run().bytes == w.bytes,
        w.run().region == w.region,
        w.run().block >= w.block,
    decreases w.work_left(),
{
    if !w.is_terminal() {
        lemma_step_progress(w);
        lemma_step_wf(w);
        lemma_run_ends(w.step());
    }
}

/// The closing events leave the totals in step with the events, and the last
/// of them tells the totals unless decoding failed.
pub proof fn lemma_closed_wf(w: WalkerView)
    requires
        w.wf(),
    ensures
        w.closed().wf(),
        w.closed().state == w.state,
        w.closed().block == w.block,
        w.closed().bytes == w.bytes,
        w.closed().region == w.region,
        !(w.state is Aborted) ==> w.closed().events.last() == w.summary(),
        w.closed().total_folder_records == w.total_folder_records,
        w.closed().total_file_records == w.total_file_records,
{
    lemma_emitted_wf(w, w.summary());
    let ended = EventView::BTreesRegionEnded { at_block: w.block as u64 };
    lemma_emitted_wf(w, ended);
    lemma_emitted_wf(w.emitted(ended), w.summary());
}

/// A walk leaves the bytes of its region as they were: a second walk over
/// what the first one ends with reports what the first one did.
pub proof fn lemma_walk_twice(bytes: Seq<u8>, region: Region)
    ensures
        ({
            let first = WalkerView::start(bytes, region).run().closed();
            let second = WalkerView::start(first.bytes, first.region).run().closed();
            second == first
        }),
{
    let w = WalkerView::start(bytes, region);
    lemma_run_ends(w);
    lemma_closed_wf(w.run());
}

/// How many bytes the keys take that decode out of `rest`, from the key with
/// the given index on.
pub open spec fn keys_extent(rest: Seq<u8>, count: u16, index: u16) -> nat
    decreases count - index,
{
    if index >= count {
        0
    } else {
        match Vdfs4CatTreeKey::parse(rest) {
            Err(e) => 0,
            Ok(key) => key.record_len as nat + keys_extent(
                rest.subrange(key.record_len as int, rest.len() as int),
                count,
                (index + 1) as u16,
            ),
        }
    }
}

/// The keys of a node lie within the four blocks of the node: together with
/// the descriptor before them they take no more bytes than four blocks hold.
pub proof fn lemma_keys_within_node(w: WalkerView, count: u16)
    requires
        w.span(4).len() >= 32,
    ensures
        32 + keys_extent(w.span(4).subrange(32, w.span(4).len() as int), count, 0)
            <= w.span(4).len() <= 4 * w.region.block_size,
{
    let span = w.span(4);
    lemma_keys_within(span.subrange(32, span.len() as int), count, 0);
    let size = w.region.block_size as int;
    let block = w.block as int;
    assert((block + 4) * size - block * size == 4 * size) by (nonlinear_arith);
}

/// The keys that decode out of `rest` take no more bytes than `rest` holds.
pub proof fn lemma_keys_within(rest: Seq<u8>, count: u16, index: u16)
    ensures
        keys_extent(rest, count, index) <= rest.len(),
    decreases count - index,
{
    if index < count {
        match Vdfs4CatTreeKey::parse(rest) {
            Err(e) => {},
            Ok(key) => {
                lemma_keys_within(
                    rest.subrange(key.record_len as int, rest.len() as int),
                    count,
                    (index + 1) as u16,
                );
            },
        }
    }
}

} // verus!
