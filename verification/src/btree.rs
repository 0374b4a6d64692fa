//! The two records that open the blocks of a B-tree: the head of a tree and
//! the descriptor of a node.

use vstd::prelude::*;

use crate::endian::bytes_at;
use crate::endian::lemma_window_of_window;
use crate::endian::u16_at;
use crate::endian::u32_at;
use crate::error::DecodeError;
use crate::reader::take;
use crate::reader::take_u16;
use crate::reader::take_u32;
use crate::reader::ByteReader;

verus! {

/// The head of a B-tree, at the start of a block tagged `eHND`.
#[derive(Clone, Debug)]
pub struct Vdfs4RawBtreeHead {
    /// `eHND`
    pub magic: Vec<u8>,
    pub version1: u32,
    pub version2: u32,
    /// Id of the root node of the tree.
    pub root_bnode_id: u32,
    /// Levels of the tree.
    pub btree_height: u16,
    pub padding: u16,
}

/// A B-tree head as plain values.
pub struct BtreeHeadView {
    pub magic: Seq<u8>,
    pub version1: u32,
    pub version2: u32,
    pub root_bnode_id: u32,
    pub btree_height: u16,
    pub padding: u16,
}

impl View for Vdfs4RawBtreeHead {
    type V = BtreeHeadView;

    open spec fn view(&self) -> BtreeHeadView {
        BtreeHeadView {
            magic: self.magic@,
            version1: self.version1,
            version2: self.version2,
            root_bnode_id: self.root_bnode_id,
            btree_height: self.btree_height,
            padding: self.padding,
        }
    }
}

impl Vdfs4RawBtreeHead {
    /// The B-tree head that the 20 bytes `b` hold.
    pub open spec fn parse(b: Seq<u8>) -> BtreeHeadView {
        BtreeHeadView {
            magic: bytes_at(b, 0, 4),
            version1: u32_at(b, 4),
            version2: u32_at(b, 8),
            root_bnode_id: u32_at(b, 12),
            btree_height: u16_at(b, 16),
            padding: u16_at(b, 18),
        }
    }

    /// Decodes the B-tree head at the reader's position and moves past it.
    /// Where fewer than 20 bytes are left the reader stays as it was.
    pub fn decode(reader: &mut ByteReader) -> (r: Result<Self, DecodeError>)
        ensures
            match r {
                Ok(v) => {
                    &&& old(reader).holds(20)
                    &&& v@ == Self::parse(old(reader).upcoming(20))
                    &&& final(reader).pos == old(reader).pos + 20
                    &&& final(reader).data@ == old(reader).data@
                },
                Err(e) => {
                    &&& e == DecodeError::TruncatedInput
                    &&& !old(reader).holds(20)
                    &&& *final(reader) == *old(reader)
                },
            },
    {
        broadcast use lemma_window_of_window;

        if !reader.has(20) {
            return Err(DecodeError::TruncatedInput);
        }
        let mut cur: ByteReader = *reader;
        let magic = take(&mut cur, 4);
        let version1: u32 = take_u32(&mut cur);
        let version2: u32 = take_u32(&mut cur);
        let root_bnode_id: u32 = take_u32(&mut cur);
        let btree_height: u16 = take_u16(&mut cur);
        let padding: u16 = take_u16(&mut cur);
        *reader = cur;
        Ok(
            Vdfs4RawBtreeHead {
                magic,
                version1,
                version2,
                root_bnode_id,
                btree_height,
                padding,
            },
        )
    }
}

/// The descriptor that opens every node of a B-tree.
#[derive(Clone, Debug)]
pub struct Vdfs4GenNodeDescr {
    /// `Nd`, then two zero bytes.
    pub magic: Vec<u8>,
    pub version1: u32,
    pub version2: u32,
    /// Bytes left free in the node.
    pub free_space: u16,
    /// How many records the node holds.
    pub recs_count: u16,
    pub node_id: u32,
    /// Id of the left sibling.
    pub prev_node_id: u32,
    /// Id of the right sibling.
    pub next_node_id: u32,
    /// Whether the node is a leaf or an index node.
    pub node_type: u32,
}

/// A node descriptor as plain values.
pub struct NodeDescrView {
    pub magic: Seq<u8>,
    pub version1: u32,
    pub version2: u32,
    pub free_space: u16,
    pub recs_count: u16,
    pub node_id: u32,
    pub prev_node_id: u32,
    pub next_node_id: u32,
    pub node_type: u32,
}

impl View for Vdfs4GenNodeDescr {
    type V = NodeDescrView;

    open spec fn view(&self) -> NodeDescrView {
        NodeDescrView {
            magic: self.magic@,
            version1: self.version1,
            version2: self.version2,
            free_space: self.free_space,
            recs_count: self.recs_count,
            node_id: self.node_id,
            prev_node_id: self.prev_node_id,
            next_node_id: self.next_node_id,
            node_type: self.node_type,
        }
    }
}

impl Vdfs4GenNodeDescr {
    /// The node descriptor that the 32 bytes `b` hold.
    pub open spec fn parse(b: Seq<u8>) -> NodeDescrView {
        NodeDescrView {
            magic: bytes_at(b, 0, 4),
            version1: u32_at(b, 4),
            version2: u32_at(b, 8),
            free_space: u16_at(b, 12),
            recs_count: u16_at(b, 14),
            node_id: u32_at(b, 16),
            prev_node_id: u32_at(b, 20),
            next_node_id: u32_at(b, 24),
            node_type: u32_at(b, 28),
        }
    }

    /// Decodes the node descriptor at the reader's position and moves past it.
    /// Where fewer than 32 bytes are left the reader stays as it was.
    pub fn decode(reader: &mut ByteReader) -> (r: Result<Self, DecodeError>)
        ensures
            match r {
                Ok(v) => {
                    &&& old(reader).holds(32)
                    &&& v@ == Self::parse(old(reader).upcoming(32))
                    &&& final(reader).pos == old(reader).pos + 32
                    &&& final(reader).data@ == old(reader).data@
                },
                Err(e) => {
                    &&& e == DecodeError::TruncatedInput
                    &&& !old(reader).holds(32)
                    &&& *final(reader) == *old(reader)
                },
            },
    {
        broadcast use lemma_window_of_window;

        if !reader.has(32) {
            return Err(DecodeError::TruncatedInput);
        }
        let mut cur: ByteReader = *reader;
        let magic = take(&mut cur, 4);
        let version1: u32 = take_u32(&mut cur);
        let version2: u32 = take_u32(&mut cur);
        let free_space: u16 = take_u16(&mut cur);
        let recs_count: u16 = take_u16(&mut cur);
        let node_id: u32 = take_u32(&mut cur);
        let prev_node_id: u32 = take_u32(&mut cur);
        let next_node_id: u32 = take_u32(&mut cur);
        let node_type: u32 = take_u32(&mut cur);
        *reader = cur;
        Ok(
            Vdfs4GenNodeDescr {
                magic,
                version1,
                version2,
                free_space,
                recs_count,
                node_id,
                prev_node_id,
                next_node_id,
                node_type,
            },
        )
    }
}

} // verus!
