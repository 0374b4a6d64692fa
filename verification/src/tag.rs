//! The tag of four bytes that opens every block of the B-trees region.

use vstd::prelude::*;

verus! {

/// Width of the tag that opens a block.
pub const TAG_SIZE: usize = 4;

/// What the tag of a block says the block holds.
#[derive(Clone, Copy, Debug, PartialEq, Eq, Structural)]
pub enum Tag {
    /// `fsmb`: a bitmap of free space.
    Bitmap,
    /// `inob`: a bitmap of inodes.
    InodeBitmap,
    /// `eHND`: the head of a B-tree.
    BTreeHeader,
    /// `Nd`, then two zero bytes: a node of a B-tree.
    Node,
    /// The bytes ED AC EF 0D: nothing follows in the region.
    Terminator,
    /// Any other four bytes.
    Unrecognized,
}

/// The tag that four bytes stand for.
pub open spec fn tag_of(t: Seq<u8>) -> Tag {
    if t == seq![0x66u8, 0x73u8, 0x6du8, 0x62u8] {
        Tag::Bitmap
    } else if t == seq![0x69u8, 0x6eu8, 0x6fu8, 0x62u8] {
        Tag::InodeBitmap
    } else if t == seq![0x65u8, 0x48u8, 0x4eu8, 0x44u8] {
        Tag::BTreeHeader
    } else if t == seq![0x4eu8, 0x64u8, 0x00u8, 0x00u8] {
        Tag::Node
    } else if t == seq![0xedu8, 0xacu8, 0xefu8, 0x0du8] {
        Tag::Terminator
    } else {
        Tag::Unrecognized
    }
}

/// Whether `tag` is the four bytes given.
fn is_tag(tag: &[u8], a: u8, b: u8, c: u8, d: u8) -> (r: bool)
    ensures
        r == (tag@ == seq![a, b, c, d]),
{
    let r: bool = tag.len() == 4 && tag[0] == a && tag[1] == b && tag[2] == c && tag[3] == d;
    proof {
        if r {
            assert(tag@ =~= seq![a, b, c, d]);
        } else if tag@ == seq![a, b, c, d] {
            assert(seq![a, b, c, d].len() == 4);
            assert(seq![a, b, c, d][0] == a);
            assert(seq![a, b, c, d][1] == b);
            assert(seq![a, b, c, d][2] == c);
            assert(seq![a, b, c, d][3] == d);
        }
    }
    r
}

/// Tells what a tag stands for. Every tag stands for something: what is not
/// known is `Unrecognized`.
pub fn classify_tag(tag: &[u8]) -> (t: Tag)
    ensures
        t == tag_of(tag@),
{
    if is_tag(tag, 0x66, 0x73, 0x6d, 0x62) {
        Tag::Bitmap
    } else if is_tag(tag, 0x69, 0x6e, 0x6f, 0x62) {
        Tag::InodeBitmap
    } else if is_tag(tag, 0x65, 0x48, 0x4e, 0x44) {
        Tag::BTreeHeader
    } else if is_tag(tag, 0x4e, 0x64, 0x00, 0x00) {
        Tag::Node
    } else if is_tag(tag, 0xed, 0xac, 0xef, 0x0d) {
        Tag::Terminator
    } else {
        Tag::Unrecognized
    }
}

} // verus!
