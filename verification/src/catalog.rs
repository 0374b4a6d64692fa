//! The records of the catalog tree: the key that names an object, and the
//! body that describes a folder or a file.

use vstd::prelude::*;
use vstd::utf8::decode_utf8;
use vstd::utf8::valid_utf8;

use crate::endian::bytes_at;
use crate::endian::lemma_window_of_window;
use crate::endian::u16_at;
use crate::endian::u32_at;
use crate::endian::u64_at;
use crate::endian::u8_at;
use crate::error::DecodeError;
use crate::reader::take;
use crate::reader::take_u16;
use crate::reader::take_u32;
use crate::reader::take_u64;
use crate::reader::take_u8;
use crate::reader::ByteReader;
use crate::text::lossy_text;
use crate::text::string_from_bytes;
use crate::text::text_bytes;

verus! {

/// Width of the part of a catalog key that precedes the name.
pub const CAT_TREE_KEY_PREFIX_SIZE: usize = 26;

/// Record type of a placeholder.
pub const RECORD_DUMMY: u8 = 0x00;

/// Record type of a folder.
pub const RECORD_FOLDER: u8 = 0x01;

/// Record type of a file.
pub const RECORD_FILE: u8 = 0x02;

/// Record type of a hard link.
pub const RECORD_HLINK: u8 = 0x03;

/// Record type of an inode link.
pub const RECORD_ILINK: u8 = 0x05;

/// Record type of an unpacked inode.
pub const RECORD_UNPACK_INODE: u8 = 0x10;

/// What a catalog record is, as its type byte tells.
#[derive(Clone, Copy, Debug, PartialEq, Eq, Structural)]
pub enum RecordKind {
    Dummy,
    Folder,
    File,
    HardLink,
    InodeLink,
    UnpackedInode,
    /// A type byte that stands for none of the others.
    Unknown,
}

/// The kind that a record type byte stands for.
pub open spec fn record_kind(record_type: u8) -> RecordKind {
    if record_type == RECORD_DUMMY {
        RecordKind::Dummy
    } else if record_type == RECORD_FOLDER {
        RecordKind::Folder
    } else if record_type == RECORD_FILE {
        RecordKind::File
    } else if record_type == RECORD_HLINK {
        RecordKind::HardLink
    } else if record_type == RECORD_ILINK {
        RecordKind::InodeLink
    } else if record_type == RECORD_UNPACK_INODE {
        RecordKind::UnpackedInode
    } else {
        RecordKind::Unknown
    }
}

/// Classifies a record by its type byte. Every byte has a kind.
pub fn classify_record(record_type: u8) -> (kind: RecordKind)
    ensures
        kind == record_kind(record_type),
{
    match record_type {
        0x00 => RecordKind::Dummy,
        0x01 => RecordKind::Folder,
        0x02 => RecordKind::File,
        0x03 => RecordKind::HardLink,
        0x05 => RecordKind::InodeLink,
        0x10 => RecordKind::UnpackedInode,
        _ => RecordKind::Unknown,
    }
}

/// The key of a catalog record: the object, its parent and its name. The name
/// and the bytes after it have lengths that the fields before them give.
#[derive(Clone, Debug)]
pub struct Vdfs4CatTreeKey {
    pub magic: Vec<u8>,
    /// Length of the key proper.
    pub key_len: u16,
    /// Length of the whole record that the key opens, this prefix counted.
    pub record_len: u16,
    pub parent_id: u64,
    pub object_id: u64,
    pub record_type: u8,
    pub name_len: u8,
    pub name: Vec<u8>,
    /// What follows the name up to the end of the record.
    pub rest: Vec<u8>,
}

/// A catalog key as plain values.
pub struct CatTreeKeyView {
    pub magic: Seq<u8>,
    pub key_len: u16,
    pub record_len: u16,
    pub parent_id: u64,
    pub object_id: u64,
    pub record_type: u8,
    pub name_len: u8,
    pub name: Seq<u8>,
    pub rest: Seq<u8>,
}

impl CatTreeKeyView {
    /// The lengths of the key agree: the record is no shorter than its prefix
    /// and name, the name is as long as `name_len` says, and `rest` fills the
    /// record exactly.
    pub open spec fn wf(&self) -> bool {
        &&& self.magic.len() == 4
        &&& self.record_len >= self.name_len + 26
        &&& self.name.len() == self.name_len
        &&& self.rest.len() == self.record_len - self.name_len - 26
    }

    /// How many bytes the key takes on disk.
    pub open spec fn encoded_len(&self) -> nat {
        26 + self.name.len() + self.rest.len()
    }
}

impl View for Vdfs4CatTreeKey {
    type V = CatTreeKeyView;

    open spec fn view(&self) -> CatTreeKeyView {
        CatTreeKeyView {
            magic: self.magic@,
            key_len: self.key_len,
            record_len: self.record_len,
            parent_id: self.parent_id,
            object_id: self.object_id,
            record_type: self.record_type,
            name_len: self.name_len,
            name: self.name@,
            rest: self.rest@,
        }
    }
}

impl Vdfs4CatTreeKey {
    /// What decoding a key from the bytes `b` gives, where `b` is all that is
    /// left to read. The prefix must be there in full; then the lengths must
    /// agree; then the record must be there in full.
    pub open spec fn parse(b: Seq<u8>) -> Result<CatTreeKeyView, DecodeError> {
        if b.len() < 26 {
            Err(DecodeError::TruncatedInput)
        } else if u16_at(b, 6) < u8_at(b, 25) + 26 {
            Err(DecodeError::InvalidLength)
        } else if b.len() < u16_at(b, 6) {
            Err(DecodeError::TruncatedInput)
        } else {
            Ok(
                CatTreeKeyView {
                    magic: bytes_at(b, 0, 4),
                    key_len: u16_at(b, 4),
                    record_len: u16_at(b, 6),
                    parent_id: u64_at(b, 8),
                    object_id: u64_at(b, 16),
                    record_type: u8_at(b, 24),
                    name_len: u8_at(b, 25),
                    name: bytes_at(b, 26, u8_at(b, 25) as int),
                    rest: bytes_at(b, 26 + u8_at(b, 25), u16_at(b, 6) - u8_at(b, 25) - 26),
                },
            )
        }
    }

    /// Decodes the key at the reader's position and moves past its record.
    /// On any failure the reader stays as it was.
    pub fn decode(reader: &mut ByteReader) -> (r: Result<Self, DecodeError>)
        ensures
            match r {
                Ok(k) => {
                    &&& Self::parse(old(reader).rest()) matches Ok(v) && v == k@
                    &&& k@.wf()
                    &&& final(reader).pos == old(reader).pos + k.record_len
                    &&& final(reader).data@ == old(reader).data@
                },
                Err(e) => {
                    &&& Self::parse(old(reader).rest()) matches Err(f) && f == e
                    &&& *final(reader) == *old(reader)
                },
            },
    {
        broadcast use lemma_window_of_window;

        if !reader.has(CAT_TREE_KEY_PREFIX_SIZE) {
            return Err(DecodeError::TruncatedInput);
        }
        let mut cur: ByteReader = *reader;
        let magic = take(&mut cur, 4);
        let key_len: u16 = take_u16(&mut cur);
        let record_len: u16 = take_u16(&mut cur);
        let parent_id: u64 = take_u64(&mut cur);
        let object_id: u64 = take_u64(&mut cur);
        let record_type: u8 = take_u8(&mut cur);
        let name_len: u8 = take_u8(&mut cur);
        if (record_len as usize) < name_len as usize + CAT_TREE_KEY_PREFIX_SIZE {
            return Err(DecodeError::InvalidLength);
        }
        let rest_len: usize = record_len as usize - name_len as usize - CAT_TREE_KEY_PREFIX_SIZE;
        if !cur.has(name_len as usize + rest_len) {
            return Err(DecodeError::TruncatedInput);
        }
        let name = take(&mut cur, name_len as usize);
        let rest = take(&mut cur, rest_len);
        *reader = cur;
        Ok(
            Vdfs4CatTreeKey {
                magic,
                key_len,
                record_len,
                parent_id,
                object_id,
                record_type,
                name_len,
                name,
                rest,
            },
        )
    }

    /// The name as text.
    pub fn name_str(&self) -> (s: String)
        ensures
            s@ == lossy_text(text_bytes(self.name@)),
            valid_utf8(text_bytes(self.name@)) ==> s@ == decode_utf8(text_bytes(self.name@)),
    {
        string_from_bytes(self.name.as_slice())
    }
}

/// A key of a node, with its place in the node and its kind.
#[derive(Clone, Debug)]
pub struct CatalogEntry {
    /// How many keys of the node come before this one.
    pub index: u16,
    pub key: Vdfs4CatTreeKey,
    pub kind: RecordKind,
}

/// The keys of one node of the catalog tree, handed out one after the other.
/// There are as many as the descriptor of the node says, unless one of them
/// does not decode: nothing follows a failure. What was handed out is not
/// handed out again.
#[derive(Debug)]
pub struct CatalogKeys<'a> {
    /// Stands where the next key begins.
    pub reader: ByteReader<'a>,
    /// How many keys the node holds.
    pub count: u16,
    /// How many keys were handed out.
    pub index: u16,
    /// Whether a key did not decode.
    pub failed: bool,
}

impl<'a> CatalogKeys<'a> {
    /// Whether nothing is left to hand out.
    pub open spec fn exhausted(&self) -> bool {
        self.failed || self.index >= self.count
    }

    /// The `count` keys that begin where `reader` stands.
    pub fn new(reader: ByteReader<'a>, count: u16) -> (keys: Self)
        ensures
            keys.reader == reader,
            keys.count == count,
            keys.index == 0,
            !keys.failed,
    {
        CatalogKeys { reader, count, index: 0, failed: false }
    }

    /// Whether nothing is left to hand out.
    pub fn is_exhausted(&self) -> (r: bool)
        ensures
            r == self.exhausted(),
    {
        self.failed || self.index >= self.count
    }

    /// Decodes the next key and classifies it. Gives nothing once all keys
    /// were handed out or one has failed.
    pub fn next_entry(&mut self) -> (r: Option<Result<CatalogEntry, DecodeError>>)
        ensures
            final(self).count == old(self).count,
            final(self).reader.data@ == old(self).reader.data@,
            match r {
                None => old(self).exhausted() && *final(self) == *old(self),
                Some(Ok(entry)) => {
                    &&& !old(self).exhausted()
                    &&& Vdfs4CatTreeKey::parse(old(self).reader.rest()) matches Ok(v)
                        && v == entry.key@
                    &&& entry.key@.wf()
                    &&& entry.index == old(self).index
                    &&& entry.kind == record_kind(entry.key.record_type)
                    &&& final(self).index == old(self).index + 1
                    &&& !final(self).failed
                    &&& final(self).reader.pos == old(self).reader.pos + entry.key.record_len
                },
                Some(Err(e)) => {
                    &&& !old(self).exhausted()
                    &&& Vdfs4CatTreeKey::parse(old(self).reader.rest()) matches Err(f) && f == e
                    &&& final(self).index == old(self).index
                    &&& final(self).failed
                    &&& final(self).reader == old(self).reader
                },
            },
    {
        if self.is_exhausted() {
            return None;
        }
        match Vdfs4CatTreeKey::decode(&mut self.reader) {
            Err(e) => {
                self.failed = true;
                Some(Err(e))
            },
            Ok(key) => {
                let index: u16 = self.index;
                let kind = classify_record(key.record_type);
                self.index = self.index + 1;
                Some(Ok(CatalogEntry { index, key, kind }))
            },
        }
    }
}

/// A key that decodes has lengths that agree, takes `record_len` bytes, and
/// lies within the bytes it was decoded from.
pub proof fn lemma_key_lengths(b: Seq<u8>)
    ensures
        Vdfs4CatTreeKey::parse(b) matches Ok(k) ==> {
            &&& k.wf()
            &&& k.record_len >= k.name_len + 26
            &&& k.rest.len() == k.record_len - k.name_len - 26
            &&& k.encoded_len() == k.record_len
            &&& k.record_len <= b.len()
        },
{
}

/// A point in time: seconds in two halves, and nanoseconds.
#[derive(Clone, Copy, Debug, PartialEq, Eq, Structural)]
pub struct Vdfs4Timespec {
    pub seconds: u32,
    pub seconds_high: u32,
    pub nanoseconds: u32,
}

impl Vdfs4Timespec {
    /// The timestamp in the twelve bytes of `b` from index `at`.
    pub open spec fn parse_at(b: Seq<u8>, at: int) -> Vdfs4Timespec {
        Vdfs4Timespec {
            seconds: u32_at(b, at),
            seconds_high: u32_at(b, at + 4),
            nanoseconds: u32_at(b, at + 8),
        }
    }

    /// Decodes the timestamp at the reader's position and moves past it.
    /// Where fewer than 12 bytes are left the reader stays as it was.
    pub fn decode(reader: &mut ByteReader) -> (r: Result<Self, DecodeError>)
        ensures
            match r {
                Ok(v) => {
                    &&& old(reader).holds(12)
                    &&& v == Self::parse_at(old(reader).data@, old(reader).pos as int)
                    &&& final(reader).pos == old(reader).pos + 12
                    &&& final(reader).data@ == old(reader).data@
                },
                Err(e) => {
                    &&& e == DecodeError::TruncatedInput
                    &&& !old(reader).holds(12)
                    &&& *final(reader) == *old(reader)
                },
            },
    {
        if !reader.has(12) {
            return Err(DecodeError::TruncatedInput);
        }
        let mut cur: ByteReader = *reader;
        let seconds: u32 = take_u32(&mut cur);
        let seconds_high: u32 = take_u32(&mut cur);
        let nanoseconds: u32 = take_u32(&mut cur);
        *reader = cur;
        Ok(Vdfs4Timespec { seconds, seconds_high, nanoseconds })
    }
}

/// The body of a folder record, and the common part of a file record.
#[derive(Clone, Copy, Debug, PartialEq, Eq, Structural)]
pub struct Vdfs4CatalogFolderRecord {
    pub flags: u32,
    pub generation: u32,
    pub total_items_count: u64,
    pub links_count: u64,
    pub next_orphan_id: u64,
    pub file_mode: u16,
    pub pad: u16,
    pub user_id: u32,
    pub group_id: u32,
    pub creation_time: Vdfs4Timespec,
    pub modification_time: Vdfs4Timespec,
    pub access_time: Vdfs4Timespec,
}

impl Vdfs4CatalogFolderRecord {
    /// The record that the 80 bytes `b` hold.
    pub open spec fn parse(b: Seq<u8>) -> Vdfs4CatalogFolderRecord {
        Vdfs4CatalogFolderRecord {
            flags: u32_at(b, 0),
            generation: u32_at(b, 4),
            total_items_count: u64_at(b, 8),
            links_count: u64_at(b, 16),
            next_orphan_id: u64_at(b, 24),
            file_mode: u16_at(b, 32),
            pad: u16_at(b, 34),
            user_id: u32_at(b, 36),
            group_id: u32_at(b, 40),
            creation_time: Vdfs4Timespec::parse_at(b, 44),
            modification_time: Vdfs4Timespec::parse_at(b, 56),
            access_time: Vdfs4Timespec::parse_at(b, 68),
        }
    }

    /// Decodes the record at the reader's position and moves past it. Where
    /// fewer than 80 bytes are left the reader stays as it was.
    pub fn decode(reader: &mut ByteReader) -> (r: Result<Self, DecodeError>)
        ensures
            match r {
                Ok(v) => {
                    &&& old(reader).holds(80)
                    &&& v == Self::parse(old(reader).upcoming(80))
                    &&& final(reader).pos == old(reader).pos + 80
                    &&& final(reader).data@ == old(reader).data@
                },
                Err(e) => {
                    &&& e == DecodeError::TruncatedInput
                    &&& !old(reader).holds(80)
                    &&& *final(reader) == *old(reader)
                },
            },
    {
        broadcast use lemma_window_of_window;

        if !reader.has(80) {
            return Err(DecodeError::TruncatedInput);
        }
        let mut cur: ByteReader = *reader;
        let flags: u32 = take_u32(&mut cur);
        let generation: u32 = take_u32(&mut cur);
        let total_items_count: u64 = take_u64(&mut cur);
        let links_count: u64 = take_u64(&mut cur);
        let next_orphan_id: u64 = take_u64(&mut cur);
        let file_mode: u16 = take_u16(&mut cur);
        let pad: u16 = take_u16(&mut cur);
        let user_id: u32 = take_u32(&mut cur);
        let group_id: u32 = take_u32(&mut cur);
        let creation_time = Vdfs4Timespec::decode(&mut cur)?;
        let modification_time = Vdfs4Timespec::decode(&mut cur)?;
        let access_time = Vdfs4Timespec::decode(&mut cur)?;
        *reader = cur;
        Ok(
            Vdfs4CatalogFolderRecord {
                flags,
                generation,
                total_items_count,
                links_count,
                next_orphan_id,
                file_mode,
                pad,
                user_id,
                group_id,
                creation_time,
                modification_time,
                access_time,
            },
        )
    }
}

/// The body of a file record.
#[derive(Clone, Copy, Debug, PartialEq, Eq, Structural)]
pub struct Vdfs4CatalogFileRecord {
    pub common: Vdfs4CatalogFolderRecord,
}

impl Vdfs4CatalogFileRecord {
    /// The record that the 80 bytes `b` hold.
    pub open spec fn parse(b: Seq<u8>) -> Vdfs4CatalogFileRecord {
        Vdfs4CatalogFileRecord { common: Vdfs4CatalogFolderRecord::parse(b) }
    }

    /// Decodes the record at the reader's position and moves past it. Where
    /// fewer than 80 bytes are left the reader stays as it was.
    pub fn decode(reader: &mut ByteReader) -> (r: Result<Self, DecodeError>)
        ensures
            match r {
                Ok(v) => {
                    &&& old(reader).holds(80)
                    &&& v == Self::parse(old(reader).upcoming(80))
                    &&& final(reader).pos == old(reader).pos + 80
                    &&& final(reader).data@ == old(reader).data@
                },
                Err(e) => {
                    &&& e == DecodeError::TruncatedInput
                    &&& !old(reader).holds(80)
                    &&& *final(reader) == *old(reader)
                },
            },
    {
        let common = Vdfs4CatalogFolderRecord::decode(reader)?;
        Ok(Vdfs4CatalogFileRecord { common })
    }
}

} // verus!
