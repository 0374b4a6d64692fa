//! The base table that opens the tables region.

use vstd::prelude::*;

use crate::endian::bytes_at;
use crate::endian::lemma_window_of_window;
use crate::endian::u32_at;
use crate::endian::u64_at;
use crate::error::DecodeError;
use crate::reader::take;
use crate::reader::take_u32;
use crate::reader::take_u64;
use crate::reader::ByteReader;

verus! {

/// The snapshot descriptor and the places of the five translation tables.
#[derive(Clone, Debug)]
pub struct Vdfs4BaseTable {
    /// `CoWB`
    pub magic: Vec<u8>,
    pub sync_count: u32,
    pub mount_count: u64,
    /// Offset of the checksum, counted from the start of the table.
    pub checksum_offset: u64,
    /// Index of the last page of each translation table.
    pub last_page_index: [u64; 5],
    /// Offset of each translation table, counted from the start of this one.
    pub translation_table_offsets: [u64; 5],
}

/// A base table as plain values.
pub struct BaseTableView {
    pub magic: Seq<u8>,
    pub sync_count: u32,
    pub mount_count: u64,
    pub checksum_offset: u64,
    pub last_page_index: Seq<u64>,
    pub translation_table_offsets: Seq<u64>,
}

impl View for Vdfs4BaseTable {
    type V = BaseTableView;

    open spec fn view(&self) -> BaseTableView {
        BaseTableView {
            magic: self.magic@,
            sync_count: self.sync_count,
            mount_count: self.mount_count,
            checksum_offset: self.checksum_offset,
            last_page_index: self.last_page_index@,
            translation_table_offsets: self.translation_table_offsets@,
        }
    }
}

/// The five little-endian integers of eight bytes each that `data` holds from
/// index `at`.
pub open spec fn five_u64_at(data: Seq<u8>, at: int) -> Seq<u64> {
    seq![
        u64_at(data, at),
        u64_at(data, at + 8),
        u64_at(data, at + 16),
        u64_at(data, at + 24),
        u64_at(data, at + 32),
    ]
}

/// Takes five little-endian integers of eight bytes each that are known to
/// be left.
fn take_five_u64(reader: &mut ByteReader) -> (v: [u64; 5])
    requires
        old(reader).holds(40),
    ensures
        v@ == five_u64_at(old(reader).data@, old(reader).pos as int),
        final(reader).pos == old(reader).pos + 40,
        final(reader).data@ == old(reader).data@,
{
    let a: u64 = take_u64(reader);
    let b: u64 = take_u64(reader);
    let c: u64 = take_u64(reader);
    let d: u64 = take_u64(reader);
    let e: u64 = take_u64(reader);
    let v: [u64; 5] = [a, b, c, d, e];
    assert(v@ =~= five_u64_at(old(reader).data@, old(reader).pos as int));
    v
}

impl Vdfs4BaseTable {
    /// The base table that the 104 bytes `b` hold.
    pub open spec fn parse(b: Seq<u8>) -> BaseTableView {
        BaseTableView {
            magic: bytes_at(b, 0, 4),
            sync_count: u32_at(b, 4),
            mount_count: u64_at(b, 8),
            checksum_offset: u64_at(b, 16),
            last_page_index: five_u64_at(b, 24),
            translation_table_offsets: five_u64_at(b, 64),
        }
    }

    /// Decodes the base table at the reader's position and moves past it.
    /// Where fewer than 104 bytes are left the reader stays as it was.
    pub fn decode(reader: &mut ByteReader) -> (r: Result<Self, DecodeError>)
        ensures
            match r {
                Ok(v) => {
                    &&& old(reader).holds(104)
                    &&& v@ == Self::parse(old(reader).upcoming(104))
                    &&& final(reader).pos == old(reader).pos + 104
                    &&& final(reader).data@ == old(reader).data@
                },
                Err(e) => {
                    &&& e == DecodeError::TruncatedInput
                    &&& !old(reader).holds(104)
                    &&& *final(reader) == *old(reader)
                },
            },
    {
        broadcast use lemma_window_of_window;

        if !reader.has(104) {
            return Err(DecodeError::TruncatedInput);
        }
        let mut cur: ByteReader = *reader;
        let magic = take(&mut cur, 4);
        let sync_count: u32 = take_u32(&mut cur);
        let mount_count: u64 = take_u64(&mut cur);
        let checksum_offset: u64 = take_u64(&mut cur);
        let last_page_index: [u64; 5] = take_five_u64(&mut cur);
        let translation_table_offsets: [u64; 5] = take_five_u64(&mut cur);
        *reader = cur;
        Ok(
            Vdfs4BaseTable {
                magic,
                sync_count,
                mount_count,
                checksum_offset,
                last_page_index,
                translation_table_offsets,
            },
        )
    }
}

} // verus!
