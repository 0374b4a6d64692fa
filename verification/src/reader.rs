//! A read position over bytes held in memory, and the reads made through it.

use vstd::pervasive::unreached;
use vstd::prelude::*;
use vstd::slice::slice_subrange;
use vstd::slice::slice_to_vec;

use crate::endian::u16_at;
use crate::endian::u16_from_le;
use crate::endian::u32_at;
use crate::endian::u32_from_le;
use crate::endian::u64_at;
use crate::endian::u64_from_le;
use crate::endian::u8_at;
use crate::error::DecodeError;

verus! {

/// Bytes with a position in them. Reads take bytes from the position onward
/// and move it; a position past the end leaves nothing to read.
#[derive(Clone, Copy, Debug)]
pub struct ByteReader<'a> {
    pub data: &'a [u8],
    pub pos: u64,
}

impl<'a> ByteReader<'a> {
    /// Everything from the position to the end. Nothing is left at a position
    /// past the end.
    pub open spec fn rest(&self) -> Seq<u8> {
        if self.pos <= self.data@.len() {
            self.data@.subrange(self.pos as int, self.data@.len() as int)
        } else {
            Seq::empty()
        }
    }

    /// How many bytes are left to read: the length of `rest`.
    pub open spec fn remaining(&self) -> nat {
        if self.pos <= self.data@.len() {
            (self.data@.len() - self.pos) as nat
        } else {
            0
        }
    }

    /// Whether `n` bytes are left to read.
    pub open spec fn holds(&self, n: int) -> bool {
        n <= self.remaining()
    }

    /// The `n` bytes that start at the position: the first `n` of those that
    /// are left, where as many are left.
    pub open spec fn upcoming(&self, n: int) -> Seq<u8> {
        if self.pos <= self.data@.len() {
            self.data@.subrange(self.pos as int, self.pos + n)
        } else {
            Seq::empty()
        }
    }

    /// A reader at the start of `data`.
    pub fn new(data: &'a [u8]) -> (r: Self)
        ensures
            r.data@ == data@,
            r.pos == 0,
    {
        ByteReader { data, pos: 0 }
    }

    /// Moves the position to `pos`, which may lie past the end.
    pub fn seek_to(&mut self, pos: u64)
        ensures
            final(self).data@ == old(self).data@,
            final(self).pos == pos,
    {
        self.pos = pos;
    }

    /// Whether a read of `size` bytes would succeed. A read of no bytes
    /// succeeds at every position.
    pub fn has(&self, size: usize) -> (b: bool)
        ensures
            b == self.holds(size as int),
            b && size > 0 ==> self.pos + size <= self.data@.len() <= usize::MAX,
    {
        let len: usize = self.data.len();
        if self.pos <= len as u64 {
            size <= len - self.pos as usize
        } else {
            size == 0
        }
    }
}

/// As many bytes are left as `rest` is long, and the bytes that start at the
/// position are the first of those that are left.
pub proof fn lemma_rest(reader: ByteReader, n: int)
    ensures
        reader.rest().len() == reader.remaining(),
        reader.holds(n) <==> n <= reader.rest().len(),
        0 <= n <= reader.remaining() ==> reader.upcoming(n) == reader.rest().subrange(0, n),
{
    if 0 <= n <= reader.remaining() {
        assert(reader.upcoming(n) =~= reader.rest().subrange(0, n));
    }
}

/// Reads exactly `size` bytes at the position and moves past them. The read
/// succeeds exactly when `size` bytes are left, so a read of no bytes always
/// does. Where fewer are left the read fails and the reader stays as it was.
pub fn read_exact(reader: &mut ByteReader, size: usize) -> (r: Result<Vec<u8>, DecodeError>)
    ensures
        match r {
            Ok(bytes) => {
                &&& old(reader).holds(size as int)
                &&& bytes@ == old(reader).rest().subrange(0, size as int)
                &&& bytes@ == old(reader).upcoming(size as int)
                &&& final(reader).pos == old(reader).pos + size
                &&& final(reader).data@ == old(reader).data@
            },
            Err(e) => {
                &&& e == DecodeError::TruncatedInput
                &&& !old(reader).holds(size as int)
                &&& *final(reader) == *old(reader)
            },
        },
{
    if !reader.has(size) {
        return Err(DecodeError::TruncatedInput);
    }
    if size == 0 {
        let bytes: Vec<u8> = Vec::new();
        assert(bytes@ =~= reader.rest().subrange(0, 0));
        assert(bytes@ =~= reader.upcoming(0));
        return Ok(bytes);
    }
    let start: usize = reader.pos as usize;
    let bytes = slice_to_vec(slice_subrange(reader.data, start, start + size));
    assert(bytes@ =~= reader.rest().subrange(0, size as int));
    reader.pos = reader.pos + size as u64;
    Ok(bytes)
}

/// The bytes of `data` from index `from` up to index `to`, as far as `data`
/// holds them.
pub open spec fn clipped(data: Seq<u8>, from: int, to: int) -> Seq<u8> {
    if 0 <= from <= to && from <= data.len() {
        data.subrange(
            from,
            if to <= data.len() {
                to
            } else {
                data.len() as int
            },
        )
    } else {
        Seq::empty()
    }
}

/// Cuts out of `data` what it holds between the offsets `from` and `to`.
pub fn clip<'a>(data: &'a [u8], from: u64, to: u64) -> (r: &'a [u8])
    ensures
        r@ == clipped(data@, from as int, to as int),
{
    let len: usize = data.len();
    if from > to || from > len as u64 {
        slice_subrange(data, 0, 0)
    } else if to <= len as u64 {
        slice_subrange(data, from as usize, to as usize)
    } else {
        slice_subrange(data, from as usize, len)
    }
}

/// Reads one byte.
pub fn read_u8(reader: &mut ByteReader) -> (r: Result<u8, DecodeError>)
    ensures
        match r {
            Ok(v) => {
                &&& old(reader).holds(1)
                &&& v == u8_at(old(reader).data@, old(reader).pos as int)
                &&& final(reader).pos == old(reader).pos + 1
                &&& final(reader).data@ == old(reader).data@
            },
            Err(e) => {
                &&& e == DecodeError::TruncatedInput
                &&& !old(reader).holds(1)
                &&& *final(reader) == *old(reader)
            },
        },
{
    if !reader.has(1) {
        return Err(DecodeError::TruncatedInput);
    }
    let v: u8 = reader.data[reader.pos as usize];
    reader.pos = reader.pos + 1;
    Ok(v)
}

/// Reads a little-endian integer of two bytes.
pub fn read_u16(reader: &mut ByteReader) -> (r: Result<u16, DecodeError>)
    ensures
        match r {
            Ok(v) => {
                &&& old(reader).holds(2)
                &&& v == u16_at(old(reader).data@, old(reader).pos as int)
                &&& final(reader).pos == old(reader).pos + 2
                &&& final(reader).data@ == old(reader).data@
            },
            Err(e) => {
                &&& e == DecodeError::TruncatedInput
                &&& !old(reader).holds(2)
                &&& *final(reader) == *old(reader)
            },
        },
{
    if !reader.has(2) {
        return Err(DecodeError::TruncatedInput);
    }
    let start: usize = reader.pos as usize;
    match u16_from_le(slice_subrange(reader.data, start, start + 2)) {
        Some(v) => {
            reader.pos = reader.pos + 2;
            Ok(v)
        },
        None => Err(DecodeError::TruncatedInput),
    }
}

/// Reads a little-endian integer of four bytes.
pub fn read_u32(reader: &mut ByteReader) -> (r: Result<u32, DecodeError>)
    ensures
        match r {
            Ok(v) => {
                &&& old(reader).holds(4)
                &&& v == u32_at(old(reader).data@, old(reader).pos as int)
                &&& final(reader).pos == old(reader).pos + 4
                &&& final(reader).data@ == old(reader).data@
            },
            Err(e) => {
                &&& e == DecodeError::TruncatedInput
                &&& !old(reader).holds(4)
                &&& *final(reader) == *old(reader)
            },
        },
{
    if !reader.has(4) {
        return Err(DecodeError::TruncatedInput);
    }
    let start: usize = reader.pos as usize;
    match u32_from_le(slice_subrange(reader.data, start, start + 4)) {
        Some(v) => {
            reader.pos = reader.pos + 4;
            Ok(v)
        },
        None => Err(DecodeError::TruncatedInput),
    }
}

/// Reads a little-endian integer of eight bytes.
pub fn read_u64(reader: &mut ByteReader) -> (r: Result<u64, DecodeError>)
    ensures
        match r {
            Ok(v) => {
                &&& old(reader).holds(8)
                &&& v == u64_at(old(reader).data@, old(reader).pos as int)
                &&& final(reader).pos == old(reader).pos + 8
                &&& final(reader).data@ == old(reader).data@
            },
            Err(e) => {
                &&& e == DecodeError::TruncatedInput
                &&& !old(reader).holds(8)
                &&& *final(reader) == *old(reader)
            },
        },
{
    if !reader.has(8) {
        return Err(DecodeError::TruncatedInput);
    }
    let start: usize = reader.pos as usize;
    match u64_from_le(slice_subrange(reader.data, start, start + 8)) {
        Some(v) => {
            reader.pos = reader.pos + 8;
            Ok(v)
        },
        None => Err(DecodeError::TruncatedInput),
    }
}

/// Takes `size` bytes that are known to be left.
pub(crate) fn take(reader: &mut ByteReader, size: usize) -> (bytes: Vec<u8>)
    requires
        old(reader).holds(size as int),
    ensures
        bytes@ == old(reader).upcoming(size as int),
        final(reader).pos == old(reader).pos + size,
        final(reader).data@ == old(reader).data@,
{
    match read_exact(reader, size) {
        Ok(bytes) => bytes,
        Err(_) => unreached(),
    }
}

/// Takes a byte that is known to be left.
pub(crate) fn take_u8(reader: &mut ByteReader) -> (v: u8)
    requires
        old(reader).holds(1),
    ensures
        v == u8_at(old(reader).data@, old(reader).pos as int),
        final(reader).pos == old(reader).pos + 1,
        final(reader).data@ == old(reader).data@,
{
    match read_u8(reader) {
        Ok(v) => v,
        Err(_) => unreached(),
    }
}

/// Takes a little-endian integer of two bytes that are known to be left.
pub(crate) fn take_u16(reader: &mut ByteReader) -> (v: u16)
    requires
        old(reader).holds(2),
    ensures
        v == u16_at(old(reader).data@, old(reader).pos as int),
        final(reader).pos == old(reader).pos + 2,
        final(reader).data@ == old(reader).data@,
{
    match read_u16(reader) {
        Ok(v) => v,
        Err(_) => unreached(),
    }
}

/// Takes a little-endian integer of four bytes that are known to be left.
pub(crate) fn take_u32(reader: &mut ByteReader) -> (v: u32)
    requires
        old(reader).holds(4),
    ensures
        v == u32_at(old(reader).data@, old(reader).pos as int),
        final(reader).pos == old(reader).pos + 4,
        final(reader).data@ == old(reader).data@,
{
    match read_u32(reader) {
        Ok(v) => v,
        Err(_) => unreached(),
    }
}

/// Takes a little-endian integer of eight bytes that are known to be left.
pub(crate) fn take_u64(reader: &mut ByteReader) -> (v: u64)
    requires
        old(reader).holds(8),
    ensures
        v == u64_at(old(reader).data@, old(reader).pos as int),
        final(reader).pos == old(reader).pos + 8,
        final(reader).data@ == old(reader).data@,
{
    match read_u64(reader) {
        Ok(v) => v,
        Err(_) => unreached(),
    }
}

} // verus!
