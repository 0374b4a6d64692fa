//! Little-endian integers in bytes: what they are worth, and how they are
//! read.

use binrw::BinReaderExt;
use vstd::prelude::*;

verus! {

/// The value of two bytes read as a little-endian integer.
pub open spec fn le_u16(b: Seq<u8>) -> int
    recommends
        b.len() == 2,
{
    b[0] + 0x100 * b[1]
}

/// The value of four bytes read as a little-endian integer.
pub open spec fn le_u32(b: Seq<u8>) -> int
    recommends
        b.len() == 4,
{
    b[0] + 0x100 * b[1] + 0x1_0000 * b[2] + 0x100_0000 * b[3]
}

/// The value of eight bytes read as a little-endian integer.
pub open spec fn le_u64(b: Seq<u8>) -> int
    recommends
        b.len() == 8,
{
    b[0] + 0x100 * b[1] + 0x1_0000 * b[2] + 0x100_0000 * b[3] + 0x1_0000_0000 * b[4]
        + 0x100_0000_0000 * b[5] + 0x1_0000_0000_0000 * b[6] + 0x100_0000_0000_0000 * b[7]
}

/// The byte at index `at` of `data`.
pub open spec fn u8_at(data: Seq<u8>, at: int) -> u8 {
    data[at]
}

/// The little-endian integer in the two bytes of `data` from index `at`.
pub open spec fn u16_at(data: Seq<u8>, at: int) -> u16 {
    le_u16(data.subrange(at, at + 2)) as u16
}

/// The little-endian integer in the four bytes of `data` from index `at`.
pub open spec fn u32_at(data: Seq<u8>, at: int) -> u32 {
    le_u32(data.subrange(at, at + 4)) as u32
}

/// The little-endian integer in the eight bytes of `data` from index `at`.
pub open spec fn u64_at(data: Seq<u8>, at: int) -> u64 {
    le_u64(data.subrange(at, at + 8)) as u64
}

/// The `n` bytes of `data` from index `at`.
pub open spec fn bytes_at(data: Seq<u8>, at: int, n: int) -> Seq<u8> {
    data.subrange(at, at + n)
}

/// A window cut out of a window is a window of the whole.
pub broadcast proof fn lemma_window_of_window(s: Seq<u8>, a: int, b: int, c: int, d: int)
    requires
        0 <= a <= b <= s.len(),
        0 <= c <= d <= b - a,
    ensures
        #[trigger] s.subrange(a, b).subrange(c, d) == s.subrange(a + c, a + d),
{
    assert(s.subrange(a, b).subrange(c, d) =~= s.subrange(a + c, a + d));
}

/// Two windows that hold the same bytes hold the same byte at each index.
pub proof fn lemma_same_window(a: Seq<u8>, b: Seq<u8>, at: int, n: int, i: int)
    requires
        0 <= at,
        at + n <= a.len(),
        at + n <= b.len(),
        bytes_at(a, at, n) == bytes_at(b, at, n),
        at <= i < at + n,
    ensures
        a[i] == b[i],
{
    assert(a[i] == bytes_at(a, at, n)[i - at]);
    assert(b[i] == bytes_at(b, at, n)[i - at]);
}

/// A number has one lowest digit in base 256, and one rest above it.
proof fn lemma_lowest_digit(x: int, r: int, y: int, s: int)
    requires
        0 <= x < 256,
        0 <= y < 256,
        x + 256 * r == y + 256 * s,
    ensures
        x == y,
        r == s,
{
}

/// Four bytes that read as the same little-endian integer are the same bytes.
pub proof fn lemma_u32_at_injective(a: Seq<u8>, b: Seq<u8>, at: int)
    requires
        0 <= at,
        at + 4 <= a.len(),
        at + 4 <= b.len(),
        u32_at(a, at) == u32_at(b, at),
    ensures
        bytes_at(a, at, 4) == bytes_at(b, at, 4),
{
    let x = a.subrange(at, at + 4);
    let y = b.subrange(at, at + 4);
    assert(le_u32(x) == le_u32(y));
    lemma_lowest_digit(
        x[0] as int,
        x[1] + 0x100 * x[2] + 0x1_0000 * x[3],
        y[0] as int,
        y[1] + 0x100 * y[2] + 0x1_0000 * y[3],
    );
    lemma_lowest_digit(x[1] as int, x[2] + 0x100 * x[3], y[1] as int, y[2] + 0x100 * y[3]);
    lemma_lowest_digit(x[2] as int, x[3] as int, y[2] as int, y[3] as int);
    assert(x =~= y);
}

/// Eight bytes that read as the same little-endian integer are the same
/// bytes.
pub proof fn lemma_u64_at_injective(a: Seq<u8>, b: Seq<u8>, at: int)
    requires
        0 <= at,
        at + 8 <= a.len(),
        at + 8 <= b.len(),
        u64_at(a, at) == u64_at(b, at),
    ensures
        bytes_at(a, at, 8) == bytes_at(b, at, 8),
{
    let x = a.subrange(at, at + 8);
    let y = b.subrange(at, at + 8);
    assert(le_u64(x) == le_u64(y));
    let x7 = x[7] as int;
    let y7 = y[7] as int;
    let x6 = x[6] + 0x100 * x7;
    let y6 = y[6] + 0x100 * y7;
    let x5 = x[5] + 0x100 * x6;
    let y5 = y[5] + 0x100 * y6;
    let x4 = x[4] + 0x100 * x5;
    let y4 = y[4] + 0x100 * y5;
    let x3 = x[3] + 0x100 * x4;
    let y3 = y[3] + 0x100 * y4;
    let x2 = x[2] + 0x100 * x3;
    let y2 = y[2] + 0x100 * y3;
    let x1 = x[1] + 0x100 * x2;
    let y1 = y[1] + 0x100 * y2;
    assert(le_u64(x) == x[0] + 0x100 * x1);
    assert(le_u64(y) == y[0] + 0x100 * y1);
    lemma_lowest_digit(x[0] as int, x1, y[0] as int, y1);
    lemma_lowest_digit(x[1] as int, x2, y[1] as int, y2);
    lemma_lowest_digit(x[2] as int, x3, y[2] as int, y3);
    lemma_lowest_digit(x[3] as int, x4, y[3] as int, y4);
    lemma_lowest_digit(x[4] as int, x5, y[4] as int, y5);
    lemma_lowest_digit(x[5] as int, x6, y[5] as int, y6);
    lemma_lowest_digit(x[6] as int, x7, y[6] as int, y7);
    assert(x =~= y);
}

/// `binrw::BinReaderExt::read_le::<u16>` on a cursor over `data`: the first two
/// bytes as a little-endian integer, or nothing where `data` is shorter.
#[verifier::external_body]
pub(crate) fn u16_from_le(data: &[u8]) -> (r: Option<u16>)
    ensures
        match r {
            Some(v) => data@.len() >= 2 && v == le_u16(data@),
            None => data@.len() < 2,
        },
{
    binrw::io::Cursor::new(data).read_le::<u16>().ok()
}

/// `binrw::BinReaderExt::read_le::<u32>` on a cursor over `data`: the first
/// four bytes as a little-endian integer, or nothing where `data` is shorter.
#[verifier::external_body]
pub(crate) fn u32_from_le(data: &[u8]) -> (r: Option<u32>)
    ensures
        match r {
            Some(v) => data@.len() >= 4 && v == le_u32(data@),
            None => data@.len() < 4,
        },
{
    binrw::io::Cursor::new(data).read_le::<u32>().ok()
}

/// `binrw::BinReaderExt::read_le::<u64>` on a cursor over `data`: the first
/// eight bytes as a little-endian integer, or nothing where `data` is shorter.
#[verifier::external_body]
pub(crate) fn u64_from_le(data: &[u8]) -> (r: Option<u64>)
    ensures
        match r {
            Some(v) => data@.len() >= 8 && v == le_u64(data@),
            None => data@.len() < 8,
        },
{
    binrw::io::Cursor::new(data).read_le::<u64>().ok()
}

} // verus!
