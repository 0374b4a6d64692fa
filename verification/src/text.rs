//! Text held in fixed-width byte fields.

use vstd::prelude::*;
use vstd::slice::slice_subrange;
use vstd::utf8::decode_utf8;
use vstd::utf8::valid_utf8;

verus! {

/// Where the text in a byte field ends: at its first zero byte, or at the end
/// of the field when no byte is zero.
pub open spec fn text_len(buf: Seq<u8>) -> int {
    match buf.index_of_first(0u8) {
        Some(i) => i,
        None => buf.len() as int,
    }
}

/// The bytes of a field that count as its text.
pub open spec fn text_bytes(buf: Seq<u8>) -> Seq<u8> {
    buf.subrange(0, text_len(buf))
}

/// The text that `String::from_utf8_lossy` makes of `bytes`: their decoding as
/// UTF-8, with U+FFFD in place of each ill-formed sequence.
pub uninterp spec fn lossy_text(bytes: Seq<u8>) -> Seq<char>;

/// What fixes `text_len`: no zero byte before it, and a zero byte at it unless
/// it is the end.
pub proof fn lemma_text_len(buf: Seq<u8>, n: int)
    requires
        0 <= n <= buf.len(),
        forall|i: int| 0 <= i < n ==> buf[i] != 0,
        n < buf.len() ==> buf[n] == 0,
    ensures
        text_len(buf) == n,
{
    buf.index_of_first_ensures(0u8);
    if n < buf.len() {
        assert(buf.contains(0u8));
    } else {
        if buf.contains(0u8) {
            let i = choose|i: int| 0 <= i < buf.len() && buf[i] == 0u8;
            assert(buf[i] != 0);
        }
    }
}

/// Finds where the text in `buf` ends.
pub fn find_text_len(buf: &[u8]) -> (n: usize)
    ensures
        n == text_len(buf@),
        n <= buf@.len(),
        forall|i: int| 0 <= i < n ==> buf@[i] != 0,
        n < buf@.len() ==> buf@[n as int] == 0,
{
    let mut n: usize = 0;
    while n < buf.len() && buf[n] != 0
        invariant
            n <= buf@.len(),
            forall|i: int| 0 <= i < n ==> buf@[i] != 0,
        decreases buf@.len() - n,
    {
        n = n + 1;
    }
    proof {
        lemma_text_len(buf@, n as int);
    }
    n
}

/// `String::from_utf8_lossy`, with its result turned into an owned string.
/// Bytes that are well-formed UTF-8 come back as the text that they encode.
#[verifier::external_body]
fn utf8_lossy(bytes: &[u8]) -> (s: String)
    ensures
        s@ == lossy_text(bytes@),
        valid_utf8(bytes@) ==> s@ == decode_utf8(bytes@),
{
    String::from_utf8_lossy(bytes).into_owned()
}

/// The text of a byte field: what precedes the first zero byte, decoded
/// leniently so that no byte sequence is refused.
pub fn string_from_bytes(buf: &[u8]) -> (s: String)
    ensures
        s@ == lossy_text(text_bytes(buf@)),
        valid_utf8(text_bytes(buf@)) ==> s@ == decode_utf8(text_bytes(buf@)),
{
    let end: usize = find_text_len(buf);
    utf8_lossy(slice_subrange(buf, 0, end))
}

} // verus!
