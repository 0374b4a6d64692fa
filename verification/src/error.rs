//! The ways in which decoding can fail.

use vstd::prelude::*;

verus! {

/// Why a decode step produced no value.
#[derive(Clone, Copy, Debug, PartialEq, Eq, Structural)]
pub enum DecodeError {
    /// A read asked for more bytes than remain.
    TruncatedInput,
    /// A length computed from sibling fields would be negative.
    InvalidLength,
    /// An offset computed from the superblocks does not fit in 64 bits.
    OffsetOverflow,
}

} // verus!
