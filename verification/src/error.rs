//! Errors reported by the decoder.
//!
//! Every error carries the absolute byte offset at which it arose, so a
//! caller can point at the exact spot in the input buffer. Decoding is
//! all-or-nothing: any error aborts the whole decode with no partial result.

use vstd::prelude::*;

verus! {

/// Why a decode failed.
#[derive(Clone, Copy, Debug, PartialEq, Eq, Structural)]
pub enum DecodeError {
    /// A four-byte magic word did not match the expected marker.
    /// `expected` and `found` hold the words as big-endian `u32` values;
    /// `offset` is the position of the word's first byte.
    BadMagic { expected: u32, found: u32, offset: u64 },
    /// A read of `needed` bytes at `offset` ran past the end of the buffer,
    /// where only `available` bytes remained.
    TruncatedInput { needed: u64, available: u64, offset: u64 },
    /// A text field beginning at `offset` was not valid UTF-8.
    InvalidEncoding { offset: u64 },
}

} // verus!
