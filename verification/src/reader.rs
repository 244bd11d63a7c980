//! A positionable reader over a fixed byte buffer.
//!
//! The cursor may be seeked anywhere, including past the end of the buffer:
//! bounds are enforced by the read that follows, which fails with the exact
//! offset and shortfall. Reads leave the cursor where it was when they fail,
//! and just past the bytes read when they succeed.

use vstd::prelude::*;
use vstd::slice::{slice_subrange, slice_to_vec};

use crate::error::DecodeError;
use crate::layout::{
    be_i16, be_u16, be_u32, in_bounds, pos_add, spec_fixed_string, spec_text, truncated,
};
use crate::text::{string_from_utf8, strip_nul_bytes};

verus! {

/// Saturating position arithmetic: the exact sum, except that it tops out
/// at `u64::MAX`, an offset past any buffer, where every read fails.
pub(crate) fn sat_add(a: u64, b: u64) -> (r: u64)
    ensures
        r as int == pos_add(a as int, b as int),
{
    if a > u64::MAX - b {
        u64::MAX
    } else {
        a + b
    }
}

/// A read cursor over a borrowed byte buffer.
pub struct Reader<'a> {
    data: &'a [u8],
    pos: u64,
}

impl<'a> Reader<'a> {
    /// The buffer being read.
    pub closed spec fn bytes(&self) -> Seq<u8> {
        self.data@
    }

    /// The cursor's absolute position.
    pub closed spec fn pos(&self) -> u64 {
        self.pos
    }

    /// The buffer fits in memory, so every in-bounds position fits in the
    /// cursor's arithmetic.
    pub proof fn lemma_len(&self)
        ensures
            self.bytes().len() <= usize::MAX,
    {
        vstd::slice::axiom_spec_len(self.data);
    }

    /// A reader over `data` positioned at its start.
    pub fn new(data: &'a [u8]) -> (r: Reader<'a>)
        ensures
            r.bytes() == data@,
            r.pos() == 0,
    {
        Reader { data, pos: 0 }
    }

    /// The current absolute position, for saving around an indirection.
    pub fn position(&self) -> (r: u64)
        ensures
            r == self.pos(),
    {
        self.pos
    }

    /// Move the cursor to the absolute position `target`. No bounds check:
    /// a position past the buffer fails at the next read.
    pub fn seek_absolute(&mut self, target: u64)
        ensures
            final(self).bytes() == old(self).bytes(),
            final(self).pos() == target,
    {
        self.pos = target;
    }

    /// Step the cursor `n` bytes forward without reading, to pass over a
    /// reserved region. No bounds check: a position past the buffer fails
    /// at the next read.
    pub fn skip(&mut self, n: u64)
        ensures
            final(self).bytes() == old(self).bytes(),
            final(self).pos() as int == pos_add(old(self).pos() as int, n as int),
    {
        self.pos = sat_add(self.pos, n);
    }

    /// Whether a read of `n` bytes fits at the current position.
    fn fits(&self, n: u64) -> (r: bool)
        ensures
            r == in_bounds(self.bytes(), self.pos() as int, n as int),
    {
        let len: u64 = self.data.len() as u64;
        self.pos <= len && n <= len - self.pos
    }

    /// The truncation error for a failed read of `n` bytes here.
    fn short(&self, n: u64) -> (r: DecodeError)
        ensures
            r == truncated(self.bytes(), self.pos() as int, n as int),
    {
        let len: u64 = self.data.len() as u64;
        DecodeError::TruncatedInput {
            needed: n,
            available: if self.pos <= len {
                len - self.pos
            } else {
                0
            },
            offset: self.pos,
        }
    }

    /// Read one byte.
    pub fn read_u8(&mut self) -> (r: Result<u8, DecodeError>)
        ensures
            final(self).bytes() == old(self).bytes(),
            match r {
                Ok(v) => in_bounds(old(self).bytes(), old(self).pos() as int, 1) && v == old(self).bytes()[old(self).pos() as int] && final(self).pos() == old(self).pos() + 1,
                Err(e) => !in_bounds(old(self).bytes(), old(self).pos() as int, 1) && e
                    == truncated(old(self).bytes(), old(self).pos() as int, 1) && final(self).pos()
                    == old(self).pos(),
            },
    {
        if !self.fits(1) {
            return Err(self.short(1));
        }
        let v = self.data[self.pos as usize];
        self.pos = self.pos + 1;
        Ok(v)
    }

    /// Read a big-endian unsigned 16-bit integer.
    pub fn read_u16_be(&mut self) -> (r: Result<u16, DecodeError>)
        ensures
            final(self).bytes() == old(self).bytes(),
            match r {
                Ok(v) => in_bounds(old(self).bytes(), old(self).pos() as int, 2) && v == be_u16(
                    old(self).bytes(),
                    old(self).pos() as int,
                ) && final(self).pos() == old(self).pos() + 2,
                Err(e) => !in_bounds(old(self).bytes(), old(self).pos() as int, 2) && e
                    == truncated(old(self).bytes(), old(self).pos() as int, 2) && final(self).pos()
                    == old(self).pos(),
            },
    {
        if !self.fits(2) {
            return Err(self.short(2));
        }
        let i = self.pos as usize;
        let v: u16 = self.data[i] as u16 * 0x100 + self.data[i + 1] as u16;
        self.pos = self.pos + 2;
        Ok(v)
    }

    /// Read a big-endian unsigned 32-bit integer.
    pub fn read_u32_be(&mut self) -> (r: Result<u32, DecodeError>)
        ensures
            final(self).bytes() == old(self).bytes(),
            match r {
                Ok(v) => in_bounds(old(self).bytes(), old(self).pos() as int, 4) && v == be_u32(
                    old(self).bytes(),
                    old(self).pos() as int,
                ) && final(self).pos() == old(self).pos() + 4,
                Err(e) => !in_bounds(old(self).bytes(), old(self).pos() as int, 4) && e
                    == truncated(old(self).bytes(), old(self).pos() as int, 4) && final(self).pos()
                    == old(self).pos(),
            },
    {
        if !self.fits(4) {
            return Err(self.short(4));
        }
        let i = self.pos as usize;
        let v: u32 = self.data[i] as u32 * 0x100_0000 + self.data[i + 1] as u32 * 0x1_0000
            + self.data[i + 2] as u32 * 0x100 + self.data[i + 3] as u32;
        self.pos = self.pos + 4;
        Ok(v)
    }

    /// Read a big-endian signed 16-bit integer: the two's-complement reading
    /// of the same two bytes.
    pub fn read_i16_be(&mut self) -> (r: Result<i16, DecodeError>)
        ensures
            final(self).bytes() == old(self).bytes(),
            match r {
                Ok(v) => in_bounds(old(self).bytes(), old(self).pos() as int, 2) && v == be_i16(
                    old(self).bytes(),
                    old(self).pos() as int,
                ) && final(self).pos() == old(self).pos() + 2,
                Err(e) => !in_bounds(old(self).bytes(), old(self).pos() as int, 2) && e
                    == truncated(old(self).bytes(), old(self).pos() as int, 2) && final(self).pos()
                    == old(self).pos(),
            },
    {
        match self.read_u16_be() {
            Ok(v) => Ok(v as i16),
            Err(e) => Err(e),
        }
    }

    /// Read a copy of the next `n` bytes without interpreting them.
    pub fn read_bytes(&mut self, n: usize) -> (r: Result<Vec<u8>, DecodeError>)
        ensures
            final(self).bytes() == old(self).bytes(),
            match r {
                Ok(v) => in_bounds(old(self).bytes(), old(self).pos() as int, n as int) && v@ == old(self).bytes().subrange(
                    old(self).pos() as int,
                    old(self).pos() as int + n as int,
                ) && final(self).pos() == old(self).pos() + n,
                Err(e) => !in_bounds(old(self).bytes(), old(self).pos() as int, n as int) && e
                    == truncated(old(self).bytes(), old(self).pos() as int, n as int) && final(self).pos() == old(self).pos(),
            },
    {
        if !self.fits(n as u64) {
            return Err(self.short(n as u64));
        }
        proof {
            vstd::slice::axiom_spec_len(self.data);
            assert(self.pos as int + n as int <= self.data@.len());
            assert(self.data@.len() <= usize::MAX);
        }
        let start = self.pos as usize;
        let v = slice_to_vec(slice_subrange(self.data, start, start + n));
        self.pos = self.pos + n as u64;
        Ok(v)
    }

    /// Read a fixed-width NUL-padded name field of `n` bytes: the bytes with
    /// NULs removed, decoded as UTF-8. The cursor stays put on any failure.
    pub fn read_fixed_string(&mut self, n: usize) -> (r: Result<String, DecodeError>)
        ensures
            final(self).bytes() == old(self).bytes(),
            match r {
                Ok(s) => spec_fixed_string(old(self).bytes(), old(self).pos() as int, n as int)
                    == Ok::<Seq<char>, DecodeError>(s@) && in_bounds(
                    old(self).bytes(),
                    old(self).pos() as int,
                    n as int,
                ) && final(self).pos() == old(self).pos() + n,
                Err(e) => spec_fixed_string(old(self).bytes(), old(self).pos() as int, n as int)
                    == Err::<Seq<char>, DecodeError>(e) && final(self).pos() == old(self).pos(),
            },
    {
        let start = self.pos;
        let raw = match self.read_bytes(n) {
            Ok(raw) => raw,
            Err(e) => {
                return Err(e);
            },
        };
        let stripped = strip_nul_bytes(&raw);
        match string_from_utf8(stripped) {
            Some(s) => Ok(s),
            None => {
                self.pos = start;
                Err(DecodeError::InvalidEncoding { offset: start })
            },
        }
    }

    /// Read `n` bytes of raw text, decoded as UTF-8 without NUL stripping.
    /// The cursor stays put on any failure.
    pub fn read_text(&mut self, n: usize) -> (r: Result<String, DecodeError>)
        ensures
            final(self).bytes() == old(self).bytes(),
            match r {
                Ok(s) => spec_text(old(self).bytes(), old(self).pos() as int, n as int) == Ok::<
                    Seq<char>,
                    DecodeError,
                >(s@) && in_bounds(old(self).bytes(), old(self).pos() as int, n as int) && final(self).pos() == old(self).pos() + n,
                Err(e) => spec_text(old(self).bytes(), old(self).pos() as int, n as int) == Err::<
                    Seq<char>,
                    DecodeError,
                >(e) && final(self).pos() == old(self).pos(),
            },
    {
        let start = self.pos;
        let raw = match self.read_bytes(n) {
            Ok(raw) => raw,
            Err(e) => {
                return Err(e);
            },
        };
        match string_from_utf8(raw) {
            Some(s) => Ok(s),
            None => {
                self.pos = start;
                Err(DecodeError::InvalidEncoding { offset: start })
            },
        }
    }
}

} // verus!
