//! The on-disk layout of the format, as specification functions over the
//! raw byte sequence.
//!
//! All multi-byte integers are big-endian. "Offset" fields hold absolute
//! byte positions from the start of the buffer. Repeated list entries are
//! stored as four-byte absolute offsets to out-of-line data: a list is
//! walked sequentially, four bytes per entry, and each entry's payload is
//! found by following its offset.
//!
//! `spec_decode` is the reference meaning of a buffer: the decoder's
//! contract says that it returns exactly `spec_decode` of its input.
//!
//! Positions are ideal integers here. The one place a position is not the
//! end of a read that was bounds-checked against the buffer — resynchronizing
//! to a curve record's declared end, and stepping over a keyframe's padding
//! byte — advances through `pos_add`, which tops out at `u64::MAX`, an
//! offset no buffer reaches; the cursor mirrors that arithmetic exactly.

use vstd::prelude::*;

use crate::error::DecodeError;
use crate::model::{
    ControlPoint, CurveModel, DemoOptionModel, DemoOptionSetModel, FileModel, KeyFrame,
    KeyFrameSetModel,
};
use crate::text::{strip_nul, utf8_decode};

verus! {

/// Magic marker opening the container header: `"MNCH"` as a big-endian word.
pub const MAGIC_MNCH: u32 = 0x4D4E4348;

/// Magic marker opening the demo-data block: `"MNDD"`.
pub const MAGIC_MNDD: u32 = 0x4D4E4444;

/// Magic marker opening each curve record: `"MNCN"`.
pub const MAGIC_MNCN: u32 = 0x4D4E434E;

/// A read of `n` bytes at `pos` stays inside the buffer.
pub open spec fn in_bounds(b: Seq<u8>, pos: int, n: int) -> bool {
    0 <= pos <= b.len() && n <= b.len() - pos
}

/// The error a read of `n` bytes at `pos` past the end of the buffer gives.
pub open spec fn truncated(b: Seq<u8>, pos: int, n: int) -> DecodeError {
    DecodeError::TruncatedInput {
        needed: n as u64,
        available: if pos <= b.len() {
            (b.len() - pos) as u64
        } else {
            0
        },
        offset: pos as u64,
    }
}

/// Position arithmetic of the cursor: addition that tops out at `u64::MAX`.
pub open spec fn pos_add(a: int, b: int) -> int {
    if a + b > u64::MAX {
        u64::MAX as int
    } else {
        a + b
    }
}

/// The big-endian 16-bit integer at `pos`.
pub open spec fn be_u16(b: Seq<u8>, pos: int) -> u16 {
    (b[pos] * 0x100 + b[pos + 1]) as u16
}

/// The big-endian 32-bit integer at `pos`.
pub open spec fn be_u32(b: Seq<u8>, pos: int) -> u32 {
    (b[pos] * 0x100_0000 + b[pos + 1] * 0x1_0000 + b[pos + 2] * 0x100 + b[pos + 3]) as u32
}

/// The big-endian signed 16-bit integer at `pos`: the two's-complement
/// reading of the same two bytes.
pub open spec fn be_i16(b: Seq<u8>, pos: int) -> i16 {
    be_u16(b, pos) as i16
}

/// A single byte read, or the truncation error it fails with.
pub open spec fn spec_u8(b: Seq<u8>, pos: int) -> Result<u8, DecodeError> {
    if in_bounds(b, pos, 1) {
        Ok(b[pos])
    } else {
        Err(truncated(b, pos, 1))
    }
}

/// A big-endian 16-bit read, or the truncation error it fails with.
pub open spec fn spec_u16(b: Seq<u8>, pos: int) -> Result<u16, DecodeError> {
    if in_bounds(b, pos, 2) {
        Ok(be_u16(b, pos))
    } else {
        Err(truncated(b, pos, 2))
    }
}

/// A big-endian 32-bit read, or the truncation error it fails with.
pub open spec fn spec_u32(b: Seq<u8>, pos: int) -> Result<u32, DecodeError> {
    if in_bounds(b, pos, 4) {
        Ok(be_u32(b, pos))
    } else {
        Err(truncated(b, pos, 4))
    }
}

/// A big-endian signed 16-bit read, or the truncation error it fails with.
pub open spec fn spec_i16(b: Seq<u8>, pos: int) -> Result<i16, DecodeError> {
    if in_bounds(b, pos, 2) {
        Ok(be_i16(b, pos))
    } else {
        Err(truncated(b, pos, 2))
    }
}

/// An uninterpreted read of `n` bytes, or the truncation error it fails with.
pub open spec fn spec_bytes(b: Seq<u8>, pos: int, n: int) -> Result<Seq<u8>, DecodeError> {
    if in_bounds(b, pos, n) {
        Ok(b.subrange(pos, pos + n))
    } else {
        Err(truncated(b, pos, n))
    }
}

/// A fixed-width NUL-padded name field of `n` bytes at `pos`: the bytes with
/// NULs removed, decoded as UTF-8. A bad encoding is reported at the field's
/// first byte.
pub open spec fn spec_fixed_string(b: Seq<u8>, pos: int, n: int) -> Result<
    Seq<char>,
    DecodeError,
> {
    match spec_bytes(b, pos, n) {
        Ok(raw) => match utf8_decode(strip_nul(raw)) {
            Some(cs) => Ok(cs),
            None => Err(DecodeError::InvalidEncoding { offset: pos as u64 }),
        },
        Err(e) => Err(e),
    }
}

/// A run of `n` raw text bytes at `pos`, decoded as UTF-8 without any
/// NUL stripping. A bad encoding is reported at the run's first byte.
pub open spec fn spec_text(b: Seq<u8>, pos: int, n: int) -> Result<Seq<char>, DecodeError> {
    match spec_bytes(b, pos, n) {
        Ok(raw) => match utf8_decode(raw) {
            Some(cs) => Ok(cs),
            None => Err(DecodeError::InvalidEncoding { offset: pos as u64 }),
        },
        Err(e) => Err(e),
    }
}

/// The error checking the four-byte magic word at `pos` against `expected`
/// gives, if any.
pub open spec fn spec_magic(b: Seq<u8>, pos: int, expected: u32) -> Option<DecodeError> {
    if !in_bounds(b, pos, 4) {
        Some(truncated(b, pos, 4))
    } else if be_u32(b, pos) != expected {
        Some(
            DecodeError::BadMagic { expected, found: be_u32(b, pos), offset: pos as u64 },
        )
    } else {
        None
    }
}

/// One keyframe at `pos`: time, active flag, one padding byte that is
/// stepped over and not preserved, then the absolute x and y positions.
/// Yields the keyframe and the position just past it.
pub open spec fn spec_key_frame(b: Seq<u8>, pos: int) -> Result<(KeyFrame, int), DecodeError> {
    match spec_u16(b, pos) {
        Ok(frame) => match spec_u8(b, pos + 2) {
            Ok(active) => {
                let px = pos_add(pos + 3, 1);
                match spec_i16(b, px) {
                    Ok(x) => match spec_i16(b, px + 2) {
                        Ok(y) => Ok(
                            (KeyFrame { frame, is_active: active != 0, x, y }, px + 4),
                        ),
                        Err(e) => Err(e),
                    },
                    Err(e) => Err(e),
                }
            },
            Err(e) => Err(e),
        },
        Err(e) => Err(e),
    }
}

/// `n` keyframes laid out back to back from `pos`. Yields the keyframes and
/// the position just past the last one.
pub open spec fn spec_key_frames(b: Seq<u8>, pos: int, n: int) -> Result<
    (Seq<KeyFrame>, int),
    DecodeError,
>
    decreases n,
{
    if n <= 0 {
        Ok((Seq::empty(), pos))
    } else {
        match spec_key_frame(b, pos) {
            Ok((kf, p2)) => match spec_key_frames(b, p2, n - 1) {
                Ok((rest, p3)) => Ok((seq![kf] + rest, p3)),
                Err(e) => Err(e),
            },
            Err(e) => Err(e),
        }
    }
}

/// One keyframe set at `pos`: the control point index it animates, a
/// keyframe count, then that many keyframes back to back.
pub open spec fn spec_key_frame_set(b: Seq<u8>, pos: int) -> Result<
    KeyFrameSetModel,
    DecodeError,
> {
    match spec_u16(b, pos) {
        Ok(node_index) => match spec_u16(b, pos + 2) {
            Ok(count) => match spec_key_frames(b, pos + 4, count as int) {
                Ok((key_frames, _)) => Ok(KeyFrameSetModel { node_index, key_frames }),
                Err(e) => Err(e),
            },
            Err(e) => Err(e),
        },
        Err(e) => Err(e),
    }
}

/// One keyframe set list entry at `entry_pos`: a four-byte absolute offset
/// to the set's out-of-line payload.
pub open spec fn spec_key_frame_set_entry(b: Seq<u8>, entry_pos: int) -> Result<
    KeyFrameSetModel,
    DecodeError,
> {
    match spec_u32(b, entry_pos) {
        Ok(off) => spec_key_frame_set(b, off as int),
        Err(e) => Err(e),
    }
}

/// `n` keyframe set entries walked sequentially from `pos`, four bytes per
/// entry.
pub open spec fn spec_key_frame_sets(b: Seq<u8>, pos: int, n: int) -> Result<
    Seq<KeyFrameSetModel>,
    DecodeError,
>
    decreases n,
{
    if n <= 0 {
        Ok(Seq::empty())
    } else {
        match spec_key_frame_set_entry(b, pos) {
            Ok(set) => match spec_key_frame_sets(b, pos + 4, n - 1) {
                Ok(rest) => Ok(seq![set] + rest),
                Err(e) => Err(e),
            },
            Err(e) => Err(e),
        }
    }
}

/// One control point at `pos`: four big-endian signed 16-bit coordinates.
pub open spec fn spec_control_point(b: Seq<u8>, pos: int) -> Result<ControlPoint, DecodeError> {
    match spec_i16(b, pos) {
        Ok(x) => match spec_i16(b, pos + 2) {
            Ok(y) => match spec_i16(b, pos + 4) {
                Ok(z) => match spec_i16(b, pos + 6) {
                    Ok(w) => Ok(ControlPoint { x, y, z, w }),
                    Err(e) => Err(e),
                },
                Err(e) => Err(e),
            },
            Err(e) => Err(e),
        },
        Err(e) => Err(e),
    }
}

/// `n` control points laid out back to back from `pos`, eight bytes each.
pub open spec fn spec_control_points(b: Seq<u8>, pos: int, n: int) -> Result<
    Seq<ControlPoint>,
    DecodeError,
>
    decreases n,
{
    if n <= 0 {
        Ok(Seq::empty())
    } else {
        match spec_control_point(b, pos) {
            Ok(cp) => match spec_control_points(b, pos + 8, n - 1) {
                Ok(rest) => Ok(seq![cp] + rest),
                Err(e) => Err(e),
            },
            Err(e) => Err(e),
        }
    }
}

/// The control point table at `table_off`: a count, then that many points.
pub open spec fn spec_control_point_table(b: Seq<u8>, table_off: int) -> Result<
    Seq<ControlPoint>,
    DecodeError,
> {
    match spec_u32(b, table_off) {
        Ok(count) => spec_control_points(b, table_off + 4, count as int),
        Err(e) => Err(e),
    }
}

/// `n` knots laid out back to back from `pos`: the big-endian bit patterns
/// of 32-bit floats, preserved as bits.
pub open spec fn spec_knots(b: Seq<u8>, pos: int, n: int) -> Result<Seq<u32>, DecodeError>
    decreases n,
{
    if n <= 0 {
        Ok(Seq::empty())
    } else {
        match spec_u32(b, pos) {
            Ok(k) => match spec_knots(b, pos + 4, n - 1) {
                Ok(rest) => Ok(seq![k] + rest),
                Err(e) => Err(e),
            },
            Err(e) => Err(e),
        }
    }
}

/// The knot table at `table_off`: a count, then that many knots.
pub open spec fn spec_knot_table(b: Seq<u8>, table_off: int) -> Result<Seq<u32>, DecodeError> {
    match spec_u32(b, table_off) {
        Ok(count) => spec_knots(b, table_off + 4, count as int),
        Err(e) => Err(e),
    }
}

/// The keyframe info at `info_off`: one more level of indirection to the
/// keyframe table, which holds a set count and then that many list entries.
pub open spec fn spec_key_frame_table(b: Seq<u8>, info_off: int) -> Result<
    Seq<KeyFrameSetModel>,
    DecodeError,
> {
    match spec_u32(b, info_off) {
        Ok(table_off) => match spec_u32(b, table_off as int) {
            Ok(count) => spec_key_frame_sets(b, table_off + 4, count as int),
            Err(e) => Err(e),
        },
        Err(e) => Err(e),
    }
}

/// One curve record starting at `start`. After its fixed part and its
/// derived-length tail, the three tables the record points at are read
/// through their absolute offsets. Yields the curve and the absolute
/// position of the following record, `start` plus the record's declared
/// block size.
pub open spec fn spec_curve(b: Seq<u8>, start: int) -> Result<(CurveModel, int), DecodeError> {
    match spec_magic(b, start, MAGIC_MNCN) {
        Some(e) => Err(e),
        None => match spec_u32(b, start + 4) {
            Ok(block_size) => match spec_fixed_string(b, start + 8, 0x20) {
                Ok(name) => match spec_bytes(b, start + 0x28, 0x64) {
                    Ok(unk_28) => match spec_u32(b, start + 0x8C) {
                        Ok(unk_8c) => match spec_u32(b, start + 0x90) {
                            Ok(unk_90) => match spec_u32(b, start + 0x94) {
                                Ok(unk_94) => match spec_u32(b, start + 0x98) {
                                    Ok(unk_98) => match spec_u32(b, start + 0x9C) {
                                        Ok(cp_off) => match spec_u32(b, start + 0xA0) {
                                            Ok(knot_off) => match spec_u32(b, start + 0xA4) {
                                                Ok(kfi_off) => match spec_bytes(
                                                    b,
                                                    start + 0xA8,
                                                    0x10,
                                                ) {
                                                    Ok(unk_a8) => spec_curve_tables(
                                                        b,
                                                        start,
                                                        block_size,
                                                        name,
                                                        unk_28,
                                                        unk_8c,
                                                        unk_90,
                                                        unk_94,
                                                        unk_98,
                                                        cp_off,
                                                        knot_off,
                                                        kfi_off,
                                                        unk_a8,
                                                    ),
                                                    Err(e) => Err(e),
                                                },
                                                Err(e) => Err(e),
                                            },
                                            Err(e) => Err(e),
                                        },
                                        Err(e) => Err(e),
                                    },
                                    Err(e) => Err(e),
                                },
                                Err(e) => Err(e),
                            },
                            Err(e) => Err(e),
                        },
                        Err(e) => Err(e),
                    },
                    Err(e) => Err(e),
                },
                Err(e) => Err(e),
            },
            Err(e) => Err(e),
        },
    }
}

/// The tail and offset-directed part of a curve record whose fixed part has
/// been read: the derived-length tail from `start + 0xB8` up to the control
/// point table (empty when the table begins at or before the tail), then the
/// three tables.
pub open spec fn spec_curve_tables(
    b: Seq<u8>,
    start: int,
    block_size: u32,
    name: Seq<char>,
    unk_28: Seq<u8>,
    unk_8c: u32,
    unk_90: u32,
    unk_94: u32,
    unk_98: u32,
    cp_off: u32,
    knot_off: u32,
    kfi_off: u32,
    unk_a8: Seq<u8>,
) -> Result<(CurveModel, int), DecodeError> {
    let tail_pos = start + 0xB8;
    let tail_len = if cp_off >= tail_pos {
        cp_off - tail_pos
    } else {
        0
    };
    match spec_bytes(b, tail_pos, tail_len) {
        Ok(unk_b8) => match spec_control_point_table(b, cp_off as int) {
            Ok(control_points) => match spec_knot_table(b, knot_off as int) {
                Ok(knots) => match spec_key_frame_table(b, kfi_off as int) {
                    Ok(key_frame_sets) => Ok(
                        (
                            CurveModel {
                                name,
                                control_points,
                                knots,
                                key_frame_sets,
                                unk_28,
                                unk_8c,
                                unk_90,
                                unk_94,
                                unk_98,
                                unk_a8,
                                unk_b8,
                            },
                            pos_add(start, block_size as int),
                        ),
                    ),
                    Err(e) => Err(e),
                },
                Err(e) => Err(e),
            },
            Err(e) => Err(e),
        },
        Err(e) => Err(e),
    }
}

/// `n` curve records from `start`, each found at the position the previous
/// one declared as its end.
pub open spec fn spec_curves(b: Seq<u8>, start: int, n: int) -> Result<
    Seq<CurveModel>,
    DecodeError,
>
    decreases n,
{
    if n <= 0 {
        Ok(Seq::empty())
    } else {
        match spec_curve(b, start) {
            Ok((c, next)) => match spec_curves(b, next, n - 1) {
                Ok(rest) => Ok(seq![c] + rest),
                Err(e) => Err(e),
            },
            Err(e) => Err(e),
        }
    }
}

/// One demo option list entry at `entry_pos`: a four-byte absolute offset to
/// the option's payload, which holds a 16-byte name field, a value length,
/// and that many bytes of UTF-8 text.
pub open spec fn spec_demo_option(b: Seq<u8>, entry_pos: int) -> Result<
    DemoOptionModel,
    DecodeError,
> {
    match spec_u32(b, entry_pos) {
        Ok(off) => match spec_fixed_string(b, off as int, 0x10) {
            Ok(name) => match spec_u32(b, off + 0x10) {
                Ok(value_len) => match spec_text(b, off + 0x14, value_len as int) {
                    Ok(value) => Ok(DemoOptionModel { name, value }),
                    Err(e) => Err(e),
                },
                Err(e) => Err(e),
            },
            Err(e) => Err(e),
        },
        Err(e) => Err(e),
    }
}

/// `n` demo option entries walked sequentially from `pos`, four bytes per
/// entry.
pub open spec fn spec_demo_options(b: Seq<u8>, pos: int, n: int) -> Result<
    Seq<DemoOptionModel>,
    DecodeError,
>
    decreases n,
{
    if n <= 0 {
        Ok(Seq::empty())
    } else {
        match spec_demo_option(b, pos) {
            Ok(opt) => match spec_demo_options(b, pos + 4, n - 1) {
                Ok(rest) => Ok(seq![opt] + rest),
                Err(e) => Err(e),
            },
            Err(e) => Err(e),
        }
    }
}

/// One demo option set list entry at `entry_pos`: a four-byte absolute
/// offset to the set's payload, which holds a 32-byte name field, a 32-byte
/// region preserved verbatim, an option count, and that many option entries.
pub open spec fn spec_demo_set(b: Seq<u8>, entry_pos: int) -> Result<
    DemoOptionSetModel,
    DecodeError,
> {
    match spec_u32(b, entry_pos) {
        Ok(off) => match spec_fixed_string(b, off as int, 0x20) {
            Ok(name) => match spec_bytes(b, off + 0x20, 0x20) {
                Ok(unk_20) => match spec_u32(b, off + 0x40) {
                    Ok(count) => match spec_demo_options(b, off + 0x44, count as int) {
                        Ok(demo_options) => Ok(
                            DemoOptionSetModel { name, demo_options, unk_20 },
                        ),
                        Err(e) => Err(e),
                    },
                    Err(e) => Err(e),
                },
                Err(e) => Err(e),
            },
            Err(e) => Err(e),
        },
        Err(e) => Err(e),
    }
}

/// `n` demo option set entries walked sequentially from `pos`, four bytes
/// per entry.
pub open spec fn spec_demo_sets(b: Seq<u8>, pos: int, n: int) -> Result<
    Seq<DemoOptionSetModel>,
    DecodeError,
>
    decreases n,
{
    if n <= 0 {
        Ok(Seq::empty())
    } else {
        match spec_demo_set(b, pos) {
            Ok(set) => match spec_demo_sets(b, pos + 4, n - 1) {
                Ok(rest) => Ok(seq![set] + rest),
                Err(e) => Err(e),
            },
            Err(e) => Err(e),
        }
    }
}

/// The meaning of a whole buffer: the decoded file, or the error decoding
/// fails with.
///
/// The header is validated and read; the curve count then selects exactly
/// one block kind. A zero count means a demo-data block follows the header
/// in place; a nonzero count means that many curve records are read starting
/// at the header's data offset. The branch not taken contributes an empty
/// sequence.
pub open spec fn spec_decode(b: Seq<u8>) -> Result<FileModel, DecodeError> {
    match spec_magic(b, 0, MAGIC_MNCH) {
        Some(e) => Err(e),
        None => match spec_u32(b, 4) {
            Ok(data_offset) => match spec_u32(b, 8) {
                Ok(unk_8) => match spec_u32(b, 0xC) {
                    Ok(curve_count) => match spec_u32(b, 0x10) {
                        Ok(unk_10) => match spec_u16(b, 0x14) {
                            Ok(frame_count) => match spec_u8(b, 0x16) {
                                Ok(flag) => {
                                    if curve_count == 0 {
                                        spec_decode_demo_block(
                                            b,
                                            frame_count,
                                            unk_8,
                                            unk_10,
                                            flag != 0,
                                        )
                                    } else {
                                        spec_decode_curve_block(
                                            b,
                                            data_offset,
                                            curve_count,
                                            frame_count,
                                            unk_8,
                                            unk_10,
                                            flag != 0,
                                        )
                                    }
                                },
                                Err(e) => Err(e),
                            },
                            Err(e) => Err(e),
                        },
                        Err(e) => Err(e),
                    },
                    Err(e) => Err(e),
                },
                Err(e) => Err(e),
            },
            Err(e) => Err(e),
        },
    }
}

/// The demo-data block that follows the header when the curve count is
/// zero: its own magic at `0x18`, a block-size field that is read and
/// dropped, a set count, and that many set entries.
pub open spec fn spec_decode_demo_block(
    b: Seq<u8>,
    frame_count: u16,
    unk_8: u32,
    unk_10: u32,
    unk_16: bool,
) -> Result<FileModel, DecodeError> {
    match spec_magic(b, 0x18, MAGIC_MNDD) {
        Some(e) => Err(e),
        None => match spec_u32(b, 0x1C) {
            Ok(_block_size) => match spec_u32(b, 0x20) {
                Ok(set_count) => match spec_demo_sets(b, 0x24, set_count as int) {
                    Ok(demo_option_sets) => Ok(
                        FileModel {
                            curves: Seq::empty(),
                            demo_option_sets,
                            frame_count,
                            unk_8,
                            unk_10,
                            unk_16,
                        },
                    ),
                    Err(e) => Err(e),
                },
                Err(e) => Err(e),
            },
            Err(e) => Err(e),
        },
    }
}

/// The curve block read when the curve count is nonzero: that many curve
/// records starting at the header's data offset.
pub open spec fn spec_decode_curve_block(
    b: Seq<u8>,
    data_offset: u32,
    curve_count: u32,
    frame_count: u16,
    unk_8: u32,
    unk_10: u32,
    unk_16: bool,
) -> Result<FileModel, DecodeError> {
    match spec_curves(b, data_offset as int, curve_count as int) {
        Ok(curves) => Ok(
            FileModel {
                curves,
                demo_option_sets: Seq::empty(),
                frame_count,
                unk_8,
                unk_10,
                unk_16,
            },
        ),
        Err(e) => Err(e),
    }
}

} // verus!
