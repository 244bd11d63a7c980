//! Properties of the decoder that hold for every buffer, stated over the
//! layout specification and proved once and for all.

use vstd::prelude::*;

use crate::layout::{
    be_u32, spec_curve, spec_curves, spec_decode, spec_demo_set, spec_demo_sets,
};

verus! {

/// A run of curve records that decodes yields exactly one curve per record
/// asked for.
pub proof fn lemma_curves_count(b: Seq<u8>, pos: int, n: int)
    requires
        0 <= n,
    ensures
        (match spec_curves(b, pos, n) {
            Ok(cs) => cs.len() == n,
            Err(_) => true,
        }),
    decreases n,
{
    if n > 0 {
        match spec_curve(b, pos) {
            Ok((c, next)) => {
                lemma_curves_count(b, next, n - 1);
            },
            Err(_) => {},
        }
    }
}

/// A run of demo option set entries that decodes yields exactly one set per
/// entry asked for.
pub proof fn lemma_demo_sets_count(b: Seq<u8>, pos: int, n: int)
    requires
        0 <= n,
    ensures
        (match spec_demo_sets(b, pos, n) {
            Ok(ss) => ss.len() == n,
            Err(_) => true,
        }),
    decreases n,
{
    if n > 0 {
        match spec_demo_set(b, pos) {
            Ok(_) => {
                lemma_demo_sets_count(b, pos + 4, n - 1);
            },
            Err(_) => {},
        }
    }
}

/// The header's curve count (the 32-bit field at offset `0xC`) selects the
/// block kind exclusively. When a buffer decodes: a nonzero count yields
/// exactly that many curves and no demo option sets; a zero count yields no
/// curves and exactly as many demo option sets as the demo block's set
/// count (the 32-bit field at offset `0x20`) says. The two sequences are
/// never both non-empty.
pub proof fn lemma_block_counts(b: Seq<u8>)
    ensures
        (match spec_decode(b) {
            Ok(f) => {
                &&& be_u32(b, 0xC) != 0 ==> f.curves.len() == be_u32(b, 0xC)
                    && f.demo_option_sets.len() == 0
                &&& be_u32(b, 0xC) == 0 ==> f.curves.len() == 0 && f.demo_option_sets.len()
                    == be_u32(b, 0x20)
                &&& f.curves.len() == 0 || f.demo_option_sets.len() == 0
            },
            Err(_) => true,
        }),
{
    match spec_decode(b) {
        Ok(f) => {
            if be_u32(b, 0xC) != 0 {
                lemma_curves_count(b, be_u32(b, 4) as int, be_u32(b, 0xC) as int);
            } else {
                lemma_demo_sets_count(b, 0x24, be_u32(b, 0x20) as int);
            }
        },
        Err(_) => {},
    }
}

/// Opaque regions of a curve record are preserved verbatim: a record that
/// decodes carries, byte for byte, the 100 bytes after its name field, the
/// bit pattern at `0x8C`, the 16 bytes at `0xA8`, and the derived-length
/// tail from `0xB8` up to its control point table offset (empty when that
/// table begins at or before the tail). An encoder that writes these fields
/// back at the same positions reproduces the original bytes, so re-decoding
/// yields them unchanged.
pub proof fn lemma_curve_opaque_regions(b: Seq<u8>, start: int)
    ensures
        (match spec_curve(b, start) {
            Ok((c, next)) => {
                &&& c.unk_28 == b.subrange(start + 0x28, start + 0x8C)
                &&& c.unk_8c == be_u32(b, start + 0x8C)
                &&& c.unk_a8 == b.subrange(start + 0xA8, start + 0xB8)
                &&& be_u32(b, start + 0x9C) >= start + 0xB8 ==> c.unk_b8 == b.subrange(
                    start + 0xB8,
                    be_u32(b, start + 0x9C) as int,
                )
                &&& be_u32(b, start + 0x9C) < start + 0xB8 ==> c.unk_b8 == Seq::<u8>::empty()
            },
            Err(_) => true,
        }),
{
    match spec_curve(b, start) {
        Ok((c, next)) => {
            if be_u32(b, start + 0x9C) < start + 0xB8 {
                assert(b.subrange(start + 0xB8, start + 0xB8) =~= Seq::<u8>::empty());
            }
        },
        Err(_) => {},
    }
}

/// The opaque 32-byte region of a demo option set is preserved verbatim:
/// an entry that decodes carries, byte for byte, the 32 bytes after the
/// 32-byte name field of the payload its offset points at.
pub proof fn lemma_demo_set_opaque_region(b: Seq<u8>, entry_pos: int)
    ensures
        (match spec_demo_set(b, entry_pos) {
            Ok(s) => s.unk_20 == b.subrange(
                be_u32(b, entry_pos) + 0x20,
                be_u32(b, entry_pos) + 0x40,
            ),
            Err(_) => true,
        }),
{
}

} // verus!
