//! The decoder: walks a buffer with a `Reader` and assembles the data
//! model, returning exactly what the layout specification says the buffer
//! means.
//!
//! Decoding is all-or-nothing: the first bad magic word, out-of-bounds
//! read, or bad text encoding aborts the whole decode with that error.

use vstd::prelude::*;

use crate::error::DecodeError;
use crate::layout::{
    in_bounds, spec_control_point, spec_control_point_table, spec_control_points, spec_curve,
    spec_curves, spec_decode, spec_demo_option, spec_demo_options, spec_demo_set, spec_demo_sets,
    spec_key_frame, spec_key_frame_set, spec_key_frame_set_entry, spec_key_frame_sets,
    spec_key_frame_table, spec_key_frames, spec_knot_table, spec_knots, MAGIC_MNCH, MAGIC_MNCN,
    MAGIC_MNDD,
};
use crate::model::{
    ControlPoint, Curve, CurveModel, DemoOption, DemoOptionModel, DemoOptionSet,
    DemoOptionSetModel, FileModel, KeyFrame, KeyFrameSet, KeyFrameSetModel, MNEBFile,
};
use crate::reader::{sat_add, Reader};

verus! {

/// One keyframe at the cursor: time, active flag, a padding byte stepped
/// over, then the absolute x and y positions.
fn decode_key_frame(r: &mut Reader) -> (res: Result<KeyFrame, DecodeError>)
    ensures
        final(r).bytes() == old(r).bytes(),
        match res {
            Ok(kf) => spec_key_frame(old(r).bytes(), old(r).pos() as int) == Ok::<
                (KeyFrame, int),
                DecodeError,
            >((kf, final(r).pos() as int)),
            Err(e) => spec_key_frame(old(r).bytes(), old(r).pos() as int) == Err::<
                (KeyFrame, int),
                DecodeError,
            >(e),
        },
{
    let frame = match r.read_u16_be() {
        Ok(v) => v,
        Err(e) => {
            return Err(e);
        },
    };
    let active = match r.read_u8() {
        Ok(v) => v,
        Err(e) => {
            return Err(e);
        },
    };
    r.skip(1);
    let x = match r.read_i16_be() {
        Ok(v) => v,
        Err(e) => {
            return Err(e);
        },
    };
    let y = match r.read_i16_be() {
        Ok(v) => v,
        Err(e) => {
            return Err(e);
        },
    };
    Ok(KeyFrame { frame, is_active: active != 0, x, y })
}

/// `n` keyframes back to back from the cursor.
fn decode_key_frames(r: &mut Reader, n: u16) -> (res: Result<Vec<KeyFrame>, DecodeError>)
    ensures
        final(r).bytes() == old(r).bytes(),
        match res {
            Ok(v) => spec_key_frames(old(r).bytes(), old(r).pos() as int, n as int) == Ok::<
                (Seq<KeyFrame>, int),
                DecodeError,
            >((v@, final(r).pos() as int)),
            Err(e) => spec_key_frames(old(r).bytes(), old(r).pos() as int, n as int) == Err::<
                (Seq<KeyFrame>, int),
                DecodeError,
            >(e),
        },
{
    let ghost b = r.bytes();
    let ghost pos0 = r.pos() as int;
    let mut out: Vec<KeyFrame> = Vec::new();
    let mut i: u16 = 0;
    proof {
        if let Ok((rest, pend)) = spec_key_frames(b, pos0, n as int) {
            assert(Seq::<KeyFrame>::empty() + rest =~= rest);
        }
    }
    while i < n
        invariant
            i <= n,
            b == old(r).bytes(),
            pos0 == old(r).pos() as int,
            r.bytes() == b,
            match spec_key_frames(b, r.pos() as int, n as int - i as int) {
                Ok((rest, pend)) => spec_key_frames(b, pos0, n as int) == Ok::<
                    (Seq<KeyFrame>, int),
                    DecodeError,
                >((out@ + rest, pend)),
                Err(e) => spec_key_frames(b, pos0, n as int) == Err::<
                    (Seq<KeyFrame>, int),
                    DecodeError,
                >(e),
            },
        decreases n - i,
    {
        let ghost prev = r.pos() as int;
        let kf = match decode_key_frame(r) {
            Ok(kf) => kf,
            Err(e) => {
                return Err(e);
            },
        };
        proof {
            let rem = n as int - i as int;
            let cur = r.pos() as int;
            if let Ok((rest, pend)) = spec_key_frames(b, cur, rem - 1) {
                assert(out@ + (seq![kf] + rest) =~= out@.push(kf) + rest);
            }
        }
        out.push(kf);
        i = i + 1;
    }
    proof {
        assert(out@ + Seq::<KeyFrame>::empty() =~= out@);
    }
    Ok(out)
}

/// One control point at the cursor: four big-endian signed 16-bit
/// coordinates.
fn decode_control_point(r: &mut Reader) -> (res: Result<ControlPoint, DecodeError>)
    ensures
        final(r).bytes() == old(r).bytes(),
        match res {
            Ok(cp) => spec_control_point(old(r).bytes(), old(r).pos() as int) == Ok::<
                ControlPoint,
                DecodeError,
            >(cp) && final(r).pos() == old(r).pos() + 8,
            Err(e) => spec_control_point(old(r).bytes(), old(r).pos() as int) == Err::<
                ControlPoint,
                DecodeError,
            >(e),
        },
{
    let x = match r.read_i16_be() {
        Ok(v) => v,
        Err(e) => {
            return Err(e);
        },
    };
    let y = match r.read_i16_be() {
        Ok(v) => v,
        Err(e) => {
            return Err(e);
        },
    };
    let z = match r.read_i16_be() {
        Ok(v) => v,
        Err(e) => {
            return Err(e);
        },
    };
    let w = match r.read_i16_be() {
        Ok(v) => v,
        Err(e) => {
            return Err(e);
        },
    };
    Ok(ControlPoint { x, y, z, w })
}

/// `n` control points back to back from the cursor, eight bytes each.
fn decode_control_points(r: &mut Reader, n: u32) -> (res: Result<Vec<ControlPoint>, DecodeError>)
    ensures
        final(r).bytes() == old(r).bytes(),
        match res {
            Ok(v) => spec_control_points(old(r).bytes(), old(r).pos() as int, n as int) == Ok::<
                Seq<ControlPoint>,
                DecodeError,
            >(v@),
            Err(e) => spec_control_points(old(r).bytes(), old(r).pos() as int, n as int) == Err::<
                Seq<ControlPoint>,
                DecodeError,
            >(e),
        },
{
    let ghost b = r.bytes();
    let ghost pos0 = r.pos() as int;
    let mut out: Vec<ControlPoint> = Vec::new();
    let mut i: u32 = 0;
    proof {
        if let Ok(rest) = spec_control_points(b, pos0, n as int) {
            assert(Seq::<ControlPoint>::empty() + rest =~= rest);
        }
    }
    while i < n
        invariant
            i <= n,
            b == old(r).bytes(),
            pos0 == old(r).pos() as int,
            r.bytes() == b,
            match spec_control_points(b, r.pos() as int, n as int - i as int) {
                Ok(rest) => spec_control_points(b, pos0, n as int) == Ok::<
                    Seq<ControlPoint>,
                    DecodeError,
                >(out@ + rest),
                Err(e) => spec_control_points(b, pos0, n as int) == Err::<
                    Seq<ControlPoint>,
                    DecodeError,
                >(e),
            },
        decreases n - i,
    {
        let cp = match decode_control_point(r) {
            Ok(cp) => cp,
            Err(e) => {
                return Err(e);
            },
        };
        proof {
            let rem = n as int - i as int;
            let cur = r.pos() as int;
            if let Ok(rest) = spec_control_points(b, cur, rem - 1) {
                assert(out@ + (seq![cp] + rest) =~= out@.push(cp) + rest);
            }
        }
        out.push(cp);
        i = i + 1;
    }
    proof {
        assert(out@ + Seq::<ControlPoint>::empty() =~= out@);
    }
    Ok(out)
}

/// The control point table at the cursor: a count, then that many points.
fn decode_control_point_table(r: &mut Reader) -> (res: Result<Vec<ControlPoint>, DecodeError>)
    ensures
        final(r).bytes() == old(r).bytes(),
        match res {
            Ok(v) => spec_control_point_table(old(r).bytes(), old(r).pos() as int) == Ok::<
                Seq<ControlPoint>,
                DecodeError,
            >(v@),
            Err(e) => spec_control_point_table(old(r).bytes(), old(r).pos() as int) == Err::<
                Seq<ControlPoint>,
                DecodeError,
            >(e),
        },
{
    let count = match r.read_u32_be() {
        Ok(v) => v,
        Err(e) => {
            return Err(e);
        },
    };
    decode_control_points(r, count)
}

/// `n` knots back to back from the cursor: big-endian float bit patterns.
fn decode_knots(r: &mut Reader, n: u32) -> (res: Result<Vec<u32>, DecodeError>)
    ensures
        final(r).bytes() == old(r).bytes(),
        match res {
            Ok(v) => spec_knots(old(r).bytes(), old(r).pos() as int, n as int) == Ok::<
                Seq<u32>,
                DecodeError,
            >(v@),
            Err(e) => spec_knots(old(r).bytes(), old(r).pos() as int, n as int) == Err::<
                Seq<u32>,
                DecodeError,
            >(e),
        },
{
    let ghost b = r.bytes();
    let ghost pos0 = r.pos() as int;
    let mut out: Vec<u32> = Vec::new();
    let mut i: u32 = 0;
    proof {
        if let Ok(rest) = spec_knots(b, pos0, n as int) {
            assert(Seq::<u32>::empty() + rest =~= rest);
        }
    }
    while i < n
        invariant
            i <= n,
            b == old(r).bytes(),
            pos0 == old(r).pos() as int,
            r.bytes() == b,
            match spec_knots(b, r.pos() as int, n as int - i as int) {
                Ok(rest) => spec_knots(b, pos0, n as int) == Ok::<Seq<u32>, DecodeError>(
                    out@ + rest,
                ),
                Err(e) => spec_knots(b, pos0, n as int) == Err::<Seq<u32>, DecodeError>(e),
            },
        decreases n - i,
    {
        let k = match r.read_u32_be() {
            Ok(v) => v,
            Err(e) => {
                return Err(e);
            },
        };
        proof {
            let rem = n as int - i as int;
            let cur = r.pos() as int;
            if let Ok(rest) = spec_knots(b, cur, rem - 1) {
                assert(out@ + (seq![k] + rest) =~= out@.push(k) + rest);
            }
        }
        out.push(k);
        i = i + 1;
    }
    proof {
        assert(out@ + Seq::<u32>::empty() =~= out@);
    }
    Ok(out)
}

/// The knot table at the cursor: a count, then that many knots.
fn decode_knot_table(r: &mut Reader) -> (res: Result<Vec<u32>, DecodeError>)
    ensures
        final(r).bytes() == old(r).bytes(),
        match res {
            Ok(v) => spec_knot_table(old(r).bytes(), old(r).pos() as int) == Ok::<
                Seq<u32>,
                DecodeError,
            >(v@),
            Err(e) => spec_knot_table(old(r).bytes(), old(r).pos() as int) == Err::<
                Seq<u32>,
                DecodeError,
            >(e),
        },
{
    let count = match r.read_u32_be() {
        Ok(v) => v,
        Err(e) => {
            return Err(e);
        },
    };
    decode_knots(r, count)
}

/// One keyframe set at the cursor: the control point index it animates, a
/// keyframe count, then that many keyframes.
fn decode_key_frame_set(r: &mut Reader) -> (res: Result<KeyFrameSet, DecodeError>)
    ensures
        final(r).bytes() == old(r).bytes(),
        match res {
            Ok(s) => spec_key_frame_set(old(r).bytes(), old(r).pos() as int) == Ok::<
                KeyFrameSetModel,
                DecodeError,
            >(s@),
            Err(e) => spec_key_frame_set(old(r).bytes(), old(r).pos() as int) == Err::<
                KeyFrameSetModel,
                DecodeError,
            >(e),
        },
{
    let node_index = match r.read_u16_be() {
        Ok(v) => v,
        Err(e) => {
            return Err(e);
        },
    };
    let count = match r.read_u16_be() {
        Ok(v) => v,
        Err(e) => {
            return Err(e);
        },
    };
    let key_frames = match decode_key_frames(r, count) {
        Ok(v) => v,
        Err(e) => {
            return Err(e);
        },
    };
    Ok(KeyFrameSet { node_index, key_frames })
}

/// One keyframe set list entry at the cursor: a four-byte absolute offset,
/// followed to the set's out-of-line payload.
fn decode_key_frame_set_entry(r: &mut Reader) -> (res: Result<KeyFrameSet, DecodeError>)
    ensures
        final(r).bytes() == old(r).bytes(),
        match res {
            Ok(s) => spec_key_frame_set_entry(old(r).bytes(), old(r).pos() as int) == Ok::<
                KeyFrameSetModel,
                DecodeError,
            >(s@) && in_bounds(old(r).bytes(), old(r).pos() as int, 4),
            Err(e) => spec_key_frame_set_entry(old(r).bytes(), old(r).pos() as int) == Err::<
                KeyFrameSetModel,
                DecodeError,
            >(e),
        },
{
    let off = match r.read_u32_be() {
        Ok(v) => v,
        Err(e) => {
            return Err(e);
        },
    };
    r.seek_absolute(off as u64);
    decode_key_frame_set(r)
}

/// `n` keyframe set entries walked sequentially from the cursor: each
/// entry's offset is followed, and the cursor then restored to four bytes
/// past the entry.
fn decode_key_frame_sets(r: &mut Reader, n: u32) -> (res: Result<Vec<KeyFrameSet>, DecodeError>)
    ensures
        final(r).bytes() == old(r).bytes(),
        match res {
            Ok(v) => spec_key_frame_sets(old(r).bytes(), old(r).pos() as int, n as int) == Ok::<
                Seq<KeyFrameSetModel>,
                DecodeError,
            >(v@.map_values(|s: KeyFrameSet| s@)),
            Err(e) => spec_key_frame_sets(old(r).bytes(), old(r).pos() as int, n as int) == Err::<
                Seq<KeyFrameSetModel>,
                DecodeError,
            >(e),
        },
{
    let ghost b = r.bytes();
    let ghost pos0 = r.pos() as int;
    let mut out: Vec<KeyFrameSet> = Vec::new();
    let mut i: u32 = 0;
    proof {
        assert(Seq::<KeyFrameSet>::empty().map_values(|s: KeyFrameSet| s@) =~= Seq::<
            KeyFrameSetModel,
        >::empty());
        if let Ok(rest) = spec_key_frame_sets(b, pos0, n as int) {
            assert(Seq::<KeyFrameSetModel>::empty() + rest =~= rest);
        }
    }
    while i < n
        invariant
            i <= n,
            b == old(r).bytes(),
            pos0 == old(r).pos() as int,
            r.bytes() == b,
            match spec_key_frame_sets(b, r.pos() as int, n as int - i as int) {
                Ok(rest) => spec_key_frame_sets(b, pos0, n as int) == Ok::<
                    Seq<KeyFrameSetModel>,
                    DecodeError,
                >(out@.map_values(|s: KeyFrameSet| s@) + rest),
                Err(e) => spec_key_frame_sets(b, pos0, n as int) == Err::<
                    Seq<KeyFrameSetModel>,
                    DecodeError,
                >(e),
            },
        decreases n - i,
    {
        let cur = r.position();
        let set = match decode_key_frame_set_entry(r) {
            Ok(s) => s,
            Err(e) => {
                return Err(e);
            },
        };
        proof {
            r.lemma_len();
        }
        r.seek_absolute(cur + 4);
        proof {
            let rem = n as int - i as int;
            if let Ok(rest) = spec_key_frame_sets(b, r.pos() as int, rem - 1) {
                assert(out@.map_values(|s: KeyFrameSet| s@) + (seq![set@] + rest) =~= out@.push(
                    set,
                ).map_values(|s: KeyFrameSet| s@) + rest);
            }
        }
        out.push(set);
        i = i + 1;
    }
    proof {
        assert(out@.map_values(|s: KeyFrameSet| s@) + Seq::<KeyFrameSetModel>::empty()
            =~= out@.map_values(|s: KeyFrameSet| s@));
    }
    Ok(out)
}

/// The keyframe info at the cursor: one more offset to the keyframe table,
/// which holds a set count and then that many list entries.
fn decode_key_frame_table(r: &mut Reader) -> (res: Result<Vec<KeyFrameSet>, DecodeError>)
    ensures
        final(r).bytes() == old(r).bytes(),
        match res {
            Ok(v) => spec_key_frame_table(old(r).bytes(), old(r).pos() as int) == Ok::<
                Seq<KeyFrameSetModel>,
                DecodeError,
            >(v@.map_values(|s: KeyFrameSet| s@)),
            Err(e) => spec_key_frame_table(old(r).bytes(), old(r).pos() as int) == Err::<
                Seq<KeyFrameSetModel>,
                DecodeError,
            >(e),
        },
{
    let table_off = match r.read_u32_be() {
        Ok(v) => v,
        Err(e) => {
            return Err(e);
        },
    };
    r.seek_absolute(table_off as u64);
    let count = match r.read_u32_be() {
        Ok(v) => v,
        Err(e) => {
            return Err(e);
        },
    };
    decode_key_frame_sets(r, count)
}

/// One demo option list entry at the cursor: an offset to the option's
/// payload, which holds a 16-byte name field, a value length, and that many
/// bytes of UTF-8 text.
fn decode_demo_option(r: &mut Reader) -> (res: Result<DemoOption, DecodeError>)
    ensures
        final(r).bytes() == old(r).bytes(),
        match res {
            Ok(o) => spec_demo_option(old(r).bytes(), old(r).pos() as int) == Ok::<
                DemoOptionModel,
                DecodeError,
            >(o@) && in_bounds(old(r).bytes(), old(r).pos() as int, 4),
            Err(e) => spec_demo_option(old(r).bytes(), old(r).pos() as int) == Err::<
                DemoOptionModel,
                DecodeError,
            >(e),
        },
{
    let off = match r.read_u32_be() {
        Ok(v) => v,
        Err(e) => {
            return Err(e);
        },
    };
    r.seek_absolute(off as u64);
    let name = match r.read_fixed_string(0x10) {
        Ok(v) => v,
        Err(e) => {
            return Err(e);
        },
    };
    let value_len = match r.read_u32_be() {
        Ok(v) => v,
        Err(e) => {
            return Err(e);
        },
    };
    let value = match r.read_text(value_len as usize) {
        Ok(v) => v,
        Err(e) => {
            return Err(e);
        },
    };
    Ok(DemoOption { name, value })
}

/// `n` demo option entries walked sequentially from the cursor, restoring
/// the cursor to four bytes past each entry.
fn decode_demo_options(r: &mut Reader, n: u32) -> (res: Result<Vec<DemoOption>, DecodeError>)
    ensures
        final(r).bytes() == old(r).bytes(),
        match res {
            Ok(v) => spec_demo_options(old(r).bytes(), old(r).pos() as int, n as int) == Ok::<
                Seq<DemoOptionModel>,
                DecodeError,
            >(v@.map_values(|o: DemoOption| o@)),
            Err(e) => spec_demo_options(old(r).bytes(), old(r).pos() as int, n as int) == Err::<
                Seq<DemoOptionModel>,
                DecodeError,
            >(e),
        },
{
    let ghost b = r.bytes();
    let ghost pos0 = r.pos() as int;
    let mut out: Vec<DemoOption> = Vec::new();
    let mut i: u32 = 0;
    proof {
        assert(Seq::<DemoOption>::empty().map_values(|o: DemoOption| o@) =~= Seq::<
            DemoOptionModel,
        >::empty());
        if let Ok(rest) = spec_demo_options(b, pos0, n as int) {
            assert(Seq::<DemoOptionModel>::empty() + rest =~= rest);
        }
    }
    while i < n
        invariant
            i <= n,
            b == old(r).bytes(),
            pos0 == old(r).pos() as int,
            r.bytes() == b,
            match spec_demo_options(b, r.pos() as int, n as int - i as int) {
                Ok(rest) => spec_demo_options(b, pos0, n as int) == Ok::<
                    Seq<DemoOptionModel>,
                    DecodeError,
                >(out@.map_values(|o: DemoOption| o@) + rest),
                Err(e) => spec_demo_options(b, pos0, n as int) == Err::<
                    Seq<DemoOptionModel>,
                    DecodeError,
                >(e),
            },
        decreases n - i,
    {
        let cur = r.position();
        let opt = match decode_demo_option(r) {
            Ok(o) => o,
            Err(e) => {
                return Err(e);
            },
        };
        proof {
            r.lemma_len();
        }
        r.seek_absolute(cur + 4);
        proof {
            let rem = n as int - i as int;
            if let Ok(rest) = spec_demo_options(b, r.pos() as int, rem - 1) {
                assert(out@.map_values(|o: DemoOption| o@) + (seq![opt@] + rest) =~= out@.push(
                    opt,
                ).map_values(|o: DemoOption| o@) + rest);
            }
        }
        out.push(opt);
        i = i + 1;
    }
    proof {
        assert(out@.map_values(|o: DemoOption| o@) + Seq::<DemoOptionModel>::empty()
            =~= out@.map_values(|o: DemoOption| o@));
    }
    Ok(out)
}

/// One demo option set list entry at the cursor: an offset to the set's
/// payload, which holds a 32-byte name field, a 32-byte region preserved
/// verbatim, an option count, and that many option entries.
fn decode_demo_set(r: &mut Reader) -> (res: Result<DemoOptionSet, DecodeError>)
    ensures
        final(r).bytes() == old(r).bytes(),
        match res {
            Ok(s) => spec_demo_set(old(r).bytes(), old(r).pos() as int) == Ok::<
                DemoOptionSetModel,
                DecodeError,
            >(s@) && in_bounds(old(r).bytes(), old(r).pos() as int, 4),
            Err(e) => spec_demo_set(old(r).bytes(), old(r).pos() as int) == Err::<
                DemoOptionSetModel,
                DecodeError,
            >(e),
        },
{
    let off = match r.read_u32_be() {
        Ok(v) => v,
        Err(e) => {
            return Err(e);
        },
    };
    r.seek_absolute(off as u64);
    let name = match r.read_fixed_string(0x20) {
        Ok(v) => v,
        Err(e) => {
            return Err(e);
        },
    };
    let unk_20 = match r.read_bytes(0x20) {
        Ok(v) => v,
        Err(e) => {
            return Err(e);
        },
    };
    let count = match r.read_u32_be() {
        Ok(v) => v,
        Err(e) => {
            return Err(e);
        },
    };
    let demo_options = match decode_demo_options(r, count) {
        Ok(v) => v,
        Err(e) => {
            return Err(e);
        },
    };
    Ok(DemoOptionSet { name, demo_options, unk_20 })
}

/// `n` demo option set entries walked sequentially from the cursor,
/// restoring the cursor to four bytes past each entry.
fn decode_demo_sets(r: &mut Reader, n: u32) -> (res: Result<Vec<DemoOptionSet>, DecodeError>)
    ensures
        final(r).bytes() == old(r).bytes(),
        match res {
            Ok(v) => spec_demo_sets(old(r).bytes(), old(r).pos() as int, n as int) == Ok::<
                Seq<DemoOptionSetModel>,
                DecodeError,
            >(v@.map_values(|s: DemoOptionSet| s@)),
            Err(e) => spec_demo_sets(old(r).bytes(), old(r).pos() as int, n as int) == Err::<
                Seq<DemoOptionSetModel>,
                DecodeError,
            >(e),
        },
{
    let ghost b = r.bytes();
    let ghost pos0 = r.pos() as int;
    let mut out: Vec<DemoOptionSet> = Vec::new();
    let mut i: u32 = 0;
    proof {
        assert(Seq::<DemoOptionSet>::empty().map_values(|s: DemoOptionSet| s@) =~= Seq::<
            DemoOptionSetModel,
        >::empty());
        if let Ok(rest) = spec_demo_sets(b, pos0, n as int) {
            assert(Seq::<DemoOptionSetModel>::empty() + rest =~= rest);
        }
    }
    while i < n
        invariant
            i <= n,
            b == old(r).bytes(),
            pos0 == old(r).pos() as int,
            r.bytes() == b,
            match spec_demo_sets(b, r.pos() as int, n as int - i as int) {
                Ok(rest) => spec_demo_sets(b, pos0, n as int) == Ok::<
                    Seq<DemoOptionSetModel>,
                    DecodeError,
                >(out@.map_values(|s: DemoOptionSet| s@) + rest),
                Err(e) => spec_demo_sets(b, pos0, n as int) == Err::<
                    Seq<DemoOptionSetModel>,
                    DecodeError,
                >(e),
            },
        decreases n - i,
    {
        let cur = r.position();
        let set = match decode_demo_set(r) {
            Ok(s) => s,
            Err(e) => {
                return Err(e);
            },
        };
        proof {
            r.lemma_len();
        }
        r.seek_absolute(cur + 4);
        proof {
            let rem = n as int - i as int;
            if let Ok(rest) = spec_demo_sets(b, r.pos() as int, rem - 1) {
                assert(out@.map_values(|s: DemoOptionSet| s@) + (seq![set@] + rest) =~= out@.push(
                    set,
                ).map_values(|s: DemoOptionSet| s@) + rest);
            }
        }
        out.push(set);
        i = i + 1;
    }
    proof {
        assert(out@.map_values(|s: DemoOptionSet| s@) + Seq::<DemoOptionSetModel>::empty()
            =~= out@.map_values(|s: DemoOptionSet| s@));
    }
    Ok(out)
}

/// One curve record at the cursor: magic, declared size, name, the fixed
/// unknown regions, three table offsets, the derived-length tail, then the
/// three tables through their offsets. Leaves the cursor at the following
/// record, the start plus the declared size.
fn decode_curve(r: &mut Reader) -> (res: Result<Curve, DecodeError>)
    ensures
        final(r).bytes() == old(r).bytes(),
        match res {
            Ok(c) => spec_curve(old(r).bytes(), old(r).pos() as int) == Ok::<
                (CurveModel, int),
                DecodeError,
            >((c@, final(r).pos() as int)),
            Err(e) => spec_curve(old(r).bytes(), old(r).pos() as int) == Err::<
                (CurveModel, int),
                DecodeError,
            >(e),
        },
{
    let start = r.position();
    let found = match r.read_u32_be() {
        Ok(v) => v,
        Err(e) => {
            return Err(e);
        },
    };
    if found != MAGIC_MNCN {
        return Err(DecodeError::BadMagic { expected: MAGIC_MNCN, found, offset: start });
    }
    let block_size = match r.read_u32_be() {
        Ok(v) => v,
        Err(e) => {
            return Err(e);
        },
    };
    let name = match r.read_fixed_string(0x20) {
        Ok(v) => v,
        Err(e) => {
            return Err(e);
        },
    };
    let unk_28 = match r.read_bytes(0x64) {
        Ok(v) => v,
        Err(e) => {
            return Err(e);
        },
    };
    let unk_8c = match r.read_u32_be() {
        Ok(v) => v,
        Err(e) => {
            return Err(e);
        },
    };
    let unk_90 = match r.read_u32_be() {
        Ok(v) => v,
        Err(e) => {
            return Err(e);
        },
    };
    let unk_94 = match r.read_u32_be() {
        Ok(v) => v,
        Err(e) => {
            return Err(e);
        },
    };
    let unk_98 = match r.read_u32_be() {
        Ok(v) => v,
        Err(e) => {
            return Err(e);
        },
    };
    let cp_off = match r.read_u32_be() {
        Ok(v) => v,
        Err(e) => {
            return Err(e);
        },
    };
    let knot_off = match r.read_u32_be() {
        Ok(v) => v,
        Err(e) => {
            return Err(e);
        },
    };
    let kfi_off = match r.read_u32_be() {
        Ok(v) => v,
        Err(e) => {
            return Err(e);
        },
    };
    let unk_a8 = match r.read_bytes(0x10) {
        Ok(v) => v,
        Err(e) => {
            return Err(e);
        },
    };
    let pos_b8 = r.position();
    let tail_len: u64 = if cp_off as u64 >= pos_b8 {
        cp_off as u64 - pos_b8
    } else {
        0
    };
    let unk_b8 = match r.read_bytes(tail_len as usize) {
        Ok(v) => v,
        Err(e) => {
            return Err(e);
        },
    };
    r.seek_absolute(cp_off as u64);
    let control_points = match decode_control_point_table(r) {
        Ok(v) => v,
        Err(e) => {
            return Err(e);
        },
    };
    r.seek_absolute(knot_off as u64);
    let knots = match decode_knot_table(r) {
        Ok(v) => v,
        Err(e) => {
            return Err(e);
        },
    };
    r.seek_absolute(kfi_off as u64);
    let key_frame_sets = match decode_key_frame_table(r) {
        Ok(v) => v,
        Err(e) => {
            return Err(e);
        },
    };
    let next = sat_add(start, block_size as u64);
    r.seek_absolute(next);
    Ok(
        Curve {
            name,
            control_points,
            knots,
            key_frame_sets,
            unk_28,
            unk_8c,
            unk_90,
            unk_94,
            unk_98,
            unk_a8,
            unk_b8,
        },
    )
}

/// `n` curve records from the cursor, each found at the position the
/// previous one declared as its end.
fn decode_curves(r: &mut Reader, n: u32) -> (res: Result<Vec<Curve>, DecodeError>)
    ensures
        final(r).bytes() == old(r).bytes(),
        match res {
            Ok(v) => spec_curves(old(r).bytes(), old(r).pos() as int, n as int) == Ok::<
                Seq<CurveModel>,
                DecodeError,
            >(v@.map_values(|c: Curve| c@)),
            Err(e) => spec_curves(old(r).bytes(), old(r).pos() as int, n as int) == Err::<
                Seq<CurveModel>,
                DecodeError,
            >(e),
        },
{
    let ghost b = r.bytes();
    let ghost pos0 = r.pos() as int;
    let mut out: Vec<Curve> = Vec::new();
    let mut i: u32 = 0;
    proof {
        assert(Seq::<Curve>::empty().map_values(|c: Curve| c@) =~= Seq::<CurveModel>::empty());
        if let Ok(rest) = spec_curves(b, pos0, n as int) {
            assert(Seq::<CurveModel>::empty() + rest =~= rest);
        }
    }
    while i < n
        invariant
            i <= n,
            b == old(r).bytes(),
            pos0 == old(r).pos() as int,
            r.bytes() == b,
            match spec_curves(b, r.pos() as int, n as int - i as int) {
                Ok(rest) => spec_curves(b, pos0, n as int) == Ok::<Seq<CurveModel>, DecodeError>(
                    out@.map_values(|c: Curve| c@) + rest,
                ),
                Err(e) => spec_curves(b, pos0, n as int) == Err::<Seq<CurveModel>, DecodeError>(e),
            },
        decreases n - i,
    {
        let c = match decode_curve(r) {
            Ok(c) => c,
            Err(e) => {
                return Err(e);
            },
        };
        proof {
            let rem = n as int - i as int;
            if let Ok(rest) = spec_curves(b, r.pos() as int, rem - 1) {
                assert(out@.map_values(|c: Curve| c@) + (seq![c@] + rest) =~= out@.push(
                    c,
                ).map_values(|c: Curve| c@) + rest);
            }
        }
        out.push(c);
        i = i + 1;
    }
    proof {
        assert(out@.map_values(|c: Curve| c@) + Seq::<CurveModel>::empty() =~= out@.map_values(
            |c: Curve| c@,
        ));
    }
    Ok(out)
}

impl MNEBFile {
    /// Decode a whole buffer: validate the container header, then read
    /// whichever block kind the curve count selects. Returns exactly what
    /// the layout specification says the buffer means, for every buffer.
    pub fn from_bytes(raw: &[u8]) -> (res: Result<MNEBFile, DecodeError>)
        ensures
            match res {
                Ok(f) => spec_decode(raw@) == Ok::<FileModel, DecodeError>(f@),
                Err(e) => spec_decode(raw@) == Err::<FileModel, DecodeError>(e),
            },
    {
        let mut r = Reader::new(raw);
        let found = match r.read_u32_be() {
            Ok(v) => v,
            Err(e) => {
                return Err(e);
            },
        };
        if found != MAGIC_MNCH {
            return Err(DecodeError::BadMagic { expected: MAGIC_MNCH, found, offset: 0 });
        }
        let data_offset = match r.read_u32_be() {
            Ok(v) => v,
            Err(e) => {
                return Err(e);
            },
        };
        let unk_8 = match r.read_u32_be() {
            Ok(v) => v,
            Err(e) => {
                return Err(e);
            },
        };
        let curve_count = match r.read_u32_be() {
            Ok(v) => v,
            Err(e) => {
                return Err(e);
            },
        };
        let unk_10 = match r.read_u32_be() {
            Ok(v) => v,
            Err(e) => {
                return Err(e);
            },
        };
        let frame_count = match r.read_u16_be() {
            Ok(v) => v,
            Err(e) => {
                return Err(e);
            },
        };
        let flag = match r.read_u8() {
            Ok(v) => v,
            Err(e) => {
                return Err(e);
            },
        };
        r.skip(1);
        if curve_count == 0 {
            let found_demo = match r.read_u32_be() {
                Ok(v) => v,
                Err(e) => {
                    return Err(e);
                },
            };
            if found_demo != MAGIC_MNDD {
                return Err(
                    DecodeError::BadMagic {
                        expected: MAGIC_MNDD,
                        found: found_demo,
                        offset: 0x18,
                    },
                );
            }
            let _block_size = match r.read_u32_be() {
                Ok(v) => v,
                Err(e) => {
                    return Err(e);
                },
            };
            let set_count = match r.read_u32_be() {
                Ok(v) => v,
                Err(e) => {
                    return Err(e);
                },
            };
            let demo_option_sets = match decode_demo_sets(&mut r, set_count) {
                Ok(v) => v,
                Err(e) => {
                    return Err(e);
                },
            };
            proof {
                assert(Seq::<Curve>::empty().map_values(|c: Curve| c@) =~= Seq::<
                    CurveModel,
                >::empty());
            }
            Ok(
                MNEBFile {
                    curves: Vec::new(),
                    demo_option_sets,
                    frame_count,
                    _unk_8: unk_8,
                    _unk_10: unk_10,
                    _unk_16: flag != 0,
                },
            )
        } else {
            r.seek_absolute(data_offset as u64);
            let curves = match decode_curves(&mut r, curve_count) {
                Ok(v) => v,
                Err(e) => {
                    return Err(e);
                },
            };
            proof {
                assert(Seq::<DemoOptionSet>::empty().map_values(|s: DemoOptionSet| s@) =~= Seq::<
                    DemoOptionSetModel,
                >::empty());
            }
            Ok(
                MNEBFile {
                    curves,
                    demo_option_sets: Vec::new(),
                    frame_count,
                    _unk_8: unk_8,
                    _unk_10: unk_10,
                    _unk_16: flag != 0,
                },
            )
        }
    }
}

} // verus!
