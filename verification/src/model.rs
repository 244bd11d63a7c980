//! The in-memory data model produced by the decoder.
//!
//! A decoded file holds either spline curves or demo option sets, never both:
//! the container header's curve count selects one interpretation exclusively.
//! Fields whose meaning is unknown (`unk_*`) are preserved verbatim as the
//! bytes they occupy on disk. On-disk 32-bit floats (the knot vector, `unk_8c`)
//! are carried as their big-endian bit patterns in `u32` values, so the model
//! preserves them exactly; consumers that want numeric values reinterpret the
//! bits.
//!
//! Each composite type has a mathematical model (`*Model`) reached through its
//! view; the decoder's contract speaks of those models.

use vstd::prelude::*;

verus! {

/// Base position of one animatable node: four signed 16-bit coordinates,
/// a homogeneous-coordinate-like quadruple.
#[derive(Clone, Copy, Debug, PartialEq, Eq, Structural)]
pub struct ControlPoint {
    pub x: i16,
    pub y: i16,
    pub z: i16,
    pub w: i16,
}

/// One (time, position) sample of an animation track. `x` and `y` are
/// absolute positions at frame `frame`, not deltas.
#[derive(Clone, Copy, Debug, PartialEq, Eq, Structural)]
pub struct KeyFrame {
    pub frame: u16,
    pub is_active: bool,
    pub x: i16,
    pub y: i16,
}

/// Binds one control point, by its position in the curve's control point
/// list, to an ordered run of keyframes.
#[derive(Clone, Debug, PartialEq)]
pub struct KeyFrameSet {
    pub node_index: u16,
    pub key_frames: Vec<KeyFrame>,
}

/// Mathematical model of a `KeyFrameSet`.
pub ghost struct KeyFrameSetModel {
    pub node_index: u16,
    pub key_frames: Seq<KeyFrame>,
}

impl View for KeyFrameSet {
    type V = KeyFrameSetModel;

    open spec fn view(&self) -> KeyFrameSetModel {
        KeyFrameSetModel { node_index: self.node_index, key_frames: self.key_frames@ }
    }
}

/// One animated spline/skeleton track: a name, a base pose, a knot vector,
/// per-node keyframe tracks, and several regions preserved verbatim.
#[derive(Clone, Debug, PartialEq)]
pub struct Curve {
    pub name: String,
    pub control_points: Vec<ControlPoint>,
    /// Big-endian bit patterns of the 32-bit floats in the knot table.
    pub knots: Vec<u32>,
    pub key_frame_sets: Vec<KeyFrameSet>,
    /// Unknown region of 100 bytes, preserved verbatim.
    pub unk_28: Vec<u8>,
    /// Bit pattern of an unknown 32-bit float, preserved verbatim.
    pub unk_8c: u32,
    pub unk_90: u32,
    pub unk_94: u32,
    pub unk_98: u32,
    /// Unknown region of 16 bytes (four 32-bit floats), preserved verbatim.
    pub unk_a8: Vec<u8>,
    /// Variable-length unknown tail between the fixed part of the curve
    /// record and its control point table, preserved verbatim.
    pub unk_b8: Vec<u8>,
}

/// Mathematical model of a `Curve`.
pub ghost struct CurveModel {
    pub name: Seq<char>,
    pub control_points: Seq<ControlPoint>,
    pub knots: Seq<u32>,
    pub key_frame_sets: Seq<KeyFrameSetModel>,
    pub unk_28: Seq<u8>,
    pub unk_8c: u32,
    pub unk_90: u32,
    pub unk_94: u32,
    pub unk_98: u32,
    pub unk_a8: Seq<u8>,
    pub unk_b8: Seq<u8>,
}

impl View for Curve {
    type V = CurveModel;

    open spec fn view(&self) -> CurveModel {
        CurveModel {
            name: self.name@,
            control_points: self.control_points@,
            knots: self.knots@,
            key_frame_sets: self.key_frame_sets@.map_values(|s: KeyFrameSet| s@),
            unk_28: self.unk_28@,
            unk_8c: self.unk_8c,
            unk_90: self.unk_90,
            unk_94: self.unk_94,
            unk_98: self.unk_98,
            unk_a8: self.unk_a8@,
            unk_b8: self.unk_b8@,
        }
    }
}

impl KeyFrameSet {
    /// The track's position at the queried frame when the track holds
    /// exactly one keyframe: that keyframe's position, whatever `frame` is
    /// — before, at, or after the keyframe's own time, as the contract's
    /// independence of `frame` states. A track with two or more keyframes
    /// interpolates between neighbouring keyframes, which is the consumer's
    /// floating-point work; an empty track has no position.
    #[allow(unused_variables)]
    pub fn single_sample(&self, frame: u16) -> (r: Option<(i16, i16)>)
        ensures
            r is Some <==> self@.key_frames.len() == 1,
            self@.key_frames.len() == 1 ==> r == Some(
                (self@.key_frames[0].x, self@.key_frames[0].y),
            ),
    {
        if self.key_frames.len() == 1 {
            let k = &self.key_frames[0];
            Some((k.x, k.y))
        } else {
            None
        }
    }
}

/// Every keyframe set of the curve animates a control point the curve
/// actually has: the consumer-side well-formedness that the decoder does
/// not itself enforce.
pub open spec fn spec_node_indices_valid(c: CurveModel) -> bool {
    forall|i: int|
        0 <= i < c.key_frame_sets.len() ==> (#[trigger] c.key_frame_sets[i]).node_index
            < c.control_points.len()
}

impl Curve {
    /// Whether every keyframe set animates an existing control point, the
    /// check a consumer makes before indexing the base pose by a set's
    /// `node_index`. Well-formed files satisfy it; the decoder does not
    /// enforce it.
    pub fn node_indices_valid(&self) -> (r: bool)
        ensures
            r == spec_node_indices_valid(self@),
    {
        let mut i: usize = 0;
        while i < self.key_frame_sets.len()
            invariant
                i <= self.key_frame_sets@.len(),
                forall|j: int|
                    0 <= j < i ==> (#[trigger] self@.key_frame_sets[j]).node_index
                        < self@.control_points.len(),
            decreases self.key_frame_sets@.len() - i,
        {
            if !((self.key_frame_sets[i].node_index as usize) < self.control_points.len()) {
                assert(self@.key_frame_sets[i as int] == self.key_frame_sets@[i as int]@);
                return false;
            }
            i = i + 1;
        }
        true
    }
}

/// One named key/value text option of a demo option set.
#[derive(Clone, Debug, PartialEq)]
pub struct DemoOption {
    pub name: String,
    pub value: String,
}

/// Mathematical model of a `DemoOption`.
pub ghost struct DemoOptionModel {
    pub name: Seq<char>,
    pub value: Seq<char>,
}

impl View for DemoOption {
    type V = DemoOptionModel;

    open spec fn view(&self) -> DemoOptionModel {
        DemoOptionModel { name: self.name@, value: self.value@ }
    }
}

/// A named group of demo options, the record kind a curve-free file holds.
#[derive(Clone, Debug, PartialEq)]
pub struct DemoOptionSet {
    pub name: String,
    pub demo_options: Vec<DemoOption>,
    /// Unknown region of 32 bytes, preserved verbatim.
    pub unk_20: Vec<u8>,
}

/// Mathematical model of a `DemoOptionSet`.
pub ghost struct DemoOptionSetModel {
    pub name: Seq<char>,
    pub demo_options: Seq<DemoOptionModel>,
    pub unk_20: Seq<u8>,
}

impl View for DemoOptionSet {
    type V = DemoOptionSetModel;

    open spec fn view(&self) -> DemoOptionSetModel {
        DemoOptionSetModel {
            name: self.name@,
            demo_options: self.demo_options@.map_values(|o: DemoOption| o@),
            unk_20: self.unk_20@,
        }
    }
}

/// A decoded MNEB file: the root of the data model.
#[derive(Clone, Debug, PartialEq)]
pub struct MNEBFile {
    /// Empty when the file is a demo-options file.
    pub curves: Vec<Curve>,
    /// Empty when the file is a curve file.
    pub demo_option_sets: Vec<DemoOptionSet>,
    /// Total animation length in frames.
    pub frame_count: u16,
    pub _unk_8: u32,
    pub _unk_10: u32,
    pub _unk_16: bool,
}

/// Mathematical model of an `MNEBFile`.
pub ghost struct FileModel {
    pub curves: Seq<CurveModel>,
    pub demo_option_sets: Seq<DemoOptionSetModel>,
    pub frame_count: u16,
    pub unk_8: u32,
    pub unk_10: u32,
    pub unk_16: bool,
}

impl View for MNEBFile {
    type V = FileModel;

    open spec fn view(&self) -> FileModel {
        FileModel {
            curves: self.curves@.map_values(|c: Curve| c@),
            demo_option_sets: self.demo_option_sets@.map_values(|s: DemoOptionSet| s@),
            frame_count: self.frame_count,
            unk_8: self._unk_8,
            unk_10: self._unk_10,
            unk_16: self._unk_16,
        }
    }
}

/// A vector of `n` zero bytes, the default content of a fixed-size opaque
/// region.
fn zero_bytes(n: usize) -> (v: Vec<u8>)
    ensures
        v@ == Seq::new(n as nat, |i: int| 0u8),
{
    let mut v: Vec<u8> = Vec::new();
    let mut i: usize = 0;
    while i < n
        invariant
            i <= n,
            v@ == Seq::new(i as nat, |j: int| 0u8),
        decreases n - i,
    {
        v.push(0);
        i = i + 1;
        proof {
            assert(v@ =~= Seq::new(i as nat, |j: int| 0u8));
        }
    }
    v
}

impl Default for ControlPoint {
    /// The origin, with zero weight.
    fn default() -> (d: ControlPoint)
        ensures
            d == (ControlPoint { x: 0, y: 0, z: 0, w: 0 }),
    {
        ControlPoint { x: 0, y: 0, z: 0, w: 0 }
    }
}

impl Default for KeyFrame {
    /// An inactive keyframe at frame zero, at the origin.
    fn default() -> (d: KeyFrame)
        ensures
            d == (KeyFrame { frame: 0, is_active: false, x: 0, y: 0 }),
    {
        KeyFrame { frame: 0, is_active: false, x: 0, y: 0 }
    }
}

impl Default for KeyFrameSet {
    /// An empty track bound to the first control point.
    fn default() -> (d: KeyFrameSet)
        ensures
            d@.node_index == 0,
            d@.key_frames == Seq::<KeyFrame>::empty(),
    {
        KeyFrameSet { node_index: 0, key_frames: Vec::new() }
    }
}

impl Default for Curve {
    /// A nameless curve with no data and zeroed opaque regions of their
    /// fixed on-disk sizes.
    fn default() -> (d: Curve)
        ensures
            d@.name == Seq::<char>::empty(),
            d@.control_points == Seq::<ControlPoint>::empty(),
            d@.knots == Seq::<u32>::empty(),
            d@.key_frame_sets == Seq::<KeyFrameSetModel>::empty(),
            d@.unk_28 == Seq::new(100, |i: int| 0u8),
            d@.unk_8c == 0,
            d@.unk_90 == 0,
            d@.unk_94 == 0,
            d@.unk_98 == 0,
            d@.unk_a8 == Seq::new(16, |i: int| 0u8),
            d@.unk_b8 == Seq::<u8>::empty(),
    {
        let d = Curve {
            name: String::new(),
            control_points: Vec::new(),
            knots: Vec::new(),
            key_frame_sets: Vec::new(),
            unk_28: zero_bytes(100),
            unk_8c: 0,
            unk_90: 0,
            unk_94: 0,
            unk_98: 0,
            unk_a8: zero_bytes(16),
            unk_b8: Vec::new(),
        };
        proof {
            assert(d.key_frame_sets@.map_values(|s: KeyFrameSet| s@) =~= Seq::<
                KeyFrameSetModel,
            >::empty());
        }
        d
    }
}

impl Default for DemoOption {
    /// A nameless option with an empty value.
    fn default() -> (d: DemoOption)
        ensures
            d@.name == Seq::<char>::empty(),
            d@.value == Seq::<char>::empty(),
    {
        DemoOption { name: String::new(), value: String::new() }
    }
}

impl Default for DemoOptionSet {
    /// A nameless set with no options and a zeroed opaque region of its
    /// fixed on-disk size.
    fn default() -> (d: DemoOptionSet)
        ensures
            d@.name == Seq::<char>::empty(),
            d@.demo_options == Seq::<DemoOptionModel>::empty(),
            d@.unk_20 == Seq::new(32, |i: int| 0u8),
    {
        let d = DemoOptionSet {
            name: String::new(),
            demo_options: Vec::new(),
            unk_20: zero_bytes(32),
        };
        proof {
            assert(d.demo_options@.map_values(|o: DemoOption| o@) =~= Seq::<
                DemoOptionModel,
            >::empty());
        }
        d
    }
}

impl Default for MNEBFile {
    /// A file with no curves, no demo option sets, and a zeroed header.
    fn default() -> (d: MNEBFile)
        ensures
            d@.curves == Seq::<CurveModel>::empty(),
            d@.demo_option_sets == Seq::<DemoOptionSetModel>::empty(),
            d@.frame_count == 0,
            d@.unk_8 == 0,
            d@.unk_10 == 0,
            !d@.unk_16,
    {
        let d = MNEBFile {
            curves: Vec::new(),
            demo_option_sets: Vec::new(),
            frame_count: 0,
            _unk_8: 0,
            _unk_10: 0,
            _unk_16: false,
        };
        proof {
            assert(d.curves@.map_values(|c: Curve| c@) =~= Seq::<CurveModel>::empty());
            assert(d.demo_option_sets@.map_values(|s: DemoOptionSet| s@) =~= Seq::<
                DemoOptionSetModel,
            >::empty());
        }
        d
    }
}

impl MNEBFile {
    /// Whether the file decoded as a curve file rather than a demo-options
    /// file.
    pub fn has_curves(&self) -> (r: bool)
        ensures
            r == (self@.curves.len() != 0),
    {
        !self.curves.is_empty()
    }
}

} // verus!
