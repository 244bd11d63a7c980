//! The data model's consumer-side operations and defaults.

use mneb::{ControlPoint, Curve, DemoOption, DemoOptionSet, KeyFrame, KeyFrameSet, MNEBFile};

fn kf(frame: u16, x: i16, y: i16) -> KeyFrame {
    KeyFrame { frame, is_active: true, x, y }
}

#[test]
fn single_keyframe_track_samples_its_position_at_every_frame() {
    let set = KeyFrameSet { node_index: 0, key_frames: vec![kf(10, 42, -7)] };
    // Before, at, and after the keyframe's own time.
    assert_eq!(set.single_sample(0), Some((42, -7)));
    assert_eq!(set.single_sample(10), Some((42, -7)));
    assert_eq!(set.single_sample(65535), Some((42, -7)));
}

#[test]
fn single_sample_declines_other_track_lengths() {
    let empty = KeyFrameSet { node_index: 0, key_frames: vec![] };
    assert_eq!(empty.single_sample(5), None);
    let two = KeyFrameSet { node_index: 0, key_frames: vec![kf(0, 1, 1), kf(9, 2, 2)] };
    assert_eq!(two.single_sample(5), None);
}

fn curve_with(node_indices: &[u16], point_count: usize) -> Curve {
    let mut c = Curve::default();
    for _ in 0..point_count {
        c.control_points.push(ControlPoint::default());
    }
    for &n in node_indices {
        c.key_frame_sets.push(KeyFrameSet { node_index: n, key_frames: vec![] });
    }
    c
}

#[test]
fn node_indices_valid_accepts_in_range_sets() {
    assert!(curve_with(&[0, 1, 1], 2).node_indices_valid());
    assert!(curve_with(&[], 0).node_indices_valid());
}

#[test]
fn node_indices_valid_rejects_out_of_range_sets() {
    assert!(!curve_with(&[0, 2], 2).node_indices_valid());
    assert!(!curve_with(&[0], 0).node_indices_valid());
}

#[test]
fn curve_default_matches_on_disk_region_sizes() {
    let c = Curve::default();
    assert_eq!(c.name, "");
    assert!(c.control_points.is_empty());
    assert!(c.knots.is_empty());
    assert!(c.key_frame_sets.is_empty());
    assert_eq!(c.unk_28, vec![0u8; 100]);
    assert_eq!(c.unk_8c, 0);
    assert_eq!(c.unk_90, 0);
    assert_eq!(c.unk_94, 0);
    assert_eq!(c.unk_98, 0);
    assert_eq!(c.unk_a8, vec![0u8; 16]);
    assert!(c.unk_b8.is_empty());
}

#[test]
fn remaining_defaults_are_empty() {
    assert_eq!(ControlPoint::default(), ControlPoint { x: 0, y: 0, z: 0, w: 0 });
    assert_eq!(
        KeyFrame::default(),
        KeyFrame { frame: 0, is_active: false, x: 0, y: 0 }
    );
    let s = KeyFrameSet::default();
    assert_eq!(s.node_index, 0);
    assert!(s.key_frames.is_empty());
    let o = DemoOption::default();
    assert_eq!(o.name, "");
    assert_eq!(o.value, "");
    let d = DemoOptionSet::default();
    assert_eq!(d.name, "");
    assert!(d.demo_options.is_empty());
    assert_eq!(d.unk_20, vec![0u8; 32]);
    let f = MNEBFile::default();
    assert!(f.curves.is_empty());
    assert!(f.demo_option_sets.is_empty());
    assert_eq!(f.frame_count, 0);
    assert!(!f.has_curves());
}
