//! Decoder for the MNEB binary animation-curve format.
//!
//! An MNEB file holds either a set of named spline curves with per-node
//! keyframe tracks, or a set of named demo-option records; both share one
//! container header. The format addresses its data through absolute byte
//! offsets scattered over the file, and contains several fixed-size regions
//! whose meaning is unknown. The decoder validates the magic markers, walks
//! the offsets, and preserves every unknown region byte for byte, so that an
//! encoder could reproduce the original file.

pub mod decode;
pub mod error;
pub mod laws;
pub mod layout;
pub mod model;
pub mod reader;
pub mod text;

pub use error::DecodeError;
pub use model::{
    ControlPoint, Curve, DemoOption, DemoOptionSet, KeyFrame, KeyFrameSet, MNEBFile,
};
