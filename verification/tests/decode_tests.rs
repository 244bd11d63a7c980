//! Decoding whole buffers: both block kinds, every error kind, and the
//! verbatim preservation of the unknown regions.

use mneb::{ControlPoint, DecodeError, KeyFrame, MNEBFile};

fn be32(out: &mut Vec<u8>, v: u32) {
    out.extend_from_slice(&v.to_be_bytes());
}

fn be16(out: &mut Vec<u8>, v: u16) {
    out.extend_from_slice(&v.to_be_bytes());
}

fn bei16(out: &mut Vec<u8>, v: i16) {
    out.extend_from_slice(&v.to_be_bytes());
}

fn fixed_field(out: &mut Vec<u8>, bytes: &[u8], width: usize) {
    assert!(bytes.len() <= width);
    out.extend_from_slice(bytes);
    for _ in bytes.len()..width {
        out.push(0);
    }
}

fn header(out: &mut Vec<u8>, data_offset: u32, curve_count: u32, frame_count: u16, flag: u8) {
    out.extend_from_slice(b"MNCH");
    be32(out, data_offset);
    be32(out, 0x1111_1111); // unk_8
    be32(out, curve_count);
    be32(out, 0x2222_2222); // unk_10
    be16(out, frame_count);
    out.push(flag);
    out.push(0); // padding
}

struct CurveParts {
    name: Vec<u8>,
    unk_28: Vec<u8>,
    unk_8c: u32,
    unk_90: u32,
    unk_94: u32,
    unk_98: u32,
    unk_a8: Vec<u8>,
    unk_b8: Vec<u8>,
    control_points: Vec<(i16, i16, i16, i16)>,
    knots: Vec<u32>,
    key_frame_sets: Vec<(u16, Vec<(u16, u8, i16, i16)>)>,
    kf_pad: u8,
}

/// One curve record whose tables follow its fixed part immediately: tail,
/// control point table, knot table, keyframe info, keyframe table, set
/// entries, set payloads. All offsets are absolute, computed from `start`.
fn build_curve_record(p: &CurveParts, start: u32) -> Vec<u8> {
    assert_eq!(p.unk_28.len(), 0x64);
    assert_eq!(p.unk_a8.len(), 0x10);
    let tail_pos = start + 0xB8;
    let cp_off = tail_pos + p.unk_b8.len() as u32;
    let knot_off = cp_off + 4 + 8 * p.control_points.len() as u32;
    let kfi_off = knot_off + 4 + 4 * p.knots.len() as u32;
    let kft_off = kfi_off + 4;
    let entries_off = kft_off + 4;
    let payloads_off = entries_off + 4 * p.key_frame_sets.len() as u32;
    let mut payload_offsets = Vec::new();
    let mut cursor = payloads_off;
    for (_, frames) in &p.key_frame_sets {
        payload_offsets.push(cursor);
        cursor += 4 + 8 * frames.len() as u32;
    }
    let end = cursor;
    let block_size = end - start;

    let mut out = Vec::new();
    out.extend_from_slice(b"MNCN");
    be32(&mut out, block_size);
    fixed_field(&mut out, &p.name, 0x20);
    out.extend_from_slice(&p.unk_28);
    be32(&mut out, p.unk_8c);
    be32(&mut out, p.unk_90);
    be32(&mut out, p.unk_94);
    be32(&mut out, p.unk_98);
    be32(&mut out, cp_off);
    be32(&mut out, knot_off);
    be32(&mut out, kfi_off);
    out.extend_from_slice(&p.unk_a8);
    out.extend_from_slice(&p.unk_b8);
    assert_eq!(start + out.len() as u32, cp_off);
    be32(&mut out, p.control_points.len() as u32);
    for &(x, y, z, w) in &p.control_points {
        bei16(&mut out, x);
        bei16(&mut out, y);
        bei16(&mut out, z);
        bei16(&mut out, w);
    }
    assert_eq!(start + out.len() as u32, knot_off);
    be32(&mut out, p.knots.len() as u32);
    for &k in &p.knots {
        be32(&mut out, k);
    }
    assert_eq!(start + out.len() as u32, kfi_off);
    be32(&mut out, kft_off);
    be32(&mut out, p.key_frame_sets.len() as u32);
    for &off in &payload_offsets {
        be32(&mut out, off);
    }
    for (node_index, frames) in &p.key_frame_sets {
        be16(&mut out, *node_index);
        be16(&mut out, frames.len() as u16);
        for &(frame, active, x, y) in frames {
            be16(&mut out, frame);
            out.push(active);
            out.push(p.kf_pad);
            bei16(&mut out, x);
            bei16(&mut out, y);
        }
    }
    assert_eq!(start + out.len() as u32, end);
    out
}

/// A whole single-curve file: the header, then the record at offset 0x18.
fn build_curve_file(p: &CurveParts) -> Vec<u8> {
    let mut out = Vec::new();
    header(&mut out, 0x18, 1, 48, 1);
    out.extend_from_slice(&build_curve_record(p, 0x18));
    out
}

fn sample_curve_parts() -> CurveParts {
    CurveParts {
        name: b"wave".to_vec(),
        unk_28: (0..0x64u8).collect(),
        unk_8c: 0x3F80_0000,
        unk_90: 3,
        unk_94: 4,
        unk_98: 5,
        unk_a8: (0xC0..0xD0u8).collect(),
        unk_b8: vec![0xDE, 0xAD, 0xBE, 0xEF],
        control_points: vec![(1, 2, 3, 4), (-1, -2, -3, -4)],
        knots: vec![0x0000_0000, 0x3F00_0000, 0x3F80_0000],
        key_frame_sets: vec![
            (0, vec![(0, 1, 10, 20), (48, 0, -10, -20)]),
            (1, vec![(5, 2, 7, 8)]),
        ],
        kf_pad: 0xAA,
    }
}

#[test]
fn decodes_curve_file_in_full() {
    let bytes = build_curve_file(&sample_curve_parts());
    let f = MNEBFile::from_bytes(&bytes).unwrap();
    assert_eq!(f.curves.len(), 1);
    assert!(f.demo_option_sets.is_empty());
    assert_eq!(f.frame_count, 48);
    assert_eq!(f._unk_8, 0x1111_1111);
    assert_eq!(f._unk_10, 0x2222_2222);
    assert!(f._unk_16);
    let c = &f.curves[0];
    assert_eq!(c.name, "wave");
    assert_eq!(
        c.control_points,
        vec![
            ControlPoint { x: 1, y: 2, z: 3, w: 4 },
            ControlPoint { x: -1, y: -2, z: -3, w: -4 },
        ]
    );
    assert_eq!(c.knots, vec![0x0000_0000, 0x3F00_0000, 0x3F80_0000]);
    assert_eq!(c.key_frame_sets.len(), 2);
    assert_eq!(c.key_frame_sets[0].node_index, 0);
    assert_eq!(
        c.key_frame_sets[0].key_frames,
        vec![
            KeyFrame { frame: 0, is_active: true, x: 10, y: 20 },
            KeyFrame { frame: 48, is_active: false, x: -10, y: -20 },
        ]
    );
    assert_eq!(c.key_frame_sets[1].node_index, 1);
    assert_eq!(
        c.key_frame_sets[1].key_frames,
        vec![KeyFrame { frame: 5, is_active: true, x: 7, y: 8 }]
    );
    assert_eq!(c.unk_28, (0..0x64u8).collect::<Vec<u8>>());
    assert_eq!(c.unk_8c, 0x3F80_0000);
    assert_eq!(c.unk_90, 3);
    assert_eq!(c.unk_94, 4);
    assert_eq!(c.unk_98, 5);
    assert_eq!(c.unk_a8, (0xC0..0xD0u8).collect::<Vec<u8>>());
    assert_eq!(c.unk_b8, vec![0xDE, 0xAD, 0xBE, 0xEF]);
    assert!(f.has_curves());
    assert!(c.node_indices_valid());
}

#[test]
fn round_trips_opaque_regions() {
    let bytes = build_curve_file(&sample_curve_parts());
    let f = MNEBFile::from_bytes(&bytes).unwrap();
    let c = &f.curves[0];
    // Re-encode from the decoded model. The keyframe padding byte is not
    // preserved by the model and is written back as zero; everything else
    // comes from the decoded file.
    let reencoded = build_curve_file(&CurveParts {
        name: c.name.as_bytes().to_vec(),
        unk_28: c.unk_28.clone(),
        unk_8c: c.unk_8c,
        unk_90: c.unk_90,
        unk_94: c.unk_94,
        unk_98: c.unk_98,
        unk_a8: c.unk_a8.clone(),
        unk_b8: c.unk_b8.clone(),
        control_points: c
            .control_points
            .iter()
            .map(|p| (p.x, p.y, p.z, p.w))
            .collect(),
        knots: c.knots.clone(),
        key_frame_sets: c
            .key_frame_sets
            .iter()
            .map(|s| {
                (
                    s.node_index,
                    s.key_frames
                        .iter()
                        .map(|k| (k.frame, k.is_active as u8, k.x, k.y))
                        .collect(),
                )
            })
            .collect(),
        kf_pad: 0,
    });
    let g = MNEBFile::from_bytes(&reencoded).unwrap();
    let d = &g.curves[0];
    assert_eq!(d.unk_28, c.unk_28);
    assert_eq!(d.unk_8c, c.unk_8c);
    assert_eq!(d.unk_a8, c.unk_a8);
    assert_eq!(d.unk_b8, c.unk_b8);
    // The whole decoded file agrees, padding aside.
    assert_eq!(&g, &f);
}

#[test]
fn empty_tail_when_table_adjoins_fixed_part() {
    let mut parts = sample_curve_parts();
    parts.unk_b8 = Vec::new();
    let f = MNEBFile::from_bytes(&build_curve_file(&parts)).unwrap();
    assert!(f.curves[0].unk_b8.is_empty());
}

#[test]
fn minimal_demo_file_decodes_empty() {
    // Header with curve count zero, then a demo block with no sets.
    let mut out = Vec::new();
    out.extend_from_slice(b"MNCH");
    be32(&mut out, 0);
    be32(&mut out, 0);
    be32(&mut out, 0);
    be32(&mut out, 0);
    be16(&mut out, 0);
    out.push(0);
    out.push(0);
    out.extend_from_slice(b"MNDD");
    be32(&mut out, 0); // block size, unused
    be32(&mut out, 0); // set count
    let f = MNEBFile::from_bytes(&out).unwrap();
    assert!(f.curves.is_empty());
    assert!(f.demo_option_sets.is_empty());
    assert_eq!(f.frame_count, 0);
    assert_eq!(f._unk_8, 0);
    assert_eq!(f._unk_10, 0);
    assert!(!f._unk_16);
    assert!(!f.has_curves());
}

/// A demo file with one set of two options, sets and options stored through
/// offset entries as the format requires.
fn build_demo_file(option1_name: &[u8]) -> Vec<u8> {
    let mut out = Vec::new();
    header(&mut out, 0, 0, 0x0102, 0);
    out.extend_from_slice(b"MNDD");
    be32(&mut out, 0xFEED_F00D); // block size, read and ignored
    be32(&mut out, 1); // set count
    be32(&mut out, 0x28); // set entry: offset to the set payload
    assert_eq!(out.len(), 0x28);
    fixed_field(&mut out, b"options", 0x20);
    out.extend_from_slice(&[0x55u8; 0x20]); // unk_20
    be32(&mut out, 2); // option count
    be32(&mut out, 0x74); // option entry 1
    be32(&mut out, 0x8C); // option entry 2
    assert_eq!(out.len(), 0x74);
    fixed_field(&mut out, option1_name, 0x10);
    be32(&mut out, 4);
    out.extend_from_slice(b"fast");
    assert_eq!(out.len(), 0x8C);
    fixed_field(&mut out, b"mode", 0x10);
    be32(&mut out, 2);
    out.extend_from_slice(b"on");
    out
}

#[test]
fn decodes_demo_file_in_full() {
    let f = MNEBFile::from_bytes(&build_demo_file(b"speed")).unwrap();
    assert!(f.curves.is_empty());
    assert!(!f.has_curves());
    assert_eq!(f.frame_count, 0x0102);
    assert_eq!(f.demo_option_sets.len(), 1);
    let s = &f.demo_option_sets[0];
    assert_eq!(s.name, "options");
    assert_eq!(s.unk_20, vec![0x55u8; 0x20]);
    assert_eq!(s.demo_options.len(), 2);
    assert_eq!(s.demo_options[0].name, "speed");
    assert_eq!(s.demo_options[0].value, "fast");
    assert_eq!(s.demo_options[1].name, "mode");
    assert_eq!(s.demo_options[1].value, "on");
}

#[test]
fn round_trips_demo_opaque_region() {
    let bytes = build_demo_file(b"speed");
    let f = MNEBFile::from_bytes(&bytes).unwrap();
    // The opaque region is exactly the file's own bytes, so re-encoding the
    // same layout from the decoded set reproduces it.
    let again = build_demo_file(f.demo_option_sets[0].demo_options[0].name.as_bytes());
    let g = MNEBFile::from_bytes(&again).unwrap();
    assert_eq!(g.demo_option_sets[0].unk_20, f.demo_option_sets[0].unk_20);
    assert_eq!(&g, &f);
}

#[test]
fn name_strips_every_nul_byte() {
    // NUL bytes are removed wherever they stand, not only as padding.
    let mut parts = sample_curve_parts();
    parts.name = b"wa\0ve".to_vec();
    let f = MNEBFile::from_bytes(&build_curve_file(&parts)).unwrap();
    assert_eq!(f.curves[0].name, "wave");
}

#[test]
fn multi_byte_utf8_names_decode_as_text() {
    let mut parts = sample_curve_parts();
    parts.name = "caf\u{e9} \u{2014} d\u{e9}mo".as_bytes().to_vec();
    let f = MNEBFile::from_bytes(&build_curve_file(&parts)).unwrap();
    assert_eq!(f.curves[0].name, "caf\u{e9} \u{2014} d\u{e9}mo");
}

#[test]
fn bad_file_magic_is_rejected() {
    let mut bytes = build_curve_file(&sample_curve_parts());
    bytes[0] = b'X';
    let err = MNEBFile::from_bytes(&bytes).unwrap_err();
    assert_eq!(
        err,
        DecodeError::BadMagic {
            expected: 0x4D4E_4348,
            found: 0x584E_4348,
            offset: 0,
        }
    );
}

#[test]
fn bad_demo_magic_is_rejected_with_offset() {
    let mut bytes = build_demo_file(b"speed");
    bytes[0x18] = b'Q';
    let err = MNEBFile::from_bytes(&bytes).unwrap_err();
    assert_eq!(
        err,
        DecodeError::BadMagic {
            expected: 0x4D4E_4444,
            found: 0x514E_4444,
            offset: 0x18,
        }
    );
}

#[test]
fn bad_curve_magic_is_rejected_with_offset() {
    let mut bytes = build_curve_file(&sample_curve_parts());
    bytes[0x18] = b'Z';
    let err = MNEBFile::from_bytes(&bytes).unwrap_err();
    assert_eq!(
        err,
        DecodeError::BadMagic {
            expected: 0x4D4E_434E,
            found: 0x5A4E_434E,
            offset: 0x18,
        }
    );
}

#[test]
fn truncated_header_reports_exact_offset() {
    let bytes = b"MNCH\x00\x00\x00\x18\x11\x11".to_vec();
    let err = MNEBFile::from_bytes(&bytes).unwrap_err();
    assert_eq!(
        err,
        DecodeError::TruncatedInput { needed: 4, available: 2, offset: 8 }
    );
}

#[test]
fn truncated_curve_record_reports_exact_offset() {
    // A valid header promising one curve, cut off right after the curve's
    // magic and size: the 32-byte name read at 0x20 finds nothing left.
    let mut out = Vec::new();
    header(&mut out, 0x18, 1, 0, 0);
    out.extend_from_slice(b"MNCN");
    be32(&mut out, 0x110);
    let err = MNEBFile::from_bytes(&out).unwrap_err();
    assert_eq!(
        err,
        DecodeError::TruncatedInput { needed: 0x20, available: 0, offset: 0x20 }
    );
}

#[test]
fn truncated_mid_file_reports_exact_offset() {
    // Cutting the sample curve file inside the knot table: the knot count
    // at 0xE8 promises three knots, the cut leaves two and a half.
    let bytes = build_curve_file(&sample_curve_parts());
    let cut = &bytes[..0xF6];
    let err = MNEBFile::from_bytes(cut).unwrap_err();
    assert_eq!(
        err,
        DecodeError::TruncatedInput { needed: 4, available: 2, offset: 0xF4 }
    );
}

#[test]
fn truncated_option_value_reports_exact_offset() {
    // The second option's value promises two bytes; drop the last one.
    let bytes = build_demo_file(b"speed");
    let cut = &bytes[..bytes.len() - 1];
    let err = MNEBFile::from_bytes(cut).unwrap_err();
    assert_eq!(
        err,
        DecodeError::TruncatedInput { needed: 2, available: 1, offset: 0xA0 }
    );
}

#[test]
fn invalid_utf8_name_is_rejected_with_offset() {
    // 0xFF survives NUL stripping and is not valid UTF-8; the error points
    // at the option payload's name field.
    let err = MNEBFile::from_bytes(&build_demo_file(b"spe\xFFd")).unwrap_err();
    assert_eq!(err, DecodeError::InvalidEncoding { offset: 0x74 });
}

#[test]
fn curve_count_sets_curve_list_length() {
    // Two identical curve records back to back, counted from the header.
    // The records' offsets are absolute, so each is laid out at its own
    // start, the second at the position the first declares as its end.
    let p = sample_curve_parts();
    let first = build_curve_record(&p, 0x18);
    let second = build_curve_record(&p, 0x18 + first.len() as u32);
    let mut out = Vec::new();
    header(&mut out, 0x18, 2, 48, 1);
    out.extend_from_slice(&first);
    out.extend_from_slice(&second);
    let f = MNEBFile::from_bytes(&out).unwrap();
    assert_eq!(f.curves.len(), 2);
    assert!(f.demo_option_sets.is_empty());
    assert_eq!(f.curves[0].name, "wave");
    assert_eq!(f.curves[1], f.curves[0]);
}
