use tephrite_rs::fast_io::{ByteReader, ByteWriter};
use tephrite_rs::fast_ser::{FastRead, FastWrite};
use tephrite_rs::gizmo::{GizmoLineConfig, GizmoLineJoint, GizmoLineStyle};

fn bytes_of<T: FastWrite>(x: &T) -> Vec<u8> {
    let mut buf = [0u8; 256];
    let mut w = ByteWriter::new(&mut buf);
    x.write_fast(&mut w);
    let n = w.position();
    buf[..n].to_vec()
}

fn read_back<T: FastRead>(bytes: &[u8]) -> (T, usize) {
    let mut r = ByteReader::new(bytes);
    let v = T::read_fast(&mut r);
    (v, r.position())
}

#[test]
fn gizmo_line_config_roundtrip() {
    let config = GizmoLineConfig {
        width: 7.0f32.to_bits(),
        perspective: true,
        style: GizmoLineStyle::Dashed { gap_scale: 2.0f32.to_bits(), line_scale: 3.0f32.to_bits() },
        joints: GizmoLineJoint::Round(6),
    };
    let bytes = bytes_of(&config);
    let (out, used) = read_back::<GizmoLineConfig>(&bytes);
    assert_eq!(used, bytes.len());
    assert_eq!(f32::from_bits(out.width), 7.0);
    assert!(out.perspective);
    match out.style {
        GizmoLineStyle::Dashed { gap_scale, line_scale } => {
            assert_eq!(f32::from_bits(gap_scale), 2.0);
            assert_eq!(f32::from_bits(line_scale), 3.0);
        }
        _ => panic!("style mismatch"),
    }
    match out.joints {
        GizmoLineJoint::Round(n) => assert_eq!(n, 6),
        _ => panic!("joint mismatch"),
    }
}

#[test]
fn gizmo_line_config_layout() {
    let config = GizmoLineConfig {
        width: 1.5f32.to_bits(),
        perspective: false,
        style: GizmoLineStyle::Dotted,
        joints: GizmoLineJoint::Bevel,
    };
    let mut expected = 1.5f32.to_ne_bytes().to_vec();
    expected.extend_from_slice(&[0, 1, 3]);
    assert_eq!(bytes_of(&config), expected);
}

#[test]
fn gizmo_joint_tags_and_payload() {
    assert_eq!(bytes_of(&GizmoLineJoint::NoJoint), vec![0]);
    assert_eq!(bytes_of(&GizmoLineJoint::Miter), vec![1]);
    let mut round = vec![2u8];
    round.extend_from_slice(&9u32.to_ne_bytes());
    assert_eq!(bytes_of(&GizmoLineJoint::Round(9)), round);
    assert_eq!(bytes_of(&GizmoLineJoint::Bevel), vec![3]);
}

#[test]
fn unknown_gizmo_tags_read_as_defaults() {
    let (joint, used) = read_back::<GizmoLineJoint>(&[7, 1, 2, 3, 4]);
    assert!(matches!(joint, GizmoLineJoint::NoJoint));
    assert_eq!(used, 1);
    let (style, used) = read_back::<GizmoLineStyle>(&[9, 0, 0, 0, 0, 0, 0, 0, 0]);
    assert!(matches!(style, GizmoLineStyle::Solid));
    assert_eq!(used, 1);
}
