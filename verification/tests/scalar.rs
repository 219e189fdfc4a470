use tnua_adapter::scalar::{Scalar, Vector2, Vector3, INFINITY_BITS, SIGN_BIT};

fn scalar_of(x: f32) -> Scalar {
    Scalar { bits: x.to_bits() }
}

fn sample_patterns() -> Vec<u32> {
    let mut patterns = vec![
        0x0000_0000,
        0x8000_0000,
        0x0000_0001,
        0x8000_0001,
        0x007f_ffff,
        0x807f_ffff,
        0x0080_0000,
        0x8080_0000,
        0x3f80_0000,
        0xbf80_0000,
        0x7f7f_ffff,
        0xff7f_ffff,
        0x7f80_0000,
        0xff80_0000,
        0x7f80_0001,
        0xff80_0001,
        0x7fc0_0000,
        0xffc0_0000,
        0x7fff_ffff,
        0xffff_ffff,
    ];
    for x in [0.5f32, -0.5, 2.0, -2.0, 1.0e-30, -1.0e-30, 3.25e7, -3.25e7, 9.81, -9.81] {
        patterns.push(x.to_bits());
    }
    patterns
}

#[test]
fn zero_is_positive_zero() {
    assert_eq!(Scalar::zero().bits, 0.0f32.to_bits());
    assert_eq!(Vector3::zero(), Vector3 { x: scalar_of(0.0), y: scalar_of(0.0), z: scalar_of(0.0) });
}

#[test]
fn constants_are_the_patterns_of_their_numbers() {
    assert_eq!(SIGN_BIT, (-0.0f32).to_bits());
    assert_eq!(INFINITY_BITS, f32::INFINITY.to_bits());
}

#[test]
fn is_finite_agrees_with_the_numbers() {
    for bits in sample_patterns() {
        assert_eq!(Scalar { bits }.is_finite(), f32::from_bits(bits).is_finite(), "{bits:#x}");
    }
}

#[test]
fn is_nan_agrees_with_the_numbers() {
    for bits in sample_patterns() {
        assert_eq!(Scalar { bits }.is_nan(), f32::from_bits(bits).is_nan(), "{bits:#x}");
    }
}

#[test]
fn lt_agrees_with_the_numbers() {
    let patterns = sample_patterns();
    for &a in &patterns {
        for &b in &patterns {
            assert_eq!(
                Scalar { bits: a }.lt(Scalar { bits: b }),
                f32::from_bits(a) < f32::from_bits(b),
                "{a:#x} < {b:#x}"
            );
        }
    }
}

#[test]
fn lt_on_the_edges() {
    assert!(!scalar_of(0.0).lt(scalar_of(-0.0)));
    assert!(!scalar_of(-0.0).lt(scalar_of(0.0)));
    assert!(scalar_of(-1.0).lt(scalar_of(0.0)));
    assert!(scalar_of(f32::NEG_INFINITY).lt(scalar_of(f32::MIN)));
    assert!(scalar_of(f32::MAX).lt(scalar_of(f32::INFINITY)));
    assert!(!scalar_of(f32::NAN).lt(scalar_of(f32::INFINITY)));
    assert!(!scalar_of(0.0).lt(scalar_of(f32::NAN)));
    assert!(!scalar_of(1.5).lt(scalar_of(1.5)));
}

#[test]
fn extend_and_truncate_keep_the_components() {
    let v = Vector2 { x: scalar_of(1.5), y: scalar_of(-2.5) };
    let lifted = v.extend(scalar_of(7.0));
    assert_eq!(lifted, Vector3 { x: scalar_of(1.5), y: scalar_of(-2.5), z: scalar_of(7.0) });
    assert_eq!(lifted.truncate(), v);
}

#[test]
fn axial_has_only_z() {
    let w = Vector3::axial(scalar_of(-3.0));
    assert_eq!(w, Vector3 { x: scalar_of(0.0), y: scalar_of(0.0), z: scalar_of(-3.0) });
}

#[test]
fn vector_is_finite_needs_every_component() {
    let fine = Vector3 { x: scalar_of(1.0), y: scalar_of(2.0), z: scalar_of(3.0) };
    assert!(fine.is_finite());
    assert!(!Vector3 { x: scalar_of(f32::NAN), ..fine }.is_finite());
    assert!(!Vector3 { y: scalar_of(f32::INFINITY), ..fine }.is_finite());
    assert!(!Vector3 { z: scalar_of(f32::NEG_INFINITY), ..fine }.is_finite());
}
