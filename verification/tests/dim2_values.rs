use raw_math::dim2::RawRotation;
use raw_math::dim2::RawVector;
use raw_math::scalar::ONE_BITS;
use raw_math::scalar::ZERO_BITS;

#[test]
fn scalar_constants_match_single_precision() {
    assert_eq!(ONE_BITS, 1.0f32.to_bits());
    assert_eq!(ZERO_BITS, 0.0f32.to_bits());
}

#[test]
fn zero_vector_components_are_zero() {
    let v = RawVector::zero();
    assert_eq!(f32::from_bits(v.x()), 0.0);
    assert_eq!(f32::from_bits(v.y()), 0.0);
}

#[test]
fn new_vector_stores_components_verbatim() {
    let v = RawVector::new(1.5f32.to_bits(), (-2.5f32).to_bits());
    assert_eq!(f32::from_bits(v.x()), 1.5);
    assert_eq!(f32::from_bits(v.y()), -2.5);
}

#[test]
fn set_then_get_returns_exact_value() {
    let mut v = RawVector::zero();
    v.set_x(7.25f32.to_bits());
    v.set_y((-0.125f32).to_bits());
    assert_eq!(f32::from_bits(v.x()), 7.25);
    assert_eq!(f32::from_bits(v.y()), -0.125);
}

#[test]
fn set_then_get_preserves_negative_zero() {
    let mut v = RawVector::new(3.0f32.to_bits(), 4.0f32.to_bits());
    v.set_x((-0.0f32).to_bits());
    assert_eq!(v.x(), (-0.0f32).to_bits());
    assert!(f32::from_bits(v.x()).is_sign_negative());
    assert_eq!(f32::from_bits(v.x()), 0.0);
    assert_eq!(f32::from_bits(v.y()), 4.0);
}

#[test]
fn set_then_get_preserves_subnormals() {
    let smallest_subnormal: f32 = f32::from_bits(1);
    let mut v = RawVector::zero();
    v.set_y(smallest_subnormal.to_bits());
    assert_eq!(v.y(), 1);
    assert_eq!(f32::from_bits(v.y()), smallest_subnormal);
}

#[test]
fn set_then_get_preserves_non_finite_patterns() {
    let quiet_nan_bits: u32 = 0x7fc0_0001;
    let mut v = RawVector::zero();
    v.set_x(quiet_nan_bits);
    assert_eq!(v.x(), quiet_nan_bits);
    assert!(f32::from_bits(v.x()).is_nan());
    v.set_y(f32::INFINITY.to_bits());
    assert_eq!(f32::from_bits(v.y()), f32::INFINITY);
}

#[test]
fn swizzle_xy_is_identity() {
    let v = RawVector::new(1.0f32.to_bits(), 2.0f32.to_bits());
    let w = v.xy();
    assert_eq!(f32::from_bits(w.x()), 1.0);
    assert_eq!(f32::from_bits(w.y()), 2.0);
}

#[test]
fn swizzle_yx_swaps_components() {
    let v = RawVector::new(1.5f32.to_bits(), (-2.5f32).to_bits());
    let w = v.xy().yx();
    assert_eq!(f32::from_bits(w.x()), -2.5);
    assert_eq!(f32::from_bits(w.y()), 1.5);
    let back = w.yx();
    assert_eq!(back, v);
}

#[test]
fn swizzle_does_not_mutate_source() {
    let v = RawVector::new(9.0f32.to_bits(), 8.0f32.to_bits());
    let _ = v.yx();
    assert_eq!(f32::from_bits(v.x()), 9.0);
    assert_eq!(f32::from_bits(v.y()), 8.0);
}

#[test]
fn identity_rotation_components() {
    let r = RawRotation::identity();
    assert_eq!(f32::from_bits(r.re()), 1.0);
    assert_eq!(f32::from_bits(r.im()), 0.0);
}
