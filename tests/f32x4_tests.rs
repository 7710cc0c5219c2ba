use wasm_simd::{Bx4, F32x4, I32x4};

fn f32x4(a: f32, b: f32, c: f32, d: f32) -> F32x4 {
    F32x4::from_bits(a.to_bits(), b.to_bits(), c.to_bits(), d.to_bits())
}

fn lanes(v: &F32x4) -> (f32, f32, f32, f32) {
    let (a, b, c, d) = v.to_bits();
    (f32::from_bits(a), f32::from_bits(b), f32::from_bits(c), f32::from_bits(d))
}

#[test]
fn f32x4_default_is_positive_zero() {
    assert_eq!(F32x4::default().to_bits(), (0, 0, 0, 0));
}

#[test]
fn f32x4_bits_round_trip() {
    let v = f32x4(1.5, -2.0, 0.25, f32::INFINITY);
    assert_eq!(lanes(&v), (1.5, -2.0, 0.25, f32::INFINITY));
    assert_eq!(F32x4::from_v128(v.to_v128()).to_bits(), v.to_bits());
}

#[test]
fn f32x4_if_else() {
    let a = f32x4(1.0, 2.0, 3.0, 4.0);
    let b = f32x4(10.0, 20.0, 30.0, 40.0);
    let r = a.if_else(&b, &Bx4::new(false, true, true, false));
    assert_eq!(lanes(&r), (10.0, 2.0, 3.0, 40.0));
}

#[test]
fn f32x4_abs_and_neg() {
    let v = f32x4(-1.5, 2.0, -0.0, f32::NEG_INFINITY);
    assert_eq!(lanes(&v.abs()), (1.5, 2.0, 0.0, f32::INFINITY));
    assert_eq!(v.abs().to_bits().2, 0);
    assert_eq!(lanes(&-v), (1.5, -2.0, 0.0, f32::INFINITY));
    assert_eq!((-f32x4(0.0, 1.0, 1.0, 1.0)).to_bits().0, 0x8000_0000);
    let nan = f32x4(f32::NAN, 1.0, 1.0, 1.0);
    assert!(f32::from_bits((-nan).to_bits().0).is_nan());
    assert!(f32::from_bits(nan.abs().to_bits().0).is_nan());
}

#[test]
fn f32x4_from_i32x4_exact_and_rounded() {
    let v = F32x4::from(I32x4::new(0, -1, 16777216, 16777217));
    assert_eq!(lanes(&v), (0.0, -1.0, 16777216.0, 16777216.0));
    let v = F32x4::from(I32x4::new(16777219, i32::MAX, i32::MIN, -33554435));
    assert_eq!(lanes(&v), (16777220.0, 2147483648.0, -2147483648.0, -33554436.0));
    assert_eq!(F32x4::from(I32x4::new(0, 1, 2, 3)).to_bits().0, 0);
}

#[test]
fn f32x4_from_i32x4_matches_native_rounding() {
    let mut x: i64 = i32::MIN as i64;
    while x <= i32::MAX as i64 {
        let a = x as i32;
        let b = a.wrapping_add(1);
        let c = a.wrapping_neg();
        let d = (a >> 7) | 1;
        let v = F32x4::from(I32x4::new(a, b, c, d));
        let want = ((a as f32).to_bits(), (b as f32).to_bits(), (c as f32).to_bits(), (d as f32).to_bits());
        assert_eq!(v.to_bits(), want, "lanes {} {} {} {}", a, b, c, d);
        x += 104_729;
    }
}

#[test]
fn f32x4_lane_bits_access() {
    let mut v = f32x4(1.0, -2.5, 3.0, f32::NAN);
    assert_eq!(v.extract_lane_bits(0), 1.0f32.to_bits());
    assert_eq!(v.extract_lane_bits(1), (-2.5f32).to_bits());
    assert_eq!(v.extract_lane_bits(2), 3.0f32.to_bits());
    assert!(f32::from_bits(v.extract_lane_bits(3)).is_nan());
    v.set_lane_bits(1, 7.0f32.to_bits());
    v.set_lane_bits(3, 0.5f32.to_bits());
    assert_eq!(lanes(&v), (1.0, 7.0, 3.0, 0.5));
    assert_eq!(lanes(&F32x4::splat_bits(2.25f32.to_bits())), (2.25, 2.25, 2.25, 2.25));
}
