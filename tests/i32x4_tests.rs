use wasm_simd::{Bx4, F32x4, I32x4};

fn f32x4(a: f32, b: f32, c: f32, d: f32) -> F32x4 {
    F32x4::from_bits(a.to_bits(), b.to_bits(), c.to_bits(), d.to_bits())
}

#[test]
fn i32x4_new_and_extract_lanes() {
    let v = I32x4::new(1, 2, 3, 4);
    assert_eq!(v.extract_lanes(), (1, 2, 3, 4));
    for (i, want) in [1, 2, 3, 4].iter().enumerate() {
        assert_eq!(v.extract_lane(i), *want);
    }
}

#[test]
fn i32x4_splat() {
    assert_eq!(I32x4::splat(7).extract_lanes(), (7, 7, 7, 7));
}

#[test]
fn i32x4_new_from_fn() {
    let v = I32x4::new_from_fn(|i| (i as i32 + 1) * 10);
    assert_eq!(v.extract_lanes(), (10, 20, 30, 40));
}

#[test]
fn i32x4_extract_lane() {
    let v = I32x4::new(10, 20, 30, 40);
    assert_eq!(v.extract_lane(0), 10);
    assert_eq!(v.extract_lane(1), 20);
    assert_eq!(v.extract_lane(2), 30);
    assert_eq!(v.extract_lane(3), 40);
}

#[test]
fn i32x4_set_lane() {
    let mut v = I32x4::new(1, 2, 3, 4);
    v.set_lane(0, 11);
    v.set_lane(2, 33);
    assert_eq!(v.extract_lanes(), (11, 2, 33, 4));
}

#[test]
fn i32x4_apply() {
    let v = I32x4::new(1, -2, 3, -4);
    assert_eq!(v.apply(|x| x * x), I32x4::new(1, 4, 9, 16));
}

#[test]
fn i32x4_fold() {
    let v = I32x4::new(1, 2, 3, 4);
    assert_eq!(v.fold(|acc, x| acc + x, 10), 10 + 1 + 2 + 3 + 4);
    assert_eq!(v.fold(|acc, x| acc * x, 2), 2 * 1 * 2 * 3 * 4);
}

#[test]
fn i32x4_reduce_keeps_lane_order() {
    let v = I32x4::new(1, 2, 3, 4);
    // (((100 - 1) - 2) - 3) - 4, which differs from any other order of folding.
    assert_eq!(v.reduce(|acc, x| acc - x, 100), 90);
    assert_eq!(v.reduce(|acc, x| acc * 10 + x, 0), 1234);
}

#[test]
fn i32x4_reduce_add() {
    assert_eq!(I32x4::new(1, 2, 3, 4).reduce_add(), 10);
    assert_eq!(I32x4::new(-1, -2, -3, -4).reduce_add(), -10);
    assert_eq!(I32x4::new(0, 0, 0, 0).reduce_add(), 0);
    assert_eq!(I32x4::new(i32::MAX, 1, 0, 0).reduce_add(), i32::MIN);
}

#[test]
fn i32x4_reduce_mul() {
    assert_eq!(I32x4::new(1, 2, 3, 4).reduce_mul(), 24);
    assert_eq!(I32x4::new(1, 0, 3, 4).reduce_mul(), 0);
    assert_eq!(I32x4::new(-1, 2, -3, 4).reduce_mul(), 24);
    assert_eq!(I32x4::new(65536, 65536, 1, 1).reduce_mul(), 0);
}

#[test]
fn i32x4_reduce_min() {
    assert_eq!(I32x4::new(5, 1, 9, 3).reduce_min(), 1);
    assert_eq!(I32x4::new(-5, -1, -9, -3).reduce_min(), -9);
    assert_eq!(I32x4::new(0, 0, 0, 0).reduce_min(), 0);
    assert_eq!(I32x4::splat(i32::MAX).reduce_min(), i32::MAX);
}

#[test]
fn i32x4_reduce_max() {
    assert_eq!(I32x4::new(5, 1, 9, 3).reduce_max(), 9);
    assert_eq!(I32x4::new(-5, -1, -9, -3).reduce_max(), -1);
    assert_eq!(I32x4::new(0, -1, 0, -2).reduce_max(), 0);
    assert_eq!(I32x4::splat(i32::MIN).reduce_max(), i32::MIN);
}

#[test]
fn i32x4_reductions_match_left_fold() {
    let samples = [
        I32x4::new(3, -7, 0, 12),
        I32x4::new(-1, -1, -1, -1),
        I32x4::new(i32::MIN, i32::MAX, 0, 5),
    ];
    for v in samples.iter() {
        let (a, b, c, d) = v.extract_lanes();
        let lanes = [a, b, c, d];
        assert_eq!(v.reduce_add(), lanes.iter().fold(0i32, |s, x| s.wrapping_add(*x)));
        assert_eq!(v.reduce_mul(), lanes.iter().fold(1i32, |s, x| s.wrapping_mul(*x)));
        assert_eq!(v.reduce_min(), lanes.iter().fold(i32::MAX, |s, x| if s < *x { s } else { *x }));
        assert_eq!(v.reduce_max(), lanes.iter().fold(i32::MIN, |s, x| if s > *x { s } else { *x }));
    }
}

#[test]
fn i32x4_if_else() {
    let a = I32x4::new(1, 2, 3, 4);
    let b = I32x4::new(10, 20, 30, 40);
    assert_eq!(a.if_else(&b, &Bx4::new(true, true, false, false)), I32x4::new(1, 2, 30, 40));
    assert_eq!(a.if_else(&b, &Bx4::new(false, true, false, true)), I32x4::new(10, 2, 30, 4));
}

#[test]
fn i32x4_if_else_every_mask() {
    let a = I32x4::new(-1, i32::MIN, 7, 0);
    let b = I32x4::new(5, 6, i32::MAX, -9);
    let (a0, a1, a2, a3) = a.extract_lanes();
    let (b0, b1, b2, b3) = b.extract_lanes();
    let (al, bl) = ([a0, a1, a2, a3], [b0, b1, b2, b3]);
    for bits in 0u8..16 {
        let m = Bx4::new(bits & 1 != 0, bits & 2 != 0, bits & 4 != 0, bits & 8 != 0);
        let r = a.if_else(&b, &m);
        for i in 0..4 {
            let want = if bits & (1 << i) != 0 { al[i] } else { bl[i] };
            assert_eq!(r.extract_lane(i), want);
        }
    }
}

#[test]
fn i32x4_all_nonzero() {
    assert!(I32x4::new(1, 2, 3, 4).all_nonzero());
    assert!(!I32x4::new(1, 0, 3, 4).all_nonzero());
    assert!(!I32x4::splat(0).all_nonzero());
    assert!(I32x4::new(-1, -2, -3, -4).all_nonzero());
}

#[test]
fn i32x4_shuffle() {
    let a = I32x4::new(1, 2, 3, 4);
    let b = I32x4::new(10, 20, 30, 40);
    assert_eq!(a.shuffle::<0, 5, 2, 7>(&b), I32x4::new(1, 20, 3, 40));
    assert_eq!(a.shuffle::<0, 1, 2, 3>(&a), a);
    assert_eq!(a.shuffle::<3, 2, 1, 0>(&a), I32x4::new(4, 3, 2, 1));
    assert_eq!(a.shuffle::<4, 4, 0, 0>(&b), I32x4::new(10, 10, 1, 1));
}

#[test]
fn i32x4_comparisons() {
    let a = I32x4::new(1, 2, 3, 4);
    let b = I32x4::new(1, 0, 5, 4);
    assert_eq!(a.eq(&b), Bx4::new(true, false, false, true));
    assert_eq!(a.s_eq(1), Bx4::new(true, false, false, false));
    assert_eq!(a.ne(&b), Bx4::new(false, true, true, false));
    assert_eq!(a.s_ne(1), Bx4::new(false, true, true, true));
    assert_eq!(a.lt(&b), Bx4::new(false, false, true, false));
    assert_eq!(a.s_lt(3), Bx4::new(true, true, false, false));
    assert_eq!(a.le(&b), Bx4::new(true, false, true, true));
    assert_eq!(a.s_le(3), Bx4::new(true, true, true, false));
    assert_eq!(a.gt(&b), Bx4::new(false, true, false, false));
    assert_eq!(a.s_gt(3), Bx4::new(false, false, false, true));
    assert_eq!(a.ge(&b), Bx4::new(true, true, false, true));
    assert_eq!(a.s_ge(3), Bx4::new(false, false, true, true));
}

#[test]
fn i32x4_min_max() {
    let a = I32x4::new(1, 5, 2, 8);
    let b = I32x4::new(3, 2, 7, 8);
    assert_eq!(a.min(&b), I32x4::new(1, 2, 2, 8));
    assert_eq!(a.s_min(4), I32x4::new(1, 4, 2, 4));
    assert_eq!(a.max(&b), I32x4::new(3, 5, 7, 8));
    assert_eq!(a.s_max(4), I32x4::new(4, 5, 4, 8));
}

#[test]
fn i32x4_abs() {
    assert_eq!(I32x4::new(1, -2, 0, -i32::MAX).abs(), I32x4::new(1, 2, 0, i32::MAX));
    assert_eq!(I32x4::new(-5, -i32::MAX, i32::MAX, -0).abs(), I32x4::new(5, i32::MAX, i32::MAX, 0));
    assert_eq!(I32x4::new(i32::MIN, 0, 0, 0).abs(), I32x4::new(i32::MIN, 0, 0, 0));
}

#[test]
fn i32x4_default() {
    assert_eq!(I32x4::default().extract_lanes(), (0, 0, 0, 0));
}

#[test]
fn i32x4_clone() {
    let v1 = I32x4::new(1, 2, 3, 4);
    let v2 = v1.clone();
    let mut v3 = v1.clone();
    v3.set_lane(0, 100);
    assert_eq!(v1, v2);
    assert_eq!(v1, I32x4::new(1, 2, 3, 4));
    assert_eq!(v3, I32x4::new(100, 2, 3, 4));
}

#[test]
fn i32x4_into_array_and_vec() {
    let arr: [i32; 4] = I32x4::new(10, 20, 30, 40).into();
    assert_eq!(arr, [10, 20, 30, 40]);
    let v: Vec<i32> = I32x4::new(11, 22, 33, 44).into();
    assert_eq!(v, vec![11, 22, 33, 44]);
}

#[test]
fn i32x4_from_array() {
    assert_eq!(I32x4::from([5, 6, 7, 8]), I32x4::new(5, 6, 7, 8));
    assert_eq!(I32x4::from(&[-5, 6, -7, 8]), I32x4::new(-5, 6, -7, 8));
}

#[test]
fn i32x4_from_f32x4_truncates() {
    let iv = I32x4::from(f32x4(1.1, -2.9, 3.5, -4.0001));
    assert_eq!(iv, I32x4::new(1, -2, 3, -4));
    let iv = I32x4::from(f32x4(0.0, -0.0, 0.999, -0.999));
    assert_eq!(iv, I32x4::new(0, 0, 0, 0));
    let iv = I32x4::from(f32x4(16777216.0, -2147483648.0, 2147483520.0, 1e-40));
    assert_eq!(iv, I32x4::new(16777216, i32::MIN, 2147483520, 0));
}

#[test]
fn i32x4_from_f32x4_saturates() {
    let iv = I32x4::from(f32x4(f32::MAX, f32::MIN, 10.0, -10.0));
    assert_eq!(iv, I32x4::new(i32::MAX, i32::MIN, 10, -10));
    let iv = I32x4::from(f32x4(f32::NAN, f32::INFINITY, f32::NEG_INFINITY, 2147483648.0));
    assert_eq!(iv, I32x4::new(0, i32::MAX, i32::MIN, i32::MAX));
    let iv = I32x4::from(f32x4(-f32::NAN, -3e9, 3e9, -2147483904.0));
    assert_eq!(iv, I32x4::new(0, i32::MIN, i32::MAX, i32::MIN));
}

#[test]
fn i32x4_debug_format() {
    assert_eq!(format!("{:?}", I32x4::new(1, -2, 3, -4)), "I32x4(1, -2, 3, -4)");
}

#[test]
fn i32x4_neg() {
    assert_eq!(-I32x4::new(1, -2, 0, i32::MIN), I32x4::new(-1, 2, 0, i32::MIN));
}

#[test]
fn i32x4_add() {
    let a = I32x4::new(1, 2, 3, 100);
    let b = I32x4::new(10, 20, 30, -50);
    assert_eq!(a + b, I32x4::new(11, 22, 33, 50));
    assert_eq!(a + 5, I32x4::new(6, 7, 8, 105));
    assert_eq!(5 + a, I32x4::new(6, 7, 8, 105));
    assert_eq!(I32x4::splat(i32::MAX) + 1, I32x4::splat(i32::MIN));
}

#[test]
fn i32x4_sub() {
    let a = I32x4::new(10, 20, 30, 100);
    let b = I32x4::new(1, 2, 5, -50);
    assert_eq!(a - b, I32x4::new(9, 18, 25, 150));
    assert_eq!(a - 5, I32x4::new(5, 15, 25, 95));
    assert_eq!(100 - a, I32x4::new(90, 80, 70, 0));
    assert_eq!(I32x4::splat(i32::MIN) - 1, I32x4::splat(i32::MAX));
}

#[test]
fn i32x4_mul() {
    let a = I32x4::new(1, 2, -3, 10);
    let b = I32x4::new(5, -4, 2, 100);
    assert_eq!(a * b, I32x4::new(5, -8, -6, 1000));
    assert_eq!(a * 3, I32x4::new(3, 6, -9, 30));
    assert_eq!(3 * a, I32x4::new(3, 6, -9, 30));
    assert_eq!(I32x4::splat(65536) * 65536, I32x4::splat(0));
}

#[test]
fn i32x4_div() {
    let a = I32x4::new(10, 21, -9, 100);
    let b = I32x4::new(2, 7, 3, -10);
    assert_eq!(a / b, I32x4::new(5, 3, -3, -10));
    assert_eq!(a / 2, I32x4::new(5, 10, -4, 50));
    assert_eq!(100 / I32x4::new(10, -5, 4, 50), I32x4::new(10, -20, 25, 2));
    assert_eq!(I32x4::new(-7, 7, -7, 7) / I32x4::new(2, -2, -2, 2), I32x4::new(-3, -3, 3, 3));
}

#[test]
fn i32x4_div_min_by_minus_one_wraps() {
    let a = I32x4::new(i32::MIN, i32::MIN, 6, i32::MAX);
    assert_eq!(a / I32x4::new(-1, 1, -1, -1), I32x4::new(i32::MIN, i32::MIN, -6, -i32::MAX));
    assert_eq!(I32x4::splat(i32::MIN) / -1, I32x4::splat(i32::MIN));
    let mut b = I32x4::splat(i32::MIN);
    b.div_assign_scalar(-1);
    assert_eq!(b, I32x4::splat(i32::MIN));
}

#[test]
fn i32x4_shl() {
    let a = I32x4::new(1, 2, 3, 4);
    assert_eq!(a << 1u32, I32x4::new(2, 4, 6, 8));
    assert_eq!(a << 3u32, I32x4::new(8, 16, 24, 32));
    assert_eq!(I32x4::new(i32::MAX, -1, 1, 0) << 1u32, I32x4::new(-2, -2, 2, 0));
    assert_eq!(a << 33u32, I32x4::new(2, 4, 6, 8));
}

#[test]
fn i32x4_shr_is_arithmetic() {
    let a = I32x4::new(8, -8, 7, -7);
    assert_eq!(a >> 1u32, I32x4::new(4, -4, 3, -4));
    assert_eq!(a >> 2u32, I32x4::new(2, -2, 1, -2));
    let b = I32x4::new(i32::MIN, i32::MAX, 0, -1);
    assert_eq!(b >> 1u32, I32x4::new(i32::MIN / 2, i32::MAX / 2, 0, -1));
    assert_eq!(I32x4::splat(-8) >> 1u32, I32x4::splat(-4));
}

#[test]
fn i32x4_add_assign() {
    let mut a = I32x4::new(1, 2, 3, 10);
    a += I32x4::new(10, 20, 30, -5);
    assert_eq!(a, I32x4::new(11, 22, 33, 5));
    let mut b = I32x4::new(1, 2, 3, 10);
    b += 5;
    assert_eq!(b, I32x4::new(6, 7, 8, 15));
}

#[test]
fn i32x4_sub_assign() {
    let mut a = I32x4::new(10, 20, 30, 10);
    a -= I32x4::new(1, 2, 5, -5);
    assert_eq!(a, I32x4::new(9, 18, 25, 15));
    let mut b = I32x4::new(10, 20, 30, 10);
    b -= 5;
    assert_eq!(b, I32x4::new(5, 15, 25, 5));
}

#[test]
fn i32x4_mul_assign() {
    let mut a = I32x4::new(1, 2, -3, 10);
    a *= I32x4::new(5, -4, 2, 2);
    assert_eq!(a, I32x4::new(5, -8, -6, 20));
    let mut b = I32x4::new(1, 2, -3, 10);
    b *= 3;
    assert_eq!(b, I32x4::new(3, 6, -9, 30));
}

#[test]
fn i32x4_div_assign() {
    let mut a = I32x4::new(10, 21, -9, 100);
    a.div_assign(I32x4::new(2, 7, 3, -10));
    assert_eq!(a, I32x4::new(5, 3, -3, -10));
    let mut b = I32x4::new(10, 21, -9, 100);
    b.div_assign_scalar(2);
    assert_eq!(b, I32x4::new(5, 10, -4, 50));
}

#[test]
fn i32x4_shl_assign() {
    let mut a = I32x4::new(1, 2, 3, 4);
    a <<= 2u32;
    assert_eq!(a, I32x4::new(4, 8, 12, 16));
}

#[test]
fn i32x4_shr_assign() {
    let mut a = I32x4::new(8, -8, 7, -7);
    a >>= 1u32;
    assert_eq!(a, I32x4::new(4, -4, 3, -4));
}

#[test]
fn i32x4_register_round_trip() {
    let v = I32x4::new(-1, 0, i32::MIN, 42);
    let r = v.to_v128();
    assert_eq!((r.w0, r.w1, r.w2, r.w3), (0xFFFF_FFFF, 0, 0x8000_0000, 42));
    assert_eq!(I32x4::from_v128(r), v);
}
