use wasm_simd::{Bx4, V128};

#[test]
fn bx4_new_and_extract_lanes() {
    assert_eq!(Bx4::new(true, false, true, false).extract_lanes(), (true, false, true, false));
    assert_eq!(Bx4::new(true, true, true, true).extract_lanes(), (true, true, true, true));
    assert_eq!(Bx4::new(false, false, false, false).extract_lanes(), (false, false, false, false));
}

#[test]
fn bx4_splat() {
    assert_eq!(Bx4::splat(true).extract_lanes(), (true, true, true, true));
    assert_eq!(Bx4::splat(false).extract_lanes(), (false, false, false, false));
}

#[test]
fn bx4_extract_lane() {
    let v = Bx4::new(true, false, true, false);
    assert_eq!(v.extract_lane(0), true);
    assert_eq!(v.extract_lane(1), false);
    assert_eq!(v.extract_lane(2), true);
    assert_eq!(v.extract_lane(3), false);
}

#[test]
fn bx4_set_lane() {
    let mut v = Bx4::new(false, false, false, false);
    v.set_lane(0, true);
    assert_eq!(v.extract_lanes(), (true, false, false, false));
    v.set_lane(2, true);
    assert_eq!(v.extract_lanes(), (true, false, true, false));
    v.set_lane(0, false);
    assert_eq!(v.extract_lanes(), (false, false, true, false));
}

#[test]
fn bx4_to_bitmask_all_sixteen() {
    for bits in 0u8..16 {
        let m = Bx4::new(bits & 1 != 0, bits & 2 != 0, bits & 4 != 0, bits & 8 != 0);
        assert_eq!(m.to_bitmask(), bits);
    }
    assert_eq!(Bx4::new(false, false, false, true).to_bitmask(), 0b1000);
    assert_eq!(Bx4::new(true, true, true, true).to_bitmask(), 0b1111);
    assert_eq!(Bx4::new(true, false, true, false).to_bitmask(), 0b0101);
    assert_eq!(Bx4::new(false, false, false, false).to_bitmask(), 0);
}

#[test]
fn bx4_default() {
    assert_eq!(Bx4::default().extract_lanes(), (false, false, false, false));
}

#[test]
fn bx4_clone_and_copy() {
    let v1 = Bx4::new(true, false, true, false);
    let v2 = v1.clone();
    let mut v3 = v1;
    v3.set_lane(0, false);
    assert_eq!(v1, v2);
    assert_eq!(v3.extract_lanes(), (false, false, true, false));
    assert_eq!(v1.extract_lanes(), (true, false, true, false));
}

#[test]
fn bx4_bit_and() {
    let a = Bx4::new(true, true, false, false);
    let b = Bx4::new(true, false, true, false);
    assert_eq!((a & b).extract_lanes(), (true, false, false, false));
    assert_eq!((a & true).extract_lanes(), (true, true, false, false));
    assert_eq!((a & false).extract_lanes(), (false, false, false, false));
    assert_eq!((true & b).extract_lanes(), (true, false, true, false));
    assert_eq!((false & b).extract_lanes(), (false, false, false, false));
}

#[test]
fn bx4_bit_and_assign() {
    let mut a = Bx4::new(true, true, false, false);
    a &= Bx4::new(true, false, true, false);
    assert_eq!(a.extract_lanes(), (true, false, false, false));
}

#[test]
fn bx4_bit_or() {
    let a = Bx4::new(true, true, false, false);
    let b = Bx4::new(true, false, true, false);
    assert_eq!((a | b).extract_lanes(), (true, true, true, false));
    assert_eq!((a | true).extract_lanes(), (true, true, true, true));
    assert_eq!((a | false).extract_lanes(), (true, true, false, false));
    assert_eq!((true | b).extract_lanes(), (true, true, true, true));
    assert_eq!((false | b).extract_lanes(), (true, false, true, false));
}

#[test]
fn bx4_bit_or_assign() {
    let mut a = Bx4::new(true, true, false, false);
    a |= Bx4::new(true, false, true, false);
    assert_eq!(a.extract_lanes(), (true, true, true, false));
}

#[test]
fn bx4_bit_xor() {
    let a = Bx4::new(true, true, false, false);
    let b = Bx4::new(true, false, true, false);
    assert_eq!((a ^ b).extract_lanes(), (false, true, true, false));
    assert_eq!((a ^ true).extract_lanes(), (false, false, true, true));
    assert_eq!((a ^ false).extract_lanes(), (true, true, false, false));
    assert_eq!((true ^ b).extract_lanes(), (false, true, false, true));
}

#[test]
fn bx4_bit_xor_assign() {
    let mut a = Bx4::new(true, true, false, false);
    a ^= Bx4::new(true, false, true, false);
    assert_eq!(a.extract_lanes(), (false, true, true, false));
}

#[test]
fn bx4_not() {
    assert_eq!((!Bx4::new(true, false, true, false)).extract_lanes(), (false, true, false, true));
    assert_eq!((!Bx4::splat(true)).extract_lanes(), (false, false, false, false));
}

#[test]
fn bx4_debug_format() {
    assert_eq!(format!("{:?}", Bx4::new(true, false, true, false)), "Bx4(true, false, true, false)");
}

#[test]
fn bx4_register_value_is_all_ones_or_zeros() {
    let v = Bx4::new(true, false, false, true).to_v128();
    assert_eq!(v, V128::new(0xFFFF_FFFF, 0, 0, 0xFFFF_FFFF));
}

#[test]
fn bx4_from_register_value_reads_nonzero_as_true() {
    let m = Bx4::from_v128(V128::new(1, 0, 0x8000_0000, 0xFFFF_FFFF));
    assert_eq!(m.extract_lanes(), (true, false, true, true));
}

#[test]
fn v128_bitwise_operations() {
    let a = V128::new(0xF0F0_F0F0, 0, 0xFFFF_FFFF, 0x1234_5678);
    let b = V128::new(0xFF00_FF00, 0xFFFF_FFFF, 0, 0x0F0F_0F0F);
    assert_eq!(a.and(b), V128::new(0xF000_F000, 0, 0, 0x0204_0608));
    assert_eq!(a.or(b), V128::new(0xFFF0_FFF0, 0xFFFF_FFFF, 0xFFFF_FFFF, 0x1F3F_5F7F));
    assert_eq!(a.xor(b), V128::new(0x0FF0_0FF0, 0xFFFF_FFFF, 0xFFFF_FFFF, 0x1D3B_5977));
    assert_eq!(a.not(), V128::new(0x0F0F_0F0F, 0xFFFF_FFFF, 0, 0xEDCB_A987));
}

#[test]
fn v128_bitselect_and_bitmask() {
    let a = V128::new(0xAAAA_AAAA, 1, 2, 3);
    let b = V128::new(0x5555_5555, 10, 20, 30);
    let m = V128::new(0xFFFF_0000, 0xFFFF_FFFF, 0, 0xFFFF_FFFF);
    assert_eq!(a.bitselect(b, m), V128::new(0xAAAA_5555, 1, 20, 3));
    assert_eq!(V128::new(0x8000_0000, 0x7FFF_FFFF, 0xFFFF_FFFF, 1).bitmask(), 0b0101);
}
