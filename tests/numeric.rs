use aphelion_util::helper::ops::{
    add, and, asr, bit, idiv, imul, modulo, nor, or, rem, shl, shr, sub, udiv, umul, xor, BitAccess,
    BitAccessTo,
};
use aphelion_util::helper::sign_extend;
use aphelion_util::nibble::Nibble;

#[test]
fn sign_extend_byte_all_ones() {
    assert_eq!(sign_extend::<8>(0xFF), 0xFFFF_FFFF_FFFF_FFFF);
}

#[test]
fn sign_extend_byte_positive() {
    assert_eq!(sign_extend::<8>(0x7F), 0x7F);
}

#[test]
fn sign_extend_half_word_negative() {
    assert_eq!(sign_extend::<16>(0x8000), 0xFFFF_FFFF_FFFF_8000);
}

#[test]
fn sign_extend_ignores_bits_above_width() {
    assert_eq!(sign_extend::<8>(0x1234_5601), 0x01);
    assert_eq!(sign_extend::<4>(0xF8), 0xFFFF_FFFF_FFFF_FFF8);
}

#[test]
fn sign_extend_widest_and_narrowest() {
    assert_eq!(sign_extend::<64>(0x8000_0000_0000_0000), 0x8000_0000_0000_0000);
    assert_eq!(sign_extend::<1>(1), u64::MAX);
    assert_eq!(sign_extend::<1>(2), 0);
}

#[test]
fn add_unsigned_overflow() {
    let r = add(u64::MAX, 1, false);
    assert!(r.unsigned_overflow);
    assert!(!r.signed_overflow);
    assert_eq!(r.result, 0);
}

#[test]
fn add_signed_overflow_only() {
    let r = add(i64::MAX as u64, 1, false);
    assert!(r.signed_overflow);
    assert!(!r.unsigned_overflow);
    assert_eq!(r.result, 0x8000_0000_0000_0000);
}

#[test]
fn add_carry_brings_signed_sum_back_in_range() {
    // -2^63 + (-1) overflows, and the carry brings the sum back to -2^63.
    let r = add(i64::MIN as u64, u64::MAX, true);
    assert!(!r.signed_overflow);
    assert!(r.unsigned_overflow);
    assert_eq!(r.result, 0x8000_0000_0000_0000);
}

#[test]
fn add_carry_alone_overflows() {
    let r = add(u64::MAX, 0, true);
    assert!(r.unsigned_overflow);
    assert_eq!(r.result, 0);
    let r = add(2, 3, true);
    assert_eq!(r.result, 6);
    assert!(!r.unsigned_overflow && !r.signed_overflow);
}

#[test]
fn sub_borrow() {
    let r = sub(0, 1, false);
    assert!(r.unsigned_overflow);
    assert!(!r.signed_overflow);
    assert_eq!(r.result, u64::MAX);
    let r = sub(5, 3, true);
    assert_eq!(r.result, 1);
    assert!(!r.unsigned_overflow);
}

#[test]
fn sub_signed_overflow() {
    let r = sub(i64::MIN as u64, 1, false);
    assert!(r.signed_overflow);
    assert!(!r.unsigned_overflow);
    assert_eq!(r.result, i64::MAX as u64);
    // 2^63 - 1 - (-1) overflows, and the borrow brings it back to 2^63 - 1.
    let r = sub(i64::MAX as u64, u64::MAX, true);
    assert!(!r.signed_overflow);
    assert_eq!(r.result, i64::MAX as u64);
}

#[test]
fn idiv_overflow_is_absent() {
    assert_eq!(idiv(i64::MIN as u64, 0xFFFF_FFFF_FFFF_FFFF), None);
    assert_eq!(idiv(5, 0), None);
    assert_eq!(idiv(-7i64 as u64, 2), Some(-3i64 as u64));
}

#[test]
fn udiv_by_zero_is_absent() {
    for x in [0u64, 1, 7, u64::MAX] {
        assert_eq!(udiv(x, 0), None);
    }
    assert_eq!(udiv(u64::MAX, 2), Some(u64::MAX / 2));
}

#[test]
fn rem_truncates() {
    assert_eq!(rem(-7i64 as u64, 3), Some(-1i64 as u64));
    assert_eq!(rem(7, -3i64 as u64), Some(1));
    assert_eq!(rem(1, 0), None);
    assert_eq!(rem(i64::MIN as u64, u64::MAX), None);
}

#[test]
fn modulo_is_euclidean() {
    assert_eq!(modulo(-7i64 as u64, 3), Some(2));
    assert_eq!(modulo(-7i64 as u64, -3i64 as u64), Some(2));
    assert_eq!(modulo(7, 0), None);
    assert_eq!(modulo(i64::MIN as u64, u64::MAX), None);
}

#[test]
fn multiply_wraps() {
    assert_eq!(imul(-3i64 as u64, 4), -12i64 as u64);
    assert_eq!(imul(i64::MAX as u64, 2), -2i64 as u64);
    assert_eq!(umul(u64::MAX, 2), u64::MAX - 1);
    assert_eq!(umul(6, 7), 42);
}

#[test]
fn bitwise_operations() {
    assert_eq!(and(0b1100, 0b1010), 0b1000);
    assert_eq!(or(0b1100, 0b1010), 0b1110);
    assert_eq!(nor(0b1100, 0b1010), !0b1110u64);
    assert_eq!(xor(0b1100, 0b1010), 0b0110);
}

#[test]
fn shifts() {
    assert_eq!(shl(1, 4), 16);
    assert_eq!(shl(1, 65), 2);
    assert_eq!(shr(0x8000_0000_0000_0000, 63), 1);
    assert_eq!(asr(0x8000_0000_0000_0000, 63), u64::MAX);
    assert_eq!(asr(0x40, 2), 0x10);
}

#[test]
fn single_bit() {
    assert_eq!(bit(0b100, 2), 1);
    assert_eq!(bit(0b100, 1), 0);
    assert_eq!(bit(u64::MAX, 63), 1);
    assert_eq!(bit(u64::MAX, 64), 0);
}

#[test]
fn slice_read_and_write_u64() {
    let mut x: u64 = 0x1111_2222_3333_4444;
    assert_eq!(<u64 as BitAccess<u16>>::access::<2>(x), 0x2222);
    x.write::<1>(0xABCDu16);
    assert_eq!(x, 0x1111_2222_ABCD_4444);
    assert_eq!(<u16 as BitAccessTo<u64>>::access_to::<1>(x), 0xABCD);
    x.write::<7>(0xEEu8);
    assert_eq!(x, 0xEE11_2222_ABCD_4444);
    x.write::<0>(0x0123_4567_89AB_CDEFu64);
    assert_eq!(x, 0x0123_4567_89AB_CDEF);
    let low: u32 = x.access::<0>();
    assert_eq!(low, 0x89AB_CDEF);
}

#[test]
fn slice_read_and_write_narrow_containers() {
    let mut w: u32 = 0xAABB_CCDD;
    let b: u8 = w.access::<2>();
    assert_eq!(b, 0xBB);
    w.write::<1>(0x1234u16);
    assert_eq!(w, 0x1234_CCDD);
    let mut h: u16 = 0xAABB;
    h.write::<0>(0x11u8);
    assert_eq!(h, 0xAA11);
    let mut c: u8 = 0x5A;
    c.write::<0>(0xC3u8);
    assert_eq!(c, 0xC3);
}

#[test]
fn bit_read_and_write() {
    let mut x: u64 = 0;
    x.write::<63>(true);
    assert_eq!(x, 0x8000_0000_0000_0000);
    let top: bool = x.access::<63>();
    let below: bool = x.access::<62>();
    assert!(top);
    assert!(!below);
    x.write::<63>(false);
    assert_eq!(x, 0);
    let mut y: u8 = 0xFF;
    y.write::<0>(false);
    assert_eq!(y, 0xFE);
    let low: bool = y.access::<0>();
    assert!(!low);
}

#[test]
fn nibble_bits() {
    let mut n = Nibble::X0;
    n.write::<3>(true);
    assert_eq!(n, Nibble::X8);
    let set: bool = n.access::<3>();
    let clear: bool = n.access::<0>();
    assert!(set);
    assert!(!clear);
    n.write::<5>(true);
    assert_eq!(n, Nibble::X8);
    n.write::<4>(true);
    assert_eq!(n, Nibble::X8);
    n.write::<3>(false);
    assert_eq!(n, Nibble::X0);
}
