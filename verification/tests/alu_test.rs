use dustbox::alu::{
    add_with_carry, dec, inc, logic, neg, not, parity, shift, sub_with_borrow, Logic, ShiftKind,
};
use dustbox::bits::{bit_scan, bit_test, double_shift};
use dustbox::flags::Flags;
use dustbox::muldiv::{
    aaa, aad, aam, aas, daa, das, divide, divide_signed, multiply, multiply_signed, sign_fill_of,
};

// the derivations of a reference emulator, written with bit operations

fn ref_parity(r: u32) -> bool {
    (r & 0xFF).count_ones() % 2 == 0
}

fn check_add(a: u32, b: u32, c: u32, wide: bool) {
    let bits = if wide { 16 } else { 8 };
    let mask = (1u32 << bits) - 1;
    let sign = 1u32 << (bits - 1);
    let full = a + b + c;
    let r = full & mask;
    let o = add_with_carry(a as u16, b as u16, c == 1, wide, Flags::new());
    assert_eq!(r as u16, o.value);
    assert_eq!(full > mask, o.flags.carry, "CF {:x}+{:x}+{}", a, b, c);
    assert_eq!(((a ^ r) & (b ^ r) & sign) != 0, o.flags.overflow, "OF {:x}+{:x}+{}", a, b, c);
    assert_eq!(((a ^ b ^ r) & 0x10) != 0, o.flags.adjust, "AF {:x}+{:x}+{}", a, b, c);
    assert_eq!(r == 0, o.flags.zero);
    assert_eq!(r & sign != 0, o.flags.sign);
    assert_eq!(ref_parity(r), o.flags.parity);
}

fn check_sub(a: u32, b: u32, c: u32, wide: bool) {
    let bits = if wide { 16 } else { 8 };
    let mask = (1u32 << bits) - 1;
    let sign = 1u32 << (bits - 1);
    let r = a.wrapping_sub(b).wrapping_sub(c) & mask;
    let o = sub_with_borrow(a as u16, b as u16, c == 1, wide, Flags::new());
    assert_eq!(r as u16, o.value);
    assert_eq!(a < b + c, o.flags.carry, "CF {:x}-{:x}-{}", a, b, c);
    assert_eq!(((a ^ b) & (a ^ r) & sign) != 0, o.flags.overflow, "OF {:x}-{:x}-{}", a, b, c);
    assert_eq!(((a ^ b ^ r) & 0x10) != 0, o.flags.adjust, "AF {:x}-{:x}-{}", a, b, c);
    assert_eq!(r == 0, o.flags.zero);
    assert_eq!(r & sign != 0, o.flags.sign);
    assert_eq!(ref_parity(r), o.flags.parity);
}

#[test]
fn add_and_sub_flags_match_reference_on_all_bytes() {
    for a in 0..256u32 {
        for b in 0..256u32 {
            for c in 0..2u32 {
                check_add(a, b, c, false);
                check_sub(a, b, c, false);
            }
        }
    }
}

#[test]
fn add_and_sub_flags_match_reference_on_a_million_words() {
    // a fixed pseudo-random sequence
    let mut x: u64 = 0x2545_F491_4F6C_DD1D;
    let mut n = 0;
    while n < 1_000_000 {
        x ^= x << 13;
        x ^= x >> 7;
        x ^= x << 17;
        let a = (x & 0xFFFF) as u32;
        let b = ((x >> 16) & 0xFFFF) as u32;
        let c = ((x >> 32) & 1) as u32;
        if (x >> 33) & 1 == 0 {
            check_add(a, b, c, true);
        } else {
            check_sub(a, b, c, true);
        }
        n += 1;
    }
    for (a, b) in [(0u32, 0u32), (0xFFFF, 1), (0x7FFF, 1), (0x8000, 0x8000), (0, 0xFFFF), (0x8000, 1)] {
        for c in 0..2 {
            check_add(a, b, c, true);
            check_sub(a, b, c, true);
        }
    }
}

#[test]
fn add_0x7f_and_1() {
    let o = add_with_carry(0x7F, 0x01, false, false, Flags::new());
    assert_eq!(0x80, o.value);
    assert!(!o.flags.carry);
    assert!(o.flags.sign);
    assert!(!o.flags.zero);
    assert!(o.flags.overflow);
    assert!(!o.flags.parity);
    assert!(o.flags.adjust);
}

#[test]
fn inc_and_dec_keep_carry() {
    let mut f = Flags::new();
    f.carry = true;
    let o = inc(0xFF, false, f);
    assert_eq!(0x00, o.value);
    assert!(o.flags.carry && o.flags.zero && o.flags.adjust && !o.flags.overflow);
    let o = inc(0x7FFF, true, Flags::new());
    assert_eq!(0x8000, o.value);
    assert!(!o.flags.carry && o.flags.overflow && o.flags.sign);
    let o = dec(0x00, false, Flags::new());
    assert_eq!(0xFF, o.value);
    assert!(!o.flags.carry && o.flags.sign && o.flags.adjust && !o.flags.overflow);
    let o = dec(0x8000, true, f);
    assert_eq!(0x7FFF, o.value);
    assert!(o.flags.carry && o.flags.overflow && !o.flags.sign);
}

#[test]
fn neg_and_not() {
    let o = neg(0x01, false, Flags::new());
    assert_eq!(0xFF, o.value);
    assert!(o.flags.carry && o.flags.sign && !o.flags.overflow);
    let o = neg(0x00, false, Flags::new());
    assert_eq!(0x00, o.value);
    assert!(!o.flags.carry && o.flags.zero);
    let o = neg(0x80, false, Flags::new());
    assert_eq!(0x80, o.value);
    assert!(o.flags.carry && o.flags.overflow);
    let o = neg(0x8000, true, Flags::new());
    assert_eq!(0x8000, o.value);
    assert!(o.flags.overflow);
    assert_eq!(0x5A, not(0xA5, false));
    assert_eq!(0xFF, not(0x00, false));
    assert_eq!(0x00FF, not(0xFF00, true));
}

#[test]
fn logic_clears_carry_and_overflow() {
    let mut f = Flags::new();
    f.carry = true;
    f.overflow = true;
    f.adjust = true;
    let o = logic(Logic::And, 0xF0, 0x3C, false, f);
    assert_eq!(0x30, o.value);
    assert!(!o.flags.carry && !o.flags.overflow && !o.flags.adjust && o.flags.parity);
    let o = logic(Logic::Or, 0xF000, 0x000F, true, f);
    assert_eq!(0xF00F, o.value);
    assert!(o.flags.sign && !o.flags.zero);
    let o = logic(Logic::Xor, 0x1234, 0x1234, true, f);
    assert_eq!(0, o.value);
    assert!(o.flags.zero && o.flags.parity);
    for v in 0..=255u16 {
        assert_eq!((v as u8).count_ones() % 2 == 0, parity(v));
        assert_eq!(parity(v), parity(v | 0xAB00));
    }
}

#[test]
fn shifts_by_one() {
    let f = Flags::new();
    let o = shift(ShiftKind::Shl, 0x81, 1, false, f);
    assert_eq!(0x02, o.value);
    assert!(o.flags.carry && o.flags.overflow && !o.flags.sign);
    let o = shift(ShiftKind::Shl, 0x40, 1, false, f);
    assert_eq!(0x80, o.value);
    assert!(!o.flags.carry && o.flags.overflow && o.flags.sign);
    let o = shift(ShiftKind::Shr, 0x81, 1, false, f);
    assert_eq!(0x40, o.value);
    assert!(o.flags.carry && o.flags.overflow);
    let o = shift(ShiftKind::Shr, 0x01, 1, false, f);
    assert_eq!(0x00, o.value);
    assert!(o.flags.carry && !o.flags.overflow && o.flags.zero);
    let o = shift(ShiftKind::Sar, 0x81, 1, false, f);
    assert_eq!(0xC0, o.value);
    assert!(o.flags.carry && !o.flags.overflow && o.flags.sign);
    let o = shift(ShiftKind::Sar, 0x8000, 1, true, f);
    assert_eq!(0xC000, o.value);
    assert!(!o.flags.carry);
}

#[test]
fn rotates() {
    let f = Flags::new();
    let o = shift(ShiftKind::Rol, 0x81, 1, false, f);
    assert_eq!(0x03, o.value);
    assert!(o.flags.carry && o.flags.overflow);
    let o = shift(ShiftKind::Ror, 0x01, 1, false, f);
    assert_eq!(0x80, o.value);
    assert!(o.flags.carry && o.flags.overflow);
    let o = shift(ShiftKind::Ror, 0x8001, 4, true, f);
    assert_eq!(0x1800, o.value);
    assert!(!o.flags.carry);
    let mut c = Flags::new();
    c.carry = true;
    let o = shift(ShiftKind::Rcl, 0x80, 1, false, c);
    assert_eq!(0x01, o.value);
    assert!(o.flags.carry && o.flags.overflow);
    let o = shift(ShiftKind::Rcr, 0x01, 1, false, c);
    assert_eq!(0x80, o.value);
    assert!(o.flags.carry && o.flags.overflow);
    // nine steps through the carry bring a byte back
    let o = shift(ShiftKind::Rcl, 0xA5, 9, false, c);
    assert_eq!(0xA5, o.value);
    assert!(o.flags.carry);
    // rotates leave zero, sign and parity alone
    let mut z = Flags::new();
    z.zero = true;
    let o = shift(ShiftKind::Rol, 0x80, 1, false, z);
    assert!(o.flags.zero);
}

#[test]
fn shift_counts() {
    let mut f = Flags::new();
    f.carry = true;
    f.overflow = true;
    // a count of 0 changes nothing, and the count is taken modulo 32
    let o = shift(ShiftKind::Shl, 0x12, 0, false, f);
    assert_eq!(0x12, o.value);
    assert_eq!(f, o.flags);
    let o = shift(ShiftKind::Shl, 0x12, 32, false, f);
    assert_eq!(0x12, o.value);
    assert_eq!(f, o.flags);
    let o = shift(ShiftKind::Shl, 0x01, 33, false, Flags::new());
    assert_eq!(0x02, o.value);
    let o = shift(ShiftKind::Shl, 0xFF, 8, false, Flags::new());
    assert_eq!(0x00, o.value);
    assert!(o.flags.carry && o.flags.zero);
    let o = shift(ShiftKind::Shl, 0xFF, 9, false, Flags::new());
    assert_eq!(0x00, o.value);
    assert!(!o.flags.carry);
    let o = shift(ShiftKind::Shr, 0x8000, 15, true, Flags::new());
    assert_eq!(0x0001, o.value);
    assert!(!o.flags.carry && o.flags.overflow);
    let o = shift(ShiftKind::Sar, 0x80, 7, false, Flags::new());
    assert_eq!(0xFF, o.value);
    assert!(!o.flags.carry && !o.flags.overflow);
    let o = shift(ShiftKind::Shl, 0x1234, 4, true, Flags::new());
    assert_eq!(0x2340, o.value);
    assert!(o.flags.carry);
}

#[test]
fn multiplication() {
    let f = Flags::new();
    let p = multiply(0x10, 0x10, false, f);
    assert_eq!((0x00, 0x01), (p.low, p.high));
    assert!(p.flags.carry && p.flags.overflow);
    let p = multiply(0x0F, 0x0F, false, f);
    assert_eq!((0xE1, 0x00), (p.low, p.high));
    assert!(!p.flags.carry && !p.flags.overflow);
    let p = multiply(0xFFFF, 0xFFFF, true, f);
    assert_eq!((0x0001, 0xFFFE), (p.low, p.high));
    let p = multiply_signed(0xFF, 0xFF, false, f);
    assert_eq!((0x01, 0x00), (p.low, p.high));
    assert!(!p.flags.carry);
    let p = multiply_signed(0xFF, 0x02, false, f);
    assert_eq!((0xFE, 0xFF), (p.low, p.high));
    assert!(!p.flags.carry);
    let p = multiply_signed(0x80, 0x02, false, f);
    assert_eq!((0x00, 0xFF), (p.low, p.high));
    assert!(p.flags.carry && p.flags.overflow);
    let p = multiply_signed(0x8000, 0x8000, true, f);
    assert_eq!((0x0000, 0x4000), (p.low, p.high));
    assert!(p.flags.carry);
    let p = multiply_signed(0xFFFE, 0x0003, true, f);
    assert_eq!((0xFFFA, 0xFFFF), (p.low, p.high));
    assert!(!p.flags.carry);
}

#[test]
fn division() {
    assert_eq!(None, divide(100, 0, false));
    assert_eq!(None, divide(0x1000, 0x10, false));
    let q = divide(0x0FFF, 0x10, false).unwrap();
    assert_eq!((0xFF, 0x0F), (q.quotient, q.remainder));
    let q = divide(0xFFFF_FFFE, 0xFFFF, true);
    assert_eq!(None, q);
    let q = divide(0x0001_0000, 0x0002, true).unwrap();
    assert_eq!((0x8000, 0), (q.quotient, q.remainder));
    assert_eq!(None, divide_signed(5, 0, false));
    // -7 / 2 = -3 remainder -1: rounding is toward zero
    let q = divide_signed(-7, 0x02, false).unwrap();
    assert_eq!((0xFD, 0xFF), (q.quotient, q.remainder));
    let q = divide_signed(7, 0xFE, false).unwrap();
    assert_eq!((0xFD, 0x01), (q.quotient, q.remainder));
    // 128 does not fit a signed byte, -128 does
    assert_eq!(None, divide_signed(128, 0x01, false));
    let q = divide_signed(-128, 0x01, false).unwrap();
    assert_eq!((0x80, 0x00), (q.quotient, q.remainder));
    assert_eq!(None, divide_signed(-32768 * 2, 0x0001, true));
    let q = divide_signed(-100_000, 0x0064, true).unwrap();
    assert_eq!((0xFC18, 0), (q.quotient, q.remainder));
}

#[test]
fn decimal_adjustments() {
    let f = Flags::new();
    // 9 + 8 = 0x11 -> 17
    let r = aaa(0x11, 0x00, {
        let mut g = f;
        g.adjust = true;
        g
    });
    assert_eq!((0x07, 0x01), (r.al, r.ah));
    assert!(r.flags.carry && r.flags.adjust);
    let r = aaa(0x05, 0x02, f);
    assert_eq!((0x05, 0x02), (r.al, r.ah));
    assert!(!r.flags.carry);
    let r = aas(0xFF, 0x02, f);
    assert_eq!((0x09, 0x01), (r.al, r.ah));
    assert!(r.flags.carry);
    let r = aam(123, 10, f);
    assert_eq!((3, 12), (r.al, r.ah));
    let r = aad(3, 12, 10, f);
    assert_eq!((123, 0), (r.al, r.ah));
    let r = aad(0xFF, 0xFF, 0xFF, f);
    assert_eq!(0, r.ah);
    assert_eq!(((0xFFu32 + 0xFF * 0xFF) & 0xFF) as u8, r.al);
    // 0x79 + 0x35 = 0xAE -> 0x14 with carry
    let r = daa(0xAE, 0, f);
    assert_eq!(0x14, r.al);
    assert!(r.flags.carry && r.flags.adjust);
    let r = daa(0x12, 0, f);
    assert_eq!(0x12, r.al);
    assert!(!r.flags.carry && !r.flags.adjust);
    // 0x35 - 0x47 = 0xEE -> 0x88 with borrow
    let mut b = f;
    b.carry = true;
    b.adjust = true;
    let r = das(0xEE, 0, b);
    assert_eq!(0x88, r.al);
    assert!(r.flags.carry && r.flags.adjust);
}

#[test]
fn sign_fill() {
    assert_eq!(0x00, sign_fill_of(0x7F, false));
    assert_eq!(0xFF, sign_fill_of(0x80, false));
    assert_eq!(0x0000, sign_fill_of(0x7FFF, true));
    assert_eq!(0xFFFF, sign_fill_of(0x8000, true));
}

#[test]
fn bit_operations() {
    let f = Flags::new();
    let o = bit_test(0x0004, 2, false, f);
    assert!(o.flags.carry);
    assert_eq!(0x0004, o.value);
    let o = bit_test(0x0004, 3, true, f);
    assert!(!o.flags.carry);
    assert_eq!(0x000C, o.value);
    let o = bit_test(0x8000, 31, true, f);
    assert!(o.flags.carry);
    assert_eq!(0x8000, o.value);
    let o = bit_test(0x7FFF, 15, true, f);
    assert_eq!(0xFFFF, o.value);
    assert_eq!(0, bit_scan(0x0001));
    assert_eq!(4, bit_scan(0x0010));
    assert_eq!(15, bit_scan(0x8000));
    assert_eq!(3, bit_scan(0xFFF8));
    // shld ax, dx, 4
    let o = double_shift(0x1234, 0xABCD, 4, true, f);
    assert_eq!(0x234A, o.value);
    assert!(o.flags.carry);
    let o = double_shift(0x1234, 0xABCD, 4, false, f);
    assert_eq!(0xD123, o.value);
    assert!(!o.flags.carry);
    let o = double_shift(0x1234, 0xABCD, 16, true, f);
    assert_eq!(0xABCD, o.value);
    let o = double_shift(0x1234, 0xABCD, 0, true, f);
    assert_eq!(0x1234, o.value);
    assert_eq!(f, o.flags);
    let o = double_shift(0x1234, 0xABCD, 17, false, f);
    assert_eq!(0x1234, o.value);
    let o = double_shift(0x8000, 0x0000, 1, true, f);
    assert_eq!(0x0000, o.value);
    assert!(o.flags.carry && o.flags.overflow && o.flags.zero);
}
