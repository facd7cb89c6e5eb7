//! Arithmetic and logic on 8- and 16-bit operands, with each flag derived as
//! a function of the operands and the result.
//!
//! Values travel in a `u16`; an operation of width 8 takes and gives values
//! below 256.
use vstd::prelude::*;
use crate::flags::Flags;

verus! {

/// 2 to the power of the operand width.
pub open spec fn modulus(wide: bool) -> int {
    if wide {
        0x1_0000
    } else {
        0x100
    }
}

/// The weight of the most significant bit.
pub open spec fn half(wide: bool) -> int {
    if wide {
        0x8000
    } else {
        0x80
    }
}

/// Whether `v` is a value of the width.
pub open spec fn fits(v: u16, wide: bool) -> bool {
    v < modulus(wide)
}

/// The two's-complement reading of `v`.
pub open spec fn signed(v: int, wide: bool) -> int {
    if v < half(wide) {
        v
    } else {
        v - modulus(wide)
    }
}

/// The bit of weight `weight` of `v`, as 0 or 1.
pub open spec fn bit(v: int, weight: int) -> int {
    (v / weight) % 2
}

/// Whether the low eight bits of `v` hold an even number of ones.
pub open spec fn parity_even(v: int) -> bool {
    (bit(v, 1) + bit(v, 2) + bit(v, 4) + bit(v, 8) + bit(v, 16) + bit(v, 32) + bit(v, 64) + bit(
        v,
        128,
    )) % 2 == 0
}

/// `f` with zero, sign and parity derived from the result `r`.
pub open spec fn result_flags(f: Flags, r: int, wide: bool) -> Flags {
    Flags { zero: r == 0, sign: r >= half(wide), parity: parity_even(r), ..f }
}

/// Result value and flags of an operation.
#[derive(Clone, Copy, Debug, PartialEq, Eq, Structural)]
pub struct Outcome {
    pub value: u16,
    pub flags: Flags,
}

pub open spec fn carry_in(cin: bool) -> int {
    if cin {
        1
    } else {
        0
    }
}

/// ADD and ADC: `a + b + cin`. CF is the carry out of the most significant
/// bit, AF the carry out of bit 3, OF says that the signed sum does not fit.
pub open spec fn spec_add(a: u16, b: u16, cin: bool, wide: bool, f: Flags) -> Outcome {
    let c = carry_in(cin);
    let sum = a + b + c;
    let r = sum % modulus(wide);
    let s = signed(a as int, wide) + signed(b as int, wide) + c;
    Outcome {
        value: r as u16,
        flags: Flags {
            carry: sum >= modulus(wide),
            adjust: a % 16 + b % 16 + c >= 16,
            overflow: s < -half(wide) || s >= half(wide),
            ..result_flags(f, r, wide)
        },
    }
}

/// SUB, SBB and CMP: `a - b - cin`. CF is the borrow into the most
/// significant bit, AF the borrow into bit 3, OF says that the signed
/// difference does not fit.
pub open spec fn spec_sub(a: u16, b: u16, cin: bool, wide: bool, f: Flags) -> Outcome {
    let c = carry_in(cin);
    let r = (a - b - c) % modulus(wide);
    let s = signed(a as int, wide) - signed(b as int, wide) - c;
    Outcome {
        value: r as u16,
        flags: Flags {
            carry: a < b + c,
            adjust: a % 16 < b % 16 + c,
            overflow: s < -half(wide) || s >= half(wide),
            ..result_flags(f, r, wide)
        },
    }
}

/// INC: as ADD of 1, but the carry flag is kept.
pub open spec fn spec_inc(a: u16, wide: bool, f: Flags) -> Outcome {
    let o = spec_add(a, 1, false, wide, f);
    Outcome { value: o.value, flags: Flags { carry: f.carry, ..o.flags } }
}

/// DEC: as SUB of 1, but the carry flag is kept.
pub open spec fn spec_dec(a: u16, wide: bool, f: Flags) -> Outcome {
    let o = spec_sub(a, 1, false, wide, f);
    Outcome { value: o.value, flags: Flags { carry: f.carry, ..o.flags } }
}

/// NEG: `0 - a`.
pub open spec fn spec_neg(a: u16, wide: bool, f: Flags) -> Outcome {
    spec_sub(0, a, false, wide, f)
}

/// The bitwise operations of two operands.
#[derive(Clone, Copy, Debug, PartialEq, Eq, Structural)]
pub enum Logic {
    And,
    Or,
    Xor,
}

/// The bitwise combination of `a` and `b`.
pub open spec fn combine(kind: Logic, a: u16, b: u16) -> u16 {
    match kind {
        Logic::And => a & b,
        Logic::Or => a | b,
        Logic::Xor => a ^ b,
    }
}

/// AND, OR, XOR and TEST: carry, overflow and adjust are cleared.
pub open spec fn spec_logic(kind: Logic, a: u16, b: u16, wide: bool, f: Flags) -> Outcome {
    let r = combine(kind, a, b);
    Outcome {
        value: r,
        flags: Flags {
            carry: false,
            overflow: false,
            adjust: false,
            ..result_flags(f, r as int, wide)
        },
    }
}

/// NOT: every bit of the width inverted; no flag changes.
pub open spec fn spec_not(a: u16, wide: bool) -> u16 {
    (modulus(wide) - 1 - a) as u16
}

/// The shifts and rotates.
#[derive(Clone, Copy, Debug, PartialEq, Eq, Structural)]
pub enum ShiftKind {
    Rol,
    Ror,
    Rcl,
    Rcr,
    Shl,
    Shr,
    Sar,
}

/// One step of a shift or rotate on value `v` with carry `c`: the new value
/// and the bit that left it, which is the new carry.
#[verifier::opaque]
pub open spec fn shift_step(kind: ShiftKind, v: int, c: bool, wide: bool) -> (int, bool) {
    let top = v >= half(wide);
    let low = v % 2 == 1;
    match kind {
        ShiftKind::Shl => ((v * 2) % modulus(wide), top),
        ShiftKind::Shr => (v / 2, low),
        ShiftKind::Sar => (v / 2 + if top {
            half(wide)
        } else {
            0
        }, low),
        ShiftKind::Rol => ((v * 2) % modulus(wide) + if top {
            1int
        } else {
            0
        }, top),
        ShiftKind::Ror => (v / 2 + if low {
            half(wide)
        } else {
            0
        }, low),
        ShiftKind::Rcl => ((v * 2) % modulus(wide) + carry_in(c), top),
        ShiftKind::Rcr => (v / 2 + if c {
            half(wide)
        } else {
            0
        }, low),
    }
}

/// `n` steps of a shift or rotate.
pub open spec fn shift_steps(kind: ShiftKind, v: int, c: bool, n: nat, wide: bool) -> (int, bool)
    decreases n,
{
    if n == 0 {
        (v, c)
    } else {
        let before = shift_steps(kind, v, c, (n - 1) as nat, wide);
        shift_step(kind, before.0, before.1, wide)
    }
}

/// Shift or rotate `a` by `count` modulo 32. A count of 0 changes nothing.
/// Otherwise CF is the last bit that left the operand; OF follows the rule
/// for a count of 1 whatever the count: for SHL, ROL and RCL the most
/// significant bit of the result XOR CF, for SHR the most significant bit of
/// the operand, for SAR 0, for ROR and RCR the XOR of the two most
/// significant bits of the result. The shifts also set zero, sign and parity.
pub open spec fn spec_shift(kind: ShiftKind, a: u16, count: u8, wide: bool, f: Flags) -> Outcome {
    let n = (count % 32) as nat;
    if n == 0 {
        Outcome { value: a, flags: f }
    } else {
        let (r, c) = shift_steps(kind, a as int, f.carry, n, wide);
        Outcome { value: r as u16, flags: shift_flags(kind, a, r, c, wide, f) }
    }
}

/// The flags after a shift or rotate of `a` by a count other than 0 that gave
/// `r` and the carry `c`.
pub open spec fn shift_flags(kind: ShiftKind, a: u16, r: int, c: bool, wide: bool, f: Flags) -> Flags {
    let msb = r >= half(wide);
    let next = bit(r, half(wide) / 2) == 1;
    let of = match kind {
        ShiftKind::Shl | ShiftKind::Rol | ShiftKind::Rcl => msb != c,
        ShiftKind::Shr => a >= half(wide),
        ShiftKind::Sar => false,
        ShiftKind::Ror | ShiftKind::Rcr => msb != next,
    };
    let base = Flags { carry: c, overflow: of, ..f };
    match kind {
        ShiftKind::Shl | ShiftKind::Shr | ShiftKind::Sar => result_flags(base, r, wide),
        _ => base,
    }
}

pub fn modulus_of(wide: bool) -> (r: u32)
    ensures
        r == modulus(wide),
{
    if wide {
        0x1_0000
    } else {
        0x100
    }
}

pub fn half_of(wide: bool) -> (r: u32)
    ensures
        r == half(wide),
{
    if wide {
        0x8000
    } else {
        0x80
    }
}

pub fn to_signed(v: u16, wide: bool) -> (r: i32)
    requires
        fits(v, wide),
    ensures
        r == signed(v as int, wide),
        -half(wide) <= r < half(wide),
{
    if (v as u32) < half_of(wide) {
        v as i32
    } else {
        v as i32 - modulus_of(wide) as i32
    }
}

fn bit_of(v: u32, weight: u32) -> (r: u32)
    requires
        weight > 0,
    ensures
        r == bit(v as int, weight as int),
        r <= 1,
{
    (v / weight) % 2
}

/// Even parity of the low byte.
pub fn parity(v: u16) -> (r: bool)
    ensures
        r == parity_even(v as int),
{
    let w: u32 = v as u32;
    let n: u32 = bit_of(w, 1) + bit_of(w, 2) + bit_of(w, 4) + bit_of(w, 8) + bit_of(w, 16)
        + bit_of(w, 32) + bit_of(w, 64) + bit_of(w, 128);
    n % 2 == 0
}

pub fn with_result_flags(f: Flags, r: u16, wide: bool) -> (g: Flags)
    ensures
        g == result_flags(f, r as int, wide),
{
    let mut g = f;
    g.zero = r == 0;
    g.sign = r as u32 >= half_of(wide);
    g.parity = parity(r);
    g
}

pub fn add_with_carry(a: u16, b: u16, cin: bool, wide: bool, f: Flags) -> (o: Outcome)
    requires
        fits(a, wide),
        fits(b, wide),
    ensures
        o == spec_add(a, b, cin, wide, f),
        fits(o.value, wide),
{
    let c: u32 = if cin {
        1
    } else {
        0
    };
    let m = modulus_of(wide);
    let sum: u32 = a as u32 + b as u32 + c;
    let r: u16 = (sum % m) as u16;
    let s: i32 = to_signed(a, wide) + to_signed(b, wide) + c as i32;
    let h: i32 = half_of(wide) as i32;
    let mut g = with_result_flags(f, r, wide);
    g.carry = sum >= m;
    g.adjust = (a % 16) as u32 + (b % 16) as u32 + c >= 16;
    g.overflow = s < -h || s >= h;
    Outcome { value: r, flags: g }
}

pub fn sub_with_borrow(a: u16, b: u16, cin: bool, wide: bool, f: Flags) -> (o: Outcome)
    requires
        fits(a, wide),
        fits(b, wide),
    ensures
        o == spec_sub(a, b, cin, wide, f),
        fits(o.value, wide),
{
    let c: u32 = if cin {
        1
    } else {
        0
    };
    let m = modulus_of(wide);
    let lifted: u32 = a as u32 + 2 * m - b as u32 - c;
    let r: u16 = (lifted % m) as u16;
    assert(r == (a - b - c) % modulus(wide)) by {
        vstd::arithmetic::div_mod::lemma_mod_multiples_vanish(2, a - b - c, modulus(wide));
    }
    let s: i32 = to_signed(a, wide) - to_signed(b, wide) - c as i32;
    let h: i32 = half_of(wide) as i32;
    let mut g = with_result_flags(f, r, wide);
    g.carry = (a as u32) < b as u32 + c;
    g.adjust = ((a % 16) as u32) < (b % 16) as u32 + c;
    g.overflow = s < -h || s >= h;
    Outcome { value: r, flags: g }
}

pub fn inc(a: u16, wide: bool, f: Flags) -> (o: Outcome)
    requires
        fits(a, wide),
    ensures
        o == spec_inc(a, wide, f),
        fits(o.value, wide),
{
    let mut o = add_with_carry(a, 1, false, wide, f);
    o.flags.carry = f.carry;
    o
}

pub fn dec(a: u16, wide: bool, f: Flags) -> (o: Outcome)
    requires
        fits(a, wide),
    ensures
        o == spec_dec(a, wide, f),
        fits(o.value, wide),
{
    let mut o = sub_with_borrow(a, 1, false, wide, f);
    o.flags.carry = f.carry;
    o
}

pub fn neg(a: u16, wide: bool, f: Flags) -> (o: Outcome)
    requires
        fits(a, wide),
    ensures
        o == spec_neg(a, wide, f),
        fits(o.value, wide),
{
    sub_with_borrow(0, a, false, wide, f)
}

pub fn logic(kind: Logic, a: u16, b: u16, wide: bool, f: Flags) -> (o: Outcome)
    requires
        fits(a, wide),
        fits(b, wide),
    ensures
        o == spec_logic(kind, a, b, wide, f),
        fits(o.value, wide),
{
    let r: u16 = match kind {
        Logic::And => a & b,
        Logic::Or => a | b,
        Logic::Xor => a ^ b,
    };
    assert(a < 0x100 && b < 0x100 ==> (a & b) < 0x100 && (a | b) < 0x100 && (a ^ b) < 0x100)
        by (bit_vector);
    let mut g = with_result_flags(f, r, wide);
    g.carry = false;
    g.overflow = false;
    g.adjust = false;
    Outcome { value: r, flags: g }
}

pub fn not(a: u16, wide: bool) -> (r: u16)
    requires
        fits(a, wide),
    ensures
        r == spec_not(a, wide),
        fits(r, wide),
{
    (modulus_of(wide) - 1 - a as u32) as u16
}

fn step(kind: ShiftKind, v: u16, c: bool, wide: bool) -> (r: (u16, bool))
    requires
        fits(v, wide),
    ensures
        (r.0 as int, r.1) == shift_step(kind, v as int, c, wide),
        fits(r.0, wide),
{
    reveal(shift_step);
    let m = modulus_of(wide);
    let h = half_of(wide);
    let x: u32 = v as u32;
    let top = x >= h;
    let low = x % 2 == 1;
    let doubled: u32 = (x * 2) % m;
    let halved: u32 = x / 2;
    match kind {
        ShiftKind::Shl => (doubled as u16, top),
        ShiftKind::Shr => (halved as u16, low),
        ShiftKind::Sar => ((halved + if top {
            h
        } else {
            0
        }) as u16, low),
        ShiftKind::Rol => ((doubled + if top {
            1
        } else {
            0
        }) as u16, top),
        ShiftKind::Ror => ((halved + if low {
            h
        } else {
            0
        }) as u16, low),
        ShiftKind::Rcl => ((doubled + if c {
            1
        } else {
            0
        }) as u16, top),
        ShiftKind::Rcr => ((halved + if c {
            h
        } else {
            0
        }) as u16, low),
    }
}

fn flags_after_shift(kind: ShiftKind, a: u16, r: u16, c: bool, wide: bool, f: Flags) -> (g: Flags)
    ensures
        g == shift_flags(kind, a, r as int, c, wide, f),
{
    let h = half_of(wide);
    let msb = r as u32 >= h;
    let next = bit_of(r as u32, h / 2) == 1;
    let of = match kind {
        ShiftKind::Shl | ShiftKind::Rol | ShiftKind::Rcl => msb != c,
        ShiftKind::Shr => a as u32 >= h,
        ShiftKind::Sar => false,
        ShiftKind::Ror | ShiftKind::Rcr => msb != next,
    };
    let mut base = f;
    base.carry = c;
    base.overflow = of;
    match kind {
        ShiftKind::Shl | ShiftKind::Shr | ShiftKind::Sar => with_result_flags(base, r, wide),
        _ => base,
    }
}

pub fn shift(kind: ShiftKind, a: u16, count: u8, wide: bool, f: Flags) -> (o: Outcome)
    requires
        fits(a, wide),
    ensures
        o == spec_shift(kind, a, count, wide, f),
        fits(o.value, wide),
{
    let n: u8 = count % 32;
    if n == 0 {
        return Outcome { value: a, flags: f };
    }
    let mut v: u16 = a;
    let mut c: bool = f.carry;
    let mut i: u8 = 0;
    while i < n
        invariant
            i <= n,
            fits(v, wide),
            (v as int, c) == shift_steps(kind, a as int, f.carry, i as nat, wide),
        decreases n - i,
    {
        let r = step(kind, v, c, wide);
        v = r.0;
        c = r.1;
        i += 1;
    }
    Outcome { value: v, flags: flags_after_shift(kind, a, v, c, wide, f) }
}

} // verus!
