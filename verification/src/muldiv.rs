//! Multiplication, division and the decimal adjustments.
use vstd::prelude::*;
use crate::alu::{
    fits, half, half_of, modulus, modulus_of, result_flags, signed, to_signed, with_result_flags,
};
use crate::flags::Flags;

verus! {

/// A double-width result: the low half, the high half, and the flags.
#[derive(Clone, Copy, Debug, PartialEq, Eq, Structural)]
pub struct Product {
    pub low: u16,
    pub high: u16,
    pub flags: Flags,
}

/// MUL: the unsigned product of `a` and `b`, split in halves of the operand
/// width. CF and OF say that the high half is not 0.
pub open spec fn spec_mul(a: u16, b: u16, wide: bool, f: Flags) -> Product {
    let p = a * b;
    let high = p / modulus(wide);
    Product {
        low: (p % modulus(wide)) as u16,
        high: high as u16,
        flags: Flags { carry: high != 0, overflow: high != 0, ..f },
    }
}

/// IMUL: the signed product of `a` and `b` in two's complement of twice the
/// operand width, split in halves. CF and OF say that the product does not
/// fit the operand width.
pub open spec fn spec_imul(a: u16, b: u16, wide: bool, f: Flags) -> Product {
    let p = signed(a as int, wide) * signed(b as int, wide);
    let double = p % (modulus(wide) * modulus(wide));
    let lost = p < -half(wide) || p >= half(wide);
    Product {
        low: (double % modulus(wide)) as u16,
        high: (double / modulus(wide)) as u16,
        flags: Flags { carry: lost, overflow: lost, ..f },
    }
}

/// Quotient and remainder of a division, each of the operand width.
#[derive(Clone, Copy, Debug, PartialEq, Eq, Structural)]
pub struct Quotient {
    pub quotient: u16,
    pub remainder: u16,
}

/// DIV: `dividend` by `divisor`, unsigned. There is no result when the
/// divisor is 0 or the quotient does not fit the operand width.
pub open spec fn spec_div(dividend: u32, divisor: u16, wide: bool) -> Option<Quotient> {
    if divisor == 0 || dividend / (divisor as u32) >= modulus(wide) {
        None
    } else {
        Some(
            Quotient {
                quotient: (dividend / (divisor as u32)) as u16,
                remainder: (dividend % (divisor as u32)) as u16,
            },
        )
    }
}

pub open spec fn magnitude(v: int) -> int {
    if v < 0 {
        -v
    } else {
        v
    }
}

/// The quotient of `n` by `d` rounded toward zero.
pub open spec fn trunc_div(n: int, d: int) -> int {
    if (n < 0) != (d < 0) {
        -(magnitude(n) / magnitude(d))
    } else {
        magnitude(n) / magnitude(d)
    }
}

/// The remainder that goes with `trunc_div`: it has the sign of `n`.
pub open spec fn trunc_rem(n: int, d: int) -> int {
    if n < 0 {
        -(magnitude(n) % magnitude(d))
    } else {
        magnitude(n) % magnitude(d)
    }
}

/// IDIV: the signed `dividend` by the signed reading of `divisor`, rounding
/// toward zero. There is no result when the divisor is 0 or the quotient
/// does not fit the operand width as a signed number.
pub open spec fn spec_idiv(dividend: int, divisor: u16, wide: bool) -> Option<Quotient> {
    let d = signed(divisor as int, wide);
    if d == 0 {
        None
    } else {
        let q = trunc_div(dividend, d);
        let r = trunc_rem(dividend, d);
        if q < -half(wide) || q >= half(wide) {
            None
        } else {
            Some(
                Quotient {
                    quotient: (q % modulus(wide)) as u16,
                    remainder: (r % modulus(wide)) as u16,
                },
            )
        }
    }
}

/// AL, AH and the flags after a decimal adjustment.
#[derive(Clone, Copy, Debug, PartialEq, Eq, Structural)]
pub struct Adjusted {
    pub al: u8,
    pub ah: u8,
    pub flags: Flags,
}

/// AAA: if the low digit of AL is above 9 or AF is set, 6 is added to AL and
/// 1 to AH, and AF and CF are set; otherwise both are cleared. The high digit
/// of AL is cleared.
pub open spec fn spec_aaa(al: u8, ah: u8, f: Flags) -> Adjusted {
    if al % 16 > 9 || f.adjust {
        Adjusted {
            al: ((al + 6) % 16) as u8,
            ah: ((ah + 1) % 256) as u8,
            flags: Flags { adjust: true, carry: true, ..f },
        }
    } else {
        Adjusted { al: (al % 16) as u8, ah, flags: Flags { adjust: false, carry: false, ..f } }
    }
}

/// AAS: as AAA, with 6 taken from AL and 1 from AH.
pub open spec fn spec_aas(al: u8, ah: u8, f: Flags) -> Adjusted {
    if al % 16 > 9 || f.adjust {
        Adjusted {
            al: ((al - 6) % 16) as u8,
            ah: ((ah - 1) % 256) as u8,
            flags: Flags { adjust: true, carry: true, ..f },
        }
    } else {
        Adjusted { al: (al % 16) as u8, ah, flags: Flags { adjust: false, carry: false, ..f } }
    }
}

/// AAM: AH is AL divided by `base`, AL the remainder; zero, sign and parity
/// follow AL. `base` is not 0.
pub open spec fn spec_aam(al: u8, base: u8, f: Flags) -> Adjusted {
    Adjusted {
        al: (al % base) as u8,
        ah: (al / base) as u8,
        flags: result_flags(f, (al % base) as int, false),
    }
}

/// AAD: AL becomes AL + AH * `base` modulo 256 and AH 0; zero, sign and
/// parity follow AL.
pub open spec fn spec_aad(al: u8, ah: u8, base: u8, f: Flags) -> Adjusted {
    let r = (al + ah * base) % 256;
    Adjusted { al: r as u8, ah: 0, flags: result_flags(f, r, false) }
}

/// DAA: adjusts AL after the addition of two packed decimal numbers.
pub open spec fn spec_daa(al: u8, ah: u8, f: Flags) -> Adjusted {
    let low = al % 16 > 9 || f.adjust;
    let al1 = if low {
        (al + 6) % 256
    } else {
        al as int
    };
    let high = al > 0x99 || f.carry;
    let al2 = if high {
        (al1 + 0x60) % 256
    } else {
        al1
    };
    Adjusted {
        al: al2 as u8,
        ah,
        flags: result_flags(Flags { adjust: low, carry: high, ..f }, al2, false),
    }
}

/// DAS: adjusts AL after the subtraction of two packed decimal numbers.
pub open spec fn spec_das(al: u8, ah: u8, f: Flags) -> Adjusted {
    let low = al % 16 > 9 || f.adjust;
    let al1 = if low {
        (al - 6) % 256
    } else {
        al as int
    };
    let high = al > 0x99 || f.carry;
    let al2 = if high {
        (al1 - 0x60) % 256
    } else {
        al1
    };
    Adjusted {
        al: al2 as u8,
        ah,
        flags: result_flags(
            Flags { adjust: low, carry: high || (low && al < 6), ..f },
            al2,
            false,
        ),
    }
}

/// The upper half of the sign extension of `v`: all ones for a negative
/// value, else 0.
pub open spec fn sign_fill(v: u16, wide: bool) -> u16 {
    if v >= half(wide) {
        (modulus(wide) - 1) as u16
    } else {
        0
    }
}

pub fn multiply(a: u16, b: u16, wide: bool, f: Flags) -> (r: Product)
    requires
        fits(a, wide),
        fits(b, wide),
    ensures
        r == spec_mul(a, b, wide, f),
        fits(r.low, wide),
        fits(r.high, wide),
{
    let m = modulus_of(wide);
    assert(a * b <= (modulus(wide) - 1) * (modulus(wide) - 1)) by (nonlinear_arith)
        requires
            0 <= a <= modulus(wide) - 1,
            0 <= b <= modulus(wide) - 1,
    ;
    let p: u32 = a as u32 * b as u32;
    let high: u32 = p / m;
    let mut g = f;
    g.carry = high != 0;
    g.overflow = high != 0;
    Product { low: (p % m) as u16, high: high as u16, flags: g }
}

pub fn multiply_signed(a: u16, b: u16, wide: bool, f: Flags) -> (r: Product)
    requires
        fits(a, wide),
        fits(b, wide),
    ensures
        r == spec_imul(a, b, wide, f),
        fits(r.low, wide),
        fits(r.high, wide),
{
    let m: i64 = modulus_of(wide) as i64;
    let h: i64 = half_of(wide) as i64;
    let sa: i64 = to_signed(a, wide) as i64;
    let sb: i64 = to_signed(b, wide) as i64;
    assert(-0x4000_0000 <= sa * sb <= 0x4000_0000) by (nonlinear_arith)
        requires
            -0x8000 <= sa < 0x8000,
            -0x8000 <= sb < 0x8000,
    ;
    let p: i64 = sa * sb;
    let square: i64 = m * m;
    let lifted: i64 = p + 0x1_0000_0000;
    let double: i64 = lifted % square;
    assert(double == (p as int) % (modulus(wide) * modulus(wide))) by {
        if wide {
            vstd::arithmetic::div_mod::lemma_mod_multiples_vanish(1, p as int, 0x1_0000_0000);
        } else {
            vstd::arithmetic::div_mod::lemma_mod_multiples_vanish(0x1_0000, p as int, 0x1_0000);
        }
    }
    let lost = p < -h || p >= h;
    let mut g = f;
    g.carry = lost;
    g.overflow = lost;
    Product { low: (double % m) as u16, high: (double / m) as u16, flags: g }
}

pub fn divide(dividend: u32, divisor: u16, wide: bool) -> (r: Option<Quotient>)
    ensures
        r == spec_div(dividend, divisor, wide),
        r is Some ==> fits(r->0.quotient, wide) && r->0.remainder < divisor,
{
    if divisor == 0 {
        return None;
    }
    let q: u32 = dividend / divisor as u32;
    if q >= modulus_of(wide) {
        None
    } else {
        Some(Quotient { quotient: q as u16, remainder: (dividend % divisor as u32) as u16 })
    }
}

pub fn divide_signed(dividend: i32, divisor: u16, wide: bool) -> (r: Option<Quotient>)
    requires
        fits(divisor, wide),
    ensures
        r == spec_idiv(dividend as int, divisor, wide),
        r is Some ==> fits(r->0.quotient, wide) && fits(r->0.remainder, wide),
{
    let d: i64 = to_signed(divisor, wide) as i64;
    if d == 0 {
        return None;
    }
    let n: i64 = dividend as i64;
    let na: i64 = if n < 0 {
        -n
    } else {
        n
    };
    let da: i64 = if d < 0 {
        -d
    } else {
        d
    };
    let qa: i64 = na / da;
    let ra: i64 = na % da;
    let q: i64 = if (n < 0) != (d < 0) {
        -qa
    } else {
        qa
    };
    let r: i64 = if n < 0 {
        -ra
    } else {
        ra
    };
    let h: i64 = half_of(wide) as i64;
    let m: i64 = modulus_of(wide) as i64;
    if q < -h || q >= h {
        None
    } else {
        assert(ra < da);
        assert(-m < r < m);
        let qm: i64 = (q + m) % m;
        let rm: i64 = (r + m) % m;
        assert(qm == (q as int) % modulus(wide) && rm == (r as int) % modulus(wide)) by {
            vstd::arithmetic::div_mod::lemma_mod_multiples_vanish(1, q as int, modulus(wide));
            vstd::arithmetic::div_mod::lemma_mod_multiples_vanish(1, r as int, modulus(wide));
        }
        Some(Quotient { quotient: qm as u16, remainder: rm as u16 })
    }
}

pub fn aaa(al: u8, ah: u8, f: Flags) -> (r: Adjusted)
    ensures
        r == spec_aaa(al, ah, f),
{
    let mut g = f;
    if al % 16 > 9 || f.adjust {
        g.adjust = true;
        g.carry = true;
        Adjusted { al: ((al as u16 + 6) % 16) as u8, ah: ((ah as u16 + 1) % 256) as u8, flags: g }
    } else {
        g.adjust = false;
        g.carry = false;
        Adjusted { al: al % 16, ah, flags: g }
    }
}

pub fn aas(al: u8, ah: u8, f: Flags) -> (r: Adjusted)
    ensures
        r == spec_aas(al, ah, f),
{
    let mut g = f;
    if al % 16 > 9 || f.adjust {
        g.adjust = true;
        g.carry = true;
        let low: u16 = (al as u16 + 256 - 6) % 16;
        let hi: u16 = (ah as u16 + 256 - 1) % 256;
        assert(low == (al - 6) % 16) by {
            vstd::arithmetic::div_mod::lemma_mod_multiples_vanish(16, al - 6, 16);
        }
        assert(hi == (ah - 1) % 256) by {
            vstd::arithmetic::div_mod::lemma_mod_multiples_vanish(1, ah - 1, 256);
        }
        Adjusted { al: low as u8, ah: hi as u8, flags: g }
    } else {
        g.adjust = false;
        g.carry = false;
        Adjusted { al: al % 16, ah, flags: g }
    }
}

pub fn aam(al: u8, base: u8, f: Flags) -> (r: Adjusted)
    requires
        base != 0,
    ensures
        r == spec_aam(al, base, f),
{
    let low: u8 = al % base;
    Adjusted { al: low, ah: al / base, flags: with_result_flags(f, low as u16, false) }
}

pub fn aad(al: u8, ah: u8, base: u8, f: Flags) -> (r: Adjusted)
    ensures
        r == spec_aad(al, ah, base, f),
{
    assert(ah * base <= 255 * 255) by (nonlinear_arith)
        requires
            0 <= ah <= 255,
            0 <= base <= 255,
    ;
    let v: u32 = (al as u32 + ah as u32 * base as u32) % 256;
    Adjusted { al: v as u8, ah: 0, flags: with_result_flags(f, v as u16, false) }
}

pub fn daa(al: u8, ah: u8, f: Flags) -> (r: Adjusted)
    ensures
        r == spec_daa(al, ah, f),
{
    let low = al % 16 > 9 || f.adjust;
    let al1: u16 = if low {
        (al as u16 + 6) % 256
    } else {
        al as u16
    };
    let high = al > 0x99 || f.carry;
    let al2: u16 = if high {
        (al1 + 0x60) % 256
    } else {
        al1
    };
    let mut g = f;
    g.adjust = low;
    g.carry = high;
    Adjusted { al: al2 as u8, ah, flags: with_result_flags(g, al2, false) }
}

pub fn das(al: u8, ah: u8, f: Flags) -> (r: Adjusted)
    ensures
        r == spec_das(al, ah, f),
{
    let low = al % 16 > 9 || f.adjust;
    let al1: u16 = if low {
        (al as u16 + 256 - 6) % 256
    } else {
        al as u16
    };
    assert(low ==> al1 == (al - 6) % 256) by {
        vstd::arithmetic::div_mod::lemma_mod_multiples_vanish(1, al - 6, 256);
    }
    let high = al > 0x99 || f.carry;
    let al2: u16 = if high {
        (al1 + 256 - 0x60) % 256
    } else {
        al1
    };
    assert(high ==> al2 == (al1 - 0x60) % 256) by {
        vstd::arithmetic::div_mod::lemma_mod_multiples_vanish(1, al1 - 0x60, 256);
    }
    let mut g = f;
    g.adjust = low;
    g.carry = high || (low && al < 6);
    Adjusted { al: al2 as u8, ah, flags: with_result_flags(g, al2, false) }
}

pub fn sign_fill_of(v: u16, wide: bool) -> (r: u16)
    requires
        fits(v, wide),
    ensures
        r == sign_fill(v, wide),
        fits(r, wide),
{
    if v as u32 >= half_of(wide) {
        (modulus_of(wide) - 1) as u16
    } else {
        0
    }
}

} // verus!
