//! Bit test, bit scan and the double-precision shifts.
use vstd::prelude::*;
use crate::alu::{result_flags, with_result_flags, Outcome};
use crate::flags::Flags;

verus! {

/// 2 to the power of `n`.
pub open spec fn pow2(n: nat) -> nat
    decreases n,
{
    if n == 0 {
        1
    } else {
        2 * pow2((n - 1) as nat)
    }
}

/// Whether bit `index` of `v` is set.
pub open spec fn bit_at(v: u16, index: nat) -> bool {
    (v as nat / pow2(index)) % 2 == 1
}

/// The index of the lowest bit of `v` that is set; `v` is not 0.
pub open spec fn lowest_set(v: nat) -> nat
    decreases v,
{
    if v == 0 || v % 2 == 1 {
        0
    } else {
        1 + lowest_set(v / 2)
    }
}

/// BT and BTS: the carry flag takes bit `index` modulo 16 of the operand;
/// BTS also sets the bit.
pub open spec fn spec_bit_test(v: u16, index: u16, set: bool, f: Flags) -> Outcome {
    let i = (index % 16) as nat;
    let on = bit_at(v, i);
    Outcome {
        value: if set && !on {
            (v + pow2(i)) as u16
        } else {
            v
        },
        flags: Flags { carry: on, ..f },
    }
}

/// SHLD and SHRD by `count` modulo 32: the operand shifted left (right),
/// with the bits of `fill` coming in from the right (left). The carry flag
/// takes the last bit that left the operand; overflow says that the sign
/// changed; zero, sign and parity follow the result. A count of 0, or of
/// more than 16, changes nothing.
pub open spec fn spec_double_shift(v: u16, fill: u16, count: u8, left: bool, f: Flags) -> Outcome {
    let n = (count % 32) as nat;
    if n == 0 || n > 16 {
        Outcome { value: v, flags: f }
    } else {
        let r: nat = if left {
            ((v as nat * 0x1_0000 + fill as nat) * pow2(n) / 0x1_0000) % 0x1_0000
        } else {
            ((fill as nat * 0x1_0000 + v as nat) / pow2(n)) % 0x1_0000
        };
        let carry = if left {
            bit_at(v, (16 - n) as nat)
        } else {
            bit_at(v, (n - 1) as nat)
        };
        Outcome {
            value: r as u16,
            flags: result_flags(
                Flags { carry, overflow: (r >= 0x8000) != (v >= 0x8000), ..f },
                r as int,
                true,
            ),
        }
    }
}

/// 2 to the power of 16 is 65536, and the powers below are smaller.
pub proof fn lemma_pow2_bounds(n: nat)
    requires
        n <= 16,
    ensures
        1 <= pow2(n) <= 0x1_0000,
        pow2(16) == 0x1_0000,
    decreases n,
{
    reveal_with_fuel(pow2, 17);
    if n > 0 {
        lemma_pow2_bounds((n - 1) as nat);
    }
}

pub fn pow2_of(n: u8) -> (r: u32)
    requires
        n <= 16,
    ensures
        r == pow2(n as nat),
        1 <= r <= 0x1_0000,
{
    let mut r: u32 = 1;
    let mut i: u8 = 0;
    while i < n
        invariant
            i <= n <= 16,
            r == pow2(i as nat),
            1 <= r <= 0x1_0000,
        decreases n - i,
    {
        proof {
            lemma_pow2_bounds((i + 1) as nat);
        }
        r = r * 2;
        i += 1;
    }
    r
}

fn has_bit(v: u16, index: u8) -> (r: bool)
    requires
        index <= 16,
    ensures
        r == bit_at(v, index as nat),
{
    (v as u32 / pow2_of(index)) % 2 == 1
}

pub fn bit_test(v: u16, index: u16, set: bool, f: Flags) -> (o: Outcome)
    ensures
        o == spec_bit_test(v, index, set, f),
{
    let i: u8 = (index % 16) as u8;
    let on = has_bit(v, i);
    let weight = pow2_of(i);
    let value: u16 = if set && !on {
        proof {
            lemma_bit_clear_adds(v, i as nat);
        }
        (v as u32 + weight) as u16
    } else {
        v
    };
    let mut g = f;
    g.carry = on;
    Outcome { value, flags: g }
}

/// Setting a bit that is clear adds its weight, and the sum is a 16-bit
/// value.
pub proof fn lemma_bit_clear_adds(v: u16, i: nat)
    requires
        i < 16,
        !bit_at(v, i),
    ensures
        v + pow2(i) <= 0xFFFF,
{
    lemma_pow2_values();
    let w = pow2(i) as int;
    let q = v as int / w;
    assert(q % 2 == 0);
    if i == 0 {
        assert(w == 1);
    }
    if i == 1 {
        assert(w == 2);
    }
    if i == 2 {
        assert(w == 4);
    }
    if i == 3 {
        assert(w == 8);
    }
    if i == 4 {
        assert(w == 16);
    }
    if i == 5 {
        assert(w == 32);
    }
    if i == 6 {
        assert(w == 64);
    }
    if i == 7 {
        assert(w == 128);
    }
    if i == 8 {
        assert(w == 256);
    }
    if i == 9 {
        assert(w == 512);
    }
    if i == 10 {
        assert(w == 1024);
    }
    if i == 11 {
        assert(w == 2048);
    }
    if i == 12 {
        assert(w == 4096);
    }
    if i == 13 {
        assert(w == 8192);
    }
    if i == 14 {
        assert(w == 16384);
    }
    if i == 15 {
        assert(w == 32768);
    }
    assert(w * (0x1_0000int / w) == 0x1_0000int);
    assert((0x1_0000int / w) % 2 == 0);
    assert(q < 0x1_0000int / w) by (nonlinear_arith)
        requires
            q == v as int / w,
            0 <= v < w * (0x1_0000int / w),
            w > 0,
    ;
    assert(q + 2 <= 0x1_0000int / w);
    assert(v as int == w * q + v as int % w) by {
        vstd::arithmetic::div_mod::lemma_fundamental_div_mod(v as int, w);
    }
    assert(w * (q + 2) <= w * (0x1_0000int / w)) by (nonlinear_arith)
        requires
            q + 2 <= 0x1_0000int / w,
            w > 0,
    ;
    assert(w * (q + 2) == w * q + 2 * w) by (nonlinear_arith);
    assert(v as int % w < w) by {
        vstd::arithmetic::div_mod::lemma_mod_bound(v as int, w);
    }
}

/// The powers of two up to 2 to the 16.
pub proof fn lemma_pow2_values()
    ensures
        pow2(0) == 1,
        pow2(1) == 2,
        pow2(2) == 4,
        pow2(3) == 8,
        pow2(4) == 16,
        pow2(5) == 32,
        pow2(6) == 64,
        pow2(7) == 128,
        pow2(8) == 256,
        pow2(9) == 512,
        pow2(10) == 1024,
        pow2(11) == 2048,
        pow2(12) == 4096,
        pow2(13) == 8192,
        pow2(14) == 16384,
        pow2(15) == 32768,
        pow2(16) == 65536,
{
    reveal_with_fuel(pow2, 18);
}

/// BSF: the index of the lowest bit that is set.
pub fn bit_scan(v: u16) -> (r: u16)
    requires
        v != 0,
    ensures
        r == lowest_set(v as nat),
        r < 16,
{
    let mut rest: u16 = v;
    let mut i: u16 = 0;
    proof {
        lemma_pow2_values();
        assert(rest as nat * pow2(0) == rest as nat) by (nonlinear_arith)
            requires
                pow2(0) == 1,
        ;
    }
    while rest % 2 == 0
        invariant
            rest != 0,
            i + lowest_set(rest as nat) == lowest_set(v as nat),
            (rest as nat) * pow2(i as nat) <= 0xFFFF,
            i <= 16,
        decreases rest,
    {
        proof {
            assert(pow2((i + 1) as nat) == 2 * pow2(i as nat));
            assert((rest / 2) as nat * pow2((i + 1) as nat) <= rest as nat * pow2(i as nat))
                by (nonlinear_arith)
                requires
                    pow2((i + 1) as nat) == 2 * pow2(i as nat),
            ;
            if i == 16 {
                lemma_pow2_bounds(16);
                assert(rest as nat * pow2(16) >= pow2(16)) by (nonlinear_arith)
                    requires
                        rest >= 1,
                ;
            }
        }
        rest = rest / 2;
        i += 1;
    }
    proof {
        if i >= 16 {
            lemma_pow2_bounds(16);
            assert(rest as nat * pow2(i as nat) >= pow2(16)) by (nonlinear_arith)
                requires
                    rest >= 1,
                    i == 16,
            ;
        }
    }
    i
}

pub fn double_shift(v: u16, fill: u16, count: u8, left: bool, f: Flags) -> (o: Outcome)
    ensures
        o == spec_double_shift(v, fill, count, left, f),
{
    let n: u8 = count % 32;
    if n == 0 || n > 16 {
        return Outcome { value: v, flags: f };
    }
    let w: u64 = pow2_of(n) as u64;
    let r: u64 = if left {
        let combined: u64 = v as u64 * 0x1_0000 + fill as u64;
        assert(combined * w <= 0xFFFF_FFFF * 0x1_0000) by (nonlinear_arith)
            requires
                combined <= 0xFFFF_FFFF,
                w <= 0x1_0000,
        ;
        (combined * w / 0x1_0000) % 0x1_0000
    } else {
        let combined: u64 = fill as u64 * 0x1_0000 + v as u64;
        (combined / w) % 0x1_0000
    };
    let carry = if left {
        has_bit(v, 16 - n)
    } else {
        has_bit(v, n - 1)
    };
    let mut g = f;
    g.carry = carry;
    g.overflow = (r >= 0x8000) != (v >= 0x8000);
    Outcome { value: r as u16, flags: with_result_flags(g, r as u16, true) }
}

} // verus!
