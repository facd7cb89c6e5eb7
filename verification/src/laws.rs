//! Laws of the stack and of the flags.
use vstd::prelude::*;
use crate::address::{flat, wrap16};
use crate::alu::{bit, carry_in, fits, half, modulus, spec_add, spec_sub};
use crate::flags::{lemma_flags_round_trip, Flags};
use crate::instruction::{Decoded, Parameter};
use crate::memory::{le16, lemma_store16_load};
use crate::mmu::in_range;
use crate::state::State;

verus! {

/// PUSH x; POP y: if the stack slot lies inside memory, x is an immediate or
/// a register, and y is a general register other than SP, then the slot
/// holds the value of x, y takes it, SP returns to its value, and nothing
/// else fails.
pub proof fn lemma_push_pop_pair(s: State, x: Decoded, y: Decoded)
    requires
        s.wf(),
        x.dst.wf(),
        !x.dst.is_memory(),
        y.dst matches Parameter::Reg16(j) && j < 8 && j != 4,
        in_range(s.sreg(2), wrap16(s.reg16(4) - 2), 2),
    ensures
        le16(s.push(x).mem, flat(s.sreg(2), wrap16(s.reg16(4) - 2))) == s.read16(x.dst),
        s.push(x).pop(y).reg16(4) == s.reg16(4),
        s.push(x).pop(y).read16(y.dst) == s.read16(x.dst),
        s.push(x).pop(y).fatal == s.fatal,
        s.push(x).pop(y).flags == s.flags,
{
    let sp = wrap16(s.reg16(4) - 2);
    lemma_store16_load(s.mem, flat(s.sreg(2), sp), s.read16(x.dst));
}

/// PUSHF; POPF: if the stack slot lies inside memory, every flag keeps its
/// value and SP returns to its value; the word on the stack holds the
/// flags at their bits and the fixed values of the reserved bits.
pub proof fn lemma_pushf_popf(s: State)
    requires
        s.wf(),
        in_range(s.sreg(2), wrap16(s.reg16(4) - 2), 2),
    ensures
        s.pushf().popf().flags == s.flags,
        s.pushf().popf().reg16(4) == s.reg16(4),
        s.pushf().popf().fatal == s.fatal,
        s.pushf().top16() == s.flags.word(),
{
    let sp = wrap16(s.reg16(4) - 2);
    crate::flags::lemma_word_bits(s.flags);
    lemma_store16_load(s.mem, flat(s.sreg(2), sp), s.flags.word() as u16);
    lemma_flags_round_trip(s.flags);
}

/// The sign of a value of the width: its most significant bit.
pub open spec fn negative(v: int, wide: bool) -> bool {
    v >= half(wide)
}

/// The flags of an addition as hardware derives them from the operands and
/// the result: carry if the result came out below an operand; overflow if
/// both operands have one sign and the result the other; adjust if bit 4 of
/// the result is not the sum of the bits 4 of the operands.
pub proof fn lemma_add_flags(a: u16, b: u16, cin: bool, wide: bool, f: Flags)
    requires
        fits(a, wide),
        fits(b, wide),
    ensures
        ({
            let o = spec_add(a, b, cin, wide, f);
            let r = o.value as int;
            &&& fits(o.value, wide)
            &&& o.flags.carry == (r < a + carry_in(cin) || (cin && r == a && b == modulus(wide)
                - 1))
            &&& o.flags.overflow == (negative(a as int, wide) == negative(b as int, wide)
                && negative(r, wide) != negative(a as int, wide))
            &&& o.flags.adjust == ((bit(a as int, 16) + bit(b as int, 16) + bit(r, 16)) % 2 == 1)
            &&& o.flags.zero == (r == 0)
            &&& o.flags.sign == negative(r, wide)
            &&& o.flags.trap == f.trap && o.flags.direction == f.direction
                && o.flags.interrupt_enable == f.interrupt_enable
        }),
{
    let c = carry_in(cin);
    let m = modulus(wide);
    let sum = a + b + c;
    let r = sum % m;
    assert(r == if sum >= m {
        sum - m
    } else {
        sum
    });
    lemma_bit4(a as int, b as int, c, r, sum >= m, wide);
}

/// The flags of a subtraction as hardware derives them from the operands
/// and the result: borrow if the subtrahend, with the borrow in, exceeds
/// the minuend; overflow if the operands differ in sign and the result has
/// the sign of the subtrahend.
pub proof fn lemma_sub_flags(a: u16, b: u16, cin: bool, wide: bool, f: Flags)
    requires
        fits(a, wide),
        fits(b, wide),
    ensures
        ({
            let o = spec_sub(a, b, cin, wide, f);
            let r = o.value as int;
            &&& fits(o.value, wide)
            &&& o.flags.carry == (a < b + carry_in(cin))
            &&& o.flags.overflow == (negative(a as int, wide) != negative(b as int, wide)
                && negative(r, wide) == negative(b as int, wide))
            &&& o.flags.zero == (r == 0)
            &&& o.flags.sign == negative(r, wide)
            &&& (r + b + carry_in(cin)) % modulus(wide) == a
        }),
{
    let c = carry_in(cin);
    let m = modulus(wide);
    let diff = a - b - c;
    let r = diff % m;
    if diff < 0 {
        assert(r == diff + m) by {
            vstd::arithmetic::div_mod::lemma_fundamental_div_mod_converse(diff, m, -1, diff + m);
        }
        assert((r + b + c) % m == a) by {
            vstd::arithmetic::div_mod::lemma_fundamental_div_mod_converse(a + m, m, 1, a as int);
        }
    } else {
        assert(r == diff) by {
            vstd::arithmetic::div_mod::lemma_small_mod(diff as nat, m as nat);
        }
        assert((r + b + c) % m == a) by {
            vstd::arithmetic::div_mod::lemma_small_mod(a as nat, m as nat);
        }
    }
}

/// Bit 4 of a sum is the XOR of the bits 4 of the operands and of the carry
/// out of bit 3.
pub proof fn lemma_bit4(a: int, b: int, c: int, r: int, carried: bool, wide: bool)
    requires
        0 <= a < modulus(wide),
        0 <= b < modulus(wide),
        0 <= c <= 1,
        r == a + b + c - if carried {
            modulus(wide)
        } else {
            0
        },
        0 <= r < modulus(wide),
    ensures
        (a % 16 + b % 16 + c >= 16) == ((bit(a, 16) + bit(b, 16) + bit(r, 16)) % 2 == 1),
{
    let al = a % 16;
    let bl = b % 16;
    let ah = a / 16;
    let bh = b / 16;
    let low = al + bl + c;
    let k: int = if low >= 16 {
        1
    } else {
        0
    };
    let top: int = if carried {
        modulus(wide) / 16
    } else {
        0
    };
    assert(r == (ah + bh + k - top) * 16 + (low - 16 * k));
    assert(r / 16 == ah + bh + k - top);
    assert(top % 2 == 0);
}

} // verus!
