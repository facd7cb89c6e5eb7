//! The FLAGS register: nine architecturally visible flags, the rest of the
//! 16 bits fixed as on an 8086.
use vstd::prelude::*;

verus! {

/// Bits of the FLAGS word that always read as one: bit 1 and bits 12 to 15.
pub const FLAGS_FIXED_ONES: u16 = 0xF002;

/// Bits of the FLAGS word that hold a visible flag.
pub const FLAGS_VISIBLE: u16 = 0x0FD5;

/// `weight` if `b` holds, else 0.
#[verifier::opaque]
pub open spec fn bit_value(b: bool, weight: int) -> int {
    if b {
        weight
    } else {
        0
    }
}

/// Whether the bit of weight `weight` (a power of two) is set in `w`.
#[verifier::opaque]
pub open spec fn has_bit(w: int, weight: int) -> bool {
    (w / weight) % 2 == 1
}

/// `weight` if `b` holds, else 0.
pub fn weigh(b: bool, weight: u16) -> (r: u16)
    ensures
        r == bit_value(b, weight as int),
        r <= weight,
{
    proof {
        reveal(bit_value);
    }
    if b {
        weight
    } else {
        0
    }
}

/// The architecturally visible flags.
#[derive(Clone, Copy, Debug, PartialEq, Eq, Structural)]
pub struct Flags {
    /// bit 0
    pub carry: bool,
    /// bit 2
    pub parity: bool,
    /// bit 4
    pub adjust: bool,
    /// bit 6
    pub zero: bool,
    /// bit 7
    pub sign: bool,
    /// bit 8
    pub trap: bool,
    /// bit 9
    pub interrupt_enable: bool,
    /// bit 10
    pub direction: bool,
    /// bit 11
    pub overflow: bool,
}

impl Flags {
    /// The 16-bit FLAGS word: visible flags at their bit positions, bit 1 and
    /// bits 12 to 15 set, bits 3 and 5 clear.
    pub open spec fn word(self) -> int {
        0xF002 + bit_value(self.carry, 0x1) + bit_value(self.parity, 0x4) + bit_value(
            self.adjust,
            0x10,
        ) + bit_value(self.zero, 0x40) + bit_value(self.sign, 0x80) + bit_value(self.trap, 0x100)
            + bit_value(self.interrupt_enable, 0x200) + bit_value(self.direction, 0x400)
            + bit_value(self.overflow, 0x800)
    }

    /// The flags held in the visible bits of `w`; all other bits are ignored.
    pub open spec fn from_word(w: int) -> Flags {
        Flags {
            carry: has_bit(w, 0x1),
            parity: has_bit(w, 0x4),
            adjust: has_bit(w, 0x10),
            zero: has_bit(w, 0x40),
            sign: has_bit(w, 0x80),
            trap: has_bit(w, 0x100),
            interrupt_enable: has_bit(w, 0x200),
            direction: has_bit(w, 0x400),
            overflow: has_bit(w, 0x800),
        }
    }

    /// The low byte of the FLAGS word, as LAHF sees it.
    pub open spec fn low_byte(self) -> int {
        self.word() % 256
    }

    /// `self` with the five flags of the low byte taken from `b`, as SAHF does.
    pub open spec fn with_low_byte(self, b: int) -> Flags {
        Flags {
            carry: has_bit(b, 0x1),
            parity: has_bit(b, 0x4),
            adjust: has_bit(b, 0x10),
            zero: has_bit(b, 0x40),
            sign: has_bit(b, 0x80),
            ..self
        }
    }

    /// All flags clear.
    pub fn new() -> (f: Flags)
        ensures
            f == Flags::from_word(0),
            f.word() == 0xF002,
    {
        proof {
            reveal(has_bit);
            reveal(bit_value);
        }
        Flags {
            carry: false,
            parity: false,
            adjust: false,
            zero: false,
            sign: false,
            trap: false,
            interrupt_enable: false,
            direction: false,
            overflow: false,
        }
    }

    pub fn to_word(&self) -> (w: u16)
        ensures
            w == self.word(),
    {
        let c: u16 = weigh(self.carry, 0x1);
        let p: u16 = weigh(self.parity, 0x4);
        let a: u16 = weigh(self.adjust, 0x10);
        let z: u16 = weigh(self.zero, 0x40);
        let s: u16 = weigh(self.sign, 0x80);
        let t: u16 = weigh(self.trap, 0x100);
        let i: u16 = weigh(self.interrupt_enable, 0x200);
        let d: u16 = weigh(self.direction, 0x400);
        let o: u16 = weigh(self.overflow, 0x800);
        0xF002 + c + p + a + z + s + t + i + d + o
    }

    pub fn set_word(&mut self, w: u16)
        ensures
            *final(self) == Flags::from_word(w as int),
    {
        proof {
            reveal(has_bit);
        }
        self.carry = w % 2 == 1;
        self.parity = (w / 0x4) % 2 == 1;
        self.adjust = (w / 0x10) % 2 == 1;
        self.zero = (w / 0x40) % 2 == 1;
        self.sign = (w / 0x80) % 2 == 1;
        self.trap = (w / 0x100) % 2 == 1;
        self.interrupt_enable = (w / 0x200) % 2 == 1;
        self.direction = (w / 0x400) % 2 == 1;
        self.overflow = (w / 0x800) % 2 == 1;
    }

    /// The low byte of the FLAGS word.
    pub fn lo_u8(&self) -> (b: u8)
        ensures
            b == self.low_byte(),
    {
        (self.to_word() % 256) as u8
    }

    /// Loads carry, parity, adjust, zero and sign from `b`.
    pub fn set_lo_u8(&mut self, b: u8)
        ensures
            *final(self) == old(self).with_low_byte(b as int),
    {
        proof {
            reveal(has_bit);
        }
        self.carry = b % 2 == 1;
        self.parity = (b / 0x4) % 2 == 1;
        self.adjust = (b / 0x10) % 2 == 1;
        self.zero = (b / 0x40) % 2 == 1;
        self.sign = (b / 0x80) % 2 == 1;
    }
}

/// In `hi * 2 * weight + b * weight + lo` with `lo < weight`, the bit of
/// weight `weight` is `b`.
pub proof fn lemma_bit_of_sum(hi: int, b: bool, lo: int, weight: int)
    requires
        weight > 0,
        0 <= lo < weight,
        hi >= 0,
    ensures
        has_bit(hi * 2 * weight + bit_value(b, weight) + lo, weight) == b,
{
    reveal(bit_value);
    let one: int = if b {
        1
    } else {
        0
    };
    reveal(has_bit);
    let w = hi * 2 * weight + bit_value(b, weight) + lo;
    assert(w == (hi * 2 + one) * weight + lo) by (nonlinear_arith)
        requires
            w == hi * 2 * weight + bit_value(b, weight) + lo,
            bit_value(b, weight) == one * weight,
    ;
    vstd::arithmetic::div_mod::lemma_fundamental_div_mod_converse(w, weight, hi * 2 + one, lo);
}

/// Each bit of the FLAGS word holds its flag or its fixed value.
pub proof fn lemma_word_bits(f: Flags)
    ensures
        has_bit(f.word(), 0x1) == f.carry,
        has_bit(f.word(), 0x2),
        has_bit(f.word(), 0x4) == f.parity,
        !has_bit(f.word(), 0x8),
        has_bit(f.word(), 0x10) == f.adjust,
        !has_bit(f.word(), 0x20),
        has_bit(f.word(), 0x40) == f.zero,
        has_bit(f.word(), 0x80) == f.sign,
        has_bit(f.word(), 0x100) == f.trap,
        has_bit(f.word(), 0x200) == f.interrupt_enable,
        has_bit(f.word(), 0x400) == f.direction,
        has_bit(f.word(), 0x800) == f.overflow,
        f.word() / 0x1000 == 0xF,
        0xF002 <= f.word() <= 0xFFD7,
{
    reveal(bit_value);
    let w = f.word();
    let c = bit_value(f.carry, 1);
    let p = bit_value(f.parity, 1);
    let a = bit_value(f.adjust, 1);
    let z = bit_value(f.zero, 1);
    let s = bit_value(f.sign, 1);
    let t = bit_value(f.trap, 1);
    let i = bit_value(f.interrupt_enable, 1);
    let d = bit_value(f.direction, 1);
    let o = bit_value(f.overflow, 1);
    let h11 = 0x1Eint;
    let h10 = h11 + o;
    let h9 = 2 * h10 + d;
    let h8 = 2 * h9 + i;
    let h7 = 2 * h8 + t;
    let h6 = 2 * h7 + s;
    let h5 = 2 * h6 + z;
    let h4 = 2 * h5;
    let h3 = 2 * h4 + a;
    let h2 = 2 * h3;
    let h1 = 2 * h2 + p;
    let h0 = 2 * h1 + 1;
    let l1 = c;
    let l2 = l1 + 2;
    let l3 = l2 + 4 * p;
    let l4 = l3;
    let l5 = l4 + 0x10 * a;
    let l6 = l5;
    let l7 = l6 + 0x40 * z;
    let l8 = l7 + 0x80 * s;
    let l9 = l8 + 0x100 * t;
    let l10 = l9 + 0x200 * i;
    let l11 = l10 + 0x400 * d;
    assert(has_bit(w, 0x1) == f.carry) by {
        assert(w == h0 * 2 * 0x1 + bit_value(f.carry, 0x1) + 0);
        lemma_bit_of_sum(h0, f.carry, 0, 0x1);
    }
    assert(has_bit(w, 0x2) == true) by {
        assert(w == h1 * 2 * 0x2 + bit_value(true, 0x2) + l1);
        lemma_bit_of_sum(h1, true, l1, 0x2);
    }
    assert(has_bit(w, 0x4) == f.parity) by {
        assert(w == h2 * 2 * 0x4 + bit_value(f.parity, 0x4) + l2);
        lemma_bit_of_sum(h2, f.parity, l2, 0x4);
    }
    assert(has_bit(w, 0x8) == false) by {
        assert(w == h3 * 2 * 0x8 + bit_value(false, 0x8) + l3);
        lemma_bit_of_sum(h3, false, l3, 0x8);
    }
    assert(has_bit(w, 0x10) == f.adjust) by {
        assert(w == h4 * 2 * 0x10 + bit_value(f.adjust, 0x10) + l4);
        lemma_bit_of_sum(h4, f.adjust, l4, 0x10);
    }
    assert(has_bit(w, 0x20) == false) by {
        assert(w == h5 * 2 * 0x20 + bit_value(false, 0x20) + l5);
        lemma_bit_of_sum(h5, false, l5, 0x20);
    }
    assert(has_bit(w, 0x40) == f.zero) by {
        assert(w == h6 * 2 * 0x40 + bit_value(f.zero, 0x40) + l6);
        lemma_bit_of_sum(h6, f.zero, l6, 0x40);
    }
    assert(has_bit(w, 0x80) == f.sign) by {
        assert(w == h7 * 2 * 0x80 + bit_value(f.sign, 0x80) + l7);
        lemma_bit_of_sum(h7, f.sign, l7, 0x80);
    }
    assert(has_bit(w, 0x100) == f.trap) by {
        assert(w == h8 * 2 * 0x100 + bit_value(f.trap, 0x100) + l8);
        lemma_bit_of_sum(h8, f.trap, l8, 0x100);
    }
    assert(has_bit(w, 0x200) == f.interrupt_enable) by {
        assert(w == h9 * 2 * 0x200 + bit_value(f.interrupt_enable, 0x200) + l9);
        lemma_bit_of_sum(h9, f.interrupt_enable, l9, 0x200);
    }
    assert(has_bit(w, 0x400) == f.direction) by {
        assert(w == h10 * 2 * 0x400 + bit_value(f.direction, 0x400) + l10);
        lemma_bit_of_sum(h10, f.direction, l10, 0x400);
    }
    assert(has_bit(w, 0x800) == f.overflow) by {
        assert(w == 15 * 2 * 0x800 + bit_value(f.overflow, 0x800) + l11);
        lemma_bit_of_sum(15, f.overflow, l11, 0x800);
    }
}

/// Reading the FLAGS word and loading it back changes no flag.
pub proof fn lemma_flags_round_trip(f: Flags)
    ensures
        Flags::from_word(f.word()) == f,
{
    lemma_word_bits(f);
}

/// Loading any word and reading FLAGS back keeps every visible bit of the
/// word, and gives the reserved bits their fixed values: bit 1 and bits 12 to
/// 15 set, bits 3 and 5 clear.
pub proof fn lemma_flags_reserved_bits(w: u16)
    ensures
        ({
            let r = Flags::from_word(w as int).word();
            &&& has_bit(r, 0x1) == has_bit(w as int, 0x1)
            &&& has_bit(r, 0x4) == has_bit(w as int, 0x4)
            &&& has_bit(r, 0x10) == has_bit(w as int, 0x10)
            &&& has_bit(r, 0x40) == has_bit(w as int, 0x40)
            &&& has_bit(r, 0x80) == has_bit(w as int, 0x80)
            &&& has_bit(r, 0x100) == has_bit(w as int, 0x100)
            &&& has_bit(r, 0x200) == has_bit(w as int, 0x200)
            &&& has_bit(r, 0x400) == has_bit(w as int, 0x400)
            &&& has_bit(r, 0x800) == has_bit(w as int, 0x800)
            &&& has_bit(r, 0x2)
            &&& !has_bit(r, 0x8)
            &&& !has_bit(r, 0x20)
            &&& r / 0x1000 == 0xF
        }),
{
    lemma_word_bits(Flags::from_word(w as int));
}

} // verus!
