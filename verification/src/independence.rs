//! Laws of running what the encoder emits: a machine step on the encoding
//! is the step of the instruction, and an instruction that works on
//! registers alone does the same whatever memory holds.
use vstd::prelude::*;
use crate::bios::ROM_SEG;
use crate::address::{flat, wrap16};
use crate::alu::{spec_shift, ShiftKind};
use crate::bits::{lowest_set, spec_bit_test, spec_double_shift};
use crate::class::{classify, Binary, Class, Condition, MulDiv, Unary};
use crate::decoder::signed8;
use crate::flags::Flags;
use crate::muldiv::spec_imul;
use crate::register::{hi_byte, join_bytes, lo_byte};
use crate::semantics::{binary_outcome, holds, unary_outcome};
use crate::encoder::spec_encode;
use crate::instruction::{Decoded, Parameter};
use crate::machine::MachineView;
use crate::memory::{lemma_store16_load, MEMORY_SIZE};
use crate::mmu::in_range;
use crate::roundtrip::{lemma_executing_encoding, with_length};
use crate::state::State;

verus! {

/// Whether the instruction works on registers and immediate values alone:
/// no operand lies in memory, and its kind uses neither the stack, nor a
/// string, nor an interrupt, nor a far pointer.
pub open spec fn register_only(d: Decoded) -> bool {
    &&& !d.dst.is_memory()
    &&& !d.src.is_memory()
    &&& !d.src2.is_memory()
    &&& match classify(d.command) {
        Class::Binary(_, _) | Class::Unary(_, _) | Class::Shift(_, _) | Class::Mov(_)
        | Class::Xchg(_) | Class::Extend(_) | Class::Jump | Class::Branch(_) | Class::SetCond(_)
        | Class::Loop(_) | Class::Flag(_) | Class::Salc | Class::Lahf | Class::Sahf | Class::Cbw
        | Class::Cwd | Class::Adjust(_) | Class::Aad | Class::In(_) | Class::Out(_) | Class::Nop
        | Class::Hlt | Class::BitTest(_) | Class::BitScan | Class::DoubleShift(_) => true,
        Class::MulDiv(kind, _) => kind == MulDiv::Mul || kind == MulDiv::Imul,
        _ => false,
    }
}

/// Whether two states differ in memory at most.
pub open spec fn same_but_memory(a: State, b: State) -> bool {
    a == (State { mem: a.mem, ..b })
}

/// An operand outside memory reads the same whatever memory holds, and
/// reading it changes nothing.
proof fn lemma_operand(a: State, b: State, p: Parameter)
    requires
        same_but_memory(a, b),
        !p.is_memory(),
    ensures
        a.read8(p) == b.read8(p),
        a.read16(p) == b.read16(p),
        forall|wide: bool| #[trigger] a.read(p, wide) == b.read(p, wide),
        forall|wide: bool| #[trigger] a.touched(p, wide) == a,
        forall|wide: bool| #[trigger] b.touched(p, wide) == b,
        forall|n: int| #[trigger] a.touch_param(p, n) == a,
        forall|n: int| #[trigger] b.touch_param(p, n) == b,
{
}

/// Setting a register leaves memory as it is.
proof fn lemma_set_register(a: State, b: State, i: int, v: u16)
    requires
        same_but_memory(a, b),
    ensures
        same_but_memory(a.with_reg16(i, v), b.with_reg16(i, v)),
        a.with_reg16(i, v).mem == a.mem,
        b.with_reg16(i, v).mem == b.mem,
        same_but_memory(a.with_sreg(i, v), b.with_sreg(i, v)),
        a.with_sreg(i, v).mem == a.mem,
        b.with_sreg(i, v).mem == b.mem,
{
}

/// Setting a byte register leaves memory as it is.
proof fn lemma_set_byte(a: State, b: State, i: int, v: u8)
    requires
        same_but_memory(a, b),
    ensures
        same_but_memory(a.with_reg8(i, v), b.with_reg8(i, v)),
        a.with_reg8(i, v).mem == a.mem,
        b.with_reg8(i, v).mem == b.mem,
{
    if i < 4 {
        lemma_set_register(a, b, i, join_bytes(hi_byte(b.reg16(i)), v));
    } else {
        lemma_set_register(a, b, i - 4, join_bytes(v, lo_byte(b.reg16(i - 4))));
    }
}

/// A 16-bit write to an operand outside memory leaves memory as it is.
proof fn lemma_write16(a: State, b: State, p: Parameter, v: u16)
    requires
        same_but_memory(a, b),
        !p.is_memory(),
    ensures
        same_but_memory(a.write16(p, v), b.write16(p, v)),
        a.write16(p, v).mem == a.mem,
        b.write16(p, v).mem == b.mem,
{
    match p {
        Parameter::Reg16(i) => lemma_set_register(a, b, i as int, v),
        Parameter::SReg16(i) => lemma_set_register(a, b, i as int, v),
        _ => {},
    }
}

/// An 8-bit write to an operand outside memory leaves memory as it is.
proof fn lemma_write8(a: State, b: State, p: Parameter, v: u8)
    requires
        same_but_memory(a, b),
        !p.is_memory(),
    ensures
        same_but_memory(a.write8(p, v), b.write8(p, v)),
        a.write8(p, v).mem == a.mem,
        b.write8(p, v).mem == b.mem,
{
    match p {
        Parameter::Reg8(i) => lemma_set_byte(a, b, i as int, v),
        _ => {},
    }
}

/// A write to an operand outside memory leaves memory as it is.
proof fn lemma_write(a: State, b: State, p: Parameter, v: u16, wide: bool)
    requires
        same_but_memory(a, b),
        !p.is_memory(),
    ensures
        same_but_memory(a.write(p, v, wide), b.write(p, v, wide)),
        a.write(p, v, wide).mem == a.mem,
        b.write(p, v, wide).mem == b.mem,
        same_but_memory(a.write16(p, v), b.write16(p, v)),
        a.write16(p, v).mem == a.mem,
        b.write16(p, v).mem == b.mem,
{
    lemma_write16(a, b, p, v);
    lemma_write8(a, b, p, lo_byte(v));
}

proof fn lemma_binary(a: State, b: State, kind: Binary, wide: bool, d: Decoded)
    requires
        same_but_memory(a, b),
        register_only(d),
    ensures
        same_but_memory(a.binary(kind, wide, d), b.binary(kind, wide, d)),
        a.binary(kind, wide, d).mem == a.mem,
        b.binary(kind, wide, d).mem == b.mem,
{
    lemma_operand(a, b, d.dst);
    lemma_operand(a, b, d.src);
    let o = binary_outcome(kind, b.read(d.dst, wide), b.read(d.src, wide), wide, b.flags);
    lemma_write(a.with_flags(o.flags), b.with_flags(o.flags), d.dst, o.value, wide);
}

proof fn lemma_unary(a: State, b: State, kind: Unary, wide: bool, d: Decoded)
    requires
        same_but_memory(a, b),
        register_only(d),
    ensures
        same_but_memory(a.unary(kind, wide, d), b.unary(kind, wide, d)),
        a.unary(kind, wide, d).mem == a.mem,
        b.unary(kind, wide, d).mem == b.mem,
{
    lemma_operand(a, b, d.dst);
    let o = unary_outcome(kind, b.read(d.dst, wide), wide, b.flags);
    lemma_write(a.with_flags(o.flags), b.with_flags(o.flags), d.dst, o.value, wide);
}

proof fn lemma_shift(a: State, b: State, kind: ShiftKind, wide: bool, d: Decoded)
    requires
        same_but_memory(a, b),
        register_only(d),
    ensures
        same_but_memory(a.shift(kind, wide, d), b.shift(kind, wide, d)),
        a.shift(kind, wide, d).mem == a.mem,
        b.shift(kind, wide, d).mem == b.mem,
{
    lemma_operand(a, b, d.dst);
    lemma_operand(a, b, d.src);
    let o = spec_shift(kind, b.read(d.dst, wide), b.read8(d.src), wide, b.flags);
    lemma_write(a.with_flags(o.flags), b.with_flags(o.flags), d.dst, o.value, wide);
}

proof fn lemma_multiply(a: State, b: State, signed: bool, wide: bool, d: Decoded)
    requires
        same_but_memory(a, b),
        register_only(d),
    ensures
        same_but_memory(a.multiply(signed, wide, d), b.multiply(signed, wide, d)),
        a.multiply(signed, wide, d).mem == a.mem,
        b.multiply(signed, wide, d).mem == b.mem,
        same_but_memory(a.multiply_into(d), b.multiply_into(d)),
        a.multiply_into(d).mem == a.mem,
        b.multiply_into(d).mem == b.mem,
{
    lemma_operand(a, b, d.dst);
    lemma_operand(a, b, d.src);
    lemma_operand(a, b, d.src2);
    let y = if d.src2 is Empty {
        b.read16(d.dst)
    } else {
        b.read16(d.src2)
    };
    let p = spec_imul(b.read16(d.src), y, true, b.flags);
    lemma_write(a.with_flags(p.flags), b.with_flags(p.flags), d.dst, p.low, true);
}

proof fn lemma_mov(a: State, b: State, wide: bool, d: Decoded)
    requires
        same_but_memory(a, b),
        register_only(d),
    ensures
        same_but_memory(a.mov(wide, d), b.mov(wide, d)),
        a.mov(wide, d).mem == a.mem,
        b.mov(wide, d).mem == b.mem,
{
    lemma_operand(a, b, d.src);
    lemma_write(a, b, d.dst, b.read(d.src, wide), wide);
}

proof fn lemma_xchg(a: State, b: State, wide: bool, d: Decoded)
    requires
        same_but_memory(a, b),
        register_only(d),
    ensures
        same_but_memory(a.xchg(wide, d), b.xchg(wide, d)),
        a.xchg(wide, d).mem == a.mem,
        b.xchg(wide, d).mem == b.mem,
{
    lemma_operand(a, b, d.dst);
    lemma_operand(a, b, d.src);
    let x = b.read(d.dst, wide);
    let y = b.read(d.src, wide);
    lemma_write(a, b, d.dst, y, wide);
    lemma_write(a.write(d.dst, y, wide), b.write(d.dst, y, wide), d.src, x, wide);
}

proof fn lemma_extend(a: State, b: State, signed: bool, d: Decoded)
    requires
        same_but_memory(a, b),
        register_only(d),
    ensures
        same_but_memory(a.extend(signed, d), b.extend(signed, d)),
        a.extend(signed, d).mem == a.mem,
        b.extend(signed, d).mem == b.mem,
{
    lemma_operand(a, b, d.src);
    let v = b.read8(d.src);
    let r = if signed {
        wrap16(signed8(v))
    } else {
        v as u16
    };
    lemma_write(a, b, d.dst, r, true);
}

proof fn lemma_bit_test(a: State, b: State, set: bool, d: Decoded)
    requires
        same_but_memory(a, b),
        register_only(d),
    ensures
        same_but_memory(a.bit_test(set, d), b.bit_test(set, d)),
        a.bit_test(set, d).mem == a.mem,
        b.bit_test(set, d).mem == b.mem,
{
    lemma_operand(a, b, d.dst);
    lemma_operand(a, b, d.src);
    let t = spec_bit_test(b.read16(d.dst), b.read16(d.src), set, b.flags);
    lemma_write16(a.with_flags(t.flags), b.with_flags(t.flags), d.dst, t.value);
}

proof fn lemma_bit_scan(a: State, b: State, d: Decoded)
    requires
        same_but_memory(a, b),
        register_only(d),
    ensures
        same_but_memory(a.bit_scan(d), b.bit_scan(d)),
        a.bit_scan(d).mem == a.mem,
        b.bit_scan(d).mem == b.mem,
{
    lemma_operand(a, b, d.src);
    let z = Flags { zero: false, ..b.flags };
    lemma_write16(a.with_flags(z), b.with_flags(z), d.dst, lowest_set(b.read16(d.src) as nat) as u16);
}

proof fn lemma_double_shift(a: State, b: State, left: bool, d: Decoded)
    requires
        same_but_memory(a, b),
        register_only(d),
    ensures
        same_but_memory(a.double_shift(left, d), b.double_shift(left, d)),
        a.double_shift(left, d).mem == a.mem,
        b.double_shift(left, d).mem == b.mem,
{
    lemma_operand(a, b, d.dst);
    lemma_operand(a, b, d.src);
    lemma_operand(a, b, d.src2);
    let o = spec_double_shift(b.read16(d.dst), b.read16(d.src), b.read8(d.src2), left, b.flags);
    lemma_write16(a.with_flags(o.flags), b.with_flags(o.flags), d.dst, o.value);
}

proof fn lemma_binary_ignores_memory(s: State, d: Decoded, mem: Seq<u8>)
    requires
        register_only(d),
        classify(d.command) matches Class::Binary(_, _),
    ensures
        (State { mem, ..s }).apply(d) == (State { mem, ..s.apply(d) }),
        (State { mem, ..s }).effect(d) == s.effect(d),
        s.apply(d).mem == s.mem,
{
    let a = State { mem, ..s };
    match classify(d.command) {
        Class::Binary(kind, wide) => lemma_binary(a, s, kind, wide, d),
        _ => {},
    }
}

proof fn lemma_unary_ignores_memory(s: State, d: Decoded, mem: Seq<u8>)
    requires
        register_only(d),
        classify(d.command) matches Class::Unary(_, _),
    ensures
        (State { mem, ..s }).apply(d) == (State { mem, ..s.apply(d) }),
        (State { mem, ..s }).effect(d) == s.effect(d),
        s.apply(d).mem == s.mem,
{
    let a = State { mem, ..s };
    match classify(d.command) {
        Class::Unary(kind, wide) => lemma_unary(a, s, kind, wide, d),
        _ => {},
    }
}

proof fn lemma_shift_ignores_memory(s: State, d: Decoded, mem: Seq<u8>)
    requires
        register_only(d),
        classify(d.command) matches Class::Shift(_, _),
    ensures
        (State { mem, ..s }).apply(d) == (State { mem, ..s.apply(d) }),
        (State { mem, ..s }).effect(d) == s.effect(d),
        s.apply(d).mem == s.mem,
{
    let a = State { mem, ..s };
    match classify(d.command) {
        Class::Shift(kind, wide) => lemma_shift(a, s, kind, wide, d),
        _ => {},
    }
}

proof fn lemma_multiply_ignores_memory(s: State, d: Decoded, mem: Seq<u8>)
    requires
        register_only(d),
        classify(d.command) matches Class::MulDiv(_, _),
    ensures
        (State { mem, ..s }).apply(d) == (State { mem, ..s.apply(d) }),
        (State { mem, ..s }).effect(d) == s.effect(d),
        s.apply(d).mem == s.mem,
{
    let a = State { mem, ..s };
    match classify(d.command) {
        Class::MulDiv(kind, wide) => lemma_multiply(a, s, kind == MulDiv::Imul, wide, d),
        _ => {},
    }
}

proof fn lemma_mov_ignores_memory(s: State, d: Decoded, mem: Seq<u8>)
    requires
        register_only(d),
        classify(d.command) matches Class::Mov(_),
    ensures
        (State { mem, ..s }).apply(d) == (State { mem, ..s.apply(d) }),
        (State { mem, ..s }).effect(d) == s.effect(d),
        s.apply(d).mem == s.mem,
{
    let a = State { mem, ..s };
    match classify(d.command) {
        Class::Mov(wide) => lemma_mov(a, s, wide, d),
        _ => {},
    }
}

proof fn lemma_xchg_ignores_memory(s: State, d: Decoded, mem: Seq<u8>)
    requires
        register_only(d),
        classify(d.command) matches Class::Xchg(_),
    ensures
        (State { mem, ..s }).apply(d) == (State { mem, ..s.apply(d) }),
        (State { mem, ..s }).effect(d) == s.effect(d),
        s.apply(d).mem == s.mem,
{
    let a = State { mem, ..s };
    match classify(d.command) {
        Class::Xchg(wide) => lemma_xchg(a, s, wide, d),
        _ => {},
    }
}

proof fn lemma_extend_ignores_memory(s: State, d: Decoded, mem: Seq<u8>)
    requires
        register_only(d),
        classify(d.command) matches Class::Extend(_),
    ensures
        (State { mem, ..s }).apply(d) == (State { mem, ..s.apply(d) }),
        (State { mem, ..s }).effect(d) == s.effect(d),
        s.apply(d).mem == s.mem,
{
    let a = State { mem, ..s };
    match classify(d.command) {
        Class::Extend(signed) => lemma_extend(a, s, signed, d),
        _ => {},
    }
}

proof fn lemma_bit_test_ignores_memory(s: State, d: Decoded, mem: Seq<u8>)
    requires
        register_only(d),
        classify(d.command) matches Class::BitTest(_),
    ensures
        (State { mem, ..s }).apply(d) == (State { mem, ..s.apply(d) }),
        (State { mem, ..s }).effect(d) == s.effect(d),
        s.apply(d).mem == s.mem,
{
    let a = State { mem, ..s };
    match classify(d.command) {
        Class::BitTest(set) => lemma_bit_test(a, s, set, d),
        _ => {},
    }
}

proof fn lemma_bit_scan_ignores_memory(s: State, d: Decoded, mem: Seq<u8>)
    requires
        register_only(d),
        classify(d.command) matches Class::BitScan,
    ensures
        (State { mem, ..s }).apply(d) == (State { mem, ..s.apply(d) }),
        (State { mem, ..s }).effect(d) == s.effect(d),
        s.apply(d).mem == s.mem,
{
    let a = State { mem, ..s };
    match classify(d.command) {
        Class::BitScan => lemma_bit_scan(a, s, d),
        _ => {},
    }
}

proof fn lemma_double_shift_ignores_memory(s: State, d: Decoded, mem: Seq<u8>)
    requires
        register_only(d),
        classify(d.command) matches Class::DoubleShift(_),
    ensures
        (State { mem, ..s }).apply(d) == (State { mem, ..s.apply(d) }),
        (State { mem, ..s }).effect(d) == s.effect(d),
        s.apply(d).mem == s.mem,
{
    let a = State { mem, ..s };
    match classify(d.command) {
        Class::DoubleShift(left) => lemma_double_shift(a, s, left, d),
        _ => {},
    }
}

proof fn lemma_jump_ignores_memory(s: State, d: Decoded, mem: Seq<u8>)
    requires
        register_only(d),
        classify(d.command) matches Class::Jump,
    ensures
        (State { mem, ..s }).apply(d) == (State { mem, ..s.apply(d) }),
        (State { mem, ..s }).effect(d) == s.effect(d),
        s.apply(d).mem == s.mem,
{
}

proof fn lemma_branch_ignores_memory(s: State, d: Decoded, mem: Seq<u8>)
    requires
        register_only(d),
        classify(d.command) matches Class::Branch(_),
    ensures
        (State { mem, ..s }).apply(d) == (State { mem, ..s.apply(d) }),
        (State { mem, ..s }).effect(d) == s.effect(d),
        s.apply(d).mem == s.mem,
{
}

proof fn lemma_set_cond_ignores_memory(s: State, d: Decoded, mem: Seq<u8>)
    requires
        register_only(d),
        classify(d.command) matches Class::SetCond(_),
    ensures
        (State { mem, ..s }).apply(d) == (State { mem, ..s.apply(d) }),
        (State { mem, ..s }).effect(d) == s.effect(d),
        s.apply(d).mem == s.mem,
{
}

proof fn lemma_loop_ignores_memory(s: State, d: Decoded, mem: Seq<u8>)
    requires
        register_only(d),
        classify(d.command) matches Class::Loop(_),
    ensures
        (State { mem, ..s }).apply(d) == (State { mem, ..s.apply(d) }),
        (State { mem, ..s }).effect(d) == s.effect(d),
        s.apply(d).mem == s.mem,
{
}

proof fn lemma_flag_ignores_memory(s: State, d: Decoded, mem: Seq<u8>)
    requires
        register_only(d),
        classify(d.command) matches Class::Flag(_),
    ensures
        (State { mem, ..s }).apply(d) == (State { mem, ..s.apply(d) }),
        (State { mem, ..s }).effect(d) == s.effect(d),
        s.apply(d).mem == s.mem,
{
}

proof fn lemma_salc_ignores_memory(s: State, d: Decoded, mem: Seq<u8>)
    requires
        register_only(d),
        classify(d.command) matches Class::Salc,
    ensures
        (State { mem, ..s }).apply(d) == (State { mem, ..s.apply(d) }),
        (State { mem, ..s }).effect(d) == s.effect(d),
        s.apply(d).mem == s.mem,
{
}

proof fn lemma_lahf_ignores_memory(s: State, d: Decoded, mem: Seq<u8>)
    requires
        register_only(d),
        classify(d.command) matches Class::Lahf,
    ensures
        (State { mem, ..s }).apply(d) == (State { mem, ..s.apply(d) }),
        (State { mem, ..s }).effect(d) == s.effect(d),
        s.apply(d).mem == s.mem,
{
}

proof fn lemma_sahf_ignores_memory(s: State, d: Decoded, mem: Seq<u8>)
    requires
        register_only(d),
        classify(d.command) matches Class::Sahf,
    ensures
        (State { mem, ..s }).apply(d) == (State { mem, ..s.apply(d) }),
        (State { mem, ..s }).effect(d) == s.effect(d),
        s.apply(d).mem == s.mem,
{
}

proof fn lemma_cbw_ignores_memory(s: State, d: Decoded, mem: Seq<u8>)
    requires
        register_only(d),
        classify(d.command) matches Class::Cbw,
    ensures
        (State { mem, ..s }).apply(d) == (State { mem, ..s.apply(d) }),
        (State { mem, ..s }).effect(d) == s.effect(d),
        s.apply(d).mem == s.mem,
{
}

proof fn lemma_cwd_ignores_memory(s: State, d: Decoded, mem: Seq<u8>)
    requires
        register_only(d),
        classify(d.command) matches Class::Cwd,
    ensures
        (State { mem, ..s }).apply(d) == (State { mem, ..s.apply(d) }),
        (State { mem, ..s }).effect(d) == s.effect(d),
        s.apply(d).mem == s.mem,
{
}

proof fn lemma_adjust_ignores_memory(s: State, d: Decoded, mem: Seq<u8>)
    requires
        register_only(d),
        classify(d.command) matches Class::Adjust(_),
    ensures
        (State { mem, ..s }).apply(d) == (State { mem, ..s.apply(d) }),
        (State { mem, ..s }).effect(d) == s.effect(d),
        s.apply(d).mem == s.mem,
{
}

proof fn lemma_aad_ignores_memory(s: State, d: Decoded, mem: Seq<u8>)
    requires
        register_only(d),
        classify(d.command) matches Class::Aad,
    ensures
        (State { mem, ..s }).apply(d) == (State { mem, ..s.apply(d) }),
        (State { mem, ..s }).effect(d) == s.effect(d),
        s.apply(d).mem == s.mem,
{
}

proof fn lemma_port_in_ignores_memory(s: State, d: Decoded, mem: Seq<u8>)
    requires
        register_only(d),
        classify(d.command) matches Class::In(_),
    ensures
        (State { mem, ..s }).apply(d) == (State { mem, ..s.apply(d) }),
        (State { mem, ..s }).effect(d) == s.effect(d),
        s.apply(d).mem == s.mem,
{
}

proof fn lemma_port_out_ignores_memory(s: State, d: Decoded, mem: Seq<u8>)
    requires
        register_only(d),
        classify(d.command) matches Class::Out(_),
    ensures
        (State { mem, ..s }).apply(d) == (State { mem, ..s.apply(d) }),
        (State { mem, ..s }).effect(d) == s.effect(d),
        s.apply(d).mem == s.mem,
{
}

proof fn lemma_nop_ignores_memory(s: State, d: Decoded, mem: Seq<u8>)
    requires
        register_only(d),
        classify(d.command) matches Class::Nop,
    ensures
        (State { mem, ..s }).apply(d) == (State { mem, ..s.apply(d) }),
        (State { mem, ..s }).effect(d) == s.effect(d),
        s.apply(d).mem == s.mem,
{
}

proof fn lemma_hlt_ignores_memory(s: State, d: Decoded, mem: Seq<u8>)
    requires
        register_only(d),
        classify(d.command) matches Class::Hlt,
    ensures
        (State { mem, ..s }).apply(d) == (State { mem, ..s.apply(d) }),
        (State { mem, ..s }).effect(d) == s.effect(d),
        s.apply(d).mem == s.mem,
{
}

/// An instruction that works on registers alone neither reads nor writes
/// memory: its step on a state with other memory gives the same registers,
/// flags and effect, and leaves that memory as it is.
pub proof fn lemma_step_ignores_memory(s: State, d: Decoded, mem: Seq<u8>)
    requires
        register_only(d),
    ensures
        (State { mem, ..s }).step(d) == (State { mem, ..s.step(d) }),
        (State { mem, ..s }).step_effect(d) == s.step_effect(d),
        s.step(d).mem == s.mem,
{
    let a = s.advanced(d.length);
    assert((State { mem, ..s }).advanced(d.length) == (State { mem, ..a }));
    match classify(d.command) {
        Class::Binary(_, _) => lemma_binary_ignores_memory(a, d, mem),
        Class::Unary(_, _) => lemma_unary_ignores_memory(a, d, mem),
        Class::Shift(_, _) => lemma_shift_ignores_memory(a, d, mem),
        Class::Mov(_) => lemma_mov_ignores_memory(a, d, mem),
        Class::Xchg(_) => lemma_xchg_ignores_memory(a, d, mem),
        Class::Extend(_) => lemma_extend_ignores_memory(a, d, mem),
        Class::Jump => lemma_jump_ignores_memory(a, d, mem),
        Class::Branch(_) => lemma_branch_ignores_memory(a, d, mem),
        Class::SetCond(_) => lemma_set_cond_ignores_memory(a, d, mem),
        Class::Loop(_) => lemma_loop_ignores_memory(a, d, mem),
        Class::Flag(_) => lemma_flag_ignores_memory(a, d, mem),
        Class::Salc => lemma_salc_ignores_memory(a, d, mem),
        Class::Lahf => lemma_lahf_ignores_memory(a, d, mem),
        Class::Sahf => lemma_sahf_ignores_memory(a, d, mem),
        Class::Cbw => lemma_cbw_ignores_memory(a, d, mem),
        Class::Cwd => lemma_cwd_ignores_memory(a, d, mem),
        Class::Adjust(_) => lemma_adjust_ignores_memory(a, d, mem),
        Class::Aad => lemma_aad_ignores_memory(a, d, mem),
        Class::In(_) => lemma_port_in_ignores_memory(a, d, mem),
        Class::Out(_) => lemma_port_out_ignores_memory(a, d, mem),
        Class::Nop => lemma_nop_ignores_memory(a, d, mem),
        Class::Hlt => lemma_hlt_ignores_memory(a, d, mem),
        Class::BitTest(_) => lemma_bit_test_ignores_memory(a, d, mem),
        Class::BitScan => lemma_bit_scan_ignores_memory(a, d, mem),
        Class::DoubleShift(_) => lemma_double_shift_ignores_memory(a, d, mem),
        Class::MulDiv(_, _) => lemma_multiply_ignores_memory(a, d, mem),
        _ => {},
    }
}

/// Whether two states differ at most in the bytes of memory from flat
/// address `lo` up to `hi`.
pub open spec fn same_outside(a: State, b: State, lo: int, hi: int) -> bool {
    &&& same_but_memory(a, b)
    &&& a.mem.len() == MEMORY_SIZE
    &&& b.mem.len() == MEMORY_SIZE
    &&& forall|k: int| 0 <= k < MEMORY_SIZE && !(lo <= k < hi) ==> a.mem[k] == b.mem[k]
}

/// Whether the operand keeps out of the flat addresses from `lo` up to
/// `hi`: it is not in memory, or the word at its address lies outside them.
pub open spec fn operand_outside(s: State, p: Parameter, lo: int, hi: int) -> bool {
    !p.is_memory() || flat(s.param_segment(p), s.param_offset(p)) + 2 <= lo || hi <= flat(
        s.param_segment(p),
        s.param_offset(p),
    )
}

/// Whether the instruction reaches memory through its operands alone.
pub open spec fn by_operands(d: Decoded) -> bool {
    match classify(d.command) {
        Class::Binary(_, _) | Class::Unary(_, _) | Class::Shift(_, _) | Class::Mov(_)
        | Class::Lea | Class::Extend(_) | Class::Jump | Class::SetCond(_) | Class::BitTest(_)
        | Class::BitScan | Class::DoubleShift(_) => true,
        Class::MulDiv(kind, _) => kind == MulDiv::Mul || kind == MulDiv::Imul,
        _ => false,
    }
}

/// Whether the word at `seg:off` lies outside the flat addresses from `lo`
/// up to `hi`.
pub open spec fn word_outside(seg: u16, off: u16, lo: int, hi: int) -> bool {
    flat(seg, off) + 2 <= lo || hi <= flat(seg, off)
}

/// Whether the instruction is a push or a pop of a register, an immediate
/// value or the flags, or a near call or return without an operand in
/// memory, and the stack slot that it writes or reads lies outside the flat
/// addresses from `lo` up to `hi`.
pub open spec fn stack_outside(s: State, d: Decoded, lo: int, hi: int) -> bool {
    &&& !d.dst.is_memory()
    &&& match classify(d.command) {
        Class::Push | Class::Pushf | Class::CallNear => word_outside(
            s.sreg(2),
            wrap16(s.reg16(4) - 2),
            lo,
            hi,
        ),
        Class::Pop | Class::Popf | Class::Ret(false) => word_outside(
            s.sreg(2),
            s.reg16(4),
            lo,
            hi,
        ),
        _ => false,
    }
}

/// Whether the instruction keeps out of the flat addresses from `lo` up to
/// `hi` in state `s`: it works on registers alone; or it reaches memory
/// through its operands alone and each operand keeps out of them; or it is
/// a push, a pop, a near call or a near return whose stack slot lies
/// outside them.
pub open spec fn keeps_out(s: State, d: Decoded, lo: int, hi: int) -> bool {
    ||| register_only(d)
    ||| (by_operands(d) && operand_outside(s, d.dst, lo, hi) && operand_outside(s, d.src, lo, hi)
        && operand_outside(s, d.src2, lo, hi))
    ||| stack_outside(s, d, lo, hi)
}

/// Whether two states hold the same registers.
pub open spec fn same_registers(a: State, b: State) -> bool {
    a.r16 == b.r16 && a.sreg16 == b.sreg16
}

/// An operand that keeps out of the bytes in which two states differ reads
/// the same in both, and the access leaves them as alike as they were.
proof fn lemma_read_outside(a: State, b: State, c: State, p: Parameter, lo: int, hi: int)
    requires
        same_outside(a, b, lo, hi),
        same_registers(b, c),
        operand_outside(c, p, lo, hi),
    ensures
        a.read8(p) == b.read8(p),
        a.read16(p) == b.read16(p),
        forall|wide: bool| #[trigger] a.read(p, wide) == b.read(p, wide),
        forall|wide: bool|
            same_outside(#[trigger] a.touched(p, wide), b.touched(p, wide), lo, hi)
                && same_registers(b.touched(p, wide), c),
        forall|n: int|
            same_outside(#[trigger] a.touch_param(p, n), b.touch_param(p, n), lo, hi)
                && same_registers(b.touch_param(p, n), c),
{
    assert(a.param_segment(p) == c.param_segment(p));
    assert(a.param_offset(p) == c.param_offset(p));
    assert(b.param_segment(p) == c.param_segment(p));
    assert(b.param_offset(p) == c.param_offset(p));
}

/// A 16-bit write to a memory operand that keeps out of the bytes in which
/// two states differ leaves them as alike as they were.
proof fn lemma_store_outside(a: State, b: State, seg: u16, off: u16, v: u16, lo: int, hi: int)
    requires
        same_outside(a, b, lo, hi),
        flat(seg, off) + 2 <= lo || hi <= flat(seg, off),
    ensures
        same_outside(a.store16(seg, off, v), b.store16(seg, off, v), lo, hi),
        same_outside(a.store8(seg, off, lo_byte(v)), b.store8(seg, off, lo_byte(v)), lo, hi),
{
    if in_range(seg, off, 2) {
        lemma_store16_load(a.mem, flat(seg, off), v);
        lemma_store16_load(b.mem, flat(seg, off), v);
    }
}

/// A write to an operand that keeps out of the bytes in which two states
/// differ leaves them as alike as they were.
proof fn lemma_write_outside(
    a: State,
    b: State,
    c: State,
    p: Parameter,
    v: u16,
    wide: bool,
    lo: int,
    hi: int,
)
    requires
        same_outside(a, b, lo, hi),
        same_registers(b, c),
        operand_outside(c, p, lo, hi),
    ensures
        same_outside(a.write(p, v, wide), b.write(p, v, wide), lo, hi),
        same_outside(a.write16(p, v), b.write16(p, v), lo, hi),
{
    if p.is_memory() {
        assert(a.param_segment(p) == c.param_segment(p));
        assert(a.param_offset(p) == c.param_offset(p));
        assert(b.param_segment(p) == c.param_segment(p));
        assert(b.param_offset(p) == c.param_offset(p));
        lemma_store_outside(a, b, c.param_segment(p), c.param_offset(p), v, lo, hi);
    } else {
        lemma_write(a, b, p, v, wide);
    }
}

proof fn lemma_binary_outside(a: State, b: State, kind: Binary, wide: bool, d: Decoded, lo: int, hi: int)
    requires
        same_outside(a, b, lo, hi),
        operand_outside(b, d.dst, lo, hi),
        operand_outside(b, d.src, lo, hi),
        operand_outside(b, d.src2, lo, hi),
    ensures
        same_outside(a.binary(kind, wide, d), b.binary(kind, wide, d), lo, hi),
{
    lemma_read_outside(a, b, b, d.dst, lo, hi);
    let a1 = a.touched(d.dst, wide);
    let b1 = b.touched(d.dst, wide);
    lemma_read_outside(a1, b1, b, d.src, lo, hi);
    let a2 = a1.touched(d.src, wide);
    let b2 = b1.touched(d.src, wide);
    let o = binary_outcome(kind, b.read(d.dst, wide), b1.read(d.src, wide), wide, b.flags);
    lemma_write_outside(a2.with_flags(o.flags), b2.with_flags(o.flags), b, d.dst, o.value, wide, lo, hi);
}

proof fn lemma_unary_outside(a: State, b: State, kind: Unary, wide: bool, d: Decoded, lo: int, hi: int)
    requires
        same_outside(a, b, lo, hi),
        operand_outside(b, d.dst, lo, hi),
        operand_outside(b, d.src, lo, hi),
        operand_outside(b, d.src2, lo, hi),
    ensures
        same_outside(a.unary(kind, wide, d), b.unary(kind, wide, d), lo, hi),
{
    lemma_read_outside(a, b, b, d.dst, lo, hi);
    let a1 = a.touched(d.dst, wide);
    let b1 = b.touched(d.dst, wide);
    let o = unary_outcome(kind, b.read(d.dst, wide), wide, b.flags);
    lemma_write_outside(a1.with_flags(o.flags), b1.with_flags(o.flags), b, d.dst, o.value, wide, lo, hi);
}

proof fn lemma_shift_outside(a: State, b: State, kind: ShiftKind, wide: bool, d: Decoded, lo: int, hi: int)
    requires
        same_outside(a, b, lo, hi),
        operand_outside(b, d.dst, lo, hi),
        operand_outside(b, d.src, lo, hi),
        operand_outside(b, d.src2, lo, hi),
    ensures
        same_outside(a.shift(kind, wide, d), b.shift(kind, wide, d), lo, hi),
{
    lemma_read_outside(a, b, b, d.dst, lo, hi);
    let a1 = a.touched(d.dst, wide);
    let b1 = b.touched(d.dst, wide);
    lemma_read_outside(a1, b1, b, d.src, lo, hi);
    let a2 = a1.touch_param(d.src, 1);
    let b2 = b1.touch_param(d.src, 1);
    let o = spec_shift(kind, b.read(d.dst, wide), b1.read8(d.src), wide, b.flags);
    lemma_write_outside(a2.with_flags(o.flags), b2.with_flags(o.flags), b, d.dst, o.value, wide, lo, hi);
}

proof fn lemma_mov_outside(a: State, b: State, wide: bool, d: Decoded, lo: int, hi: int)
    requires
        same_outside(a, b, lo, hi),
        operand_outside(b, d.dst, lo, hi),
        operand_outside(b, d.src, lo, hi),
        operand_outside(b, d.src2, lo, hi),
    ensures
        same_outside(a.mov(wide, d), b.mov(wide, d), lo, hi),
{
    lemma_read_outside(a, b, b, d.src, lo, hi);
    lemma_write_outside(
        a.touched(d.src, wide),
        b.touched(d.src, wide),
        b,
        d.dst,
        b.read(d.src, wide),
        wide,
        lo,
        hi,
    );
}

proof fn lemma_extend_outside(a: State, b: State, signed: bool, d: Decoded, lo: int, hi: int)
    requires
        same_outside(a, b, lo, hi),
        operand_outside(b, d.dst, lo, hi),
        operand_outside(b, d.src, lo, hi),
        operand_outside(b, d.src2, lo, hi),
    ensures
        same_outside(a.extend(signed, d), b.extend(signed, d), lo, hi),
{
    lemma_read_outside(a, b, b, d.src, lo, hi);
    let v = b.read8(d.src);
    let r = if signed {
        wrap16(signed8(v))
    } else {
        v as u16
    };
    lemma_write_outside(a.touch_param(d.src, 1), b.touch_param(d.src, 1), b, d.dst, r, true, lo, hi);
}

proof fn lemma_bit_test_outside(a: State, b: State, set: bool, d: Decoded, lo: int, hi: int)
    requires
        same_outside(a, b, lo, hi),
        operand_outside(b, d.dst, lo, hi),
        operand_outside(b, d.src, lo, hi),
        operand_outside(b, d.src2, lo, hi),
    ensures
        same_outside(a.bit_test(set, d), b.bit_test(set, d), lo, hi),
{
    lemma_read_outside(a, b, b, d.dst, lo, hi);
    let a1 = a.touch_param(d.dst, 2);
    let b1 = b.touch_param(d.dst, 2);
    lemma_read_outside(a1, b1, b, d.src, lo, hi);
    let a2 = a1.touch_param(d.src, 2);
    let b2 = b1.touch_param(d.src, 2);
    let t = spec_bit_test(b.read16(d.dst), b1.read16(d.src), set, b.flags);
    lemma_write_outside(a2.with_flags(t.flags), b2.with_flags(t.flags), b, d.dst, t.value, true, lo, hi);
}

proof fn lemma_bit_scan_outside(a: State, b: State, d: Decoded, lo: int, hi: int)
    requires
        same_outside(a, b, lo, hi),
        operand_outside(b, d.dst, lo, hi),
        operand_outside(b, d.src, lo, hi),
        operand_outside(b, d.src2, lo, hi),
    ensures
        same_outside(a.bit_scan(d), b.bit_scan(d), lo, hi),
{
    lemma_read_outside(a, b, b, d.src, lo, hi);
    let a1 = a.touch_param(d.src, 2);
    let b1 = b.touch_param(d.src, 2);
    let z = Flags { zero: false, ..b.flags };
    lemma_write_outside(
        a1.with_flags(z),
        b1.with_flags(z),
        b,
        d.dst,
        lowest_set(b.read16(d.src) as nat) as u16,
        true,
        lo,
        hi,
    );
}

proof fn lemma_double_shift_outside(a: State, b: State, left: bool, d: Decoded, lo: int, hi: int)
    requires
        same_outside(a, b, lo, hi),
        operand_outside(b, d.dst, lo, hi),
        operand_outside(b, d.src, lo, hi),
        operand_outside(b, d.src2, lo, hi),
    ensures
        same_outside(a.double_shift(left, d), b.double_shift(left, d), lo, hi),
{
    lemma_read_outside(a, b, b, d.dst, lo, hi);
    let a1 = a.touch_param(d.dst, 2);
    let b1 = b.touch_param(d.dst, 2);
    lemma_read_outside(a1, b1, b, d.src, lo, hi);
    let a2 = a1.touch_param(d.src, 2);
    let b2 = b1.touch_param(d.src, 2);
    lemma_read_outside(a2, b2, b, d.src2, lo, hi);
    let a3 = a2.touch_param(d.src2, 1);
    let b3 = b2.touch_param(d.src2, 1);
    let o = spec_double_shift(b.read16(d.dst), b1.read16(d.src), b2.read8(d.src2), left, b.flags);
    lemma_write_outside(a3.with_flags(o.flags), b3.with_flags(o.flags), b, d.dst, o.value, true, lo, hi);
}

proof fn lemma_multiply_outside(a: State, b: State, signed: bool, wide: bool, d: Decoded, lo: int, hi: int)
    requires
        same_outside(a, b, lo, hi),
        operand_outside(b, d.dst, lo, hi),
        operand_outside(b, d.src, lo, hi),
        operand_outside(b, d.src2, lo, hi),
    ensures
        same_outside(a.multiply(signed, wide, d), b.multiply(signed, wide, d), lo, hi),
{
    lemma_read_outside(a, b, b, d.dst, lo, hi);
}

proof fn lemma_multiply_into_outside(a: State, b: State, d: Decoded, lo: int, hi: int)
    requires
        same_outside(a, b, lo, hi),
        operand_outside(b, d.dst, lo, hi),
        operand_outside(b, d.src, lo, hi),
        operand_outside(b, d.src2, lo, hi),
    ensures
        same_outside(a.multiply_into(d), b.multiply_into(d), lo, hi),
{
    lemma_read_outside(a, b, b, d.src, lo, hi);
    let a1 = a.touch_param(d.src, 2);
    let b1 = b.touch_param(d.src, 2);
    lemma_read_outside(a1, b1, b, d.dst, lo, hi);
    lemma_read_outside(a1, b1, b, d.src2, lo, hi);
    let y = if d.src2 is Empty {
        b1.read16(d.dst)
    } else {
        b1.read16(d.src2)
    };
    let p = spec_imul(b.read16(d.src), y, true, b.flags);
    lemma_write_outside(a1.with_flags(p.flags), b1.with_flags(p.flags), b, d.dst, p.low, true, lo, hi);
}

proof fn lemma_lea_outside(a: State, b: State, d: Decoded, lo: int, hi: int)
    requires
        same_outside(a, b, lo, hi),
        operand_outside(b, d.dst, lo, hi),
    ensures
        same_outside(a.lea(d), b.lea(d), lo, hi),
{
    assert(a.param_offset(d.src) == b.param_offset(d.src));
    lemma_write_outside(a, b, b, d.dst, b.param_offset(d.src), true, lo, hi);
}

proof fn lemma_jump_outside(a: State, b: State, d: Decoded, lo: int, hi: int)
    requires
        same_outside(a, b, lo, hi),
        operand_outside(b, d.dst, lo, hi),
    ensures
        same_outside(a.jump(d), b.jump(d), lo, hi),
{
    lemma_read_outside(a, b, b, d.dst, lo, hi);
}

proof fn lemma_set_cond_outside(a: State, b: State, c: Condition, d: Decoded, lo: int, hi: int)
    requires
        same_outside(a, b, lo, hi),
        operand_outside(b, d.dst, lo, hi),
    ensures
        same_outside(a.set_cond(c, d), b.set_cond(c, d), lo, hi),
{
    let v: u16 = if holds(c, b.flags, b.reg16(1)) {
        1
    } else {
        0
    };
    lemma_write_outside(a, b, b, d.dst, v, false, lo, hi);
    assert(lo_byte(v) == v);
}

proof fn lemma_push16_outside(a: State, b: State, v: u16, lo: int, hi: int)
    requires
        same_outside(a, b, lo, hi),
        word_outside(b.sreg(2), wrap16(b.reg16(4) - 2), lo, hi),
    ensures
        same_outside(a.push16(v), b.push16(v), lo, hi),
{
    let sp = wrap16(b.reg16(4) - 2);
    lemma_set_register(a, b, 4, sp);
    lemma_store_outside(a.with_reg16(4, sp), b.with_reg16(4, sp), b.sreg(2), sp, v, lo, hi);
}

proof fn lemma_pop16_outside(a: State, b: State, lo: int, hi: int)
    requires
        same_outside(a, b, lo, hi),
        word_outside(b.sreg(2), b.reg16(4), lo, hi),
    ensures
        a.top16() == b.top16(),
        same_outside(a.drop16(), b.drop16(), lo, hi),
{
    let sp = wrap16(b.reg16(4) + 2);
    lemma_set_register(
        a.touch(b.sreg(2), b.reg16(4), 2),
        b.touch(b.sreg(2), b.reg16(4), 2),
        4,
        sp,
    );
}

proof fn lemma_stack_outside(a: State, b: State, d: Decoded, lo: int, hi: int)
    requires
        same_outside(a, b, lo, hi),
        stack_outside(b, d, lo, hi),
    ensures
        same_outside(a.apply(d), b.apply(d), lo, hi),
        a.effect(d) == b.effect(d),
{
    match classify(d.command) {
        Class::Push => {
            lemma_operand(a, b, d.dst);
            lemma_push16_outside(a, b, b.read16(d.dst), lo, hi);
        },
        Class::Pushf => {
            lemma_push16_outside(a, b, b.flags.word() as u16, lo, hi);
        },
        Class::Pop => {
            lemma_pop16_outside(a, b, lo, hi);
            lemma_write(a.drop16(), b.drop16(), d.dst, b.top16(), true);
        },
        Class::Popf => {
            lemma_pop16_outside(a, b, lo, hi);
        },
        Class::CallNear => {
            lemma_operand(a, b, d.dst);
            lemma_push16_outside(a, b, b.ip, lo, hi);
        },
        Class::Ret(_) => {
            lemma_pop16_outside(a, b, lo, hi);
            lemma_operand(a, b, d.dst);
            let a1 = a.drop16().with_ip(b.top16());
            let b1 = b.drop16().with_ip(b.top16());
            lemma_set_register(a1, b1, 4, wrap16(b1.reg16(4) + b.read16(d.dst)));
        },
        _ => {},
    }
}

proof fn lemma_stack_step_outside(a: State, b: State, d: Decoded, lo: int, hi: int)
    requires
        same_outside(a, b, lo, hi),
        stack_outside(b, d, lo, hi),
    ensures
        same_outside(a.step(d), b.step(d), lo, hi),
        a.step_effect(d) == b.step_effect(d),
{
    let a1 = a.advanced(d.length);
    let b1 = b.advanced(d.length);
    assert(same_outside(a1, b1, lo, hi));
    assert(stack_outside(b1, d, lo, hi));
    lemma_stack_outside(a1, b1, d, lo, hi);
}

proof fn lemma_apply_outside(a: State, b: State, d: Decoded, lo: int, hi: int)
    requires
        same_outside(a, b, lo, hi),
        by_operands(d),
        operand_outside(b, d.dst, lo, hi),
        operand_outside(b, d.src, lo, hi),
        operand_outside(b, d.src2, lo, hi),
    ensures
        same_outside(a.apply(d), b.apply(d), lo, hi),
        a.effect(d) == b.effect(d),
{
    match classify(d.command) {
        Class::Binary(kind, wide) => lemma_binary_outside(a, b, kind, wide, d, lo, hi),
        Class::Unary(kind, wide) => lemma_unary_outside(a, b, kind, wide, d, lo, hi),
        Class::Shift(kind, wide) => lemma_shift_outside(a, b, kind, wide, d, lo, hi),
        Class::Mov(wide) => lemma_mov_outside(a, b, wide, d, lo, hi),
        Class::Lea => lemma_lea_outside(a, b, d, lo, hi),
        Class::Jump => lemma_jump_outside(a, b, d, lo, hi),
        Class::SetCond(c) => lemma_set_cond_outside(a, b, c, d, lo, hi),
        Class::Extend(signed) => lemma_extend_outside(a, b, signed, d, lo, hi),
        Class::BitTest(set) => lemma_bit_test_outside(a, b, set, d, lo, hi),
        Class::BitScan => lemma_bit_scan_outside(a, b, d, lo, hi),
        Class::DoubleShift(left) => lemma_double_shift_outside(a, b, left, d, lo, hi),
        Class::MulDiv(kind, wide) => {
            lemma_multiply_outside(a, b, kind == MulDiv::Imul, wide, d, lo, hi);
            lemma_multiply_into_outside(a, b, d, lo, hi);
        },
        _ => {},
    }
}

/// Where an operand lies depends on the registers alone.
proof fn lemma_operand_place(b: State, c: State, p: Parameter, lo: int, hi: int)
    requires
        same_registers(b, c),
        operand_outside(c, p, lo, hi),
    ensures
        operand_outside(b, p, lo, hi),
{
    assert(b.param_segment(p) == c.param_segment(p));
    assert(b.param_offset(p) == c.param_offset(p));
}

proof fn lemma_operands_step_outside(a: State, b: State, d: Decoded, lo: int, hi: int)
    requires
        same_outside(a, b, lo, hi),
        by_operands(d),
        operand_outside(b, d.dst, lo, hi),
        operand_outside(b, d.src, lo, hi),
        operand_outside(b, d.src2, lo, hi),
    ensures
        same_outside(a.step(d), b.step(d), lo, hi),
        a.step_effect(d) == b.step_effect(d),
{
    let a1 = a.advanced(d.length);
    let b1 = b.advanced(d.length);
    assert(same_outside(a1, b1, lo, hi));
    assert(same_registers(b1, b));
    lemma_operand_place(b1, b, d.dst, lo, hi);
    lemma_operand_place(b1, b, d.src, lo, hi);
    lemma_operand_place(b1, b, d.src2, lo, hi);
    lemma_apply_outside(a1, b1, d, lo, hi);
}

/// An instruction that keeps out of the bytes in which two states differ
/// does the same on both: after its step they hold the same registers and
/// flags, they still differ in those bytes at most, and the effect is the
/// same.
pub proof fn lemma_step_outside(a: State, b: State, d: Decoded, lo: int, hi: int)
    requires
        same_outside(a, b, lo, hi),
        keeps_out(b, d, lo, hi),
    ensures
        same_outside(a.step(d), b.step(d), lo, hi),
        a.step_effect(d) == b.step_effect(d),
{
    if register_only(d) {
        lemma_step_ignores_memory(b, d, a.mem);
    } else if stack_outside(b, d, lo, hi) {
        lemma_stack_step_outside(a, b, d, lo, hi);
    } else {
        lemma_operands_step_outside(a, b, d, lo, hi);
    }
}

/// The round trip through the encoder on two states that differ in memory
/// from flat address `lo` up to `hi` at most, as where one of them holds
/// the encoding: if the first holds at CS:IP what the encoder emits for
/// `d`, and `d` keeps out of those bytes, then after one step of the first
/// and the step of `d` on the second, registers and flags are the same,
/// memory is the same outside those bytes, and the effect is the same.
pub proof fn lemma_encoding_on_other_memory(s1: State, s2: State, d: Decoded, lo: int, hi: int)
    requires
        spec_encode(d) is Some,
        spec_encode(d)->0.len() <= s1.code_window().len(),
        forall|k: int|
            0 <= k < spec_encode(d)->0.len() ==> s1.code_window()[k] == spec_encode(d)->0[k],
        same_outside(s1, s2, lo, hi),
        keeps_out(s2, d, lo, hi),
    ensures
        same_outside(
            s1.next(),
            s2.step(with_length(d, spec_encode(d)->0.len() as int)),
            lo,
            hi,
        ),
        s1.next_effect() == s2.step_effect(with_length(d, spec_encode(d)->0.len() as int)),
{
    let i = with_length(d, spec_encode(d)->0.len() as int);
    lemma_executing_encoding(s1, d);
    assert(keeps_out(s2, i, lo, hi));
    lemma_step_outside(s1, s2, i, lo, hi);
}

/// The round trip through the encoder on the machine: outside the BIOS ROM
/// segment, with the bytes that the encoder emits for `d` at CS:IP, one
/// step of the machine is the step of `d` by the processor, then what the
/// hardware does for its effect, then the tick of the peripherals.
pub proof fn lemma_machine_executes_encoding(m: MachineView, d: Decoded)
    requires
        m.cpu.sreg(1) != ROM_SEG,
        spec_encode(d) is Some,
        spec_encode(d)->0.len() <= m.cpu.code_window().len(),
        forall|k: int|
            0 <= k < spec_encode(d)->0.len() ==> m.cpu.code_window()[k] == spec_encode(d)->0[k],
    ensures
        m.step() == (MachineView {
            cpu: m.cpu.step(with_length(d, spec_encode(d)->0.len() as int)),
            ..m
        }).completed(
            m.cpu.step_effect(with_length(d, spec_encode(d)->0.len() as int)),
        ).ticked(),
{
    reveal(MachineView::step);
    lemma_executing_encoding(m.cpu, d);
}

} // verus!
