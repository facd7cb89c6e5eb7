//! The executor: runs one decoded instruction on the processor.
use vstd::prelude::*;
use crate::address::add16;
use crate::alu::{
    add_with_carry, dec, inc, logic, neg, not, shift, sub_with_borrow, Logic, Outcome, ShiftKind,
};
use crate::bits::{bit_scan, bit_test, double_shift};
use crate::class::{
    class_of, Bcd, Binary, Class, Condition, FlagOp, LoopKind, MulDiv, StringOp, Unary,
};
use crate::cpu::CPU;
use crate::decoder::{offset_by, to_signed16, to_signed8};
use crate::flags::Flags;
use crate::instruction::{Decoded, OperandSize, Parameter, RepeatMode};
use crate::muldiv::{
    aaa, aad, aam, aas, daa, das, divide, divide_signed, multiply, multiply_signed, sign_fill_of,
    Adjusted,
};
use crate::op::{Invalid, Op};
use crate::semantics::{
    binary_outcome, count_up, flag_op, holds, runnable, skipped, unary_outcome, Effect,
};

verus! {

pub fn binary_outcome_of(kind: Binary, a: u16, b: u16, wide: bool, f: Flags) -> (o: Outcome)
    requires
        crate::alu::fits(a, wide),
        crate::alu::fits(b, wide),
    ensures
        o == binary_outcome(kind, a, b, wide, f),
{
    match kind {
        Binary::Add => add_with_carry(a, b, false, wide, f),
        Binary::Adc => add_with_carry(a, b, f.carry, wide, f),
        Binary::Sub | Binary::Cmp => sub_with_borrow(a, b, false, wide, f),
        Binary::Sbb => sub_with_borrow(a, b, f.carry, wide, f),
        Binary::And | Binary::Test => logic(Logic::And, a, b, wide, f),
        Binary::Or => logic(Logic::Or, a, b, wide, f),
        Binary::Xor => logic(Logic::Xor, a, b, wide, f),
    }
}

pub fn unary_outcome_of(kind: Unary, a: u16, wide: bool, f: Flags) -> (o: Outcome)
    requires
        crate::alu::fits(a, wide),
    ensures
        o == unary_outcome(kind, a, wide, f),
{
    match kind {
        Unary::Inc => inc(a, wide, f),
        Unary::Dec => dec(a, wide, f),
        Unary::Neg => neg(a, wide, f),
        Unary::Not => Outcome { value: not(a, wide), flags: f },
    }
}

pub fn condition_holds(c: Condition, f: Flags, cx: u16) -> (r: bool)
    ensures
        r == holds(c, f, cx),
{
    match c {
        Condition::O => f.overflow,
        Condition::No => !f.overflow,
        Condition::C => f.carry,
        Condition::Nc => !f.carry,
        Condition::Z => f.zero,
        Condition::Nz => !f.zero,
        Condition::Na => f.carry || f.zero,
        Condition::A => !f.carry && !f.zero,
        Condition::S => f.sign,
        Condition::Ns => !f.sign,
        Condition::Pe => f.parity,
        Condition::Po => !f.parity,
        Condition::L => f.sign != f.overflow,
        Condition::Nl => f.sign == f.overflow,
        Condition::Ng => f.zero || f.sign != f.overflow,
        Condition::G => !f.zero && f.sign == f.overflow,
        Condition::Cxz => cx == 0,
    }
}

pub fn flag_op_of(op: FlagOp, f: Flags) -> (g: Flags)
    ensures
        g == flag_op(op, f),
{
    let mut g = f;
    match op {
        FlagOp::Clc => {
            g.carry = false;
        },
        FlagOp::Stc => {
            g.carry = true;
        },
        FlagOp::Cmc => {
            g.carry = !f.carry;
        },
        FlagOp::Cld => {
            g.direction = false;
        },
        FlagOp::Std => {
            g.direction = true;
        },
        FlagOp::Cli => {
            g.interrupt_enable = false;
        },
        FlagOp::Sti => {
            g.interrupt_enable = true;
        },
    }
    g
}

pub fn is_runnable(d: &Decoded) -> (r: bool)
    ensures
        r == runnable(*d),
{
    let narrow = match d.op_size {
        OperandSize::Bits16 => true,
        OperandSize::Bits32 => false,
    };
    let near = match d.address_size {
        OperandSize::Bits16 => true,
        OperandSize::Bits32 => false,
    };
    d.command.is_valid() && narrow && near
}

pub fn is_skipped(d: &Decoded) -> (r: bool)
    ensures
        r == skipped(*d),
{
    match d.command {
        Op::Invalid(Invalid::FPUOp) => true,
        _ => false,
    }
}

fn count_up_of(n: usize) -> (r: usize)
    ensures
        r == count_up(n),
{
    if n < usize::MAX {
        n + 1
    } else {
        n
    }
}

impl CPU {
    /// The 8-bit value of an operand, without an access check.
    pub fn peek8(&self, p: &Parameter) -> (v: u8)
        requires
            self.wf(),
            p.wf(),
        ensures
            v == self@.read8(*p),
    {
        match *p {
            Parameter::Imm8(v) => v,
            Parameter::Imm16(v) => (v % 256) as u8,
            Parameter::Reg8(i) => self.get_r8(i),
            _ => if p.in_memory() {
                self.peek_mem8(self.param_segment(p), self.param_offset(p))
            } else {
                0
            },
        }
    }

    /// The 16-bit value of an operand, without an access check.
    pub fn peek16(&self, p: &Parameter) -> (v: u16)
        requires
            self.wf(),
            p.wf(),
        ensures
            v == self@.read16(*p),
    {
        match *p {
            Parameter::Imm8(v) => v as u16,
            Parameter::Imm16(v) => v,
            Parameter::Reg16(i) => self.get_r16(i),
            Parameter::SReg16(i) => self.get_sreg(i),
            _ => if p.in_memory() {
                self.peek_mem16(self.param_segment(p), self.param_offset(p))
            } else {
                0
            },
        }
    }

    pub fn peek(&self, p: &Parameter, wide: bool) -> (v: u16)
        requires
            self.wf(),
            p.wf(),
        ensures
            v == self@.read(*p, wide),
    {
        if wide {
            self.peek16(p)
        } else {
            self.peek8(p) as u16
        }
    }

    pub fn peek_mem8(&self, seg: u16, off: u16) -> (v: u8)
        requires
            self.wf(),
        ensures
            v == self@.load8(seg, off),
    {
        if crate::mmu::MMU::check_range(seg, off, 1) {
            self.mmu.read_u8(seg, off)
        } else {
            0
        }
    }

    pub fn peek_mem16(&self, seg: u16, off: u16) -> (v: u16)
        requires
            self.wf(),
        ensures
            v == self@.load16(seg, off),
    {
        if crate::mmu::MMU::check_range(seg, off, 2) {
            self.mmu.read_u16(seg, off)
        } else {
            0
        }
    }

    pub fn peek_mem(&self, seg: u16, off: u16, wide: bool) -> (v: u16)
        requires
            self.wf(),
        ensures
            v == self@.load(seg, off, wide),
            crate::alu::fits(v, wide),
    {
        if wide {
            self.peek_mem16(seg, off)
        } else {
            self.peek_mem8(seg, off) as u16
        }
    }

    pub fn load(&mut self, seg: u16, off: u16, wide: bool) -> (v: u16)
        requires
            old(self).wf(),
        ensures
            v == old(self)@.load(seg, off, wide),
            final(self)@ == old(self)@.touch(
                seg,
                off,
                if wide {
                    2
                } else {
                    1
                },
            ),
            final(self).wf(),
            crate::alu::fits(v, wide),
    {
        if wide {
            self.load16(seg, off)
        } else {
            self.load8(seg, off) as u16
        }
    }

    pub fn store(&mut self, seg: u16, off: u16, v: u16, wide: bool)
        requires
            old(self).wf(),
        ensures
            final(self)@ == old(self)@.store(seg, off, v, wide),
            final(self).wf(),
    {
        if wide {
            self.store16(seg, off, v)
        } else {
            self.store8(seg, off, (v % 256) as u8)
        }
    }

    fn advance(&mut self, length: u8)
        ensures
            final(self)@ == old(self)@.advanced(length),
            final(self).wf() == old(self).wf(),
    {
        self.ip = add16(self.ip, length as u16);
        self.instruction_count = count_up_of(self.instruction_count);
        self.cycle_count = count_up_of(self.cycle_count);
    }

    fn bump(&mut self, i: u8, delta: i32)
        requires
            i < 8,
            -0x1_0000 <= delta <= 0x1_0000,
        ensures
            final(self)@ == old(self)@.bump(i as int, delta as int),
            final(self).wf() == old(self).wf(),
    {
        let v = offset_by(self.get_r16(i), delta);
        self.set_r16(i, v);
    }

    fn accumulator(&self, wide: bool) -> (v: u16)
        ensures
            v == self@.accumulator(wide),
            crate::alu::fits(v, wide),
    {
        if wide {
            self.get_r16(0)
        } else {
            self.get_r8(0) as u16
        }
    }

    fn set_accumulator(&mut self, v: u16, wide: bool)
        ensures
            final(self)@ == old(self)@.with_accumulator(v, wide),
            final(self).wf() == old(self).wf(),
    {
        if wide {
            self.set_r16(0, v)
        } else {
            self.set_r8(0, (v % 256) as u8)
        }
    }

    fn set_flags(&mut self, f: Flags)
        ensures
            final(self)@ == old(self)@.with_flags(f),
            final(self).wf() == old(self).wf(),
    {
        self.flags = f;
    }

    fn set_ip(&mut self, ip: u16)
        ensures
            final(self)@ == old(self)@.with_ip(ip),
            final(self).wf() == old(self).wf(),
    {
        self.ip = ip;
    }

    fn fail(&mut self)
        ensures
            final(self)@ == old(self)@.failed(),
            final(self).wf() == old(self).wf(),
    {
        self.fatal_error = true;
    }

    /// Delivers interrupt `n`.
    pub fn interrupt(&mut self, n: u8)
        requires
            old(self).wf(),
        ensures
            final(self)@ == old(self)@.interrupt(n),
            final(self).wf(),
    {
        let w = self.flags.to_word();
        self.push16(w);
        let mut f = self.flags;
        f.interrupt_enable = false;
        f.trap = false;
        self.set_flags(f);
        let cs = self.get_sreg(1);
        let ip = self.ip;
        self.push16(cs);
        self.push16(ip);
        let target = self.mmu.read_vec(n as u16);
        self.set_ip(target.1);
        self.set_sreg(1, target.0);
    }

    fn exec_binary(&mut self, kind: Binary, wide: bool, d: &Decoded)
        requires
            old(self).wf(),
            d.wf(),
        ensures
            final(self)@ == old(self)@.binary(kind, wide, *d),
            final(self).wf(),
    {
        let f = self.flags;
        let a = self.read(&d.dst, wide);
        let b = self.read(&d.src, wide);
        let o = binary_outcome_of(kind, a, b, wide, f);
        self.set_flags(o.flags);
        match kind {
            Binary::Cmp | Binary::Test => {},
            _ => {
                self.write(&d.dst, o.value, wide);
            },
        }
    }

    fn exec_unary(&mut self, kind: Unary, wide: bool, d: &Decoded)
        requires
            old(self).wf(),
            d.wf(),
        ensures
            final(self)@ == old(self)@.unary(kind, wide, *d),
            final(self).wf(),
    {
        let f = self.flags;
        let a = self.read(&d.dst, wide);
        let o = unary_outcome_of(kind, a, wide, f);
        self.set_flags(o.flags);
        self.write(&d.dst, o.value, wide);
    }

    fn exec_shift(&mut self, kind: ShiftKind, wide: bool, d: &Decoded)
        requires
            old(self).wf(),
            d.wf(),
        ensures
            final(self)@ == old(self)@.shift(kind, wide, *d),
            final(self).wf(),
    {
        let f = self.flags;
        let a = self.read(&d.dst, wide);
        let count = self.read8(&d.src);
        let o = shift(kind, a, count, wide, f);
        self.set_flags(o.flags);
        self.write(&d.dst, o.value, wide);
    }

    fn set_double(&mut self, low: u16, high: u16, wide: bool)
        ensures
            final(self)@ == old(self)@.with_double(low, high, wide),
            final(self).wf() == old(self).wf(),
    {
        if wide {
            self.set_r16(0, low);
            self.set_r16(2, high);
        } else {
            self.set_r16(0, (high % 256) * 256 + low % 256);
        }
    }

    fn exec_multiply(&mut self, signed: bool, wide: bool, d: &Decoded)
        requires
            old(self).wf(),
            d.wf(),
        ensures
            final(self)@ == old(self)@.multiply(signed, wide, *d),
            final(self).wf(),
    {
        let f = self.flags;
        let acc = self.accumulator(wide);
        let v = self.read(&d.dst, wide);
        let p = if signed {
            multiply_signed(acc, v, wide, f)
        } else {
            multiply(acc, v, wide, f)
        };
        self.set_double(p.low, p.high, wide);
        self.set_flags(p.flags);
    }

    fn exec_multiply_into(&mut self, d: &Decoded)
        requires
            old(self).wf(),
            d.wf(),
        ensures
            final(self)@ == old(self)@.multiply_into(*d),
            final(self).wf(),
    {
        let f = self.flags;
        let a = self.read16(&d.src);
        let b = match d.src2 {
            Parameter::Empty => self.peek16(&d.dst),
            _ => self.peek16(&d.src2),
        };
        let p = multiply_signed(a, b, true, f);
        self.set_flags(p.flags);
        self.write16(&d.dst, p.low);
    }

    fn exec_divide(&mut self, signed: bool, wide: bool, d: &Decoded)
        requires
            old(self).wf(),
            d.wf(),
        ensures
            final(self)@ == old(self)@.divide(signed, wide, *d),
            final(self).wf(),
    {
        let ax = self.get_r16(0);
        let dx = self.get_r16(2);
        let v = self.read(&d.dst, wide);
        let dividend: u32 = if wide {
            dx as u32 * 0x1_0000 + ax as u32
        } else {
            ax as u32
        };
        let q = if signed {
            let n: i32 = if wide {
                if dividend >= 0x8000_0000 {
                    (dividend as i64 - 0x1_0000_0000) as i32
                } else {
                    dividend as i32
                }
            } else {
                to_signed16(ax) as i32
            };
            divide_signed(n, v, wide)
        } else {
            divide(dividend, v, wide)
        };
        match q {
            Some(r) => {
                self.set_double(r.quotient, r.remainder, wide);
            },
            None => {
                self.interrupt(0);
            },
        }
    }

    fn exec_mov(&mut self, wide: bool, d: &Decoded)
        requires
            old(self).wf(),
            d.wf(),
        ensures
            final(self)@ == old(self)@.mov(wide, *d),
            final(self).wf(),
    {
        let v = self.read(&d.src, wide);
        self.write(&d.dst, v, wide);
    }

    fn exec_xchg(&mut self, wide: bool, d: &Decoded)
        requires
            old(self).wf(),
            d.wf(),
        ensures
            final(self)@ == old(self)@.xchg(wide, *d),
            final(self).wf(),
    {
        let a = self.read(&d.dst, wide);
        let b = self.read(&d.src, wide);
        self.write(&d.dst, b, wide);
        self.write(&d.src, a, wide);
    }

    fn exec_lea(&mut self, d: &Decoded)
        requires
            old(self).wf(),
            d.wf(),
        ensures
            final(self)@ == old(self)@.lea(*d),
            final(self).wf(),
    {
        let off = self.param_offset(&d.src);
        self.write16(&d.dst, off);
    }

    /// Reads the far pointer at a memory operand: (offset, segment).
    fn read_far_pointer(&mut self, p: &Parameter) -> (r: (u16, u16))
        requires
            old(self).wf(),
        ensures
            (r.0, r.1, final(self)@) == old(self)@.far_pointer(*p),
            final(self).wf(),
    {
        let seg = self.param_segment(p);
        let off = self.param_offset(p);
        let lo = self.load16(seg, off);
        let hi = self.load16(seg, add16(off, 2));
        (lo, hi)
    }

    fn exec_load_far(&mut self, sreg: u8, d: &Decoded)
        requires
            old(self).wf(),
            d.wf(),
            sreg < 6,
        ensures
            final(self)@ == old(self)@.load_far(sreg, *d),
            final(self).wf(),
    {
        let r = self.read_far_pointer(&d.src);
        self.write16(&d.dst, r.0);
        self.set_sreg(sreg, r.1);
    }

    fn exec_extend(&mut self, signed: bool, d: &Decoded)
        requires
            old(self).wf(),
            d.wf(),
        ensures
            final(self)@ == old(self)@.extend(signed, *d),
            final(self).wf(),
    {
        let v = self.read8(&d.src);
        let r = if signed {
            offset_by(0, to_signed8(v) as i32)
        } else {
            v as u16
        };
        self.write16(&d.dst, r);
    }

    fn exec_push(&mut self, d: &Decoded)
        requires
            old(self).wf(),
            d.wf(),
        ensures
            final(self)@ == old(self)@.push(*d),
            final(self).wf(),
    {
        let v = self.read16(&d.dst);
        self.push16(v);
    }

    fn exec_pop(&mut self, d: &Decoded)
        requires
            old(self).wf(),
            d.wf(),
        ensures
            final(self)@ == old(self)@.pop(*d),
            final(self).wf(),
    {
        let v = self.pop16();
        self.write16(&d.dst, v);
    }

    fn exec_pusha(&mut self)
        requires
            old(self).wf(),
        ensures
            final(self)@ == old(self)@.pusha(),
            final(self).wf(),
    {
        let ax = self.get_r16(0);
        let cx = self.get_r16(1);
        let dx = self.get_r16(2);
        let bx = self.get_r16(3);
        let sp = self.get_r16(4);
        let bp = self.get_r16(5);
        let si = self.get_r16(6);
        let di = self.get_r16(7);
        self.push16(ax);
        self.push16(cx);
        self.push16(dx);
        self.push16(bx);
        self.push16(sp);
        self.push16(bp);
        self.push16(si);
        self.push16(di);
    }

    fn pop_reg(&mut self, i: u8)
        requires
            old(self).wf(),
            i < 8,
        ensures
            final(self)@ == old(self)@.pop_reg(i as int),
            final(self).wf(),
    {
        let v = self.pop16();
        self.set_r16(i, v);
    }

    fn exec_popa(&mut self)
        requires
            old(self).wf(),
        ensures
            final(self)@ == old(self)@.popa(),
            final(self).wf(),
    {
        self.pop_reg(7);
        self.pop_reg(6);
        self.pop_reg(5);
        let _ = self.pop16();
        self.pop_reg(3);
        self.pop_reg(2);
        self.pop_reg(1);
        self.pop_reg(0);
    }

    fn exec_pushf(&mut self)
        requires
            old(self).wf(),
        ensures
            final(self)@ == old(self)@.pushf(),
            final(self).wf(),
    {
        let w = self.flags.to_word();
        self.push16(w);
    }

    fn exec_popf(&mut self)
        requires
            old(self).wf(),
        ensures
            final(self)@ == old(self)@.popf(),
            final(self).wf(),
    {
        let w = self.pop16();
        let mut f = self.flags;
        f.set_word(w);
        self.set_flags(f);
    }

    fn exec_enter(&mut self, d: &Decoded)
        requires
            old(self).wf(),
            d.wf(),
        ensures
            final(self)@ == old(self)@.enter(*d),
            final(self).wf(),
    {
        let size = self.peek16(&d.dst);
        let level = self.peek8(&d.src) % 32;
        let bp = self.get_r16(5);
        self.push16(bp);
        let frame = self.get_r16(4);
        if level > 0 {
            let ghost s1 = self@;
            let mut k: u8 = 0;
            while k < level - 1
                invariant
                    k <= level - 1,
                    self.wf(),
                    self@ == s1.enter_frames(k as nat),
                decreases level - 1 - k,
            {
                self.bump(5, -2);
                let ss = self.get_sreg(2);
                let at = self.get_r16(5);
                let v = self.load16(ss, at);
                self.push16(v);
                k += 1;
            }
            self.push16(frame);
        }
        self.set_r16(5, frame);
        self.bump(4, -(size as i32));
    }

    fn exec_leave(&mut self)
        requires
            old(self).wf(),
        ensures
            final(self)@ == old(self)@.leave(),
            final(self).wf(),
    {
        let bp = self.get_r16(5);
        self.set_r16(4, bp);
        self.pop_reg(5);
    }

    fn exec_jump(&mut self, d: &Decoded)
        requires
            old(self).wf(),
            d.wf(),
        ensures
            final(self)@ == old(self)@.jump(*d),
            final(self).wf(),
    {
        let target = self.read16(&d.dst);
        self.set_ip(target);
    }

    /// The target of a far jump or call: (offset, segment).
    fn read_far_target(&mut self, p: &Parameter) -> (r: (u16, u16))
        requires
            old(self).wf(),
        ensures
            (r.0, r.1, final(self)@) == old(self)@.far_target(*p),
            final(self).wf(),
    {
        match *p {
            Parameter::Ptr16Imm(seg, off) => (off, seg),
            _ => if p.in_memory() {
                self.read_far_pointer(p)
            } else {
                let r = (self.ip, self.get_sreg(1));
                self.fail();
                r
            },
        }
    }

    fn exec_jump_far(&mut self, d: &Decoded)
        requires
            old(self).wf(),
            d.wf(),
        ensures
            final(self)@ == old(self)@.jump_far(*d),
            final(self).wf(),
    {
        let r = self.read_far_target(&d.dst);
        self.set_sreg(1, r.1);
        self.set_ip(r.0);
    }

    fn exec_branch(&mut self, c: Condition, d: &Decoded)
        requires
            old(self).wf(),
            d.wf(),
        ensures
            final(self)@ == old(self)@.branch(c, *d),
            final(self).wf(),
    {
        if condition_holds(c, self.flags, self.get_r16(1)) {
            self.exec_jump(d);
        }
    }

    fn exec_set_cond(&mut self, c: Condition, d: &Decoded)
        requires
            old(self).wf(),
            d.wf(),
        ensures
            final(self)@ == old(self)@.set_cond(c, *d),
            final(self).wf(),
    {
        let v: u8 = if condition_holds(c, self.flags, self.get_r16(1)) {
            1
        } else {
            0
        };
        self.write8(&d.dst, v);
    }

    fn exec_loop(&mut self, kind: LoopKind, d: &Decoded)
        requires
            old(self).wf(),
            d.wf(),
        ensures
            final(self)@ == old(self)@.loop_op(kind, *d),
            final(self).wf(),
    {
        let zero = self.flags.zero;
        self.bump(1, -1);
        let taken = self.get_r16(1) != 0 && match kind {
            LoopKind::Always => true,
            LoopKind::WhileEqual => zero,
            LoopKind::WhileNotEqual => !zero,
        };
        if taken {
            self.exec_jump(d);
        }
    }

    fn exec_call_near(&mut self, d: &Decoded)
        requires
            old(self).wf(),
            d.wf(),
        ensures
            final(self)@ == old(self)@.call_near(*d),
            final(self).wf(),
    {
        let ip = self.ip;
        let target = self.read16(&d.dst);
        self.push16(ip);
        self.set_ip(target);
    }

    fn exec_call_far(&mut self, d: &Decoded)
        requires
            old(self).wf(),
            d.wf(),
        ensures
            final(self)@ == old(self)@.call_far(*d),
            final(self).wf(),
    {
        let ip = self.ip;
        let cs = self.get_sreg(1);
        let r = self.read_far_target(&d.dst);
        self.push16(cs);
        self.push16(ip);
        self.set_sreg(1, r.1);
        self.set_ip(r.0);
    }

    fn exec_ret(&mut self, far: bool, d: &Decoded)
        requires
            old(self).wf(),
            d.wf(),
        ensures
            final(self)@ == old(self)@.ret(far, *d),
            final(self).wf(),
    {
        let release = self.peek16(&d.dst);
        let ip = self.pop16();
        self.set_ip(ip);
        if far {
            let cs = self.pop16();
            self.set_sreg(1, cs);
        }
        self.bump(4, release as i32);
    }

    fn exec_into(&mut self)
        requires
            old(self).wf(),
        ensures
            final(self)@ == old(self)@.into(),
            final(self).wf(),
    {
        if self.flags.overflow {
            self.interrupt(4);
        }
    }

    fn exec_iret(&mut self)
        requires
            old(self).wf(),
        ensures
            final(self)@ == old(self)@.iret(),
            final(self).wf(),
    {
        let ip = self.pop16();
        self.set_ip(ip);
        let cs = self.pop16();
        self.set_sreg(1, cs);
        let w = self.pop16();
        let mut f = self.flags;
        f.set_word(w);
        self.set_flags(f);
    }

    fn exec_movs(&mut self, wide: bool, d: &Decoded)
        requires
            old(self).wf(),
        ensures
            final(self)@ == old(self)@.string_once(StringOp::Movs, wide, *d),
            final(self).wf(),
    {
        let n: i32 = if wide {
            2
        } else {
            1
        };
        let delta: i32 = if self.flags.direction {
            -n
        } else {
            n
        };
        let src_seg = self.segment_value(d.segment_prefix, false);
        let si = self.get_r16(6);
        let di = self.get_r16(7);
        let es = self.get_sreg(0);
        let f = self.flags;
        let v = self.load(src_seg, si, wide);
        self.store(es, di, v, wide);
        self.bump(6, delta);
        self.bump(7, delta);
    }

    fn exec_lods(&mut self, wide: bool, d: &Decoded)
        requires
            old(self).wf(),
        ensures
            final(self)@ == old(self)@.string_once(StringOp::Lods, wide, *d),
            final(self).wf(),
    {
        let n: i32 = if wide {
            2
        } else {
            1
        };
        let delta: i32 = if self.flags.direction {
            -n
        } else {
            n
        };
        let src_seg = self.segment_value(d.segment_prefix, false);
        let si = self.get_r16(6);
        let di = self.get_r16(7);
        let es = self.get_sreg(0);
        let f = self.flags;
        let v = self.load(src_seg, si, wide);
        self.set_accumulator(v, wide);
        self.bump(6, delta);
    }

    fn exec_stos(&mut self, wide: bool, d: &Decoded)
        requires
            old(self).wf(),
        ensures
            final(self)@ == old(self)@.string_once(StringOp::Stos, wide, *d),
            final(self).wf(),
    {
        let n: i32 = if wide {
            2
        } else {
            1
        };
        let delta: i32 = if self.flags.direction {
            -n
        } else {
            n
        };
        let src_seg = self.segment_value(d.segment_prefix, false);
        let si = self.get_r16(6);
        let di = self.get_r16(7);
        let es = self.get_sreg(0);
        let f = self.flags;
        let v = self.accumulator(wide);
        self.store(es, di, v, wide);
        self.bump(7, delta);
    }

    fn exec_cmps(&mut self, wide: bool, d: &Decoded)
        requires
            old(self).wf(),
        ensures
            final(self)@ == old(self)@.string_once(StringOp::Cmps, wide, *d),
            final(self).wf(),
    {
        let n: i32 = if wide {
            2
        } else {
            1
        };
        let delta: i32 = if self.flags.direction {
            -n
        } else {
            n
        };
        let src_seg = self.segment_value(d.segment_prefix, false);
        let si = self.get_r16(6);
        let di = self.get_r16(7);
        let es = self.get_sreg(0);
        let f = self.flags;
        let a = self.load(src_seg, si, wide);
        let b = self.load(es, di, wide);
        let o = sub_with_borrow(a, b, false, wide, f);
        self.set_flags(o.flags);
        self.bump(6, delta);
        self.bump(7, delta);
    }

    fn exec_scas(&mut self, wide: bool, d: &Decoded)
        requires
            old(self).wf(),
        ensures
            final(self)@ == old(self)@.string_once(StringOp::Scas, wide, *d),
            final(self).wf(),
    {
        let n: i32 = if wide {
            2
        } else {
            1
        };
        let delta: i32 = if self.flags.direction {
            -n
        } else {
            n
        };
        let src_seg = self.segment_value(d.segment_prefix, false);
        let si = self.get_r16(6);
        let di = self.get_r16(7);
        let es = self.get_sreg(0);
        let f = self.flags;
        let a = self.accumulator(wide);
        let b = self.load(es, di, wide);
        let o = sub_with_borrow(a, b, false, wide, f);
        self.set_flags(o.flags);
        self.bump(7, delta);
    }

    fn exec_ins(&mut self, wide: bool, d: &Decoded)
        requires
            old(self).wf(),
        ensures
            final(self)@ == old(self)@.string_once(StringOp::Ins, wide, *d),
            final(self).wf(),
    {
        let n: i32 = if wide {
            2
        } else {
            1
        };
        let delta: i32 = if self.flags.direction {
            -n
        } else {
            n
        };
        let src_seg = self.segment_value(d.segment_prefix, false);
        let si = self.get_r16(6);
        let di = self.get_r16(7);
        let es = self.get_sreg(0);
        let f = self.flags;
        self.bump(7, delta);
    }

    fn exec_outs(&mut self, wide: bool, d: &Decoded)
        requires
            old(self).wf(),
        ensures
            final(self)@ == old(self)@.string_once(StringOp::Outs, wide, *d),
            final(self).wf(),
    {
        let n: i32 = if wide {
            2
        } else {
            1
        };
        let delta: i32 = if self.flags.direction {
            -n
        } else {
            n
        };
        let src_seg = self.segment_value(d.segment_prefix, false);
        let si = self.get_r16(6);
        let di = self.get_r16(7);
        let es = self.get_sreg(0);
        let f = self.flags;
        let _ = self.load(src_seg, si, wide);
        self.bump(6, delta);
    }

    fn exec_string_once(&mut self, op: StringOp, wide: bool, d: &Decoded)
        requires
            old(self).wf(),
        ensures
            final(self)@ == old(self)@.string_once(op, wide, *d),
            final(self).wf(),
    {
        match op {
            StringOp::Movs => self.exec_movs(wide, d),
            StringOp::Lods => self.exec_lods(wide, d),
            StringOp::Stos => self.exec_stos(wide, d),
            StringOp::Cmps => self.exec_cmps(wide, d),
            StringOp::Scas => self.exec_scas(wide, d),
            StringOp::Ins => self.exec_ins(wide, d),
            StringOp::Outs => self.exec_outs(wide, d),
        }
    }

    fn exec_string(&mut self, op: StringOp, wide: bool, d: &Decoded)
        requires
            old(self).wf(),
        ensures
            final(self)@ == old(self)@.string_op(op, wide, *d),
            final(self).wf(),
    {
        let plain = match d.repeat {
            RepeatMode::NoRepeat => true,
            _ => false,
        };
        if plain {
            self.exec_string_once(op, wide, d);
        } else if self.get_r16(1) != 0 {
            let start = offset_by(self.ip, -(d.length as i32));
            self.exec_string_once(op, wide, d);
            self.bump(1, -1);
            let comparing = match op {
                StringOp::Cmps | StringOp::Scas => true,
                _ => false,
            };
            let zero = self.flags.zero;
            let wanted = match d.repeat {
                RepeatMode::Rep => true,
                RepeatMode::Repe => zero,
                RepeatMode::Repne => !zero,
                RepeatMode::NoRepeat => false,
            };
            if self.get_r16(1) != 0 && (!comparing || wanted) {
                self.set_ip(start);
            }
        }
    }

    fn set_adjusted(&mut self, a: Adjusted)
        ensures
            final(self)@ == old(self)@.with_adjusted(a),
            final(self).wf() == old(self).wf(),
    {
        self.set_r16(0, a.ah as u16 * 256 + a.al as u16);
        self.set_flags(a.flags);
    }

    fn exec_adjust(&mut self, kind: Bcd)
        requires
            old(self).wf(),
        ensures
            final(self)@ == old(self)@.adjust(kind),
            final(self).wf(),
    {
        let al = self.get_r8(0);
        let ah = self.get_r8(4);
        let a = match kind {
            Bcd::Aaa => aaa(al, ah, self.flags),
            Bcd::Aas => aas(al, ah, self.flags),
            Bcd::Daa => daa(al, ah, self.flags),
            Bcd::Das => das(al, ah, self.flags),
        };
        self.set_adjusted(a);
    }

    fn exec_aam(&mut self, d: &Decoded)
        requires
            old(self).wf(),
            d.wf(),
        ensures
            final(self)@ == old(self)@.aam(*d),
            final(self).wf(),
    {
        let base = self.peek8(&d.dst);
        if base == 0 {
            self.interrupt(0);
        } else {
            let a = aam(self.get_r8(0), base, self.flags);
            self.set_adjusted(a);
        }
    }

    fn exec_aad(&mut self, d: &Decoded)
        requires
            old(self).wf(),
            d.wf(),
        ensures
            final(self)@ == old(self)@.aad(*d),
            final(self).wf(),
    {
        let base = self.peek8(&d.dst);
        let a = aad(self.get_r8(0), self.get_r8(4), base, self.flags);
        self.set_adjusted(a);
    }

    fn exec_xlat(&mut self, d: &Decoded)
        requires
            old(self).wf(),
        ensures
            final(self)@ == old(self)@.xlat(*d),
            final(self).wf(),
    {
        let seg = self.segment_value(d.segment_prefix, false);
        let off = add16(self.get_r16(3), self.get_r8(0) as u16);
        let v = self.load8(seg, off);
        self.set_r8(0, v);
    }

    fn exec_bit_test(&mut self, set: bool, d: &Decoded)
        requires
            old(self).wf(),
            d.wf(),
        ensures
            final(self)@ == old(self)@.bit_test(set, *d),
            final(self).wf(),
    {
        let f = self.flags;
        let v = self.read16(&d.dst);
        let i = self.read16(&d.src);
        let o = bit_test(v, i, set, f);
        self.set_flags(o.flags);
        if set {
            self.write16(&d.dst, o.value);
        }
    }

    fn exec_bit_scan(&mut self, d: &Decoded)
        requires
            old(self).wf(),
            d.wf(),
        ensures
            final(self)@ == old(self)@.bit_scan(*d),
            final(self).wf(),
    {
        let mut f = self.flags;
        let v = self.read16(&d.src);
        if v == 0 {
            f.zero = true;
            self.set_flags(f);
        } else {
            f.zero = false;
            self.set_flags(f);
            self.write16(&d.dst, bit_scan(v));
        }
    }

    fn exec_double_shift(&mut self, left: bool, d: &Decoded)
        requires
            old(self).wf(),
            d.wf(),
        ensures
            final(self)@ == old(self)@.double_shift(left, *d),
            final(self).wf(),
    {
        let f = self.flags;
        let v = self.read16(&d.dst);
        let fill = self.read16(&d.src);
        let count = self.read8(&d.src2);
        let o = double_shift(v, fill, count, left, f);
        self.set_flags(o.flags);
        self.write16(&d.dst, o.value);
    }

    /// Applies an instruction to a processor whose instruction pointer is
    /// already past it.
    fn apply(&mut self, d: &Decoded)
        requires
            old(self).wf(),
            d.wf(),
        ensures
            final(self)@ == old(self)@.apply(*d),
            final(self).wf(),
    {
        match class_of(d.command) {
            Class::Binary(kind, wide) => self.exec_binary(kind, wide, d),
            Class::Unary(kind, wide) => self.exec_unary(kind, wide, d),
            Class::Shift(kind, wide) => self.exec_shift(kind, wide, d),
            Class::MulDiv(kind, wide) => match kind {
                MulDiv::Mul => self.exec_multiply(false, wide, d),
                MulDiv::Imul => match d.src {
                    Parameter::Empty => self.exec_multiply(true, wide, d),
                    _ => self.exec_multiply_into(d),
                },
                MulDiv::Div => self.exec_divide(false, wide, d),
                MulDiv::Idiv => self.exec_divide(true, wide, d),
            },
            Class::Mov(wide) => self.exec_mov(wide, d),
            Class::Xchg(wide) => self.exec_xchg(wide, d),
            Class::Lea => self.exec_lea(d),
            Class::LoadFar(sreg) => self.exec_load_far(sreg, d),
            Class::Extend(signed) => self.exec_extend(signed, d),
            Class::Push => self.exec_push(d),
            Class::Pop => self.exec_pop(d),
            Class::Pusha => self.exec_pusha(),
            Class::Popa => self.exec_popa(),
            Class::Pushf => self.exec_pushf(),
            Class::Popf => self.exec_popf(),
            Class::Enter => self.exec_enter(d),
            Class::Leave => self.exec_leave(),
            Class::Jump => self.exec_jump(d),
            Class::JumpFar => self.exec_jump_far(d),
            Class::Branch(c) => self.exec_branch(c, d),
            Class::SetCond(c) => self.exec_set_cond(c, d),
            Class::Loop(kind) => self.exec_loop(kind, d),
            Class::CallNear => self.exec_call_near(d),
            Class::CallFar => self.exec_call_far(d),
            Class::Ret(far) => self.exec_ret(far, d),
            Class::Int => {
                let n = self.peek8(&d.dst);
                self.interrupt(n)
            },
            Class::Into => self.exec_into(),
            Class::Iret => self.exec_iret(),
            Class::Str(op, wide) => self.exec_string(op, wide, d),
            Class::Flag(op) => {
                let f = flag_op_of(op, self.flags);
                self.set_flags(f)
            },
            Class::Salc => {
                let v: u8 = if self.flags.carry {
                    0xFF
                } else {
                    0
                };
                self.set_r8(0, v)
            },
            Class::Lahf => {
                let v = self.flags.lo_u8();
                self.set_r8(4, v)
            },
            Class::Sahf => {
                let ah = self.get_r8(4);
                let mut f = self.flags;
                f.set_lo_u8(ah);
                self.set_flags(f)
            },
            Class::Cbw => {
                let fill = sign_fill_of(self.get_r8(0) as u16, false);
                self.set_r8(4, (fill % 256) as u8)
            },
            Class::Cwd => {
                let fill = sign_fill_of(self.get_r16(0), true);
                self.set_r16(2, fill)
            },
            Class::Xlat => self.exec_xlat(d),
            Class::Adjust(kind) => self.exec_adjust(kind),
            Class::Aam => self.exec_aam(d),
            Class::Aad => self.exec_aad(d),
            Class::In(_) => {},
            Class::Out(wide) => {
                let _ = self.read(&d.src, wide);
                let _ = self.read16(&d.dst);
            },
            Class::Nop => {},
            Class::Hlt => {
                self.halted = true;
            },
            Class::BitTest(set) => self.exec_bit_test(set, d),
            Class::BitScan => self.exec_bit_scan(d),
            Class::DoubleShift(left) => self.exec_double_shift(left, d),
            Class::Unimplemented => self.fail(),
        }
    }

    /// What the instruction asks of the outside.
    fn effect_of(&self, d: &Decoded) -> (e: Effect)
        requires
            self.wf(),
            d.wf(),
        ensures
            e == self@.effect(*d),
    {
        match class_of(d.command) {
            Class::In(wide) => Effect::PortIn { port: self.peek16(&d.src), wide },
            Class::Out(wide) => Effect::PortOut {
                port: self.peek16(&d.dst),
                value: self.peek(&d.src, wide),
                wide,
            },
            Class::Str(op, wide) => {
                let runs = match d.repeat {
                    RepeatMode::NoRepeat => true,
                    _ => self.get_r16(1) != 0,
                };
                if !runs {
                    Effect::Done
                } else {
                    match op {
                        StringOp::Ins => Effect::PortInString {
                            port: self.get_r16(2),
                            seg: self.get_sreg(0),
                            offset: self.get_r16(7),
                            wide,
                        },
                        StringOp::Outs => Effect::PortOut {
                            port: self.get_r16(2),
                            value: self.peek_mem(
                                self.segment_value(d.segment_prefix, false),
                                self.get_r16(6),
                                wide,
                            ),
                            wide,
                        },
                        _ => Effect::Done,
                    }
                }
            },
            _ => Effect::Done,
        }
    }

    /// Runs one decoded instruction.
    pub fn execute(&mut self, d: &Decoded) -> (e: Effect)
        requires
            old(self).wf(),
            d.wf(),
        ensures
            final(self)@ == old(self)@.step(*d),
            e == old(self)@.step_effect(*d),
            final(self).wf(),
    {
        if !is_runnable(d) {
            if is_skipped(d) {
                self.advance(d.length);
            } else {
                self.fail();
            }
            return Effect::Done;
        }
        self.advance(d.length);
        let e = self.effect_of(d);
        self.apply(d);
        e
    }
}

} // verus!
