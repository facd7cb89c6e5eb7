//! What each instruction does to the machine state.
//!
//! Every function here takes the state in which the instruction pointer has
//! already moved past the instruction, and gives the state after it.
use vstd::prelude::*;
use crate::address::wrap16;
use crate::alu::{
    spec_add, spec_dec, spec_inc, spec_logic, spec_neg, spec_not, spec_shift, spec_sub, Logic,
    Outcome, ShiftKind,
};
use crate::bits::{lowest_set, spec_bit_test, spec_double_shift};
use crate::class::{
    classify, Bcd, Binary, Class, Condition, FlagOp, LoopKind, MulDiv, StringOp, Unary,
};
use crate::decoder::{signed16, signed8};
use crate::flags::Flags;
use crate::instruction::{Decoded, OperandSize, Parameter, RepeatMode};
use crate::memory::le16;
use crate::op::{Invalid, Op};
use crate::muldiv::{
    sign_fill, spec_aaa, spec_aad, spec_aam, spec_aas, spec_daa, spec_das, spec_div, spec_idiv,
    spec_imul, spec_mul, Adjusted,
};
use crate::register::{join_bytes, lo_byte};
use crate::state::State;

verus! {

/// What the executor asks of the world outside the processor.
#[derive(Clone, Copy, Debug, PartialEq, Eq, Structural)]
pub enum Effect {
    /// nothing
    Done,
    /// read the port and put the value in AL (AX if `wide`)
    PortIn { port: u16, wide: bool },
    /// read the port and store the value at `seg:offset`
    PortInString { port: u16, seg: u16, offset: u16, wide: bool },
    /// write `value` to the port
    PortOut { port: u16, value: u16, wide: bool },
}

/// The result and flags of a two-operand arithmetic or logic instruction.
pub open spec fn binary_outcome(kind: Binary, a: u16, b: u16, wide: bool, f: Flags) -> Outcome {
    match kind {
        Binary::Add => spec_add(a, b, false, wide, f),
        Binary::Adc => spec_add(a, b, f.carry, wide, f),
        Binary::Sub | Binary::Cmp => spec_sub(a, b, false, wide, f),
        Binary::Sbb => spec_sub(a, b, f.carry, wide, f),
        Binary::And | Binary::Test => spec_logic(Logic::And, a, b, wide, f),
        Binary::Or => spec_logic(Logic::Or, a, b, wide, f),
        Binary::Xor => spec_logic(Logic::Xor, a, b, wide, f),
    }
}

/// The result and flags of a one-operand instruction; NOT changes no flag.
pub open spec fn unary_outcome(kind: Unary, a: u16, wide: bool, f: Flags) -> Outcome {
    match kind {
        Unary::Inc => spec_inc(a, wide, f),
        Unary::Dec => spec_dec(a, wide, f),
        Unary::Neg => spec_neg(a, wide, f),
        Unary::Not => Outcome { value: spec_not(a, wide), flags: f },
    }
}

/// Whether a condition holds of the flags and CX.
pub open spec fn holds(c: Condition, f: Flags, cx: u16) -> bool {
    match c {
        Condition::O => f.overflow,
        Condition::No => !f.overflow,
        Condition::C => f.carry,
        Condition::Nc => !f.carry,
        Condition::Z => f.zero,
        Condition::Nz => !f.zero,
        Condition::Na => f.carry || f.zero,
        Condition::A => !f.carry && !f.zero,
        Condition::S => f.sign,
        Condition::Ns => !f.sign,
        Condition::Pe => f.parity,
        Condition::Po => !f.parity,
        Condition::L => f.sign != f.overflow,
        Condition::Nl => f.sign == f.overflow,
        Condition::Ng => f.zero || f.sign != f.overflow,
        Condition::G => !f.zero && f.sign == f.overflow,
        Condition::Cxz => cx == 0,
    }
}

/// The flags after CLC, STC, CMC, CLD, STD, CLI or STI.
pub open spec fn flag_op(op: FlagOp, f: Flags) -> Flags {
    match op {
        FlagOp::Clc => Flags { carry: false, ..f },
        FlagOp::Stc => Flags { carry: true, ..f },
        FlagOp::Cmc => Flags { carry: !f.carry, ..f },
        FlagOp::Cld => Flags { direction: false, ..f },
        FlagOp::Std => Flags { direction: true, ..f },
        FlagOp::Cli => Flags { interrupt_enable: false, ..f },
        FlagOp::Sti => Flags { interrupt_enable: true, ..f },
    }
}

/// AL, AH and flags after AAA, AAS, DAA or DAS.
pub open spec fn bcd_outcome(kind: Bcd, al: u8, ah: u8, f: Flags) -> Adjusted {
    match kind {
        Bcd::Aaa => spec_aaa(al, ah, f),
        Bcd::Aas => spec_aas(al, ah, f),
        Bcd::Daa => spec_daa(al, ah, f),
        Bcd::Das => spec_das(al, ah, f),
    }
}

/// Whether a string instruction compares, so that REPE and REPNE look at the
/// zero flag.
pub open spec fn compares(op: StringOp) -> bool {
    op == StringOp::Cmps || op == StringOp::Scas
}

/// Whether the instruction is of a form that the executor runs: a valid kind
/// at 16-bit operand and address size.
pub open spec fn runnable(d: Decoded) -> bool {
    &&& d.command.spec_is_valid()
    &&& d.op_size == OperandSize::Bits16
    &&& d.address_size == OperandSize::Bits16
}

/// Whether `d` is an escape to the numeric coprocessor, which is passed
/// over.
pub open spec fn skipped(d: Decoded) -> bool {
    d.command == Op::Invalid(Invalid::FPUOp)
}

/// `n` + 1, or `n` where that does not fit.
pub open spec fn count_up(n: usize) -> usize {
    if n < usize::MAX {
        (n + 1) as usize
    } else {
        n
    }
}

impl State {
    /// The state with the instruction pointer past an instruction of `length`
    /// bytes, and one more instruction counted.
    pub open spec fn advanced(self, length: u8) -> State {
        State {
            ip: wrap16(self.ip + length),
            instruction_count: count_up(self.instruction_count),
            cycle_count: count_up(self.cycle_count),
            ..self
        }
    }

    /// Register `i` changed by `delta`, wrapping at 16 bits.
    pub open spec fn bump(self, i: int, delta: int) -> State {
        self.with_reg16(i, wrap16(self.reg16(i) + delta))
    }

    /// AL (AX if `wide`).
    pub open spec fn accumulator(self, wide: bool) -> u16 {
        if wide {
            self.reg16(0)
        } else {
            self.reg8(0) as u16
        }
    }

    pub open spec fn with_accumulator(self, v: u16, wide: bool) -> State {
        if wide {
            self.with_reg16(0, v)
        } else {
            self.with_reg8(0, lo_byte(v))
        }
    }

    /// Delivery of interrupt `n`: FLAGS, CS and IP are pushed, the interrupt
    /// and trap flags cleared, and CS:IP loaded from entry `n` of the vector
    /// table.
    pub open spec fn interrupt(self, n: u8) -> State {
        let s1 = self.push16(self.flags.word() as u16);
        let s2 = s1.with_flags(Flags { interrupt_enable: false, trap: false, ..s1.flags });
        let s3 = s2.push16(s2.sreg(1)).push16(s2.ip);
        s3.with_ip(le16(s3.mem, n * 4) as u16).with_sreg(1, le16(s3.mem, n * 4 + 2) as u16)
    }

    pub open spec fn binary(self, kind: Binary, wide: bool, d: Decoded) -> State {
        let a = self.read(d.dst, wide);
        let s1 = self.touched(d.dst, wide);
        let b = s1.read(d.src, wide);
        let s2 = s1.touched(d.src, wide);
        let o = binary_outcome(kind, a, b, wide, self.flags);
        let s3 = s2.with_flags(o.flags);
        if kind == Binary::Cmp || kind == Binary::Test {
            s3
        } else {
            s3.write(d.dst, o.value, wide)
        }
    }

    pub open spec fn unary(self, kind: Unary, wide: bool, d: Decoded) -> State {
        let a = self.read(d.dst, wide);
        let s1 = self.touched(d.dst, wide);
        let o = unary_outcome(kind, a, wide, self.flags);
        s1.with_flags(o.flags).write(d.dst, o.value, wide)
    }

    /// The count is the second operand: 1, an immediate or CL.
    pub open spec fn shift(self, kind: ShiftKind, wide: bool, d: Decoded) -> State {
        let a = self.read(d.dst, wide);
        let s1 = self.touched(d.dst, wide);
        let count = s1.read8(d.src);
        let s2 = s1.touch_param(d.src, 1);
        let o = spec_shift(kind, a, count, wide, self.flags);
        s2.with_flags(o.flags).write(d.dst, o.value, wide)
    }

    /// The double-width accumulator: AX at width 8, DX:AX at width 16.
    pub open spec fn with_double(self, low: u16, high: u16, wide: bool) -> State {
        if wide {
            self.with_reg16(0, low).with_reg16(2, high)
        } else {
            self.with_reg16(0, join_bytes(lo_byte(high), lo_byte(low)))
        }
    }

    /// MUL and IMUL with one operand: the accumulator times the operand, into
    /// the double-width accumulator.
    pub open spec fn multiply(self, signed: bool, wide: bool, d: Decoded) -> State {
        let v = self.read(d.dst, wide);
        let s1 = self.touched(d.dst, wide);
        let p = if signed {
            spec_imul(self.accumulator(wide), v, wide, self.flags)
        } else {
            spec_mul(self.accumulator(wide), v, wide, self.flags)
        };
        s1.with_double(p.low, p.high, wide).with_flags(p.flags)
    }

    /// IMUL with two or three operands: the first operand becomes the low
    /// half of the product of the other two, or of itself and the second.
    pub open spec fn multiply_into(self, d: Decoded) -> State {
        let a = self.read16(d.src);
        let s1 = self.touch_param(d.src, 2);
        let b = if d.src2 is Empty {
            s1.read16(d.dst)
        } else {
            s1.read16(d.src2)
        };
        let p = spec_imul(a, b, true, self.flags);
        s1.with_flags(p.flags).write16(d.dst, p.low)
    }

    /// DIV and IDIV: the double-width accumulator by the operand; quotient
    /// into AL (AX), remainder into AH (DX). Without a result, interrupt 0.
    pub open spec fn divide(self, signed: bool, wide: bool, d: Decoded) -> State {
        let v = self.read(d.dst, wide);
        let s1 = self.touched(d.dst, wide);
        let dividend: int = if wide {
            self.reg16(2) * 0x1_0000 + self.reg16(0)
        } else {
            self.reg16(0) as int
        };
        let q = if signed {
            spec_idiv(
                if wide {
                    if dividend >= 0x8000_0000 {
                        dividend - 0x1_0000_0000
                    } else {
                        dividend
                    }
                } else {
                    signed16(self.reg16(0))
                },
                v,
                wide,
            )
        } else {
            spec_div(dividend as u32, v, wide)
        };
        match q {
            Some(r) => s1.with_double(r.quotient, r.remainder, wide),
            None => s1.interrupt(0),
        }
    }

    pub open spec fn mov(self, wide: bool, d: Decoded) -> State {
        let v = self.read(d.src, wide);
        self.touched(d.src, wide).write(d.dst, v, wide)
    }

    pub open spec fn xchg(self, wide: bool, d: Decoded) -> State {
        let a = self.read(d.dst, wide);
        let s1 = self.touched(d.dst, wide);
        let b = s1.read(d.src, wide);
        let s2 = s1.touched(d.src, wide);
        s2.write(d.dst, b, wide).write(d.src, a, wide)
    }

    /// LEA: the offset of the memory operand, without an access to memory.
    pub open spec fn lea(self, d: Decoded) -> State {
        self.write16(d.dst, self.param_offset(d.src))
    }

    /// The far pointer stored at a memory operand: (offset, segment), and the
    /// state after reading it.
    pub open spec fn far_pointer(self, p: Parameter) -> (u16, u16, State) {
        let seg = self.param_segment(p);
        let off = self.param_offset(p);
        let lo = self.load16(seg, off);
        let s1 = self.touch(seg, off, 2);
        let hi = s1.load16(seg, wrap16(off + 2));
        (lo, hi, s1.touch(seg, wrap16(off + 2), 2))
    }

    /// LDS and LES: the register takes the offset, segment register `sreg`
    /// the segment of the far pointer in memory.
    pub open spec fn load_far(self, sreg: u8, d: Decoded) -> State {
        let (off, seg, s1) = self.far_pointer(d.src);
        s1.write16(d.dst, off).with_sreg(sreg as int, seg)
    }

    /// MOVSX and MOVZX from 8 to 16 bits.
    pub open spec fn extend(self, signed: bool, d: Decoded) -> State {
        let v = self.read8(d.src);
        let r = if signed {
            wrap16(signed8(v))
        } else {
            v as u16
        };
        self.touch_param(d.src, 1).write16(d.dst, r)
    }

    pub open spec fn push(self, d: Decoded) -> State {
        let v = self.read16(d.dst);
        self.touch_param(d.dst, 2).push16(v)
    }

    pub open spec fn pop(self, d: Decoded) -> State {
        let v = self.top16();
        self.drop16().write16(d.dst, v)
    }

    /// PUSHA: AX, CX, DX, BX, SP as it was before, BP, SI, DI.
    pub open spec fn pusha(self) -> State {
        self.push16(self.reg16(0)).push16(self.reg16(1)).push16(self.reg16(2)).push16(
            self.reg16(3),
        ).push16(self.reg16(4)).push16(self.reg16(5)).push16(self.reg16(6)).push16(self.reg16(7))
    }

    /// Pops the top of the stack into register `i`.
    pub open spec fn pop_reg(self, i: int) -> State {
        self.drop16().with_reg16(i, self.top16())
    }

    /// POPA: DI, SI, BP, a word that is dropped, BX, DX, CX, AX.
    pub open spec fn popa(self) -> State {
        self.pop_reg(7).pop_reg(6).pop_reg(5).drop16().pop_reg(3).pop_reg(2).pop_reg(1).pop_reg(0)
    }

    pub open spec fn pushf(self) -> State {
        self.push16(self.flags.word() as u16)
    }

    pub open spec fn popf(self) -> State {
        self.drop16().with_flags(Flags::from_word(self.top16() as int))
    }

    /// The state after `k` frame pointers of the enclosing procedures were
    /// copied: for each, BP goes down by 2 and the word at SS:BP is pushed.
    pub open spec fn enter_frames(self, k: nat) -> State
        decreases k,
    {
        if k == 0 {
            self
        } else {
            let s1 = self.enter_frames((k - 1) as nat).bump(5, -2);
            s1.touch(s1.sreg(2), s1.reg16(5), 2).push16(s1.load16(s1.sreg(2), s1.reg16(5)))
        }
    }

    /// ENTER: BP is pushed and the new frame starts at SP; at a nesting
    /// level above 0 (taken modulo 32) the frame pointers of the enclosing
    /// procedures are copied and the new frame pointer is pushed; then BP
    /// takes the frame pointer, and SP drops by the frame size.
    pub open spec fn enter(self, d: Decoded) -> State {
        let size = self.read16(d.dst);
        let level = (self.read8(d.src) % 32) as nat;
        let s1 = self.push16(self.reg16(5));
        let frame = s1.reg16(4);
        let s2 = if level > 0 {
            s1.enter_frames((level - 1) as nat).push16(frame)
        } else {
            s1
        };
        s2.with_reg16(5, frame).bump(4, -size)
    }

    /// LEAVE: SP takes BP, then BP is popped.
    pub open spec fn leave(self) -> State {
        self.with_reg16(4, self.reg16(5)).pop_reg(5)
    }

    pub open spec fn jump(self, d: Decoded) -> State {
        let target = self.read16(d.dst);
        self.touch_param(d.dst, 2).with_ip(target)
    }

    /// The target of a far jump or call: (offset, segment) held in the
    /// instruction or in memory, and the state after reading it. An operand of
    /// another form is fatal.
    pub open spec fn far_target(self, p: Parameter) -> (u16, u16, State) {
        match p {
            Parameter::Ptr16Imm(seg, off) => (off, seg, self),
            _ => if p.is_memory() {
                self.far_pointer(p)
            } else {
                (self.ip, self.sreg(1), self.failed())
            },
        }
    }

    pub open spec fn jump_far(self, d: Decoded) -> State {
        let (off, seg, s1) = self.far_target(d.dst);
        s1.with_sreg(1, seg).with_ip(off)
    }

    pub open spec fn branch(self, c: Condition, d: Decoded) -> State {
        if holds(c, self.flags, self.reg16(1)) {
            self.jump(d)
        } else {
            self
        }
    }

    /// SETcc: the byte operand becomes 1 if the condition holds, else 0.
    pub open spec fn set_cond(self, c: Condition, d: Decoded) -> State {
        self.write8(
            d.dst,
            if holds(c, self.flags, self.reg16(1)) {
                1
            } else {
                0
            },
        )
    }

    /// LOOP, LOOPE, LOOPNE: CX decreases by 1; the jump is taken if CX is not
    /// 0 and the zero flag is as the kind asks.
    pub open spec fn loop_op(self, kind: LoopKind, d: Decoded) -> State {
        let s1 = self.bump(1, -1);
        let taken = s1.reg16(1) != 0 && match kind {
            LoopKind::Always => true,
            LoopKind::WhileEqual => self.flags.zero,
            LoopKind::WhileNotEqual => !self.flags.zero,
        };
        if taken {
            s1.jump(d)
        } else {
            s1
        }
    }

    pub open spec fn call_near(self, d: Decoded) -> State {
        let target = self.read16(d.dst);
        self.touch_param(d.dst, 2).push16(self.ip).with_ip(target)
    }

    pub open spec fn call_far(self, d: Decoded) -> State {
        let (off, seg, s1) = self.far_target(d.dst);
        s1.push16(self.sreg(1)).push16(self.ip).with_sreg(1, seg).with_ip(off)
    }

    /// RET: IP is popped, for a far return CS too, and SP moves up by the
    /// immediate operand if there is one.
    pub open spec fn ret(self, far: bool, d: Decoded) -> State {
        let s1 = self.drop16().with_ip(self.top16());
        let s2 = if far {
            s1.drop16().with_sreg(1, s1.top16())
        } else {
            s1
        };
        s2.bump(4, self.read16(d.dst) as int)
    }

    pub open spec fn int_op(self, d: Decoded) -> State {
        self.interrupt(self.read8(d.dst))
    }

    pub open spec fn into(self) -> State {
        if self.flags.overflow {
            self.interrupt(4)
        } else {
            self
        }
    }

    /// IRET: IP, CS and FLAGS are popped.
    pub open spec fn iret(self) -> State {
        let s1 = self.drop16().with_ip(self.top16());
        let s2 = s1.drop16().with_sreg(1, s1.top16());
        s2.drop16().with_flags(Flags::from_word(s2.top16() as int))
    }

    /// The value at `seg:off` at the given width.
    pub open spec fn load(self, seg: u16, off: u16, wide: bool) -> u16 {
        if wide {
            self.load16(seg, off)
        } else {
            self.load8(seg, off) as u16
        }
    }

    pub open spec fn store(self, seg: u16, off: u16, v: u16, wide: bool) -> State {
        if wide {
            self.store16(seg, off, v)
        } else {
            self.store8(seg, off, lo_byte(v))
        }
    }

    /// One pass of a string instruction: the source is at DS:SI (or the
    /// overriding segment), the destination at ES:DI; SI and DI move by the
    /// operand size, down if the direction flag is set.
    pub open spec fn string_once(self, op: StringOp, wide: bool, d: Decoded) -> State {
        let n: int = if wide {
            2
        } else {
            1
        };
        let delta = if self.flags.direction {
            -n
        } else {
            n
        };
        let src_seg = self.segment(d.segment_prefix, false);
        let si = self.reg16(6);
        let di = self.reg16(7);
        let es = self.sreg(0);
        match op {
            StringOp::Movs => self.touch(src_seg, si, n).store(
                es,
                di,
                self.load(src_seg, si, wide),
                wide,
            ).bump(6, delta).bump(7, delta),
            StringOp::Lods => self.touch(src_seg, si, n).with_accumulator(
                self.load(src_seg, si, wide),
                wide,
            ).bump(6, delta),
            StringOp::Stos => self.store(es, di, self.accumulator(wide), wide).bump(7, delta),
            StringOp::Cmps => self.touch(src_seg, si, n).touch(es, di, n).with_flags(
                spec_sub(
                    self.load(src_seg, si, wide),
                    self.load(es, di, wide),
                    false,
                    wide,
                    self.flags,
                ).flags,
            ).bump(6, delta).bump(7, delta),
            StringOp::Scas => self.touch(es, di, n).with_flags(
                spec_sub(self.accumulator(wide), self.load(es, di, wide), false, wide, self.flags).flags,
            ).bump(7, delta),
            StringOp::Ins => self.bump(7, delta),
            StringOp::Outs => self.touch(src_seg, si, n).bump(6, delta),
        }
    }

    /// A string instruction under its repeat prefix. Without a prefix it runs
    /// once. With one and CX 0 it does nothing; otherwise it runs once, CX
    /// decreases by 1, and while CX is not 0 (and, for CMPS and SCAS, the zero
    /// flag is as REPE or REPNE asks) the instruction pointer goes back to the
    /// instruction, so that the next step repeats it.
    pub open spec fn string_op(self, op: StringOp, wide: bool, d: Decoded) -> State {
        if d.repeat == RepeatMode::NoRepeat {
            self.string_once(op, wide, d)
        } else if self.reg16(1) == 0 {
            self
        } else {
            let s1 = self.string_once(op, wide, d).bump(1, -1);
            let again = s1.reg16(1) != 0 && (!compares(op) || d.repeat == RepeatMode::Rep || (d.repeat
                == RepeatMode::Repe && s1.flags.zero) || (d.repeat == RepeatMode::Repne
                && !s1.flags.zero));
            if again {
                s1.with_ip(wrap16(self.ip - d.length))
            } else {
                s1
            }
        }
    }

    /// Whether a string instruction under its repeat prefix runs at all.
    pub open spec fn string_runs(self, d: Decoded) -> bool {
        d.repeat == RepeatMode::NoRepeat || self.reg16(1) != 0
    }

    /// SALC: AL becomes FFh if the carry flag is set, else 0.
    pub open spec fn salc(self) -> State {
        self.with_reg8(
            0,
            if self.flags.carry {
                0xFF
            } else {
                0
            },
        )
    }

    /// LAHF: AH takes the low byte of FLAGS.
    pub open spec fn lahf(self) -> State {
        self.with_reg8(4, self.flags.low_byte() as u8)
    }

    /// SAHF: the low byte of FLAGS takes AH.
    pub open spec fn sahf(self) -> State {
        self.with_flags(self.flags.with_low_byte(self.reg8(4) as int))
    }

    /// CBW: AH is filled with the sign of AL.
    pub open spec fn cbw(self) -> State {
        self.with_reg8(4, lo_byte(sign_fill(self.reg8(0) as u16, false)))
    }

    /// CWD: DX is filled with the sign of AX.
    pub open spec fn cwd(self) -> State {
        self.with_reg16(2, sign_fill(self.reg16(0), true))
    }

    /// XLAT: AL takes the byte at DS:[BX + AL].
    pub open spec fn xlat(self, d: Decoded) -> State {
        let seg = self.segment(d.segment_prefix, false);
        let off = wrap16(self.reg16(3) + self.reg8(0));
        self.touch(seg, off, 1).with_reg8(0, self.load8(seg, off))
    }

    pub open spec fn with_adjusted(self, a: Adjusted) -> State {
        self.with_reg16(0, join_bytes(a.ah, a.al)).with_flags(a.flags)
    }

    pub open spec fn adjust(self, kind: Bcd) -> State {
        self.with_adjusted(bcd_outcome(kind, self.reg8(0), self.reg8(4), self.flags))
    }

    /// AAM: a base of 0 raises interrupt 0.
    pub open spec fn aam(self, d: Decoded) -> State {
        let base = self.read8(d.dst);
        if base == 0 {
            self.interrupt(0)
        } else {
            self.with_adjusted(spec_aam(self.reg8(0), base, self.flags))
        }
    }

    pub open spec fn aad(self, d: Decoded) -> State {
        self.with_adjusted(spec_aad(self.reg8(0), self.reg8(4), self.read8(d.dst), self.flags))
    }

    /// BT and BTS: the carry flag takes the bit of the first operand that
    /// the second operand names; BTS then sets the bit.
    pub open spec fn bit_test(self, set: bool, d: Decoded) -> State {
        let v = self.read16(d.dst);
        let s1 = self.touch_param(d.dst, 2);
        let i = s1.read16(d.src);
        let s2 = s1.touch_param(d.src, 2);
        let o = spec_bit_test(v, i, set, self.flags);
        let s3 = s2.with_flags(o.flags);
        if set {
            s3.write16(d.dst, o.value)
        } else {
            s3
        }
    }

    /// BSF: the zero flag says that the second operand is 0; if it is not,
    /// the first operand takes the index of its lowest bit that is set.
    pub open spec fn bit_scan(self, d: Decoded) -> State {
        let v = self.read16(d.src);
        let s1 = self.touch_param(d.src, 2);
        if v == 0 {
            s1.with_flags(Flags { zero: true, ..self.flags })
        } else {
            s1.with_flags(Flags { zero: false, ..self.flags }).write16(
                d.dst,
                lowest_set(v as nat) as u16,
            )
        }
    }

    /// SHLD and SHRD: the first operand shifted by the third, filled from
    /// the second.
    pub open spec fn double_shift(self, left: bool, d: Decoded) -> State {
        let v = self.read16(d.dst);
        let s1 = self.touch_param(d.dst, 2);
        let fill = s1.read16(d.src);
        let s2 = s1.touch_param(d.src, 2);
        let count = s2.read8(d.src2);
        let s3 = s2.touch_param(d.src2, 1);
        let o = spec_double_shift(v, fill, count, left, self.flags);
        s3.with_flags(o.flags).write16(d.dst, o.value)
    }

    pub open spec fn hlt(self) -> State {
        State { halted: true, ..self }
    }

    /// The state after the instruction `d`, for the state `self` in which the
    /// instruction pointer is already past it.
    pub open spec fn apply(self, d: Decoded) -> State {
        match classify(d.command) {
            Class::Binary(kind, wide) => self.binary(kind, wide, d),
            Class::Unary(kind, wide) => self.unary(kind, wide, d),
            Class::Shift(kind, wide) => self.shift(kind, wide, d),
            Class::MulDiv(kind, wide) => match kind {
                MulDiv::Mul => self.multiply(false, wide, d),
                MulDiv::Imul => if d.src is Empty {
                    self.multiply(true, wide, d)
                } else {
                    self.multiply_into(d)
                },
                MulDiv::Div => self.divide(false, wide, d),
                MulDiv::Idiv => self.divide(true, wide, d),
            },
            Class::Mov(wide) => self.mov(wide, d),
            Class::Xchg(wide) => self.xchg(wide, d),
            Class::Lea => self.lea(d),
            Class::LoadFar(sreg) => self.load_far(sreg, d),
            Class::Extend(signed) => self.extend(signed, d),
            Class::Push => self.push(d),
            Class::Pop => self.pop(d),
            Class::Pusha => self.pusha(),
            Class::Popa => self.popa(),
            Class::Pushf => self.pushf(),
            Class::Popf => self.popf(),
            Class::Enter => self.enter(d),
            Class::Leave => self.leave(),
            Class::Jump => self.jump(d),
            Class::JumpFar => self.jump_far(d),
            Class::Branch(c) => self.branch(c, d),
            Class::SetCond(c) => self.set_cond(c, d),
            Class::Loop(kind) => self.loop_op(kind, d),
            Class::CallNear => self.call_near(d),
            Class::CallFar => self.call_far(d),
            Class::Ret(far) => self.ret(far, d),
            Class::Int => self.int_op(d),
            Class::Into => self.into(),
            Class::Iret => self.iret(),
            Class::Str(op, wide) => self.string_op(op, wide, d),
            Class::Flag(op) => self.with_flags(flag_op(op, self.flags)),
            Class::Salc => self.salc(),
            Class::Lahf => self.lahf(),
            Class::Sahf => self.sahf(),
            Class::Cbw => self.cbw(),
            Class::Cwd => self.cwd(),
            Class::Xlat => self.xlat(d),
            Class::Adjust(kind) => self.adjust(kind),
            Class::Aam => self.aam(d),
            Class::Aad => self.aad(d),
            Class::In(_) => self,
            Class::Out(wide) => self.touched(d.src, wide).touch_param(d.dst, 2),
            Class::Nop => self,
            Class::Hlt => self.hlt(),
            Class::BitTest(set) => self.bit_test(set, d),
            Class::BitScan => self.bit_scan(d),
            Class::DoubleShift(left) => self.double_shift(left, d),
            Class::Unimplemented => self.failed(),
        }
    }

    /// What the instruction asks of the outside: port input and output.
    pub open spec fn effect(self, d: Decoded) -> Effect {
        match classify(d.command) {
            Class::In(wide) => Effect::PortIn { port: self.read16(d.src), wide },
            Class::Out(wide) => Effect::PortOut {
                port: self.read16(d.dst),
                value: self.read(d.src, wide),
                wide,
            },
            Class::Str(op, wide) => if !self.string_runs(d) {
                Effect::Done
            } else if op == StringOp::Ins {
                Effect::PortInString {
                    port: self.reg16(2),
                    seg: self.sreg(0),
                    offset: self.reg16(7),
                    wide,
                }
            } else if op == StringOp::Outs {
                Effect::PortOut {
                    port: self.reg16(2),
                    value: self.load(self.segment(d.segment_prefix, false), self.reg16(6), wide),
                    wide,
                }
            } else {
                Effect::Done
            },
            _ => Effect::Done,
        }
    }

    /// One instruction: a runnable one moves the instruction pointer past
    /// itself and is applied; a coprocessor escape only moves the
    /// instruction pointer past itself; any other is fatal and changes
    /// nothing else.
    pub open spec fn step(self, d: Decoded) -> State {
        if runnable(d) {
            self.advanced(d.length).apply(d)
        } else if skipped(d) {
            self.advanced(d.length)
        } else {
            self.failed()
        }
    }

    pub open spec fn step_effect(self, d: Decoded) -> Effect {
        if runnable(d) {
            self.advanced(d.length).effect(d)
        } else {
            Effect::Done
        }
    }
}

} // verus!
