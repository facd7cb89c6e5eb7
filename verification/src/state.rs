//! The machine state as a mathematical value, and the elementary state
//! transitions of which every instruction is composed.
use vstd::prelude::*;
use crate::address::{flat, wrap16};
use crate::flags::Flags;
use crate::instruction::{AMode, Parameter, Segment};
use crate::memory::{le16, store16, MEMORY_SIZE};
use crate::mmu::in_range;
use crate::register::{hi_byte, join_bytes, lo_byte, Register16};

verus! {

/// Everything an instruction can read or change.
pub struct State {
    pub ip: u16,
    /// AX, CX, DX, BX, SP, BP, SI, DI
    pub r16: Seq<Register16>,
    /// ES, CS, SS, DS, FS, GS
    pub sreg16: Seq<Register16>,
    pub flags: Flags,
    pub mem: Seq<u8>,
    /// set by an invalid or unimplemented instruction, and by an access
    /// outside memory; execution stops
    pub fatal: bool,
    /// set by HLT
    pub halted: bool,
    pub instruction_count: usize,
    pub cycle_count: usize,
    pub clock_hz: usize,
    pub rom_base: u32,
    pub rom_length: u32,
}

impl State {
    pub open spec fn wf(self) -> bool {
        &&& self.r16.len() == 8
        &&& self.sreg16.len() == 6
        &&& self.mem.len() == MEMORY_SIZE
    }

    pub open spec fn reg16(self, i: int) -> u16 {
        self.r16[i].val
    }

    pub open spec fn with_reg16(self, i: int, v: u16) -> State {
        State { r16: self.r16.update(i, Register16 { val: v }), ..self }
    }

    /// Byte register `i`: the low bytes of AX, CX, DX, BX for 0 to 3, their
    /// high bytes for 4 to 7.
    pub open spec fn reg8(self, i: int) -> u8 {
        if i < 4 {
            lo_byte(self.reg16(i))
        } else {
            hi_byte(self.reg16(i - 4))
        }
    }

    pub open spec fn with_reg8(self, i: int, v: u8) -> State {
        if i < 4 {
            self.with_reg16(i, join_bytes(hi_byte(self.reg16(i)), v))
        } else {
            self.with_reg16(i - 4, join_bytes(v, lo_byte(self.reg16(i - 4))))
        }
    }

    pub open spec fn sreg(self, i: int) -> u16 {
        self.sreg16[i].val
    }

    pub open spec fn with_sreg(self, i: int, v: u16) -> State {
        State { sreg16: self.sreg16.update(i, Register16 { val: v }), ..self }
    }

    pub open spec fn with_ip(self, ip: u16) -> State {
        State { ip, ..self }
    }

    pub open spec fn with_flags(self, flags: Flags) -> State {
        State { flags, ..self }
    }

    pub open spec fn failed(self) -> State {
        State { fatal: true, ..self }
    }

    /// The value of the segment register that `seg` names; without an
    /// override that is SS for stack-relative addressing and DS otherwise.
    pub open spec fn segment(self, seg: Segment, stack: bool) -> u16 {
        match seg {
            Segment::Default => if stack {
                self.sreg(2)
            } else {
                self.sreg(3)
            },
            Segment::ES => self.sreg(0),
            Segment::CS => self.sreg(1),
            Segment::SS => self.sreg(2),
            Segment::DS => self.sreg(3),
            Segment::FS => self.sreg(4),
            Segment::GS => self.sreg(5),
        }
    }

    /// The byte at `seg:off`; outside memory it reads as 0.
    pub open spec fn load8(self, seg: u16, off: u16) -> u8 {
        if in_range(seg, off, 1) {
            self.mem[flat(seg, off)]
        } else {
            0
        }
    }

    /// The little-endian word at `seg:off`; outside memory it reads as 0.
    pub open spec fn load16(self, seg: u16, off: u16) -> u16 {
        if in_range(seg, off, 2) {
            le16(self.mem, flat(seg, off)) as u16
        } else {
            0
        }
    }

    /// The state after an access to `n` bytes at `seg:off`: fatal if they do
    /// not lie inside memory.
    pub open spec fn touch(self, seg: u16, off: u16, n: int) -> State {
        if in_range(seg, off, n) {
            self
        } else {
            self.failed()
        }
    }

    pub open spec fn store8(self, seg: u16, off: u16, v: u8) -> State {
        if in_range(seg, off, 1) {
            State { mem: self.mem.update(flat(seg, off), v), ..self }
        } else {
            self.failed()
        }
    }

    pub open spec fn store16(self, seg: u16, off: u16, v: u16) -> State {
        if in_range(seg, off, 2) {
            State { mem: store16(self.mem, flat(seg, off), v), ..self }
        } else {
            self.failed()
        }
    }

    /// The offset that an addressing mode computes, wrapped to 16 bits.
    pub open spec fn amode_offset(self, a: AMode) -> u16 {
        match a {
            AMode::BXSI => wrap16(self.reg16(3) + self.reg16(6)),
            AMode::BXDI => wrap16(self.reg16(3) + self.reg16(7)),
            AMode::BPSI => wrap16(self.reg16(5) + self.reg16(6)),
            AMode::BPDI => wrap16(self.reg16(5) + self.reg16(7)),
            AMode::SI => self.reg16(6),
            AMode::DI => self.reg16(7),
            AMode::BP => self.reg16(5),
            AMode::BX => self.reg16(3),
        }
    }

    /// The offset of a memory operand inside its segment.
    pub open spec fn param_offset(self, p: Parameter) -> u16 {
        match p {
            Parameter::Ptr16Amode(_, a) => self.amode_offset(a),
            Parameter::Ptr16AmodeS8(_, a, d) => wrap16(self.amode_offset(a) + d),
            Parameter::Ptr16AmodeS16(_, a, d) => wrap16(self.amode_offset(a) + d),
            Parameter::Ptr16(_, off) => off,
            _ => 0,
        }
    }

    /// The segment of a memory operand.
    pub open spec fn param_segment(self, p: Parameter) -> u16 {
        match p {
            Parameter::Ptr16Amode(seg, a) => self.segment(seg, a.uses_bp()),
            Parameter::Ptr16AmodeS8(seg, a, _) => self.segment(seg, a.uses_bp()),
            Parameter::Ptr16AmodeS16(seg, a, _) => self.segment(seg, a.uses_bp()),
            Parameter::Ptr16(seg, _) => self.segment(seg, false),
            _ => 0,
        }
    }

    /// The 8-bit value of an operand.
    pub open spec fn read8(self, p: Parameter) -> u8 {
        match p {
            Parameter::Imm8(v) => v,
            Parameter::Imm16(v) => lo_byte(v),
            Parameter::Reg8(i) => self.reg8(i as int),
            _ => if p.is_memory() {
                self.load8(self.param_segment(p), self.param_offset(p))
            } else {
                0
            },
        }
    }

    /// The 16-bit value of an operand; an 8-bit immediate is zero-extended.
    pub open spec fn read16(self, p: Parameter) -> u16 {
        match p {
            Parameter::Imm8(v) => v as u16,
            Parameter::Imm16(v) => v,
            Parameter::Reg16(i) => self.reg16(i as int),
            Parameter::SReg16(i) => self.sreg(i as int),
            _ => if p.is_memory() {
                self.load16(self.param_segment(p), self.param_offset(p))
            } else {
                0
            },
        }
    }

    /// The state after an access of `n` bytes to the operand.
    pub open spec fn touch_param(self, p: Parameter, n: int) -> State {
        if p.is_memory() {
            self.touch(self.param_segment(p), self.param_offset(p), n)
        } else {
            self
        }
    }

    /// Stores an 8-bit value in a register or memory operand; any other
    /// operand is left alone.
    pub open spec fn write8(self, p: Parameter, v: u8) -> State {
        match p {
            Parameter::Reg8(i) => self.with_reg8(i as int, v),
            _ => if p.is_memory() {
                self.store8(self.param_segment(p), self.param_offset(p), v)
            } else {
                self
            },
        }
    }

    /// Stores a 16-bit value in a register or memory operand; any other
    /// operand is left alone.
    pub open spec fn write16(self, p: Parameter, v: u16) -> State {
        match p {
            Parameter::Reg16(i) => self.with_reg16(i as int, v),
            Parameter::SReg16(i) => self.with_sreg(i as int, v),
            _ => if p.is_memory() {
                self.store16(self.param_segment(p), self.param_offset(p), v)
            } else {
                self
            },
        }
    }

    /// The value of an operand of the given width.
    pub open spec fn read(self, p: Parameter, wide: bool) -> u16 {
        if wide {
            self.read16(p)
        } else {
            self.read8(p) as u16
        }
    }

    /// The state after a read of the operand at the given width.
    pub open spec fn touched(self, p: Parameter, wide: bool) -> State {
        self.touch_param(
            p,
            if wide {
                2
            } else {
                1
            },
        )
    }

    /// Stores a value of the given width; at width 8, its low byte.
    pub open spec fn write(self, p: Parameter, v: u16, wide: bool) -> State {
        if wide {
            self.write16(p, v)
        } else {
            self.write8(p, lo_byte(v))
        }
    }

    /// PUSH: SP decreases by 2, then the word is stored at SS:SP.
    pub open spec fn push16(self, v: u16) -> State {
        let sp = wrap16(self.reg16(4) - 2);
        self.with_reg16(4, sp).store16(self.sreg(2), sp, v)
    }

    /// The word on top of the stack.
    pub open spec fn top16(self) -> u16 {
        self.load16(self.sreg(2), self.reg16(4))
    }

    /// POP, after the word was read: SP increases by 2.
    pub open spec fn drop16(self) -> State {
        self.touch(self.sreg(2), self.reg16(4), 2).with_reg16(4, wrap16(self.reg16(4) + 2))
    }
}

/// A word pushed on a stack that lies inside memory is the word on top, and
/// the pop that follows gives SP back its value; nothing else fails.
pub proof fn lemma_push_pop(s: State, x: u16)
    requires
        s.wf(),
        in_range(s.sreg(2), wrap16(s.reg16(4) - 2), 2),
    ensures
        s.push16(x).top16() == x,
        le16(s.push16(x).mem, flat(s.sreg(2), wrap16(s.reg16(4) - 2))) == x,
        s.push16(x).drop16().reg16(4) == s.reg16(4),
        s.push16(x).drop16().fatal == s.fatal,
        s.push16(x).wf(),
{
    let sp = wrap16(s.reg16(4) - 2);
    crate::memory::lemma_store16_load(s.mem, flat(s.sreg(2), sp), x);
}

} // verus!
