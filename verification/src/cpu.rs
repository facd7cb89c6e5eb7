//! The processor: register file, flags and memory, with the elementary
//! operations from which the executor builds each instruction.
use vstd::prelude::*;
use crate::address::{add16, flat};
use crate::decoder::{decode, offset_by, spec_decode, MAX_LENGTH};
use crate::instruction::Decoded;
use crate::memory::{le16, store16};
use crate::flags::Flags;
use crate::instruction::{AMode, Parameter, Segment};
use crate::memory::{splice, MEMORY_SIZE};
use crate::mmu::MMU;
use crate::register::Register16;
use crate::semantics::Effect;
use crate::state::State;

verus! {

/// The processor with its memory.
pub struct CPU {
    pub ip: u16,
    pub instruction_count: usize,
    pub cycle_count: usize,
    /// instructions per second, for the length of a frame
    pub clock_hz: usize,
    /// general purpose registers: AX, CX, DX, BX, SP, BP, SI, DI
    pub r16: [Register16; 8],
    /// segment registers: ES, CS, SS, DS, FS, GS
    pub sreg16: [Register16; 6],
    pub flags: Flags,
    pub mmu: MMU,
    /// execution cannot go on
    pub fatal_error: bool,
    /// HLT was executed
    pub halted: bool,
    /// flat address of the first byte of the loaded program
    pub rom_base: u32,
    /// number of bytes of the loaded program
    pub rom_length: u32,
}

impl View for CPU {
    type V = State;

    open spec fn view(&self) -> State {
        State {
            ip: self.ip,
            r16: self.r16@,
            sreg16: self.sreg16@,
            flags: self.flags,
            mem: self.mmu@,
            fatal: self.fatal_error,
            halted: self.halted,
            instruction_count: self.instruction_count,
            cycle_count: self.cycle_count,
            clock_hz: self.clock_hz,
            rom_base: self.rom_base,
            rom_length: self.rom_length,
        }
    }
}

/// Instructions per second of the processor that is modelled.
pub const CLOCK_HZ: usize = 5_000_000;

/// The registers of a processor that has just been created or reset:
/// registers and flags are zero, but for SP, which points at the last
/// paragraph of the first 64 KiB, and DS, which holds a value that no
/// program relies on.
pub open spec fn registers_reset(s: State) -> bool {
    &&& s.wf()
    &&& s.ip == 0
    &&& s.instruction_count == 0
    &&& s.cycle_count == 0
    &&& s.clock_hz == CLOCK_HZ
    &&& forall|i: int| 0 <= i < 8 && i != 4 ==> s.reg16(i) == 0
    &&& s.reg16(4) == 0xFFF0
    &&& forall|i: int| 0 <= i < 6 && i != 3 ==> s.sreg(i) == 0
    &&& s.sreg(3) == 0xDEAD
    &&& s.flags == Flags::from_word(0)
    &&& !s.fatal
    &&& !s.halted
    &&& s.rom_base == 0
    &&& s.rom_length == 0
}

/// The state of a processor that has just been created: the registers are
/// reset and memory is zero.
pub open spec fn power_on(s: State) -> bool {
    &&& registers_reset(s)
    &&& forall|i: int| 0 <= i < MEMORY_SIZE ==> s.mem[i] == 0u8
}

/// Number of bytes of a program of `len` bytes that fit between `offset` and
/// the end of the first 64 KiB.
pub open spec fn rom_fit(len: int, offset: u16) -> int {
    if offset + len > 0x1_0000 {
        0x1_0000 - offset
    } else {
        len
    }
}

impl State {
    /// The flat address of the next instruction: CS:IP.
    pub open spec fn code_address(self) -> int {
        flat(self.sreg(1), self.ip)
    }

    /// The bytes from which the next instruction is decoded: up to 15 bytes
    /// at CS:IP, as far as they lie inside memory.
    pub open spec fn code_window(self) -> Seq<u8> {
        let at = self.code_address();
        if at >= MEMORY_SIZE {
            Seq::empty()
        } else if at + MAX_LENGTH > MEMORY_SIZE {
            self.mem.subrange(at, MEMORY_SIZE as int)
        } else {
            self.mem.subrange(at, at + MAX_LENGTH)
        }
    }

    /// The state after the instruction at CS:IP.
    pub open spec fn next(self) -> State {
        self.step(spec_decode(self.code_window(), self.ip))
    }

    /// What the instruction at CS:IP asks of the outside.
    pub open spec fn next_effect(self) -> Effect {
        self.step_effect(spec_decode(self.code_window(), self.ip))
    }
}

impl CPU {
    pub open spec fn wf(&self) -> bool {
        self.mmu.wf()
    }

    pub fn new() -> (cpu: CPU)
        ensures
            cpu.wf(),
            power_on(cpu@),
    {
        let zero = Register16 { val: 0 };
        let mut cpu = CPU {
            ip: 0,
            instruction_count: 0,
            cycle_count: 0,
            clock_hz: CLOCK_HZ,
            r16: [zero, zero, zero, zero, zero, zero, zero, zero],
            sreg16: [zero, zero, zero, zero, zero, zero],
            flags: Flags::new(),
            mmu: MMU::new(),
            fatal_error: false,
            halted: false,
            rom_base: 0,
            rom_length: 0,
        };
        cpu.set_sreg(2, 0x0000);
        cpu.set_r16(4, 0xFFF0);
        cpu.set_sreg(3, 0xDEAD);
        cpu
    }

    /// Puts all registers back to their values at creation. Memory is kept.
    pub fn hard_reset(&mut self)
        requires
            old(self).wf(),
        ensures
            final(self).wf(),
            registers_reset(final(self)@),
            final(self)@.mem == old(self)@.mem,
    {
        let zero = Register16 { val: 0 };
        self.ip = 0;
        self.instruction_count = 0;
        self.cycle_count = 0;
        self.clock_hz = CLOCK_HZ;
        self.r16 = [zero, zero, zero, zero, zero, zero, zero, zero];
        self.sreg16 = [zero, zero, zero, zero, zero, zero];
        self.flags = Flags::new();
        self.fatal_error = false;
        self.halted = false;
        self.rom_base = 0;
        self.rom_length = 0;
        self.set_r16(4, 0xFFF0);
        self.set_sreg(3, 0xDEAD);
    }

    /// Puts the instruction pointer and the instruction count back to 0.
    /// Registers and memory are kept.
    pub fn reset(&mut self)
        ensures
            final(self)@ == (State { ip: 0, instruction_count: 0, ..old(self)@ }),
            final(self).wf() == old(self).wf(),
    {
        self.ip = 0;
        self.instruction_count = 0;
    }

    /// Copies a program to flat address `offset` and points the instruction
    /// pointer at it. What does not fit below 64 KiB is left out.
    pub fn load_rom(&mut self, data: &Vec<u8>, offset: u16)
        requires
            old(self).wf(),
        ensures
            final(self).wf(),
            final(self)@ == (State {
                ip: offset,
                mem: splice(
                    old(self)@.mem,
                    offset as int,
                    data@.subrange(0, rom_fit(data@.len() as int, offset)),
                ),
                rom_base: offset as u32,
                rom_length: rom_fit(data@.len() as int, offset) as u32,
                ..old(self)@
            }),
    {
        self.ip = offset;
        let room: usize = 0x1_0000 - offset as usize;
        let n: usize = if data.len() > room {
            room
        } else {
            data.len()
        };
        let part = vstd::slice::slice_subrange(data.as_slice(), 0, n);
        self.mmu.memory.write(offset as u32, part);
        self.rom_base = offset as u32;
        self.rom_length = n as u32;
    }

    /// The flat address of the next instruction.
    pub fn get_offset(&self) -> (r: usize)
        ensures
            r == self@.code_address(),
    {
        self.sreg16[1].val as usize * 16 + self.ip as usize
    }

    /// Copy of `length` bytes of memory from flat address `offset` on.
    pub fn read_u8_slice(&mut self, offset: usize, length: usize) -> (r: Vec<u8>)
        requires
            old(self).wf(),
            offset + length <= MEMORY_SIZE,
        ensures
            r@ == old(self)@.mem.subrange(offset as int, offset + length),
            *final(self) == *old(self),
    {
        self.mmu.memory.read(offset as u32, length)
    }

    /// The bytes from which the next instruction is decoded.
    pub fn fetch(&self) -> (w: Vec<u8>)
        requires
            self.wf(),
        ensures
            w@ == self@.code_window(),
    {
        let at = self.get_offset();
        if at >= MEMORY_SIZE {
            Vec::new()
        } else if at + MAX_LENGTH > MEMORY_SIZE {
            self.mmu.memory.read(at as u32, MEMORY_SIZE - at)
        } else {
            self.mmu.memory.read(at as u32, MAX_LENGTH)
        }
    }

    /// Decodes the instruction at CS:IP. Nothing is executed.
    pub fn decode_instruction(&self) -> (d: Decoded)
        requires
            self.wf(),
        ensures
            d == spec_decode(self@.code_window(), self@.ip),
            d.wf(),
    {
        let w = self.fetch();
        decode(w.as_slice(), self.ip)
    }

    /// The value of an operand: of a byte register or 8-bit immediate its 8
    /// bits, of a word or segment register or 16-bit immediate its 16 bits;
    /// 0 for any other operand.
    pub fn get_parameter_value(&mut self, p: &Parameter) -> (v: usize)
        requires
            p.wf(),
        ensures
            *final(self) == *old(self),
            v == match *p {
                Parameter::Reg8(_) | Parameter::Imm8(_) => old(self)@.read8(*p) as usize,
                Parameter::Reg16(_) | Parameter::SReg16(_) | Parameter::Imm16(_) => old(self)@.read16(*p) as usize,
                _ => 0usize,
            },
    {
        match *p {
            Parameter::Reg8(r) => self.get_r8(r) as usize,
            Parameter::Reg16(r) => self.get_r16(r) as usize,
            Parameter::SReg16(r) => self.get_sreg(r) as usize,
            Parameter::Imm8(imm) => imm as usize,
            Parameter::Imm16(imm) => imm as usize,
            _ => 0,
        }
    }

    /// Stores a byte in a byte register; any other operand is left alone.
    pub fn write_u8_param(&mut self, p: &Parameter, data: u8)
        requires
            p.wf(),
        ensures
            final(self)@ == match *p {
                Parameter::Reg8(r) => old(self)@.with_reg8(r as int, data),
                _ => old(self)@,
            },
            final(self).wf() == old(self).wf(),
    {
        match *p {
            Parameter::Reg8(r) => self.set_r8(r, data),
            _ => {},
        }
    }

    /// Stores a word in a word or segment register; any other operand is
    /// left alone.
    pub fn write_u16_param(&mut self, p: &Parameter, data: u16)
        requires
            p.wf(),
        ensures
            final(self)@ == match *p {
                Parameter::Reg16(r) => old(self)@.with_reg16(r as int, data),
                Parameter::SReg16(r) => old(self)@.with_sreg(r as int, data),
                _ => old(self)@,
            },
            final(self).wf() == old(self).wf(),
    {
        match *p {
            Parameter::Reg16(r) => self.set_r16(r, data),
            Parameter::SReg16(r) => self.set_sreg(r, data),
            _ => {},
        }
    }

    /// The byte at a flat address.
    pub fn peek_u8_at(&mut self, pos: usize) -> (b: u8)
        requires
            old(self).wf(),
            pos < MEMORY_SIZE,
        ensures
            *final(self) == *old(self),
            b == old(self)@.mem[pos as int],
    {
        self.mmu.memory.read_u8(pos as u32)
    }

    /// The little-endian word at a flat address.
    pub fn peek_u16_at(&mut self, pos: usize) -> (v: u16)
        requires
            old(self).wf(),
            pos + 1 < MEMORY_SIZE,
        ensures
            *final(self) == *old(self),
            v == le16(old(self)@.mem, pos as int),
    {
        self.mmu.memory.read_u16(pos as u32)
    }

    /// Stores a byte at a flat address.
    pub fn write_u8(&mut self, offset: usize, data: u8)
        requires
            old(self).wf(),
            offset < MEMORY_SIZE,
        ensures
            final(self).wf(),
            final(self)@ == (State { mem: old(self)@.mem.update(offset as int, data), ..old(self)@ }),
    {
        self.mmu.memory.write_u8(offset as u32, data);
    }

    /// Stores a word at a flat address, low byte first.
    pub fn write_u16(&mut self, offset: usize, data: u16)
        requires
            old(self).wf(),
            offset + 1 < MEMORY_SIZE,
        ensures
            final(self).wf(),
            final(self)@ == (State {
                mem: store16(old(self)@.mem, offset as int, data),
                ..old(self)@
            }),
    {
        self.mmu.memory.write_u16(offset as u32, data);
    }

    /// Decodes the instruction at CS:IP and runs it.
    pub fn execute_instruction(&mut self) -> (e: Effect)
        requires
            old(self).wf(),
        ensures
            final(self).wf(),
            final(self)@ == old(self)@.next(),
            e == old(self)@.next_effect(),
    {
        let w = self.fetch();
        let d = decode(w.as_slice(), self.ip);
        self.execute(&d)
    }

    pub fn get_r16(&self, i: u8) -> (v: u16)
        requires
            i < 8,
        ensures
            v == self@.reg16(i as int),
    {
        self.r16[i as usize].val
    }

    pub fn set_r16(&mut self, i: u8, v: u16)
        requires
            i < 8,
        ensures
            final(self)@ == old(self)@.with_reg16(i as int, v),
            final(self).wf() == old(self).wf(),
    {
        self.r16[i as usize] = Register16 { val: v };
    }

    pub fn get_r8(&self, i: u8) -> (v: u8)
        requires
            i < 8,
        ensures
            v == self@.reg8(i as int),
    {
        if i < 4 {
            (self.r16[i as usize].val % 256) as u8
        } else {
            (self.r16[i as usize - 4].val / 256) as u8
        }
    }

    pub fn set_r8(&mut self, i: u8, v: u8)
        requires
            i < 8,
        ensures
            final(self)@ == old(self)@.with_reg8(i as int, v),
            final(self).wf() == old(self).wf(),
    {
        if i < 4 {
            let old_val = self.r16[i as usize].val;
            self.set_r16(i, (old_val / 256) * 256 + v as u16);
        } else {
            let old_val = self.r16[i as usize - 4].val;
            self.set_r16(i - 4, (v as u16) * 256 + old_val % 256);
        }
    }

    pub fn get_sreg(&self, i: u8) -> (v: u16)
        requires
            i < 6,
        ensures
            v == self@.sreg(i as int),
    {
        self.sreg16[i as usize].val
    }

    pub fn set_sreg(&mut self, i: u8, v: u16)
        requires
            i < 6,
        ensures
            final(self)@ == old(self)@.with_sreg(i as int, v),
            final(self).wf() == old(self).wf(),
    {
        self.sreg16[i as usize] = Register16 { val: v };
    }

    pub fn segment_value(&self, seg: Segment, stack: bool) -> (v: u16)
        ensures
            v == self@.segment(seg, stack),
    {
        match seg {
            Segment::Default => if stack {
                self.get_sreg(2)
            } else {
                self.get_sreg(3)
            },
            Segment::ES => self.get_sreg(0),
            Segment::CS => self.get_sreg(1),
            Segment::SS => self.get_sreg(2),
            Segment::DS => self.get_sreg(3),
            Segment::FS => self.get_sreg(4),
            Segment::GS => self.get_sreg(5),
        }
    }

    /// Reads a byte; a read outside memory gives 0 and is fatal.
    pub fn load8(&mut self, seg: u16, off: u16) -> (v: u8)
        requires
            old(self).wf(),
        ensures
            v == old(self)@.load8(seg, off),
            final(self)@ == old(self)@.touch(seg, off, 1),
            final(self).wf(),
    {
        if MMU::check_range(seg, off, 1) {
            self.mmu.read_u8(seg, off)
        } else {
            self.fatal_error = true;
            0
        }
    }

    /// Reads a word; a read outside memory gives 0 and is fatal.
    pub fn load16(&mut self, seg: u16, off: u16) -> (v: u16)
        requires
            old(self).wf(),
        ensures
            v == old(self)@.load16(seg, off),
            final(self)@ == old(self)@.touch(seg, off, 2),
            final(self).wf(),
    {
        if MMU::check_range(seg, off, 2) {
            self.mmu.read_u16(seg, off)
        } else {
            self.fatal_error = true;
            0
        }
    }

    /// Writes a byte; a write outside memory changes no byte and is fatal.
    pub fn store8(&mut self, seg: u16, off: u16, v: u8)
        requires
            old(self).wf(),
        ensures
            final(self)@ == old(self)@.store8(seg, off, v),
            final(self).wf(),
    {
        if MMU::check_range(seg, off, 1) {
            self.mmu.write_u8(seg, off, v);
        } else {
            self.fatal_error = true;
        }
    }

    /// Writes a word; a write outside memory changes no byte and is fatal.
    pub fn store16(&mut self, seg: u16, off: u16, v: u16)
        requires
            old(self).wf(),
        ensures
            final(self)@ == old(self)@.store16(seg, off, v),
            final(self).wf(),
    {
        if MMU::check_range(seg, off, 2) {
            self.mmu.write_u16(seg, off, v);
        } else {
            self.fatal_error = true;
        }
    }

    pub fn amode_offset(&self, a: AMode) -> (v: u16)
        ensures
            v == self@.amode_offset(a),
    {
        match a {
            AMode::BXSI => add16(self.get_r16(3), self.get_r16(6)),
            AMode::BXDI => add16(self.get_r16(3), self.get_r16(7)),
            AMode::BPSI => add16(self.get_r16(5), self.get_r16(6)),
            AMode::BPDI => add16(self.get_r16(5), self.get_r16(7)),
            AMode::SI => self.get_r16(6),
            AMode::DI => self.get_r16(7),
            AMode::BP => self.get_r16(5),
            AMode::BX => self.get_r16(3),
        }
    }

    pub fn param_offset(&self, p: &Parameter) -> (v: u16)
        ensures
            v == self@.param_offset(*p),
    {
        match *p {
            Parameter::Ptr16Amode(_, a) => self.amode_offset(a),
            Parameter::Ptr16AmodeS8(_, a, d) => offset_by(self.amode_offset(a), d as i32),
            Parameter::Ptr16AmodeS16(_, a, d) => offset_by(self.amode_offset(a), d as i32),
            Parameter::Ptr16(_, off) => off,
            _ => 0,
        }
    }

    pub fn param_segment(&self, p: &Parameter) -> (v: u16)
        ensures
            v == self@.param_segment(*p),
    {
        match *p {
            Parameter::Ptr16Amode(seg, a) => self.segment_value(seg, a.is_bp_based()),
            Parameter::Ptr16AmodeS8(seg, a, _) => self.segment_value(seg, a.is_bp_based()),
            Parameter::Ptr16AmodeS16(seg, a, _) => self.segment_value(seg, a.is_bp_based()),
            Parameter::Ptr16(seg, _) => self.segment_value(seg, false),
            _ => 0,
        }
    }

    /// The 8-bit value of an operand.
    pub fn read8(&mut self, p: &Parameter) -> (v: u8)
        requires
            old(self).wf(),
            p.wf(),
        ensures
            v == old(self)@.read8(*p),
            final(self)@ == old(self)@.touch_param(*p, 1),
            final(self).wf(),
    {
        match *p {
            Parameter::Imm8(v) => v,
            Parameter::Imm16(v) => (v % 256) as u8,
            Parameter::Reg8(i) => self.get_r8(i),
            _ => if p.in_memory() {
                let seg = self.param_segment(p);
                let off = self.param_offset(p);
                self.load8(seg, off)
            } else {
                0
            },
        }
    }

    /// The 16-bit value of an operand.
    pub fn read16(&mut self, p: &Parameter) -> (v: u16)
        requires
            old(self).wf(),
            p.wf(),
        ensures
            v == old(self)@.read16(*p),
            final(self)@ == old(self)@.touch_param(*p, 2),
            final(self).wf(),
    {
        match *p {
            Parameter::Imm8(v) => v as u16,
            Parameter::Imm16(v) => v,
            Parameter::Reg16(i) => self.get_r16(i),
            Parameter::SReg16(i) => self.get_sreg(i),
            _ => if p.in_memory() {
                let seg = self.param_segment(p);
                let off = self.param_offset(p);
                self.load16(seg, off)
            } else {
                0
            },
        }
    }

    pub fn write8(&mut self, p: &Parameter, v: u8)
        requires
            old(self).wf(),
            p.wf(),
        ensures
            final(self)@ == old(self)@.write8(*p, v),
            final(self).wf(),
    {
        match *p {
            Parameter::Reg8(i) => self.set_r8(i, v),
            _ => if p.in_memory() {
                let seg = self.param_segment(p);
                let off = self.param_offset(p);
                self.store8(seg, off, v)
            },
        }
    }

    pub fn write16(&mut self, p: &Parameter, v: u16)
        requires
            old(self).wf(),
            p.wf(),
        ensures
            final(self)@ == old(self)@.write16(*p, v),
            final(self).wf(),
    {
        match *p {
            Parameter::Reg16(i) => self.set_r16(i, v),
            Parameter::SReg16(i) => self.set_sreg(i, v),
            _ => if p.in_memory() {
                let seg = self.param_segment(p);
                let off = self.param_offset(p);
                self.store16(seg, off, v)
            },
        }
    }

    /// The value of an operand at the given width.
    pub fn read(&mut self, p: &Parameter, wide: bool) -> (v: u16)
        requires
            old(self).wf(),
            p.wf(),
        ensures
            v == old(self)@.read(*p, wide),
            final(self)@ == old(self)@.touched(*p, wide),
            final(self).wf(),
            crate::alu::fits(v, wide),
    {
        if wide {
            self.read16(p)
        } else {
            self.read8(p) as u16
        }
    }

    /// Stores a value at the given width.
    pub fn write(&mut self, p: &Parameter, v: u16, wide: bool)
        requires
            old(self).wf(),
            p.wf(),
        ensures
            final(self)@ == old(self)@.write(*p, v, wide),
            final(self).wf(),
    {
        if wide {
            self.write16(p, v)
        } else {
            self.write8(p, (v % 256) as u8)
        }
    }

    pub fn push16(&mut self, data: u16)
        requires
            old(self).wf(),
        ensures
            final(self)@ == old(self)@.push16(data),
            final(self).wf(),
    {
        let sp = offset_by(self.get_r16(4), -2);
        self.set_r16(4, sp);
        let ss = self.get_sreg(2);
        self.store16(ss, sp, data);
    }

    pub fn pop16(&mut self) -> (v: u16)
        requires
            old(self).wf(),
        ensures
            v == old(self)@.top16(),
            final(self)@ == old(self)@.drop16(),
            final(self).wf(),
    {
        let sp = self.get_r16(4);
        let ss = self.get_sreg(2);
        let v = self.load16(ss, sp);
        self.set_r16(4, add16(sp, 2));
        v
    }
}

} // verus!
