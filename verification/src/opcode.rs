//! The opcode maps: for each opcode byte the instruction kind, or the group
//! that the ModR/M `reg` field selects from, and the form of each operand.
use vstd::prelude::*;
use crate::op::{Invalid, Op};

verus! {

/// How one operand is encoded.
#[derive(Clone, Copy, Debug, PartialEq, Eq, Structural)]
pub enum Arg {
    Empty,
    /// the ModR/M r/m operand, 8 bits wide: a byte register or memory
    Rm8,
    /// the ModR/M r/m operand, 16 bits wide
    Rm16,
    /// the byte register in the ModR/M `reg` field
    R8,
    /// the word register in the ModR/M `reg` field
    R16,
    /// the segment register in the ModR/M `reg` field
    SReg,
    Imm8,
    Imm16,
    /// an 8-bit immediate, sign-extended to 16 bits
    Imm8S,
    /// an 8-bit displacement relative to the end of the instruction
    Rel8,
    /// a 16-bit displacement relative to the end of the instruction
    Rel16,
    /// the constant 1
    One,
    /// the constant 3
    Three,
    FixReg8(u8),
    FixReg16(u8),
    FixSReg(u8),
    /// the byte register in the low three bits of the opcode
    OpReg8,
    /// the word register in the low three bits of the opcode
    OpReg16,
    /// memory at a 16-bit offset held in the instruction
    Moffs,
    /// a far pointer held in the instruction: offset, then segment
    Far,
}

/// How the instruction kind follows from the opcode.
#[derive(Clone, Copy, Debug, PartialEq, Eq, Structural)]
pub enum OpSel {
    Fixed(Op),
    /// group 80h-83h, by `reg`: ADD OR ADC SBB AND SUB XOR CMP
    Alu(bool),
    /// group C0h/C1h/D0h-D3h, by `reg`: ROL ROR RCL RCR SHL SHR SHL SAR
    Shift(bool),
    /// group F6h/F7h, by `reg`: TEST - NOT NEG MUL IMUL DIV IDIV
    Unary(bool),
    /// group FEh, by `reg`: INC DEC
    IncDec,
    /// group FFh, by `reg`: INC DEC CALL CALL-far JMP JMP-far PUSH
    Indirect,
    /// a group of which only `reg` = 0 is assigned
    Only(Op),
    /// an x87 escape
    Fpu,
    /// the first byte of a two-byte opcode
    Escape,
    Unknown,
}

/// A row of an opcode map.
#[derive(Clone, Copy, Debug, PartialEq, Eq, Structural)]
pub struct Entry {
    pub sel: OpSel,
    pub dst: Arg,
    pub src: Arg,
    pub src2: Arg,
}

pub open spec fn entry(sel: OpSel, dst: Arg, src: Arg, src2: Arg) -> Entry {
    Entry { sel, dst, src, src2 }
}

pub fn make_entry(sel: OpSel, dst: Arg, src: Arg, src2: Arg) -> (r: Entry)
    ensures
        r == entry(sel, dst, src, src2),
{
    Entry { sel, dst, src, src2 }
}

/// Whether the operand is taken from a ModR/M byte.
pub open spec fn needs_modrm(a: Arg) -> bool {
    a == Arg::Rm8 || a == Arg::Rm16 || a == Arg::R8 || a == Arg::R16 || a == Arg::SReg
}

pub fn arg_needs_modrm(a: Arg) -> (r: bool)
    ensures
        r == needs_modrm(a),
{
    match a {
        Arg::Rm8 | Arg::Rm16 | Arg::R8 | Arg::R16 | Arg::SReg => true,
        _ => false,
    }
}

/// Registers that a table row names exist.
pub open spec fn arg_wf(a: Arg) -> bool {
    match a {
        Arg::FixReg8(i) => i < 8,
        Arg::FixReg16(i) => i < 8,
        Arg::FixSReg(i) => i < 6,
        _ => true,
    }
}

impl Entry {
    pub open spec fn wf(self) -> bool {
        &&& arg_wf(self.dst)
        &&& arg_wf(self.src)
        &&& arg_wf(self.src2)
        &&& self.src2 != Arg::SReg
    }

    /// Whether a ModR/M byte follows the opcode.
    pub open spec fn has_modrm(self) -> bool {
        needs_modrm(self.dst) || needs_modrm(self.src) || needs_modrm(self.src2)
    }

    /// Whether an operand is a segment register named by the ModR/M byte.
    pub open spec fn has_sreg(self) -> bool {
        self.dst == Arg::SReg || self.src == Arg::SReg
    }

    pub fn modrm_follows(&self) -> (r: bool)
        ensures
            r == self.has_modrm(),
    {
        arg_needs_modrm(self.dst) || arg_needs_modrm(self.src) || arg_needs_modrm(self.src2)
    }

    pub fn names_sreg(&self) -> (r: bool)
        ensures
            r == self.has_sreg(),
    {
        let d = match self.dst {
            Arg::SReg => true,
            _ => false,
        };
        let s = match self.src {
            Arg::SReg => true,
            _ => false,
        };
        d || s
    }
}

/// The arithmetic kind that `reg` = `i` selects in group 80h-83h, and bits 3 to 5 of
/// an opcode below 40h.
pub open spec fn alu_op(i: u8, wide: bool) -> Op {
    if wide {
        match i {
            0 => Op::Add16,
            1 => Op::Or16,
            2 => Op::Adc16,
            3 => Op::Sbb16,
            4 => Op::And16,
            5 => Op::Sub16,
            6 => Op::Xor16,
            _ => Op::Cmp16,
        }
    } else {
        match i {
            0 => Op::Add8,
            1 => Op::Or8,
            2 => Op::Adc8,
            3 => Op::Sbb8,
            4 => Op::And8,
            5 => Op::Sub8,
            6 => Op::Xor8,
            _ => Op::Cmp8,
        }
    }
}

pub fn alu_op_of(i: u8, wide: bool) -> (r: Op)
    ensures
        r == alu_op(i, wide),
{
    if wide {
        match i {
            0 => Op::Add16,
            1 => Op::Or16,
            2 => Op::Adc16,
            3 => Op::Sbb16,
            4 => Op::And16,
            5 => Op::Sub16,
            6 => Op::Xor16,
            _ => Op::Cmp16,
        }
    } else {
        match i {
            0 => Op::Add8,
            1 => Op::Or8,
            2 => Op::Adc8,
            3 => Op::Sbb8,
            4 => Op::And8,
            5 => Op::Sub8,
            6 => Op::Xor8,
            _ => Op::Cmp8,
        }
    }
}

/// The shift or rotate kind that `reg` = `i` selects.
pub open spec fn shift_op(i: u8, wide: bool) -> Op {
    if wide {
        match i {
            0 => Op::Rol16,
            1 => Op::Ror16,
            2 => Op::Rcl16,
            3 => Op::Rcr16,
            4 => Op::Shl16,
            5 => Op::Shr16,
            6 => Op::Shl16,
            _ => Op::Sar16,
        }
    } else {
        match i {
            0 => Op::Rol8,
            1 => Op::Ror8,
            2 => Op::Rcl8,
            3 => Op::Rcr8,
            4 => Op::Shl8,
            5 => Op::Shr8,
            6 => Op::Shl8,
            _ => Op::Sar8,
        }
    }
}

pub fn shift_op_of(i: u8, wide: bool) -> (r: Op)
    ensures
        r == shift_op(i, wide),
{
    if wide {
        match i {
            0 => Op::Rol16,
            1 => Op::Ror16,
            2 => Op::Rcl16,
            3 => Op::Rcr16,
            4 => Op::Shl16,
            5 => Op::Shr16,
            6 => Op::Shl16,
            _ => Op::Sar16,
        }
    } else {
        match i {
            0 => Op::Rol8,
            1 => Op::Ror8,
            2 => Op::Rcl8,
            3 => Op::Rcr8,
            4 => Op::Shl8,
            5 => Op::Shr8,
            6 => Op::Shl8,
            _ => Op::Sar8,
        }
    }
}

/// The instruction kind for a table row and the `reg` field of the ModR/M
/// byte, or the reason for which there is none.
pub open spec fn select(sel: OpSel, reg: u8) -> Result<Op, Invalid> {
    match sel {
        OpSel::Fixed(op) => Ok(op),
        OpSel::Alu(wide) => Ok(alu_op(reg, wide)),
        OpSel::Shift(wide) => Ok(shift_op(reg, wide)),
        OpSel::Unary(wide) => match reg {
            0 => Ok(
                if wide {
                    Op::Test16
                } else {
                    Op::Test8
                },
            ),
            2 => Ok(
                if wide {
                    Op::Not16
                } else {
                    Op::Not8
                },
            ),
            3 => Ok(
                if wide {
                    Op::Neg16
                } else {
                    Op::Neg8
                },
            ),
            4 => Ok(
                if wide {
                    Op::Mul16
                } else {
                    Op::Mul8
                },
            ),
            5 => Ok(
                if wide {
                    Op::Imul16
                } else {
                    Op::Imul8
                },
            ),
            6 => Ok(
                if wide {
                    Op::Div16
                } else {
                    Op::Div8
                },
            ),
            7 => Ok(
                if wide {
                    Op::Idiv16
                } else {
                    Op::Idiv8
                },
            ),
            _ => Err(Invalid::Reg(reg)),
        },
        OpSel::IncDec => match reg {
            0 => Ok(Op::Inc8),
            1 => Ok(Op::Dec8),
            _ => Err(Invalid::Reg(reg)),
        },
        OpSel::Indirect => match reg {
            0 => Ok(Op::Inc16),
            1 => Ok(Op::Dec16),
            2 => Ok(Op::CallNear),
            3 => Ok(Op::CallFar),
            4 => Ok(Op::JmpNear),
            5 => Ok(Op::JmpFar),
            6 => Ok(Op::Push16),
            _ => Err(Invalid::Reg(reg)),
        },
        OpSel::Only(op) => if reg == 0 {
            Ok(op)
        } else {
            Err(Invalid::Reg(reg))
        },
        OpSel::Fpu => Err(Invalid::FPUOp),
        OpSel::Escape => Err(Invalid::Op),
        OpSel::Unknown => Err(Invalid::Op),
    }
}

pub fn select_op(sel: OpSel, reg: u8) -> (r: Result<Op, Invalid>)
    ensures
        r == select(sel, reg),
{
    match sel {
        OpSel::Fixed(op) => Ok(op),
        OpSel::Alu(wide) => Ok(alu_op_of(reg, wide)),
        OpSel::Shift(wide) => Ok(shift_op_of(reg, wide)),
        OpSel::Unary(wide) => match reg {
            0 => Ok(
                if wide {
                    Op::Test16
                } else {
                    Op::Test8
                },
            ),
            2 => Ok(
                if wide {
                    Op::Not16
                } else {
                    Op::Not8
                },
            ),
            3 => Ok(
                if wide {
                    Op::Neg16
                } else {
                    Op::Neg8
                },
            ),
            4 => Ok(
                if wide {
                    Op::Mul16
                } else {
                    Op::Mul8
                },
            ),
            5 => Ok(
                if wide {
                    Op::Imul16
                } else {
                    Op::Imul8
                },
            ),
            6 => Ok(
                if wide {
                    Op::Div16
                } else {
                    Op::Div8
                },
            ),
            7 => Ok(
                if wide {
                    Op::Idiv16
                } else {
                    Op::Idiv8
                },
            ),
            _ => Err(Invalid::Reg(reg)),
        },
        OpSel::IncDec => match reg {
            0 => Ok(Op::Inc8),
            1 => Ok(Op::Dec8),
            _ => Err(Invalid::Reg(reg)),
        },
        OpSel::Indirect => match reg {
            0 => Ok(Op::Inc16),
            1 => Ok(Op::Dec16),
            2 => Ok(Op::CallNear),
            3 => Ok(Op::CallFar),
            4 => Ok(Op::JmpNear),
            5 => Ok(Op::JmpFar),
            6 => Ok(Op::Push16),
            _ => Err(Invalid::Reg(reg)),
        },
        OpSel::Only(op) => if reg == 0 {
            Ok(op)
        } else {
            Err(Invalid::Reg(reg))
        },
        OpSel::Fpu => Err(Invalid::FPUOp),
        OpSel::Escape => Err(Invalid::Op),
        OpSel::Unknown => Err(Invalid::Op),
    }
}

/// The second operand's form once the kind is known: in group F6h/F7h only
/// TEST takes an immediate.
pub open spec fn effective_src(sel: OpSel, reg: u8, src: Arg) -> Arg {
    match sel {
        OpSel::Unary(wide) => if reg == 0 {
            if wide {
                Arg::Imm16
            } else {
                Arg::Imm8
            }
        } else {
            src
        },
        _ => src,
    }
}

pub fn effective_src_of(sel: OpSel, reg: u8, src: Arg) -> (r: Arg)
    ensures
        r == effective_src(sel, reg, src),
        arg_wf(src) ==> arg_wf(r),
        src != Arg::SReg ==> r != Arg::SReg,
{
    match sel {
        OpSel::Unary(wide) => if reg == 0 {
            if wide {
                Arg::Imm16
            } else {
                Arg::Imm8
            }
        } else {
            src
        },
        _ => src,
    }
}

/// The row of the one-byte opcode map for opcode byte `b`.
pub open spec fn primary(b: u8) -> Entry {
    match b {
        0x00 => entry(OpSel::Fixed(Op::Add8), Arg::Rm8, Arg::R8, Arg::Empty),
        0x01 => entry(OpSel::Fixed(Op::Add16), Arg::Rm16, Arg::R16, Arg::Empty),
        0x02 => entry(OpSel::Fixed(Op::Add8), Arg::R8, Arg::Rm8, Arg::Empty),
        0x03 => entry(OpSel::Fixed(Op::Add16), Arg::R16, Arg::Rm16, Arg::Empty),
        0x04 => entry(OpSel::Fixed(Op::Add8), Arg::FixReg8(0), Arg::Imm8, Arg::Empty),
        0x05 => entry(OpSel::Fixed(Op::Add16), Arg::FixReg16(0), Arg::Imm16, Arg::Empty),
        0x06 => entry(OpSel::Fixed(Op::Push16), Arg::FixSReg(0), Arg::Empty, Arg::Empty),
        0x07 => entry(OpSel::Fixed(Op::Pop16), Arg::FixSReg(0), Arg::Empty, Arg::Empty),
        0x08 => entry(OpSel::Fixed(Op::Or8), Arg::Rm8, Arg::R8, Arg::Empty),
        0x09 => entry(OpSel::Fixed(Op::Or16), Arg::Rm16, Arg::R16, Arg::Empty),
        0x0A => entry(OpSel::Fixed(Op::Or8), Arg::R8, Arg::Rm8, Arg::Empty),
        0x0B => entry(OpSel::Fixed(Op::Or16), Arg::R16, Arg::Rm16, Arg::Empty),
        0x0C => entry(OpSel::Fixed(Op::Or8), Arg::FixReg8(0), Arg::Imm8, Arg::Empty),
        0x0D => entry(OpSel::Fixed(Op::Or16), Arg::FixReg16(0), Arg::Imm16, Arg::Empty),
        0x0E => entry(OpSel::Fixed(Op::Push16), Arg::FixSReg(1), Arg::Empty, Arg::Empty),
        0x0F => entry(OpSel::Escape, Arg::Empty, Arg::Empty, Arg::Empty),
        0x10 => entry(OpSel::Fixed(Op::Adc8), Arg::Rm8, Arg::R8, Arg::Empty),
        0x11 => entry(OpSel::Fixed(Op::Adc16), Arg::Rm16, Arg::R16, Arg::Empty),
        0x12 => entry(OpSel::Fixed(Op::Adc8), Arg::R8, Arg::Rm8, Arg::Empty),
        0x13 => entry(OpSel::Fixed(Op::Adc16), Arg::R16, Arg::Rm16, Arg::Empty),
        0x14 => entry(OpSel::Fixed(Op::Adc8), Arg::FixReg8(0), Arg::Imm8, Arg::Empty),
        0x15 => entry(OpSel::Fixed(Op::Adc16), Arg::FixReg16(0), Arg::Imm16, Arg::Empty),
        0x16 => entry(OpSel::Fixed(Op::Push16), Arg::FixSReg(2), Arg::Empty, Arg::Empty),
        0x17 => entry(OpSel::Fixed(Op::Pop16), Arg::FixSReg(2), Arg::Empty, Arg::Empty),
        0x18 => entry(OpSel::Fixed(Op::Sbb8), Arg::Rm8, Arg::R8, Arg::Empty),
        0x19 => entry(OpSel::Fixed(Op::Sbb16), Arg::Rm16, Arg::R16, Arg::Empty),
        0x1A => entry(OpSel::Fixed(Op::Sbb8), Arg::R8, Arg::Rm8, Arg::Empty),
        0x1B => entry(OpSel::Fixed(Op::Sbb16), Arg::R16, Arg::Rm16, Arg::Empty),
        0x1C => entry(OpSel::Fixed(Op::Sbb8), Arg::FixReg8(0), Arg::Imm8, Arg::Empty),
        0x1D => entry(OpSel::Fixed(Op::Sbb16), Arg::FixReg16(0), Arg::Imm16, Arg::Empty),
        0x1E => entry(OpSel::Fixed(Op::Push16), Arg::FixSReg(3), Arg::Empty, Arg::Empty),
        0x1F => entry(OpSel::Fixed(Op::Pop16), Arg::FixSReg(3), Arg::Empty, Arg::Empty),
        0x20 => entry(OpSel::Fixed(Op::And8), Arg::Rm8, Arg::R8, Arg::Empty),
        0x21 => entry(OpSel::Fixed(Op::And16), Arg::Rm16, Arg::R16, Arg::Empty),
        0x22 => entry(OpSel::Fixed(Op::And8), Arg::R8, Arg::Rm8, Arg::Empty),
        0x23 => entry(OpSel::Fixed(Op::And16), Arg::R16, Arg::Rm16, Arg::Empty),
        0x24 => entry(OpSel::Fixed(Op::And8), Arg::FixReg8(0), Arg::Imm8, Arg::Empty),
        0x25 => entry(OpSel::Fixed(Op::And16), Arg::FixReg16(0), Arg::Imm16, Arg::Empty),
        0x27 => entry(OpSel::Fixed(Op::Daa), Arg::Empty, Arg::Empty, Arg::Empty),
        0x28 => entry(OpSel::Fixed(Op::Sub8), Arg::Rm8, Arg::R8, Arg::Empty),
        0x29 => entry(OpSel::Fixed(Op::Sub16), Arg::Rm16, Arg::R16, Arg::Empty),
        0x2A => entry(OpSel::Fixed(Op::Sub8), Arg::R8, Arg::Rm8, Arg::Empty),
        0x2B => entry(OpSel::Fixed(Op::Sub16), Arg::R16, Arg::Rm16, Arg::Empty),
        0x2C => entry(OpSel::Fixed(Op::Sub8), Arg::FixReg8(0), Arg::Imm8, Arg::Empty),
        0x2D => entry(OpSel::Fixed(Op::Sub16), Arg::FixReg16(0), Arg::Imm16, Arg::Empty),
        0x2F => entry(OpSel::Fixed(Op::Das), Arg::Empty, Arg::Empty, Arg::Empty),
        0x30 => entry(OpSel::Fixed(Op::Xor8), Arg::Rm8, Arg::R8, Arg::Empty),
        0x31 => entry(OpSel::Fixed(Op::Xor16), Arg::Rm16, Arg::R16, Arg::Empty),
        0x32 => entry(OpSel::Fixed(Op::Xor8), Arg::R8, Arg::Rm8, Arg::Empty),
        0x33 => entry(OpSel::Fixed(Op::Xor16), Arg::R16, Arg::Rm16, Arg::Empty),
        0x34 => entry(OpSel::Fixed(Op::Xor8), Arg::FixReg8(0), Arg::Imm8, Arg::Empty),
        0x35 => entry(OpSel::Fixed(Op::Xor16), Arg::FixReg16(0), Arg::Imm16, Arg::Empty),
        0x37 => entry(OpSel::Fixed(Op::Aaa), Arg::Empty, Arg::Empty, Arg::Empty),
        0x38 => entry(OpSel::Fixed(Op::Cmp8), Arg::Rm8, Arg::R8, Arg::Empty),
        0x39 => entry(OpSel::Fixed(Op::Cmp16), Arg::Rm16, Arg::R16, Arg::Empty),
        0x3A => entry(OpSel::Fixed(Op::Cmp8), Arg::R8, Arg::Rm8, Arg::Empty),
        0x3B => entry(OpSel::Fixed(Op::Cmp16), Arg::R16, Arg::Rm16, Arg::Empty),
        0x3C => entry(OpSel::Fixed(Op::Cmp8), Arg::FixReg8(0), Arg::Imm8, Arg::Empty),
        0x3D => entry(OpSel::Fixed(Op::Cmp16), Arg::FixReg16(0), Arg::Imm16, Arg::Empty),
        0x3F => entry(OpSel::Fixed(Op::Aas), Arg::Empty, Arg::Empty, Arg::Empty),
        0x40 | 0x41 | 0x42 | 0x43 | 0x44 | 0x45 | 0x46 | 0x47 => entry(OpSel::Fixed(Op::Inc16), Arg::OpReg16, Arg::Empty, Arg::Empty),
        0x48 | 0x49 | 0x4A | 0x4B | 0x4C | 0x4D | 0x4E | 0x4F => entry(OpSel::Fixed(Op::Dec16), Arg::OpReg16, Arg::Empty, Arg::Empty),
        0x50 | 0x51 | 0x52 | 0x53 | 0x54 | 0x55 | 0x56 | 0x57 => entry(OpSel::Fixed(Op::Push16), Arg::OpReg16, Arg::Empty, Arg::Empty),
        0x58 | 0x59 | 0x5A | 0x5B | 0x5C | 0x5D | 0x5E | 0x5F => entry(OpSel::Fixed(Op::Pop16), Arg::OpReg16, Arg::Empty, Arg::Empty),
        0x60 => entry(OpSel::Fixed(Op::Pusha16), Arg::Empty, Arg::Empty, Arg::Empty),
        0x61 => entry(OpSel::Fixed(Op::Popa16), Arg::Empty, Arg::Empty, Arg::Empty),
        0x62 => entry(OpSel::Fixed(Op::Bound), Arg::R16, Arg::Rm16, Arg::Empty),
        0x63 => entry(OpSel::Fixed(Op::Arpl), Arg::Rm16, Arg::R16, Arg::Empty),
        0x68 => entry(OpSel::Fixed(Op::Push16), Arg::Imm16, Arg::Empty, Arg::Empty),
        0x69 => entry(OpSel::Fixed(Op::Imul16), Arg::R16, Arg::Rm16, Arg::Imm16),
        0x6A => entry(OpSel::Fixed(Op::Push16), Arg::Imm8S, Arg::Empty, Arg::Empty),
        0x6B => entry(OpSel::Fixed(Op::Imul16), Arg::R16, Arg::Rm16, Arg::Imm8S),
        0x6C => entry(OpSel::Fixed(Op::Insb), Arg::Empty, Arg::Empty, Arg::Empty),
        0x6D => entry(OpSel::Fixed(Op::Insw), Arg::Empty, Arg::Empty, Arg::Empty),
        0x6E => entry(OpSel::Fixed(Op::Outsb), Arg::Empty, Arg::Empty, Arg::Empty),
        0x6F => entry(OpSel::Fixed(Op::Outsw), Arg::Empty, Arg::Empty, Arg::Empty),
        0x70 => entry(OpSel::Fixed(Op::Jo), Arg::Rel8, Arg::Empty, Arg::Empty),
        0x71 => entry(OpSel::Fixed(Op::Jno), Arg::Rel8, Arg::Empty, Arg::Empty),
        0x72 => entry(OpSel::Fixed(Op::Jc), Arg::Rel8, Arg::Empty, Arg::Empty),
        0x73 => entry(OpSel::Fixed(Op::Jnc), Arg::Rel8, Arg::Empty, Arg::Empty),
        0x74 => entry(OpSel::Fixed(Op::Jz), Arg::Rel8, Arg::Empty, Arg::Empty),
        0x75 => entry(OpSel::Fixed(Op::Jnz), Arg::Rel8, Arg::Empty, Arg::Empty),
        0x76 => entry(OpSel::Fixed(Op::Jna), Arg::Rel8, Arg::Empty, Arg::Empty),
        0x77 => entry(OpSel::Fixed(Op::Ja), Arg::Rel8, Arg::Empty, Arg::Empty),
        0x78 => entry(OpSel::Fixed(Op::Js), Arg::Rel8, Arg::Empty, Arg::Empty),
        0x79 => entry(OpSel::Fixed(Op::Jns), Arg::Rel8, Arg::Empty, Arg::Empty),
        0x7A => entry(OpSel::Fixed(Op::Jpe), Arg::Rel8, Arg::Empty, Arg::Empty),
        0x7B => entry(OpSel::Fixed(Op::Jpo), Arg::Rel8, Arg::Empty, Arg::Empty),
        0x7C => entry(OpSel::Fixed(Op::Jl), Arg::Rel8, Arg::Empty, Arg::Empty),
        0x7D => entry(OpSel::Fixed(Op::Jnl), Arg::Rel8, Arg::Empty, Arg::Empty),
        0x7E => entry(OpSel::Fixed(Op::Jng), Arg::Rel8, Arg::Empty, Arg::Empty),
        0x7F => entry(OpSel::Fixed(Op::Jg), Arg::Rel8, Arg::Empty, Arg::Empty),
        0x80 | 0x82 => entry(OpSel::Alu(false), Arg::Rm8, Arg::Imm8, Arg::Empty),
        0x81 => entry(OpSel::Alu(true), Arg::Rm16, Arg::Imm16, Arg::Empty),
        0x83 => entry(OpSel::Alu(true), Arg::Rm16, Arg::Imm8S, Arg::Empty),
        0x84 => entry(OpSel::Fixed(Op::Test8), Arg::Rm8, Arg::R8, Arg::Empty),
        0x85 => entry(OpSel::Fixed(Op::Test16), Arg::Rm16, Arg::R16, Arg::Empty),
        0x86 => entry(OpSel::Fixed(Op::Xchg8), Arg::Rm8, Arg::R8, Arg::Empty),
        0x87 => entry(OpSel::Fixed(Op::Xchg16), Arg::Rm16, Arg::R16, Arg::Empty),
        0x88 => entry(OpSel::Fixed(Op::Mov8), Arg::Rm8, Arg::R8, Arg::Empty),
        0x89 => entry(OpSel::Fixed(Op::Mov16), Arg::Rm16, Arg::R16, Arg::Empty),
        0x8A => entry(OpSel::Fixed(Op::Mov8), Arg::R8, Arg::Rm8, Arg::Empty),
        0x8B => entry(OpSel::Fixed(Op::Mov16), Arg::R16, Arg::Rm16, Arg::Empty),
        0x8C => entry(OpSel::Fixed(Op::Mov16), Arg::Rm16, Arg::SReg, Arg::Empty),
        0x8D => entry(OpSel::Fixed(Op::Lea16), Arg::R16, Arg::Rm16, Arg::Empty),
        0x8E => entry(OpSel::Fixed(Op::Mov16), Arg::SReg, Arg::Rm16, Arg::Empty),
        0x8F => entry(OpSel::Only(Op::Pop16), Arg::Rm16, Arg::Empty, Arg::Empty),
        0x90 => entry(OpSel::Fixed(Op::Nop), Arg::Empty, Arg::Empty, Arg::Empty),
        0x91 | 0x92 | 0x93 | 0x94 | 0x95 | 0x96 | 0x97 => entry(OpSel::Fixed(Op::Xchg16), Arg::FixReg16(0), Arg::OpReg16, Arg::Empty),
        0x98 => entry(OpSel::Fixed(Op::Cbw), Arg::Empty, Arg::Empty, Arg::Empty),
        0x99 => entry(OpSel::Fixed(Op::Cwd16), Arg::Empty, Arg::Empty, Arg::Empty),
        0x9A => entry(OpSel::Fixed(Op::CallFar), Arg::Far, Arg::Empty, Arg::Empty),
        0x9C => entry(OpSel::Fixed(Op::Pushf), Arg::Empty, Arg::Empty, Arg::Empty),
        0x9D => entry(OpSel::Fixed(Op::Popf), Arg::Empty, Arg::Empty, Arg::Empty),
        0x9E => entry(OpSel::Fixed(Op::Sahf), Arg::Empty, Arg::Empty, Arg::Empty),
        0x9F => entry(OpSel::Fixed(Op::Lahf), Arg::Empty, Arg::Empty, Arg::Empty),
        0xA0 => entry(OpSel::Fixed(Op::Mov8), Arg::FixReg8(0), Arg::Moffs, Arg::Empty),
        0xA1 => entry(OpSel::Fixed(Op::Mov16), Arg::FixReg16(0), Arg::Moffs, Arg::Empty),
        0xA2 => entry(OpSel::Fixed(Op::Mov8), Arg::Moffs, Arg::FixReg8(0), Arg::Empty),
        0xA3 => entry(OpSel::Fixed(Op::Mov16), Arg::Moffs, Arg::FixReg16(0), Arg::Empty),
        0xA4 => entry(OpSel::Fixed(Op::Movsb), Arg::Empty, Arg::Empty, Arg::Empty),
        0xA5 => entry(OpSel::Fixed(Op::Movsw), Arg::Empty, Arg::Empty, Arg::Empty),
        0xA6 => entry(OpSel::Fixed(Op::Cmpsb), Arg::Empty, Arg::Empty, Arg::Empty),
        0xA7 => entry(OpSel::Fixed(Op::Cmpsw), Arg::Empty, Arg::Empty, Arg::Empty),
        0xA8 => entry(OpSel::Fixed(Op::Test8), Arg::FixReg8(0), Arg::Imm8, Arg::Empty),
        0xA9 => entry(OpSel::Fixed(Op::Test16), Arg::FixReg16(0), Arg::Imm16, Arg::Empty),
        0xAA => entry(OpSel::Fixed(Op::Stosb), Arg::Empty, Arg::Empty, Arg::Empty),
        0xAB => entry(OpSel::Fixed(Op::Stosw), Arg::Empty, Arg::Empty, Arg::Empty),
        0xAC => entry(OpSel::Fixed(Op::Lodsb), Arg::Empty, Arg::Empty, Arg::Empty),
        0xAD => entry(OpSel::Fixed(Op::Lodsw), Arg::Empty, Arg::Empty, Arg::Empty),
        0xAE => entry(OpSel::Fixed(Op::Scasb), Arg::Empty, Arg::Empty, Arg::Empty),
        0xAF => entry(OpSel::Fixed(Op::Scasw), Arg::Empty, Arg::Empty, Arg::Empty),
        0xB0 | 0xB1 | 0xB2 | 0xB3 | 0xB4 | 0xB5 | 0xB6 | 0xB7 => entry(OpSel::Fixed(Op::Mov8), Arg::OpReg8, Arg::Imm8, Arg::Empty),
        0xB8 | 0xB9 | 0xBA | 0xBB | 0xBC | 0xBD | 0xBE | 0xBF => entry(OpSel::Fixed(Op::Mov16), Arg::OpReg16, Arg::Imm16, Arg::Empty),
        0xC0 => entry(OpSel::Shift(false), Arg::Rm8, Arg::Imm8, Arg::Empty),
        0xC1 => entry(OpSel::Shift(true), Arg::Rm16, Arg::Imm8, Arg::Empty),
        0xC2 => entry(OpSel::Fixed(Op::RetImm16), Arg::Imm16, Arg::Empty, Arg::Empty),
        0xC3 => entry(OpSel::Fixed(Op::Retn), Arg::Empty, Arg::Empty, Arg::Empty),
        0xC4 => entry(OpSel::Fixed(Op::Les), Arg::R16, Arg::Rm16, Arg::Empty),
        0xC5 => entry(OpSel::Fixed(Op::Lds), Arg::R16, Arg::Rm16, Arg::Empty),
        0xC6 => entry(OpSel::Only(Op::Mov8), Arg::Rm8, Arg::Imm8, Arg::Empty),
        0xC7 => entry(OpSel::Only(Op::Mov16), Arg::Rm16, Arg::Imm16, Arg::Empty),
        0xC8 => entry(OpSel::Fixed(Op::Enter), Arg::Imm16, Arg::Imm8, Arg::Empty),
        0xC9 => entry(OpSel::Fixed(Op::Leave), Arg::Empty, Arg::Empty, Arg::Empty),
        0xCA => entry(OpSel::Fixed(Op::Retf), Arg::Imm16, Arg::Empty, Arg::Empty),
        0xCB => entry(OpSel::Fixed(Op::Retf), Arg::Empty, Arg::Empty, Arg::Empty),
        0xCC => entry(OpSel::Fixed(Op::Int), Arg::Three, Arg::Empty, Arg::Empty),
        0xCD => entry(OpSel::Fixed(Op::Int), Arg::Imm8, Arg::Empty, Arg::Empty),
        0xCE => entry(OpSel::Fixed(Op::Into), Arg::Empty, Arg::Empty, Arg::Empty),
        0xCF => entry(OpSel::Fixed(Op::Iret), Arg::Empty, Arg::Empty, Arg::Empty),
        0xD0 => entry(OpSel::Shift(false), Arg::Rm8, Arg::One, Arg::Empty),
        0xD1 => entry(OpSel::Shift(true), Arg::Rm16, Arg::One, Arg::Empty),
        0xD2 => entry(OpSel::Shift(false), Arg::Rm8, Arg::FixReg8(1), Arg::Empty),
        0xD3 => entry(OpSel::Shift(true), Arg::Rm16, Arg::FixReg8(1), Arg::Empty),
        0xD4 => entry(OpSel::Fixed(Op::Aam), Arg::Imm8, Arg::Empty, Arg::Empty),
        0xD5 => entry(OpSel::Fixed(Op::Aad), Arg::Imm8, Arg::Empty, Arg::Empty),
        0xD6 => entry(OpSel::Fixed(Op::Salc), Arg::Empty, Arg::Empty, Arg::Empty),
        0xD7 => entry(OpSel::Fixed(Op::Xlatb), Arg::Empty, Arg::Empty, Arg::Empty),
        0xD8 | 0xD9 | 0xDA | 0xDB | 0xDC | 0xDD | 0xDE | 0xDF => entry(OpSel::Fpu, Arg::Rm16, Arg::Empty, Arg::Empty),
        0xE0 => entry(OpSel::Fixed(Op::Loopne), Arg::Rel8, Arg::Empty, Arg::Empty),
        0xE1 => entry(OpSel::Fixed(Op::Loope), Arg::Rel8, Arg::Empty, Arg::Empty),
        0xE2 => entry(OpSel::Fixed(Op::Loop), Arg::Rel8, Arg::Empty, Arg::Empty),
        0xE3 => entry(OpSel::Fixed(Op::Jcxz), Arg::Rel8, Arg::Empty, Arg::Empty),
        0xE4 => entry(OpSel::Fixed(Op::In8), Arg::FixReg8(0), Arg::Imm8, Arg::Empty),
        0xE5 => entry(OpSel::Fixed(Op::In16), Arg::FixReg16(0), Arg::Imm8, Arg::Empty),
        0xE6 => entry(OpSel::Fixed(Op::Out8), Arg::Imm8, Arg::FixReg8(0), Arg::Empty),
        0xE7 => entry(OpSel::Fixed(Op::Out16), Arg::Imm8, Arg::FixReg16(0), Arg::Empty),
        0xE8 => entry(OpSel::Fixed(Op::CallNear), Arg::Rel16, Arg::Empty, Arg::Empty),
        0xE9 => entry(OpSel::Fixed(Op::JmpNear), Arg::Rel16, Arg::Empty, Arg::Empty),
        0xEA => entry(OpSel::Fixed(Op::JmpFar), Arg::Far, Arg::Empty, Arg::Empty),
        0xEB => entry(OpSel::Fixed(Op::JmpShort), Arg::Rel8, Arg::Empty, Arg::Empty),
        0xEC => entry(OpSel::Fixed(Op::In8), Arg::FixReg8(0), Arg::FixReg16(2), Arg::Empty),
        0xED => entry(OpSel::Fixed(Op::In16), Arg::FixReg16(0), Arg::FixReg16(2), Arg::Empty),
        0xEE => entry(OpSel::Fixed(Op::Out8), Arg::FixReg16(2), Arg::FixReg8(0), Arg::Empty),
        0xEF => entry(OpSel::Fixed(Op::Out16), Arg::FixReg16(2), Arg::FixReg16(0), Arg::Empty),
        0xF4 => entry(OpSel::Fixed(Op::Hlt), Arg::Empty, Arg::Empty, Arg::Empty),
        0xF5 => entry(OpSel::Fixed(Op::Cmc), Arg::Empty, Arg::Empty, Arg::Empty),
        0xF6 => entry(OpSel::Unary(false), Arg::Rm8, Arg::Empty, Arg::Empty),
        0xF7 => entry(OpSel::Unary(true), Arg::Rm16, Arg::Empty, Arg::Empty),
        0xF8 => entry(OpSel::Fixed(Op::Clc), Arg::Empty, Arg::Empty, Arg::Empty),
        0xF9 => entry(OpSel::Fixed(Op::Stc), Arg::Empty, Arg::Empty, Arg::Empty),
        0xFA => entry(OpSel::Fixed(Op::Cli), Arg::Empty, Arg::Empty, Arg::Empty),
        0xFB => entry(OpSel::Fixed(Op::Sti), Arg::Empty, Arg::Empty, Arg::Empty),
        0xFC => entry(OpSel::Fixed(Op::Cld), Arg::Empty, Arg::Empty, Arg::Empty),
        0xFD => entry(OpSel::Fixed(Op::Std), Arg::Empty, Arg::Empty, Arg::Empty),
        0xFE => entry(OpSel::IncDec, Arg::Rm8, Arg::Empty, Arg::Empty),
        0xFF => entry(OpSel::Indirect, Arg::Rm16, Arg::Empty, Arg::Empty),
        _ => entry(OpSel::Unknown, Arg::Empty, Arg::Empty, Arg::Empty),
    }
}

pub fn lookup_primary(b: u8) -> (r: Entry)
    ensures
        r == primary(b),
        r.wf(),
{
    match b {
        0x00 => make_entry(OpSel::Fixed(Op::Add8), Arg::Rm8, Arg::R8, Arg::Empty),
        0x01 => make_entry(OpSel::Fixed(Op::Add16), Arg::Rm16, Arg::R16, Arg::Empty),
        0x02 => make_entry(OpSel::Fixed(Op::Add8), Arg::R8, Arg::Rm8, Arg::Empty),
        0x03 => make_entry(OpSel::Fixed(Op::Add16), Arg::R16, Arg::Rm16, Arg::Empty),
        0x04 => make_entry(OpSel::Fixed(Op::Add8), Arg::FixReg8(0), Arg::Imm8, Arg::Empty),
        0x05 => make_entry(OpSel::Fixed(Op::Add16), Arg::FixReg16(0), Arg::Imm16, Arg::Empty),
        0x06 => make_entry(OpSel::Fixed(Op::Push16), Arg::FixSReg(0), Arg::Empty, Arg::Empty),
        0x07 => make_entry(OpSel::Fixed(Op::Pop16), Arg::FixSReg(0), Arg::Empty, Arg::Empty),
        0x08 => make_entry(OpSel::Fixed(Op::Or8), Arg::Rm8, Arg::R8, Arg::Empty),
        0x09 => make_entry(OpSel::Fixed(Op::Or16), Arg::Rm16, Arg::R16, Arg::Empty),
        0x0A => make_entry(OpSel::Fixed(Op::Or8), Arg::R8, Arg::Rm8, Arg::Empty),
        0x0B => make_entry(OpSel::Fixed(Op::Or16), Arg::R16, Arg::Rm16, Arg::Empty),
        0x0C => make_entry(OpSel::Fixed(Op::Or8), Arg::FixReg8(0), Arg::Imm8, Arg::Empty),
        0x0D => make_entry(OpSel::Fixed(Op::Or16), Arg::FixReg16(0), Arg::Imm16, Arg::Empty),
        0x0E => make_entry(OpSel::Fixed(Op::Push16), Arg::FixSReg(1), Arg::Empty, Arg::Empty),
        0x0F => make_entry(OpSel::Escape, Arg::Empty, Arg::Empty, Arg::Empty),
        0x10 => make_entry(OpSel::Fixed(Op::Adc8), Arg::Rm8, Arg::R8, Arg::Empty),
        0x11 => make_entry(OpSel::Fixed(Op::Adc16), Arg::Rm16, Arg::R16, Arg::Empty),
        0x12 => make_entry(OpSel::Fixed(Op::Adc8), Arg::R8, Arg::Rm8, Arg::Empty),
        0x13 => make_entry(OpSel::Fixed(Op::Adc16), Arg::R16, Arg::Rm16, Arg::Empty),
        0x14 => make_entry(OpSel::Fixed(Op::Adc8), Arg::FixReg8(0), Arg::Imm8, Arg::Empty),
        0x15 => make_entry(OpSel::Fixed(Op::Adc16), Arg::FixReg16(0), Arg::Imm16, Arg::Empty),
        0x16 => make_entry(OpSel::Fixed(Op::Push16), Arg::FixSReg(2), Arg::Empty, Arg::Empty),
        0x17 => make_entry(OpSel::Fixed(Op::Pop16), Arg::FixSReg(2), Arg::Empty, Arg::Empty),
        0x18 => make_entry(OpSel::Fixed(Op::Sbb8), Arg::Rm8, Arg::R8, Arg::Empty),
        0x19 => make_entry(OpSel::Fixed(Op::Sbb16), Arg::Rm16, Arg::R16, Arg::Empty),
        0x1A => make_entry(OpSel::Fixed(Op::Sbb8), Arg::R8, Arg::Rm8, Arg::Empty),
        0x1B => make_entry(OpSel::Fixed(Op::Sbb16), Arg::R16, Arg::Rm16, Arg::Empty),
        0x1C => make_entry(OpSel::Fixed(Op::Sbb8), Arg::FixReg8(0), Arg::Imm8, Arg::Empty),
        0x1D => make_entry(OpSel::Fixed(Op::Sbb16), Arg::FixReg16(0), Arg::Imm16, Arg::Empty),
        0x1E => make_entry(OpSel::Fixed(Op::Push16), Arg::FixSReg(3), Arg::Empty, Arg::Empty),
        0x1F => make_entry(OpSel::Fixed(Op::Pop16), Arg::FixSReg(3), Arg::Empty, Arg::Empty),
        0x20 => make_entry(OpSel::Fixed(Op::And8), Arg::Rm8, Arg::R8, Arg::Empty),
        0x21 => make_entry(OpSel::Fixed(Op::And16), Arg::Rm16, Arg::R16, Arg::Empty),
        0x22 => make_entry(OpSel::Fixed(Op::And8), Arg::R8, Arg::Rm8, Arg::Empty),
        0x23 => make_entry(OpSel::Fixed(Op::And16), Arg::R16, Arg::Rm16, Arg::Empty),
        0x24 => make_entry(OpSel::Fixed(Op::And8), Arg::FixReg8(0), Arg::Imm8, Arg::Empty),
        0x25 => make_entry(OpSel::Fixed(Op::And16), Arg::FixReg16(0), Arg::Imm16, Arg::Empty),
        0x27 => make_entry(OpSel::Fixed(Op::Daa), Arg::Empty, Arg::Empty, Arg::Empty),
        0x28 => make_entry(OpSel::Fixed(Op::Sub8), Arg::Rm8, Arg::R8, Arg::Empty),
        0x29 => make_entry(OpSel::Fixed(Op::Sub16), Arg::Rm16, Arg::R16, Arg::Empty),
        0x2A => make_entry(OpSel::Fixed(Op::Sub8), Arg::R8, Arg::Rm8, Arg::Empty),
        0x2B => make_entry(OpSel::Fixed(Op::Sub16), Arg::R16, Arg::Rm16, Arg::Empty),
        0x2C => make_entry(OpSel::Fixed(Op::Sub8), Arg::FixReg8(0), Arg::Imm8, Arg::Empty),
        0x2D => make_entry(OpSel::Fixed(Op::Sub16), Arg::FixReg16(0), Arg::Imm16, Arg::Empty),
        0x2F => make_entry(OpSel::Fixed(Op::Das), Arg::Empty, Arg::Empty, Arg::Empty),
        0x30 => make_entry(OpSel::Fixed(Op::Xor8), Arg::Rm8, Arg::R8, Arg::Empty),
        0x31 => make_entry(OpSel::Fixed(Op::Xor16), Arg::Rm16, Arg::R16, Arg::Empty),
        0x32 => make_entry(OpSel::Fixed(Op::Xor8), Arg::R8, Arg::Rm8, Arg::Empty),
        0x33 => make_entry(OpSel::Fixed(Op::Xor16), Arg::R16, Arg::Rm16, Arg::Empty),
        0x34 => make_entry(OpSel::Fixed(Op::Xor8), Arg::FixReg8(0), Arg::Imm8, Arg::Empty),
        0x35 => make_entry(OpSel::Fixed(Op::Xor16), Arg::FixReg16(0), Arg::Imm16, Arg::Empty),
        0x37 => make_entry(OpSel::Fixed(Op::Aaa), Arg::Empty, Arg::Empty, Arg::Empty),
        0x38 => make_entry(OpSel::Fixed(Op::Cmp8), Arg::Rm8, Arg::R8, Arg::Empty),
        0x39 => make_entry(OpSel::Fixed(Op::Cmp16), Arg::Rm16, Arg::R16, Arg::Empty),
        0x3A => make_entry(OpSel::Fixed(Op::Cmp8), Arg::R8, Arg::Rm8, Arg::Empty),
        0x3B => make_entry(OpSel::Fixed(Op::Cmp16), Arg::R16, Arg::Rm16, Arg::Empty),
        0x3C => make_entry(OpSel::Fixed(Op::Cmp8), Arg::FixReg8(0), Arg::Imm8, Arg::Empty),
        0x3D => make_entry(OpSel::Fixed(Op::Cmp16), Arg::FixReg16(0), Arg::Imm16, Arg::Empty),
        0x3F => make_entry(OpSel::Fixed(Op::Aas), Arg::Empty, Arg::Empty, Arg::Empty),
        0x40 | 0x41 | 0x42 | 0x43 | 0x44 | 0x45 | 0x46 | 0x47 => make_entry(OpSel::Fixed(Op::Inc16), Arg::OpReg16, Arg::Empty, Arg::Empty),
        0x48 | 0x49 | 0x4A | 0x4B | 0x4C | 0x4D | 0x4E | 0x4F => make_entry(OpSel::Fixed(Op::Dec16), Arg::OpReg16, Arg::Empty, Arg::Empty),
        0x50 | 0x51 | 0x52 | 0x53 | 0x54 | 0x55 | 0x56 | 0x57 => make_entry(OpSel::Fixed(Op::Push16), Arg::OpReg16, Arg::Empty, Arg::Empty),
        0x58 | 0x59 | 0x5A | 0x5B | 0x5C | 0x5D | 0x5E | 0x5F => make_entry(OpSel::Fixed(Op::Pop16), Arg::OpReg16, Arg::Empty, Arg::Empty),
        0x60 => make_entry(OpSel::Fixed(Op::Pusha16), Arg::Empty, Arg::Empty, Arg::Empty),
        0x61 => make_entry(OpSel::Fixed(Op::Popa16), Arg::Empty, Arg::Empty, Arg::Empty),
        0x62 => make_entry(OpSel::Fixed(Op::Bound), Arg::R16, Arg::Rm16, Arg::Empty),
        0x63 => make_entry(OpSel::Fixed(Op::Arpl), Arg::Rm16, Arg::R16, Arg::Empty),
        0x68 => make_entry(OpSel::Fixed(Op::Push16), Arg::Imm16, Arg::Empty, Arg::Empty),
        0x69 => make_entry(OpSel::Fixed(Op::Imul16), Arg::R16, Arg::Rm16, Arg::Imm16),
        0x6A => make_entry(OpSel::Fixed(Op::Push16), Arg::Imm8S, Arg::Empty, Arg::Empty),
        0x6B => make_entry(OpSel::Fixed(Op::Imul16), Arg::R16, Arg::Rm16, Arg::Imm8S),
        0x6C => make_entry(OpSel::Fixed(Op::Insb), Arg::Empty, Arg::Empty, Arg::Empty),
        0x6D => make_entry(OpSel::Fixed(Op::Insw), Arg::Empty, Arg::Empty, Arg::Empty),
        0x6E => make_entry(OpSel::Fixed(Op::Outsb), Arg::Empty, Arg::Empty, Arg::Empty),
        0x6F => make_entry(OpSel::Fixed(Op::Outsw), Arg::Empty, Arg::Empty, Arg::Empty),
        0x70 => make_entry(OpSel::Fixed(Op::Jo), Arg::Rel8, Arg::Empty, Arg::Empty),
        0x71 => make_entry(OpSel::Fixed(Op::Jno), Arg::Rel8, Arg::Empty, Arg::Empty),
        0x72 => make_entry(OpSel::Fixed(Op::Jc), Arg::Rel8, Arg::Empty, Arg::Empty),
        0x73 => make_entry(OpSel::Fixed(Op::Jnc), Arg::Rel8, Arg::Empty, Arg::Empty),
        0x74 => make_entry(OpSel::Fixed(Op::Jz), Arg::Rel8, Arg::Empty, Arg::Empty),
        0x75 => make_entry(OpSel::Fixed(Op::Jnz), Arg::Rel8, Arg::Empty, Arg::Empty),
        0x76 => make_entry(OpSel::Fixed(Op::Jna), Arg::Rel8, Arg::Empty, Arg::Empty),
        0x77 => make_entry(OpSel::Fixed(Op::Ja), Arg::Rel8, Arg::Empty, Arg::Empty),
        0x78 => make_entry(OpSel::Fixed(Op::Js), Arg::Rel8, Arg::Empty, Arg::Empty),
        0x79 => make_entry(OpSel::Fixed(Op::Jns), Arg::Rel8, Arg::Empty, Arg::Empty),
        0x7A => make_entry(OpSel::Fixed(Op::Jpe), Arg::Rel8, Arg::Empty, Arg::Empty),
        0x7B => make_entry(OpSel::Fixed(Op::Jpo), Arg::Rel8, Arg::Empty, Arg::Empty),
        0x7C => make_entry(OpSel::Fixed(Op::Jl), Arg::Rel8, Arg::Empty, Arg::Empty),
        0x7D => make_entry(OpSel::Fixed(Op::Jnl), Arg::Rel8, Arg::Empty, Arg::Empty),
        0x7E => make_entry(OpSel::Fixed(Op::Jng), Arg::Rel8, Arg::Empty, Arg::Empty),
        0x7F => make_entry(OpSel::Fixed(Op::Jg), Arg::Rel8, Arg::Empty, Arg::Empty),
        0x80 | 0x82 => make_entry(OpSel::Alu(false), Arg::Rm8, Arg::Imm8, Arg::Empty),
        0x81 => make_entry(OpSel::Alu(true), Arg::Rm16, Arg::Imm16, Arg::Empty),
        0x83 => make_entry(OpSel::Alu(true), Arg::Rm16, Arg::Imm8S, Arg::Empty),
        0x84 => make_entry(OpSel::Fixed(Op::Test8), Arg::Rm8, Arg::R8, Arg::Empty),
        0x85 => make_entry(OpSel::Fixed(Op::Test16), Arg::Rm16, Arg::R16, Arg::Empty),
        0x86 => make_entry(OpSel::Fixed(Op::Xchg8), Arg::Rm8, Arg::R8, Arg::Empty),
        0x87 => make_entry(OpSel::Fixed(Op::Xchg16), Arg::Rm16, Arg::R16, Arg::Empty),
        0x88 => make_entry(OpSel::Fixed(Op::Mov8), Arg::Rm8, Arg::R8, Arg::Empty),
        0x89 => make_entry(OpSel::Fixed(Op::Mov16), Arg::Rm16, Arg::R16, Arg::Empty),
        0x8A => make_entry(OpSel::Fixed(Op::Mov8), Arg::R8, Arg::Rm8, Arg::Empty),
        0x8B => make_entry(OpSel::Fixed(Op::Mov16), Arg::R16, Arg::Rm16, Arg::Empty),
        0x8C => make_entry(OpSel::Fixed(Op::Mov16), Arg::Rm16, Arg::SReg, Arg::Empty),
        0x8D => make_entry(OpSel::Fixed(Op::Lea16), Arg::R16, Arg::Rm16, Arg::Empty),
        0x8E => make_entry(OpSel::Fixed(Op::Mov16), Arg::SReg, Arg::Rm16, Arg::Empty),
        0x8F => make_entry(OpSel::Only(Op::Pop16), Arg::Rm16, Arg::Empty, Arg::Empty),
        0x90 => make_entry(OpSel::Fixed(Op::Nop), Arg::Empty, Arg::Empty, Arg::Empty),
        0x91 | 0x92 | 0x93 | 0x94 | 0x95 | 0x96 | 0x97 => make_entry(OpSel::Fixed(Op::Xchg16), Arg::FixReg16(0), Arg::OpReg16, Arg::Empty),
        0x98 => make_entry(OpSel::Fixed(Op::Cbw), Arg::Empty, Arg::Empty, Arg::Empty),
        0x99 => make_entry(OpSel::Fixed(Op::Cwd16), Arg::Empty, Arg::Empty, Arg::Empty),
        0x9A => make_entry(OpSel::Fixed(Op::CallFar), Arg::Far, Arg::Empty, Arg::Empty),
        0x9C => make_entry(OpSel::Fixed(Op::Pushf), Arg::Empty, Arg::Empty, Arg::Empty),
        0x9D => make_entry(OpSel::Fixed(Op::Popf), Arg::Empty, Arg::Empty, Arg::Empty),
        0x9E => make_entry(OpSel::Fixed(Op::Sahf), Arg::Empty, Arg::Empty, Arg::Empty),
        0x9F => make_entry(OpSel::Fixed(Op::Lahf), Arg::Empty, Arg::Empty, Arg::Empty),
        0xA0 => make_entry(OpSel::Fixed(Op::Mov8), Arg::FixReg8(0), Arg::Moffs, Arg::Empty),
        0xA1 => make_entry(OpSel::Fixed(Op::Mov16), Arg::FixReg16(0), Arg::Moffs, Arg::Empty),
        0xA2 => make_entry(OpSel::Fixed(Op::Mov8), Arg::Moffs, Arg::FixReg8(0), Arg::Empty),
        0xA3 => make_entry(OpSel::Fixed(Op::Mov16), Arg::Moffs, Arg::FixReg16(0), Arg::Empty),
        0xA4 => make_entry(OpSel::Fixed(Op::Movsb), Arg::Empty, Arg::Empty, Arg::Empty),
        0xA5 => make_entry(OpSel::Fixed(Op::Movsw), Arg::Empty, Arg::Empty, Arg::Empty),
        0xA6 => make_entry(OpSel::Fixed(Op::Cmpsb), Arg::Empty, Arg::Empty, Arg::Empty),
        0xA7 => make_entry(OpSel::Fixed(Op::Cmpsw), Arg::Empty, Arg::Empty, Arg::Empty),
        0xA8 => make_entry(OpSel::Fixed(Op::Test8), Arg::FixReg8(0), Arg::Imm8, Arg::Empty),
        0xA9 => make_entry(OpSel::Fixed(Op::Test16), Arg::FixReg16(0), Arg::Imm16, Arg::Empty),
        0xAA => make_entry(OpSel::Fixed(Op::Stosb), Arg::Empty, Arg::Empty, Arg::Empty),
        0xAB => make_entry(OpSel::Fixed(Op::Stosw), Arg::Empty, Arg::Empty, Arg::Empty),
        0xAC => make_entry(OpSel::Fixed(Op::Lodsb), Arg::Empty, Arg::Empty, Arg::Empty),
        0xAD => make_entry(OpSel::Fixed(Op::Lodsw), Arg::Empty, Arg::Empty, Arg::Empty),
        0xAE => make_entry(OpSel::Fixed(Op::Scasb), Arg::Empty, Arg::Empty, Arg::Empty),
        0xAF => make_entry(OpSel::Fixed(Op::Scasw), Arg::Empty, Arg::Empty, Arg::Empty),
        0xB0 | 0xB1 | 0xB2 | 0xB3 | 0xB4 | 0xB5 | 0xB6 | 0xB7 => make_entry(OpSel::Fixed(Op::Mov8), Arg::OpReg8, Arg::Imm8, Arg::Empty),
        0xB8 | 0xB9 | 0xBA | 0xBB | 0xBC | 0xBD | 0xBE | 0xBF => make_entry(OpSel::Fixed(Op::Mov16), Arg::OpReg16, Arg::Imm16, Arg::Empty),
        0xC0 => make_entry(OpSel::Shift(false), Arg::Rm8, Arg::Imm8, Arg::Empty),
        0xC1 => make_entry(OpSel::Shift(true), Arg::Rm16, Arg::Imm8, Arg::Empty),
        0xC2 => make_entry(OpSel::Fixed(Op::RetImm16), Arg::Imm16, Arg::Empty, Arg::Empty),
        0xC3 => make_entry(OpSel::Fixed(Op::Retn), Arg::Empty, Arg::Empty, Arg::Empty),
        0xC4 => make_entry(OpSel::Fixed(Op::Les), Arg::R16, Arg::Rm16, Arg::Empty),
        0xC5 => make_entry(OpSel::Fixed(Op::Lds), Arg::R16, Arg::Rm16, Arg::Empty),
        0xC6 => make_entry(OpSel::Only(Op::Mov8), Arg::Rm8, Arg::Imm8, Arg::Empty),
        0xC7 => make_entry(OpSel::Only(Op::Mov16), Arg::Rm16, Arg::Imm16, Arg::Empty),
        0xC8 => make_entry(OpSel::Fixed(Op::Enter), Arg::Imm16, Arg::Imm8, Arg::Empty),
        0xC9 => make_entry(OpSel::Fixed(Op::Leave), Arg::Empty, Arg::Empty, Arg::Empty),
        0xCA => make_entry(OpSel::Fixed(Op::Retf), Arg::Imm16, Arg::Empty, Arg::Empty),
        0xCB => make_entry(OpSel::Fixed(Op::Retf), Arg::Empty, Arg::Empty, Arg::Empty),
        0xCC => make_entry(OpSel::Fixed(Op::Int), Arg::Three, Arg::Empty, Arg::Empty),
        0xCD => make_entry(OpSel::Fixed(Op::Int), Arg::Imm8, Arg::Empty, Arg::Empty),
        0xCE => make_entry(OpSel::Fixed(Op::Into), Arg::Empty, Arg::Empty, Arg::Empty),
        0xCF => make_entry(OpSel::Fixed(Op::Iret), Arg::Empty, Arg::Empty, Arg::Empty),
        0xD0 => make_entry(OpSel::Shift(false), Arg::Rm8, Arg::One, Arg::Empty),
        0xD1 => make_entry(OpSel::Shift(true), Arg::Rm16, Arg::One, Arg::Empty),
        0xD2 => make_entry(OpSel::Shift(false), Arg::Rm8, Arg::FixReg8(1), Arg::Empty),
        0xD3 => make_entry(OpSel::Shift(true), Arg::Rm16, Arg::FixReg8(1), Arg::Empty),
        0xD4 => make_entry(OpSel::Fixed(Op::Aam), Arg::Imm8, Arg::Empty, Arg::Empty),
        0xD5 => make_entry(OpSel::Fixed(Op::Aad), Arg::Imm8, Arg::Empty, Arg::Empty),
        0xD6 => make_entry(OpSel::Fixed(Op::Salc), Arg::Empty, Arg::Empty, Arg::Empty),
        0xD7 => make_entry(OpSel::Fixed(Op::Xlatb), Arg::Empty, Arg::Empty, Arg::Empty),
        0xD8 | 0xD9 | 0xDA | 0xDB | 0xDC | 0xDD | 0xDE | 0xDF => make_entry(OpSel::Fpu, Arg::Rm16, Arg::Empty, Arg::Empty),
        0xE0 => make_entry(OpSel::Fixed(Op::Loopne), Arg::Rel8, Arg::Empty, Arg::Empty),
        0xE1 => make_entry(OpSel::Fixed(Op::Loope), Arg::Rel8, Arg::Empty, Arg::Empty),
        0xE2 => make_entry(OpSel::Fixed(Op::Loop), Arg::Rel8, Arg::Empty, Arg::Empty),
        0xE3 => make_entry(OpSel::Fixed(Op::Jcxz), Arg::Rel8, Arg::Empty, Arg::Empty),
        0xE4 => make_entry(OpSel::Fixed(Op::In8), Arg::FixReg8(0), Arg::Imm8, Arg::Empty),
        0xE5 => make_entry(OpSel::Fixed(Op::In16), Arg::FixReg16(0), Arg::Imm8, Arg::Empty),
        0xE6 => make_entry(OpSel::Fixed(Op::Out8), Arg::Imm8, Arg::FixReg8(0), Arg::Empty),
        0xE7 => make_entry(OpSel::Fixed(Op::Out16), Arg::Imm8, Arg::FixReg16(0), Arg::Empty),
        0xE8 => make_entry(OpSel::Fixed(Op::CallNear), Arg::Rel16, Arg::Empty, Arg::Empty),
        0xE9 => make_entry(OpSel::Fixed(Op::JmpNear), Arg::Rel16, Arg::Empty, Arg::Empty),
        0xEA => make_entry(OpSel::Fixed(Op::JmpFar), Arg::Far, Arg::Empty, Arg::Empty),
        0xEB => make_entry(OpSel::Fixed(Op::JmpShort), Arg::Rel8, Arg::Empty, Arg::Empty),
        0xEC => make_entry(OpSel::Fixed(Op::In8), Arg::FixReg8(0), Arg::FixReg16(2), Arg::Empty),
        0xED => make_entry(OpSel::Fixed(Op::In16), Arg::FixReg16(0), Arg::FixReg16(2), Arg::Empty),
        0xEE => make_entry(OpSel::Fixed(Op::Out8), Arg::FixReg16(2), Arg::FixReg8(0), Arg::Empty),
        0xEF => make_entry(OpSel::Fixed(Op::Out16), Arg::FixReg16(2), Arg::FixReg16(0), Arg::Empty),
        0xF4 => make_entry(OpSel::Fixed(Op::Hlt), Arg::Empty, Arg::Empty, Arg::Empty),
        0xF5 => make_entry(OpSel::Fixed(Op::Cmc), Arg::Empty, Arg::Empty, Arg::Empty),
        0xF6 => make_entry(OpSel::Unary(false), Arg::Rm8, Arg::Empty, Arg::Empty),
        0xF7 => make_entry(OpSel::Unary(true), Arg::Rm16, Arg::Empty, Arg::Empty),
        0xF8 => make_entry(OpSel::Fixed(Op::Clc), Arg::Empty, Arg::Empty, Arg::Empty),
        0xF9 => make_entry(OpSel::Fixed(Op::Stc), Arg::Empty, Arg::Empty, Arg::Empty),
        0xFA => make_entry(OpSel::Fixed(Op::Cli), Arg::Empty, Arg::Empty, Arg::Empty),
        0xFB => make_entry(OpSel::Fixed(Op::Sti), Arg::Empty, Arg::Empty, Arg::Empty),
        0xFC => make_entry(OpSel::Fixed(Op::Cld), Arg::Empty, Arg::Empty, Arg::Empty),
        0xFD => make_entry(OpSel::Fixed(Op::Std), Arg::Empty, Arg::Empty, Arg::Empty),
        0xFE => make_entry(OpSel::IncDec, Arg::Rm8, Arg::Empty, Arg::Empty),
        0xFF => make_entry(OpSel::Indirect, Arg::Rm16, Arg::Empty, Arg::Empty),
        _ => make_entry(OpSel::Unknown, Arg::Empty, Arg::Empty, Arg::Empty),
    }
}

/// The row of the two-byte opcode map for the byte `b` that follows 0Fh.
pub open spec fn secondary(b: u8) -> Entry {
    match b {
        0x80 => entry(OpSel::Fixed(Op::Jo), Arg::Rel16, Arg::Empty, Arg::Empty),
        0x81 => entry(OpSel::Fixed(Op::Jno), Arg::Rel16, Arg::Empty, Arg::Empty),
        0x82 => entry(OpSel::Fixed(Op::Jc), Arg::Rel16, Arg::Empty, Arg::Empty),
        0x83 => entry(OpSel::Fixed(Op::Jnc), Arg::Rel16, Arg::Empty, Arg::Empty),
        0x84 => entry(OpSel::Fixed(Op::Jz), Arg::Rel16, Arg::Empty, Arg::Empty),
        0x85 => entry(OpSel::Fixed(Op::Jnz), Arg::Rel16, Arg::Empty, Arg::Empty),
        0x86 => entry(OpSel::Fixed(Op::Jna), Arg::Rel16, Arg::Empty, Arg::Empty),
        0x87 => entry(OpSel::Fixed(Op::Ja), Arg::Rel16, Arg::Empty, Arg::Empty),
        0x88 => entry(OpSel::Fixed(Op::Js), Arg::Rel16, Arg::Empty, Arg::Empty),
        0x89 => entry(OpSel::Fixed(Op::Jns), Arg::Rel16, Arg::Empty, Arg::Empty),
        0x8A => entry(OpSel::Fixed(Op::Jpe), Arg::Rel16, Arg::Empty, Arg::Empty),
        0x8B => entry(OpSel::Fixed(Op::Jpo), Arg::Rel16, Arg::Empty, Arg::Empty),
        0x8C => entry(OpSel::Fixed(Op::Jl), Arg::Rel16, Arg::Empty, Arg::Empty),
        0x8D => entry(OpSel::Fixed(Op::Jnl), Arg::Rel16, Arg::Empty, Arg::Empty),
        0x8E => entry(OpSel::Fixed(Op::Jng), Arg::Rel16, Arg::Empty, Arg::Empty),
        0x8F => entry(OpSel::Fixed(Op::Jg), Arg::Rel16, Arg::Empty, Arg::Empty),
        0x92 => entry(OpSel::Fixed(Op::Setc), Arg::Rm8, Arg::Empty, Arg::Empty),
        0x95 => entry(OpSel::Fixed(Op::Setnz), Arg::Rm8, Arg::Empty, Arg::Empty),
        0x9F => entry(OpSel::Fixed(Op::Setg), Arg::Rm8, Arg::Empty, Arg::Empty),
        0xA0 => entry(OpSel::Fixed(Op::Push16), Arg::FixSReg(4), Arg::Empty, Arg::Empty),
        0xA1 => entry(OpSel::Fixed(Op::Pop16), Arg::FixSReg(4), Arg::Empty, Arg::Empty),
        0xA3 => entry(OpSel::Fixed(Op::Bt), Arg::Rm16, Arg::R16, Arg::Empty),
        0xA4 => entry(OpSel::Fixed(Op::Shld), Arg::Rm16, Arg::R16, Arg::Imm8),
        0xA8 => entry(OpSel::Fixed(Op::Push16), Arg::FixSReg(5), Arg::Empty, Arg::Empty),
        0xA9 => entry(OpSel::Fixed(Op::Pop16), Arg::FixSReg(5), Arg::Empty, Arg::Empty),
        0xAB => entry(OpSel::Fixed(Op::Bts), Arg::Rm16, Arg::R16, Arg::Empty),
        0xAC => entry(OpSel::Fixed(Op::Shrd), Arg::Rm16, Arg::R16, Arg::Imm8),
        0xAF => entry(OpSel::Fixed(Op::Imul16), Arg::R16, Arg::Rm16, Arg::Empty),
        0xB6 => entry(OpSel::Fixed(Op::Movzx16), Arg::R16, Arg::Rm8, Arg::Empty),
        0xBC => entry(OpSel::Fixed(Op::Bsf), Arg::R16, Arg::Rm16, Arg::Empty),
        0xBE => entry(OpSel::Fixed(Op::Movsx16), Arg::R16, Arg::Rm8, Arg::Empty),
        _ => entry(OpSel::Unknown, Arg::Empty, Arg::Empty, Arg::Empty),
    }
}

pub fn lookup_secondary(b: u8) -> (r: Entry)
    ensures
        r == secondary(b),
        r.wf(),
{
    match b {
        0x80 => make_entry(OpSel::Fixed(Op::Jo), Arg::Rel16, Arg::Empty, Arg::Empty),
        0x81 => make_entry(OpSel::Fixed(Op::Jno), Arg::Rel16, Arg::Empty, Arg::Empty),
        0x82 => make_entry(OpSel::Fixed(Op::Jc), Arg::Rel16, Arg::Empty, Arg::Empty),
        0x83 => make_entry(OpSel::Fixed(Op::Jnc), Arg::Rel16, Arg::Empty, Arg::Empty),
        0x84 => make_entry(OpSel::Fixed(Op::Jz), Arg::Rel16, Arg::Empty, Arg::Empty),
        0x85 => make_entry(OpSel::Fixed(Op::Jnz), Arg::Rel16, Arg::Empty, Arg::Empty),
        0x86 => make_entry(OpSel::Fixed(Op::Jna), Arg::Rel16, Arg::Empty, Arg::Empty),
        0x87 => make_entry(OpSel::Fixed(Op::Ja), Arg::Rel16, Arg::Empty, Arg::Empty),
        0x88 => make_entry(OpSel::Fixed(Op::Js), Arg::Rel16, Arg::Empty, Arg::Empty),
        0x89 => make_entry(OpSel::Fixed(Op::Jns), Arg::Rel16, Arg::Empty, Arg::Empty),
        0x8A => make_entry(OpSel::Fixed(Op::Jpe), Arg::Rel16, Arg::Empty, Arg::Empty),
        0x8B => make_entry(OpSel::Fixed(Op::Jpo), Arg::Rel16, Arg::Empty, Arg::Empty),
        0x8C => make_entry(OpSel::Fixed(Op::Jl), Arg::Rel16, Arg::Empty, Arg::Empty),
        0x8D => make_entry(OpSel::Fixed(Op::Jnl), Arg::Rel16, Arg::Empty, Arg::Empty),
        0x8E => make_entry(OpSel::Fixed(Op::Jng), Arg::Rel16, Arg::Empty, Arg::Empty),
        0x8F => make_entry(OpSel::Fixed(Op::Jg), Arg::Rel16, Arg::Empty, Arg::Empty),
        0x92 => make_entry(OpSel::Fixed(Op::Setc), Arg::Rm8, Arg::Empty, Arg::Empty),
        0x95 => make_entry(OpSel::Fixed(Op::Setnz), Arg::Rm8, Arg::Empty, Arg::Empty),
        0x9F => make_entry(OpSel::Fixed(Op::Setg), Arg::Rm8, Arg::Empty, Arg::Empty),
        0xA0 => make_entry(OpSel::Fixed(Op::Push16), Arg::FixSReg(4), Arg::Empty, Arg::Empty),
        0xA1 => make_entry(OpSel::Fixed(Op::Pop16), Arg::FixSReg(4), Arg::Empty, Arg::Empty),
        0xA3 => make_entry(OpSel::Fixed(Op::Bt), Arg::Rm16, Arg::R16, Arg::Empty),
        0xA4 => make_entry(OpSel::Fixed(Op::Shld), Arg::Rm16, Arg::R16, Arg::Imm8),
        0xA8 => make_entry(OpSel::Fixed(Op::Push16), Arg::FixSReg(5), Arg::Empty, Arg::Empty),
        0xA9 => make_entry(OpSel::Fixed(Op::Pop16), Arg::FixSReg(5), Arg::Empty, Arg::Empty),
        0xAB => make_entry(OpSel::Fixed(Op::Bts), Arg::Rm16, Arg::R16, Arg::Empty),
        0xAC => make_entry(OpSel::Fixed(Op::Shrd), Arg::Rm16, Arg::R16, Arg::Imm8),
        0xAF => make_entry(OpSel::Fixed(Op::Imul16), Arg::R16, Arg::Rm16, Arg::Empty),
        0xB6 => make_entry(OpSel::Fixed(Op::Movzx16), Arg::R16, Arg::Rm8, Arg::Empty),
        0xBC => make_entry(OpSel::Fixed(Op::Bsf), Arg::R16, Arg::Rm16, Arg::Empty),
        0xBE => make_entry(OpSel::Fixed(Op::Movsx16), Arg::R16, Arg::Rm8, Arg::Empty),
        _ => make_entry(OpSel::Unknown, Arg::Empty, Arg::Empty, Arg::Empty),
    }
}

} // verus!
