//! The encoder: the bytes of an instruction record.
//!
//! The encoder covers the instructions without a relative target. Of the
//! encodings that decode to one record it emits one; decoding what it emits
//! gives the record back.
use vstd::prelude::*;
use crate::instruction::{AMode, Decoded, OperandSize, Parameter, RepeatMode, Segment};
use crate::op::Op;

verus! {

/// Why an instruction cannot be encoded.
#[derive(Clone, Copy, Debug, PartialEq, Eq, Structural)]
pub enum EncodeError {
    /// the instruction, or the form of its operands or prefixes, is not one
    /// that the encoder emits
    Unsupported,
}

/// The immediate operand of an encoding.
#[derive(Clone, Copy, Debug, PartialEq, Eq, Structural)]
pub enum Imm {
    No,
    Byte(u8),
    Word(u16),
}

/// The parts of an encoding after the prefixes: the opcode, the `reg` field
/// and the r/m operand of the ModR/M byte if there is one, and the
/// immediate.
#[derive(Clone, Copy, Debug)]
pub struct Plan {
    /// whether the opcode is the second byte of a two-byte opcode
    pub escape: bool,
    pub opcode: u8,
    pub modrm: Option<(u8, Parameter)>,
    pub imm: Imm,
}

/// A plan with a one-byte opcode.
pub open spec fn plan_with(opcode: u8, modrm: Option<(u8, Parameter)>, imm: Imm) -> Option<Plan> {
    Some(Plan { escape: false, opcode, modrm, imm })
}

pub fn make_plan(opcode: u8, modrm: Option<(u8, Parameter)>, imm: Imm) -> (r: Option<Plan>)
    ensures
        r == plan_with(opcode, modrm, imm),
{
    Some(Plan { escape: false, opcode, modrm, imm })
}

/// A plan with a two-byte opcode: 0Fh, then `opcode`.
pub open spec fn plan_escaped(opcode: u8, modrm: Option<(u8, Parameter)>, imm: Imm) -> Option<
    Plan,
> {
    Some(Plan { escape: true, opcode, modrm, imm })
}

pub fn make_escaped_plan(opcode: u8, modrm: Option<(u8, Parameter)>, imm: Imm) -> (r: Option<Plan>)
    ensures
        r == plan_escaped(opcode, modrm, imm),
{
    Some(Plan { escape: true, opcode, modrm, imm })
}

/// The second byte of the opcode of an instruction with a two-byte opcode
/// that takes a ModR/M byte.
pub open spec fn escaped_opcode(op: Op) -> u8 {
    match op {
        Op::Setc => 0x92,
        Op::Setnz => 0x95,
        Op::Setg => 0x9F,
        Op::Bt => 0xA3,
        Op::Shld => 0xA4,
        Op::Bts => 0xAB,
        Op::Shrd => 0xAC,
        Op::Imul16 => 0xAF,
        Op::Movzx16 => 0xB6,
        Op::Bsf => 0xBC,
        _ => 0xBE,
    }
}

pub fn escaped_opcode_of(op: Op) -> (r: u8)
    ensures
        r == escaped_opcode(op),
{
    match op {
        Op::Setc => 0x92,
        Op::Setnz => 0x95,
        Op::Setg => 0x9F,
        Op::Bt => 0xA3,
        Op::Shld => 0xA4,
        Op::Bts => 0xAB,
        Op::Shrd => 0xAC,
        Op::Imul16 => 0xAF,
        Op::Movzx16 => 0xB6,
        Op::Bsf => 0xBC,
        _ => 0xBE,
    }
}

pub open spec fn rm_field(reg: u8, p: Parameter) -> Option<(u8, Parameter)> {
    Some((reg, p))
}

pub fn make_rm_field(reg: u8, p: Parameter) -> (r: Option<(u8, Parameter)>)
    ensures
        r == rm_field(reg, p),
{
    Some((reg, p))
}

/// 1 for a word operation, 0 for a byte operation.
pub open spec fn wide_bit(wide: bool) -> u8 {
    if wide {
        1
    } else {
        0
    }
}

pub fn wide_bit_of(wide: bool) -> (r: u8)
    ensures
        r == wide_bit(wide),
{
    if wide {
        1
    } else {
        0
    }
}

pub fn is_empty(p: &Parameter) -> (r: bool)
    ensures
        r == (*p is Empty),
{
    match p {
        Parameter::Empty => true,
        _ => false,
    }
}

/// The index of a register operand of the width, if the operand is one.
pub open spec fn reg_of(p: Parameter, wide: bool) -> Option<u8> {
    match p {
        Parameter::Reg8(r) => if !wide && r < 8 {
            Some(r)
        } else {
            None
        },
        Parameter::Reg16(r) => if wide && r < 8 {
            Some(r)
        } else {
            None
        },
        _ => None,
    }
}

pub fn reg_index(p: Parameter, wide: bool) -> (r: Option<u8>)
    ensures
        r == reg_of(p, wide),
{
    match p {
        Parameter::Reg8(r) => if !wide && r < 8 {
            Some(r)
        } else {
            None
        },
        Parameter::Reg16(r) => if wide && r < 8 {
            Some(r)
        } else {
            None
        },
        _ => None,
    }
}

/// Whether a memory operand can stand in a ModR/M byte under the segment
/// prefix `seg`: its segment is that of the prefix, and it is not [BP]
/// without a displacement, which has no encoding of its own.
pub open spec fn mem_ok(p: Parameter, seg: Segment) -> bool {
    match p {
        Parameter::Ptr16(s, _) => s == seg,
        Parameter::Ptr16Amode(s, a) => s == seg && a != AMode::BP,
        Parameter::Ptr16AmodeS8(s, _, _) => s == seg,
        Parameter::Ptr16AmodeS16(s, _, _) => s == seg,
        _ => false,
    }
}

/// Whether an operand can be the r/m operand of the width: a register of
/// the width, or memory.
pub open spec fn rm_ok(p: Parameter, wide: bool, seg: Segment) -> bool {
    reg_of(p, wide) is Some || mem_ok(p, seg)
}

pub fn same_segment(a: Segment, b: Segment) -> (r: bool)
    ensures
        r == (a == b),
{
    match (a, b) {
        (Segment::Default, Segment::Default) => true,
        (Segment::ES, Segment::ES) => true,
        (Segment::CS, Segment::CS) => true,
        (Segment::SS, Segment::SS) => true,
        (Segment::DS, Segment::DS) => true,
        (Segment::FS, Segment::FS) => true,
        (Segment::GS, Segment::GS) => true,
        _ => false,
    }
}

pub fn is_mem_ok(p: Parameter, seg: Segment) -> (r: bool)
    ensures
        r == mem_ok(p, seg),
{
    match p {
        Parameter::Ptr16(s, _) => same_segment(s, seg),
        Parameter::Ptr16Amode(s, a) => same_segment(s, seg) && !a.is_plain_bp(),
        Parameter::Ptr16AmodeS8(s, _, _) => same_segment(s, seg),
        Parameter::Ptr16AmodeS16(s, _, _) => same_segment(s, seg),
        _ => false,
    }
}

pub fn is_rm_ok(p: Parameter, wide: bool, seg: Segment) -> (r: bool)
    ensures
        r == rm_ok(p, wide, seg),
{
    reg_index(p, wide).is_some() || is_mem_ok(p, seg)
}

/// The opcode of an instruction without operands.
pub open spec fn plain_opcode(op: Op) -> Option<u8> {
    match op {
        Op::Nop => Some(0x90u8),
        Op::Clc => Some(0xF8u8),
        Op::Stc => Some(0xF9u8),
        Op::Cmc => Some(0xF5u8),
        Op::Cld => Some(0xFCu8),
        Op::Std => Some(0xFDu8),
        Op::Cli => Some(0xFAu8),
        Op::Sti => Some(0xFBu8),
        Op::Cbw => Some(0x98u8),
        Op::Cwd16 => Some(0x99u8),
        Op::Lahf => Some(0x9Fu8),
        Op::Sahf => Some(0x9Eu8),
        Op::Salc => Some(0xD6u8),
        Op::Pushf => Some(0x9Cu8),
        Op::Popf => Some(0x9Du8),
        Op::Aaa => Some(0x37u8),
        Op::Aas => Some(0x3Fu8),
        Op::Daa => Some(0x27u8),
        Op::Das => Some(0x2Fu8),
        Op::Hlt => Some(0xF4u8),
        Op::Movsb => Some(0xA4u8),
        Op::Movsw => Some(0xA5u8),
        Op::Cmpsb => Some(0xA6u8),
        Op::Cmpsw => Some(0xA7u8),
        Op::Stosb => Some(0xAAu8),
        Op::Stosw => Some(0xABu8),
        Op::Lodsb => Some(0xACu8),
        Op::Lodsw => Some(0xADu8),
        Op::Scasb => Some(0xAEu8),
        Op::Scasw => Some(0xAFu8),
        Op::Pusha16 => Some(0x60u8),
        Op::Popa16 => Some(0x61u8),
        Op::Leave => Some(0xC9u8),
        Op::Retn => Some(0xC3u8),
        Op::Iret => Some(0xCFu8),
        Op::Into => Some(0xCEu8),
        Op::Xlatb => Some(0xD7u8),
        Op::Insb => Some(0x6Cu8),
        Op::Insw => Some(0x6Du8),
        Op::Outsb => Some(0x6Eu8),
        Op::Outsw => Some(0x6Fu8),
        _ => None,
    }
}

pub fn plain_opcode_of(op: Op) -> (r: Option<u8>)
    ensures
        r == plain_opcode(op),
{
    match op {
        Op::Nop => Some(0x90u8),
        Op::Clc => Some(0xF8u8),
        Op::Stc => Some(0xF9u8),
        Op::Cmc => Some(0xF5u8),
        Op::Cld => Some(0xFCu8),
        Op::Std => Some(0xFDu8),
        Op::Cli => Some(0xFAu8),
        Op::Sti => Some(0xFBu8),
        Op::Cbw => Some(0x98u8),
        Op::Cwd16 => Some(0x99u8),
        Op::Lahf => Some(0x9Fu8),
        Op::Sahf => Some(0x9Eu8),
        Op::Salc => Some(0xD6u8),
        Op::Pushf => Some(0x9Cu8),
        Op::Popf => Some(0x9Du8),
        Op::Aaa => Some(0x37u8),
        Op::Aas => Some(0x3Fu8),
        Op::Daa => Some(0x27u8),
        Op::Das => Some(0x2Fu8),
        Op::Hlt => Some(0xF4u8),
        Op::Movsb => Some(0xA4u8),
        Op::Movsw => Some(0xA5u8),
        Op::Cmpsb => Some(0xA6u8),
        Op::Cmpsw => Some(0xA7u8),
        Op::Stosb => Some(0xAAu8),
        Op::Stosw => Some(0xABu8),
        Op::Lodsb => Some(0xACu8),
        Op::Lodsw => Some(0xADu8),
        Op::Scasb => Some(0xAEu8),
        Op::Scasw => Some(0xAFu8),
        Op::Pusha16 => Some(0x60u8),
        Op::Popa16 => Some(0x61u8),
        Op::Leave => Some(0xC9u8),
        Op::Retn => Some(0xC3u8),
        Op::Iret => Some(0xCFu8),
        Op::Into => Some(0xCEu8),
        Op::Xlatb => Some(0xD7u8),
        Op::Insb => Some(0x6Cu8),
        Op::Insw => Some(0x6Du8),
        Op::Outsb => Some(0x6Eu8),
        Op::Outsw => Some(0x6Fu8),
        _ => None,
    }
}

/// The opcode of an instruction whose operand is an 8-bit immediate.
pub open spec fn imm8_opcode(op: Op) -> Option<u8> {
    match op {
        Op::Aam => Some(0xD4u8),
        Op::Aad => Some(0xD5u8),
        Op::Int => Some(0xCDu8),
        _ => None,
    }
}

pub fn imm8_opcode_of(op: Op) -> (r: Option<u8>)
    ensures
        r == imm8_opcode(op),
{
    match op {
        Op::Aam => Some(0xD4u8),
        Op::Aad => Some(0xD5u8),
        Op::Int => Some(0xCDu8),
        _ => None,
    }
}

/// For the two-operand arithmetic kinds: the index of the kind in the
/// opcode map, and whether it works on words.
pub open spec fn alu_index(op: Op) -> Option<(u8, bool)> {
    match op {
        Op::Add8 => Some((0u8, false)),
        Op::Or8 => Some((1u8, false)),
        Op::Adc8 => Some((2u8, false)),
        Op::Sbb8 => Some((3u8, false)),
        Op::And8 => Some((4u8, false)),
        Op::Sub8 => Some((5u8, false)),
        Op::Xor8 => Some((6u8, false)),
        Op::Cmp8 => Some((7u8, false)),
        Op::Add16 => Some((0u8, true)),
        Op::Or16 => Some((1u8, true)),
        Op::Adc16 => Some((2u8, true)),
        Op::Sbb16 => Some((3u8, true)),
        Op::And16 => Some((4u8, true)),
        Op::Sub16 => Some((5u8, true)),
        Op::Xor16 => Some((6u8, true)),
        Op::Cmp16 => Some((7u8, true)),
        _ => None,
    }
}

pub fn alu_index_of(op: Op) -> (r: Option<(u8, bool)>)
    ensures
        r == alu_index(op),
{
    match op {
        Op::Add8 => Some((0u8, false)),
        Op::Or8 => Some((1u8, false)),
        Op::Adc8 => Some((2u8, false)),
        Op::Sbb8 => Some((3u8, false)),
        Op::And8 => Some((4u8, false)),
        Op::Sub8 => Some((5u8, false)),
        Op::Xor8 => Some((6u8, false)),
        Op::Cmp8 => Some((7u8, false)),
        Op::Add16 => Some((0u8, true)),
        Op::Or16 => Some((1u8, true)),
        Op::Adc16 => Some((2u8, true)),
        Op::Sbb16 => Some((3u8, true)),
        Op::And16 => Some((4u8, true)),
        Op::Sub16 => Some((5u8, true)),
        Op::Xor16 => Some((6u8, true)),
        Op::Cmp16 => Some((7u8, true)),
        _ => None,
    }
}

/// For the shifts and rotates: the `reg` field that selects the kind, and
/// whether it works on words.
pub open spec fn shift_index(op: Op) -> Option<(u8, bool)> {
    match op {
        Op::Rol8 => Some((0u8, false)),
        Op::Ror8 => Some((1u8, false)),
        Op::Rcl8 => Some((2u8, false)),
        Op::Rcr8 => Some((3u8, false)),
        Op::Shl8 => Some((4u8, false)),
        Op::Shr8 => Some((5u8, false)),
        Op::Sar8 => Some((7u8, false)),
        Op::Rol16 => Some((0u8, true)),
        Op::Ror16 => Some((1u8, true)),
        Op::Rcl16 => Some((2u8, true)),
        Op::Rcr16 => Some((3u8, true)),
        Op::Shl16 => Some((4u8, true)),
        Op::Shr16 => Some((5u8, true)),
        Op::Sar16 => Some((7u8, true)),
        _ => None,
    }
}

pub fn shift_index_of(op: Op) -> (r: Option<(u8, bool)>)
    ensures
        r == shift_index(op),
{
    match op {
        Op::Rol8 => Some((0u8, false)),
        Op::Ror8 => Some((1u8, false)),
        Op::Rcl8 => Some((2u8, false)),
        Op::Rcr8 => Some((3u8, false)),
        Op::Shl8 => Some((4u8, false)),
        Op::Shr8 => Some((5u8, false)),
        Op::Sar8 => Some((7u8, false)),
        Op::Rol16 => Some((0u8, true)),
        Op::Ror16 => Some((1u8, true)),
        Op::Rcl16 => Some((2u8, true)),
        Op::Rcr16 => Some((3u8, true)),
        Op::Shl16 => Some((4u8, true)),
        Op::Shr16 => Some((5u8, true)),
        Op::Sar16 => Some((7u8, true)),
        _ => None,
    }
}

/// For the one-operand kinds of group F6h/F7h: the `reg` field that selects
/// the kind, and whether it works on words.
pub open spec fn unary_index(op: Op) -> Option<(u8, bool)> {
    match op {
        Op::Not8 => Some((2u8, false)),
        Op::Neg8 => Some((3u8, false)),
        Op::Mul8 => Some((4u8, false)),
        Op::Imul8 => Some((5u8, false)),
        Op::Div8 => Some((6u8, false)),
        Op::Idiv8 => Some((7u8, false)),
        Op::Not16 => Some((2u8, true)),
        Op::Neg16 => Some((3u8, true)),
        Op::Mul16 => Some((4u8, true)),
        Op::Imul16 => Some((5u8, true)),
        Op::Div16 => Some((6u8, true)),
        Op::Idiv16 => Some((7u8, true)),
        _ => None,
    }
}

pub fn unary_index_of(op: Op) -> (r: Option<(u8, bool)>)
    ensures
        r == unary_index(op),
{
    match op {
        Op::Not8 => Some((2u8, false)),
        Op::Neg8 => Some((3u8, false)),
        Op::Mul8 => Some((4u8, false)),
        Op::Imul8 => Some((5u8, false)),
        Op::Div8 => Some((6u8, false)),
        Op::Idiv8 => Some((7u8, false)),
        Op::Not16 => Some((2u8, true)),
        Op::Neg16 => Some((3u8, true)),
        Op::Mul16 => Some((4u8, true)),
        Op::Imul16 => Some((5u8, true)),
        Op::Div16 => Some((6u8, true)),
        Op::Idiv16 => Some((7u8, true)),
        _ => None,
    }
}

/// For the kinds of group FEh/FFh: the `reg` field that selects the kind, and
/// whether it works on words.
pub open spec fn incdec_index(op: Op) -> Option<(u8, bool)> {
    match op {
        Op::Inc8 => Some((0u8, false)),
        Op::Dec8 => Some((1u8, false)),
        Op::Inc16 => Some((0u8, true)),
        Op::Dec16 => Some((1u8, true)),
        Op::CallNear => Some((2u8, true)),
        Op::JmpNear => Some((4u8, true)),
        Op::Push16 => Some((6u8, true)),
        _ => None,
    }
}

pub fn incdec_index_of(op: Op) -> (r: Option<(u8, bool)>)
    ensures
        r == incdec_index(op),
{
    match op {
        Op::Inc8 => Some((0u8, false)),
        Op::Dec8 => Some((1u8, false)),
        Op::Inc16 => Some((0u8, true)),
        Op::Dec16 => Some((1u8, true)),
        Op::CallNear => Some((2u8, true)),
        Op::JmpNear => Some((4u8, true)),
        Op::Push16 => Some((6u8, true)),
        _ => None,
    }
}

/// The encoding of the moves, exchanges, stack and group instructions, and
/// of the instructions with a two-byte opcode.
#[verifier::opaque]
pub open spec fn other_plan(d: Decoded, seg: Segment) -> Option<Plan> {
    let none = Option::<Plan>::None;
    let two = d.src2 is Empty;
    let one = d.src is Empty && two;
    match d.command {
        Op::Test8 | Op::Test16 => {
            let wide = d.command == Op::Test16;
            if !two || !rm_ok(d.dst, wide, seg) {
                none
            } else {
                match d.src {
                    Parameter::Imm8(v) => if !wide {
                        plan_with(0xF6, rm_field(0, d.dst), Imm::Byte(v))
                    } else {
                        none
                    },
                    Parameter::Imm16(v) => if wide {
                        plan_with(0xF7, rm_field(0, d.dst), Imm::Word(v))
                    } else {
                        none
                    },
                    _ => match reg_of(d.src, wide) {
                        Some(r) => plan_with((0x84 + wide_bit(wide)) as u8, rm_field(r, d.dst), Imm::No),
                        None => none,
                    },
                }
            }
        },
        Op::Xchg8 | Op::Xchg16 => {
            let wide = d.command == Op::Xchg16;
            match reg_of(d.src, wide) {
                Some(r) => if two && rm_ok(d.dst, wide, seg) {
                    plan_with((0x86 + wide_bit(wide)) as u8, rm_field(r, d.dst), Imm::No)
                } else {
                    none
                },
                None => none,
            }
        },
        Op::Mov8 | Op::Mov16 => {
            let wide = d.command == Op::Mov16;
            if !two {
                none
            } else {
                match d.src {
                    Parameter::Imm8(v) => if wide {
                        none
                    } else {
                        match d.dst {
                            Parameter::Reg8(r) => if r < 8 {
                                plan_with((0xB0 + r) as u8, Option::<(u8, Parameter)>::None, Imm::Byte(v))
                            } else {
                                none
                            },
                            _ => if mem_ok(d.dst, seg) {
                                plan_with(0xC6, rm_field(0, d.dst), Imm::Byte(v))
                            } else {
                                none
                            },
                        }
                    },
                    Parameter::Imm16(v) => if !wide {
                        none
                    } else {
                        match d.dst {
                            Parameter::Reg16(r) => if r < 8 {
                                plan_with((0xB8 + r) as u8, Option::<(u8, Parameter)>::None, Imm::Word(v))
                            } else {
                                none
                            },
                            _ => if mem_ok(d.dst, seg) {
                                plan_with(0xC7, rm_field(0, d.dst), Imm::Word(v))
                            } else {
                                none
                            },
                        }
                    },
                    Parameter::SReg16(s) => if wide && s < 6 && rm_ok(d.dst, true, seg) {
                        plan_with(0x8C, rm_field(s, d.dst), Imm::No)
                    } else {
                        none
                    },
                    _ => match d.dst {
                        Parameter::SReg16(s) => if wide && s < 6 && rm_ok(d.src, true, seg) {
                            plan_with(0x8E, rm_field(s, d.src), Imm::No)
                        } else {
                            none
                        },
                        _ => match reg_of(d.src, wide) {
                            Some(r) => if rm_ok(d.dst, wide, seg) {
                                plan_with((0x88 + wide_bit(wide)) as u8, rm_field(r, d.dst), Imm::No)
                            } else {
                                none
                            },
                            None => match reg_of(d.dst, wide) {
                                Some(r) => if mem_ok(d.src, seg) {
                                    plan_with((0x8A + wide_bit(wide)) as u8, rm_field(r, d.src), Imm::No)
                                } else {
                                    none
                                },
                                None => none,
                            },
                        },
                    },
                }
            }
        },
        Op::Lea16 => match reg_of(d.dst, true) {
            Some(r) => if two && mem_ok(d.src, seg) {
                plan_with(0x8D, rm_field(r, d.src), Imm::No)
            } else {
                none
            },
            None => none,
        },
        Op::Push16 => if !one {
            none
        } else {
            match d.dst {
                Parameter::Imm16(v) => plan_with(0x68, Option::<(u8, Parameter)>::None, Imm::Word(v)),
                Parameter::SReg16(s) => if s < 4 {
                    plan_with((0x06 + 8 * s) as u8, Option::<(u8, Parameter)>::None, Imm::No)
                } else if s < 6 {
                    plan_escaped((0x80 + 8 * s) as u8, Option::<(u8, Parameter)>::None, Imm::No)
                } else {
                    none
                },
                _ => if rm_ok(d.dst, true, seg) {
                    plan_with(0xFF, rm_field(6, d.dst), Imm::No)
                } else {
                    none
                },
            }
        },
        Op::Pop16 => if !one {
            none
        } else {
            match d.dst {
                Parameter::SReg16(s) => if s == 0 || s == 2 || s == 3 {
                    plan_with((0x07 + 8 * s) as u8, Option::<(u8, Parameter)>::None, Imm::No)
                } else if s == 4 || s == 5 {
                    plan_escaped((0x81 + 8 * s) as u8, Option::<(u8, Parameter)>::None, Imm::No)
                } else {
                    none
                },
                _ => if rm_ok(d.dst, true, seg) {
                    plan_with(0x8F, rm_field(0, d.dst), Imm::No)
                } else {
                    none
                },
            }
        },
        Op::Inc8 | Op::Dec8 | Op::Inc16 | Op::Dec16 | Op::CallNear | Op::JmpNear => match incdec_index(
            d.command,
        ) {
            Some((k, wide)) => if one && rm_ok(d.dst, wide, seg) {
                plan_with((0xFE + wide_bit(wide)) as u8, rm_field(k, d.dst), Imm::No)
            } else {
                none
            },
            None => none,
        },
        Op::Shld | Op::Shrd => match reg_of(d.src, true) {
            Some(r) => match d.src2 {
                Parameter::Imm8(v) => if rm_ok(d.dst, true, seg) {
                    plan_escaped(escaped_opcode(d.command), rm_field(r, d.dst), Imm::Byte(v))
                } else {
                    none
                },
                _ => none,
            },
            None => none,
        },
        Op::Movzx16 | Op::Movsx16 => match reg_of(d.dst, true) {
            Some(r) => if two && rm_ok(d.src, false, seg) {
                plan_escaped(escaped_opcode(d.command), rm_field(r, d.src), Imm::No)
            } else {
                none
            },
            None => none,
        },
        Op::Bt | Op::Bts => match reg_of(d.src, true) {
            Some(r) => if two && rm_ok(d.dst, true, seg) {
                plan_escaped(escaped_opcode(d.command), rm_field(r, d.dst), Imm::No)
            } else {
                none
            },
            None => none,
        },
        Op::Bsf => match reg_of(d.dst, true) {
            Some(r) => if two && rm_ok(d.src, true, seg) {
                plan_escaped(escaped_opcode(d.command), rm_field(r, d.src), Imm::No)
            } else {
                none
            },
            None => none,
        },
        Op::Setc | Op::Setnz | Op::Setg => if one && rm_ok(d.dst, false, seg) {
            plan_escaped(escaped_opcode(d.command), rm_field(0, d.dst), Imm::No)
        } else {
            none
        },
        Op::Imul16 => match reg_of(d.dst, true) {
            Some(r) => if !rm_ok(d.src, true, seg) {
                none
            } else {
                match d.src2 {
                    Parameter::Empty => plan_escaped(escaped_opcode(d.command), rm_field(r, d.src), Imm::No),
                    Parameter::Imm16(v) => plan_with(0x69, rm_field(r, d.src), Imm::Word(v)),
                    _ => none,
                }
            },
            None => none,
        },
        _ => none,
    }
}

pub fn plan_other(d: &Decoded, seg: Segment) -> (r: Option<Plan>)
    ensures
        r == other_plan(*d, seg),
{
    reveal(other_plan);
    let none = Option::<Plan>::None;
    let two = is_empty(&d.src2);
    let one = is_empty(&d.src) && two;
    match d.command {
        Op::Test8 | Op::Test16 => {
            let wide = match d.command {
                Op::Test16 => true,
                _ => false,
            };
            if !two || !is_rm_ok(d.dst, wide, seg) {
                none
            } else {
                match d.src {
                    Parameter::Imm8(v) => if !wide {
                        make_plan(0xF6, make_rm_field(0, d.dst), Imm::Byte(v))
                    } else {
                        none
                    },
                    Parameter::Imm16(v) => if wide {
                        make_plan(0xF7, make_rm_field(0, d.dst), Imm::Word(v))
                    } else {
                        none
                    },
                    _ => match reg_index(d.src, wide) {
                        Some(r) => make_plan((0x84 + wide_bit_of(wide)) as u8, make_rm_field(r, d.dst), Imm::No),
                        None => none,
                    },
                }
            }
        },
        Op::Xchg8 | Op::Xchg16 => {
            let wide = match d.command {
                Op::Xchg16 => true,
                _ => false,
            };
            match reg_index(d.src, wide) {
                Some(r) => if two && is_rm_ok(d.dst, wide, seg) {
                    make_plan((0x86 + wide_bit_of(wide)) as u8, make_rm_field(r, d.dst), Imm::No)
                } else {
                    none
                },
                None => none,
            }
        },
        Op::Mov8 | Op::Mov16 => {
            let wide = match d.command {
                Op::Mov16 => true,
                _ => false,
            };
            if !two {
                none
            } else {
                match d.src {
                    Parameter::Imm8(v) => if wide {
                        none
                    } else {
                        match d.dst {
                            Parameter::Reg8(r) => if r < 8 {
                                make_plan((0xB0 + r) as u8, Option::<(u8, Parameter)>::None, Imm::Byte(v))
                            } else {
                                none
                            },
                            _ => if is_mem_ok(d.dst, seg) {
                                make_plan(0xC6, make_rm_field(0, d.dst), Imm::Byte(v))
                            } else {
                                none
                            },
                        }
                    },
                    Parameter::Imm16(v) => if !wide {
                        none
                    } else {
                        match d.dst {
                            Parameter::Reg16(r) => if r < 8 {
                                make_plan((0xB8 + r) as u8, Option::<(u8, Parameter)>::None, Imm::Word(v))
                            } else {
                                none
                            },
                            _ => if is_mem_ok(d.dst, seg) {
                                make_plan(0xC7, make_rm_field(0, d.dst), Imm::Word(v))
                            } else {
                                none
                            },
                        }
                    },
                    Parameter::SReg16(s) => if wide && s < 6 && is_rm_ok(d.dst, true, seg) {
                        make_plan(0x8C, make_rm_field(s, d.dst), Imm::No)
                    } else {
                        none
                    },
                    _ => match d.dst {
                        Parameter::SReg16(s) => if wide && s < 6 && is_rm_ok(d.src, true, seg) {
                            make_plan(0x8E, make_rm_field(s, d.src), Imm::No)
                        } else {
                            none
                        },
                        _ => match reg_index(d.src, wide) {
                            Some(r) => if is_rm_ok(d.dst, wide, seg) {
                                make_plan((0x88 + wide_bit_of(wide)) as u8, make_rm_field(r, d.dst), Imm::No)
                            } else {
                                none
                            },
                            None => match reg_index(d.dst, wide) {
                                Some(r) => if is_mem_ok(d.src, seg) {
                                    make_plan((0x8A + wide_bit_of(wide)) as u8, make_rm_field(r, d.src), Imm::No)
                                } else {
                                    none
                                },
                                None => none,
                            },
                        },
                    },
                }
            }
        },
        Op::Lea16 => match reg_index(d.dst, true) {
            Some(r) => if two && is_mem_ok(d.src, seg) {
                make_plan(0x8D, make_rm_field(r, d.src), Imm::No)
            } else {
                none
            },
            None => none,
        },
        Op::Push16 => if !one {
            none
        } else {
            match d.dst {
                Parameter::Imm16(v) => make_plan(0x68, Option::<(u8, Parameter)>::None, Imm::Word(v)),
                Parameter::SReg16(s) => if s < 4 {
                    make_plan((0x06 + 8 * s) as u8, Option::<(u8, Parameter)>::None, Imm::No)
                } else if s < 6 {
                    make_escaped_plan((0x80 + 8 * s) as u8, Option::<(u8, Parameter)>::None, Imm::No)
                } else {
                    none
                },
                _ => if is_rm_ok(d.dst, true, seg) {
                    make_plan(0xFF, make_rm_field(6, d.dst), Imm::No)
                } else {
                    none
                },
            }
        },
        Op::Pop16 => if !one {
            none
        } else {
            match d.dst {
                Parameter::SReg16(s) => if s == 0 || s == 2 || s == 3 {
                    make_plan((0x07 + 8 * s) as u8, Option::<(u8, Parameter)>::None, Imm::No)
                } else if s == 4 || s == 5 {
                    make_escaped_plan((0x81 + 8 * s) as u8, Option::<(u8, Parameter)>::None, Imm::No)
                } else {
                    none
                },
                _ => if is_rm_ok(d.dst, true, seg) {
                    make_plan(0x8F, make_rm_field(0, d.dst), Imm::No)
                } else {
                    none
                },
            }
        },
        Op::Inc8 | Op::Dec8 | Op::Inc16 | Op::Dec16 | Op::CallNear | Op::JmpNear => match incdec_index_of(
            d.command,
        ) {
            Some((k, wide)) => if one && is_rm_ok(d.dst, wide, seg) {
                make_plan((0xFE + wide_bit_of(wide)) as u8, make_rm_field(k, d.dst), Imm::No)
            } else {
                none
            },
            None => none,
        },
        Op::Shld | Op::Shrd => match reg_index(d.src, true) {
            Some(r) => match d.src2 {
                Parameter::Imm8(v) => if is_rm_ok(d.dst, true, seg) {
                    make_escaped_plan(escaped_opcode_of(d.command), make_rm_field(r, d.dst), Imm::Byte(v))
                } else {
                    none
                },
                _ => none,
            },
            None => none,
        },
        Op::Movzx16 | Op::Movsx16 => match reg_index(d.dst, true) {
            Some(r) => if two && is_rm_ok(d.src, false, seg) {
                make_escaped_plan(escaped_opcode_of(d.command), make_rm_field(r, d.src), Imm::No)
            } else {
                none
            },
            None => none,
        },
        Op::Bt | Op::Bts => match reg_index(d.src, true) {
            Some(r) => if two && is_rm_ok(d.dst, true, seg) {
                make_escaped_plan(escaped_opcode_of(d.command), make_rm_field(r, d.dst), Imm::No)
            } else {
                none
            },
            None => none,
        },
        Op::Bsf => match reg_index(d.dst, true) {
            Some(r) => if two && is_rm_ok(d.src, true, seg) {
                make_escaped_plan(escaped_opcode_of(d.command), make_rm_field(r, d.src), Imm::No)
            } else {
                none
            },
            None => none,
        },
        Op::Setc | Op::Setnz | Op::Setg => if one && is_rm_ok(d.dst, false, seg) {
            make_escaped_plan(escaped_opcode_of(d.command), make_rm_field(0, d.dst), Imm::No)
        } else {
            none
        },
        Op::Imul16 => match reg_index(d.dst, true) {
            Some(r) => if !is_rm_ok(d.src, true, seg) {
                none
            } else {
                match d.src2 {
                    Parameter::Empty => make_escaped_plan(escaped_opcode_of(d.command), make_rm_field(r, d.src), Imm::No),
                    Parameter::Imm16(v) => make_plan(0x69, make_rm_field(r, d.src), Imm::Word(v)),
                    _ => none,
                }
            },
            None => none,
        },
        _ => none,
    }
}

/// The encoding that the encoder chooses for an instruction under the
/// segment prefix `seg`; none for an instruction outside its reach.
pub open spec fn plan(d: Decoded, seg: Segment) -> Option<Plan> {
    let none = Option::<Plan>::None;
    let two = d.src2 is Empty;
    let one = d.src is Empty && two;
    match plain_opcode(d.command) {
        Some(b) => if d.dst is Empty && one {
            plan_with(b, Option::<(u8, Parameter)>::None, Imm::No)
        } else {
            none
        },
        None => match imm8_opcode(d.command) {
            Some(b) => match d.dst {
                Parameter::Imm8(v) => if one {
                    plan_with(b, Option::<(u8, Parameter)>::None, Imm::Byte(v))
                } else {
                    none
                },
                _ => none,
            },
            None => match alu_index(d.command) {
                Some((k, wide)) => if !two {
                    none
                } else {
                    match d.src {
                        Parameter::Imm8(v) => if !wide && rm_ok(d.dst, wide, seg) {
                            plan_with(0x80, rm_field(k, d.dst), Imm::Byte(v))
                        } else {
                            none
                        },
                        Parameter::Imm16(v) => if wide && rm_ok(d.dst, wide, seg) {
                            plan_with(0x81, rm_field(k, d.dst), Imm::Word(v))
                        } else {
                            none
                        },
                        _ => match reg_of(d.src, wide) {
                            Some(r) => if rm_ok(d.dst, wide, seg) {
                                plan_with((8 * k + wide_bit(wide)) as u8, rm_field(r, d.dst), Imm::No)
                            } else {
                                none
                            },
                            None => match reg_of(d.dst, wide) {
                                Some(r) => if mem_ok(d.src, seg) {
                                    plan_with((8 * k + 2 + wide_bit(wide)) as u8, rm_field(r, d.src), Imm::No)
                                } else {
                                    none
                                },
                                None => none,
                            },
                        },
                    }
                },
                None => match unary_index(d.command) {
                    Some((k, wide)) => if one && rm_ok(d.dst, wide, seg) {
                        plan_with((0xF6 + wide_bit(wide)) as u8, rm_field(k, d.dst), Imm::No)
                    } else {
                        other_plan(d, seg)
                    },
                    None => match shift_index(d.command) {
                        Some((k, wide)) => if !two || !rm_ok(d.dst, wide, seg) {
                            none
                        } else {
                            match d.src {
                                Parameter::Imm8(v) => plan_with(
                                    (0xC0 + wide_bit(wide)) as u8,
                                    rm_field(k, d.dst),
                                    Imm::Byte(v),
                                ),
                                Parameter::Reg8(r) => if r == 1 {
                                    plan_with((0xD2 + wide_bit(wide)) as u8, rm_field(k, d.dst), Imm::No)
                                } else {
                                    none
                                },
                                _ => none,
                            }
                        },
                        None => other_plan(d, seg),
                    },
                },
            },
        },
    }
}

pub fn plan_for(d: &Decoded, seg: Segment) -> (r: Option<Plan>)
    ensures
        r == plan(*d, seg),
{
    reveal(plan);
    let none = Option::<Plan>::None;
    let two = is_empty(&d.src2);
    let one = is_empty(&d.src) && two;
    match plain_opcode_of(d.command) {
        Some(b) => if is_empty(&d.dst) && one {
            make_plan(b, Option::<(u8, Parameter)>::None, Imm::No)
        } else {
            none
        },
        None => match imm8_opcode_of(d.command) {
            Some(b) => match d.dst {
                Parameter::Imm8(v) => if one {
                    make_plan(b, Option::<(u8, Parameter)>::None, Imm::Byte(v))
                } else {
                    none
                },
                _ => none,
            },
            None => match alu_index_of(d.command) {
                Some((k, wide)) => if !two {
                    none
                } else {
                    match d.src {
                        Parameter::Imm8(v) => if !wide && is_rm_ok(d.dst, wide, seg) {
                            make_plan(0x80, make_rm_field(k, d.dst), Imm::Byte(v))
                        } else {
                            none
                        },
                        Parameter::Imm16(v) => if wide && is_rm_ok(d.dst, wide, seg) {
                            make_plan(0x81, make_rm_field(k, d.dst), Imm::Word(v))
                        } else {
                            none
                        },
                        _ => match reg_index(d.src, wide) {
                            Some(r) => if is_rm_ok(d.dst, wide, seg) {
                                make_plan((8 * k + wide_bit_of(wide)) as u8, make_rm_field(r, d.dst), Imm::No)
                            } else {
                                none
                            },
                            None => match reg_index(d.dst, wide) {
                                Some(r) => if is_mem_ok(d.src, seg) {
                                    make_plan((8 * k + 2 + wide_bit_of(wide)) as u8, make_rm_field(r, d.src), Imm::No)
                                } else {
                                    none
                                },
                                None => none,
                            },
                        },
                    }
                },
                None => match unary_index_of(d.command) {
                    Some((k, wide)) => if one && is_rm_ok(d.dst, wide, seg) {
                        make_plan((0xF6 + wide_bit_of(wide)) as u8, make_rm_field(k, d.dst), Imm::No)
                    } else {
                        plan_other(d, seg)
                    },
                    None => match shift_index_of(d.command) {
                        Some((k, wide)) => if !two || !is_rm_ok(d.dst, wide, seg) {
                            none
                        } else {
                            match d.src {
                                Parameter::Imm8(v) => make_plan(
                                    (0xC0 + wide_bit_of(wide)) as u8,
                                    make_rm_field(k, d.dst),
                                    Imm::Byte(v),
                                ),
                                Parameter::Reg8(r) => if r == 1 {
                                    make_plan((0xD2 + wide_bit_of(wide)) as u8, make_rm_field(k, d.dst), Imm::No)
                                } else {
                                    none
                                },
                                _ => none,
                            }
                        },
                        None => plan_other(d, seg),
                    },
                },
            },
        },
    }
}

/// The segment override prefix for a segment; none for the default.
pub open spec fn segment_bytes(seg: Segment) -> Seq<u8> {
    match seg {
        Segment::Default => Seq::empty(),
        Segment::ES => seq![0x26u8],
        Segment::CS => seq![0x2Eu8],
        Segment::SS => seq![0x36u8],
        Segment::DS => seq![0x3Eu8],
        Segment::FS => seq![0x64u8],
        Segment::GS => seq![0x65u8],
    }
}

/// The repeat prefix: F3h for REP and REPE, F2h for REPNE.
pub open spec fn repeat_bytes(r: RepeatMode) -> Seq<u8> {
    match r {
        RepeatMode::NoRepeat => Seq::empty(),
        RepeatMode::Rep => seq![0xF3u8],
        RepeatMode::Repe => seq![0xF3u8],
        RepeatMode::Repne => seq![0xF2u8],
    }
}

/// The LOCK prefix.
pub open spec fn lock_bytes(lock: bool) -> Seq<u8> {
    if lock {
        seq![0xF0u8]
    } else {
        Seq::empty()
    }
}

/// The prefixes of an instruction: LOCK, repeat, segment override.
pub open spec fn prefix_bytes(d: Decoded) -> Seq<u8> {
    lock_bytes(d.lock) + repeat_bytes(d.repeat) + segment_bytes(d.segment_prefix)
}

/// The string instructions that compare.
pub open spec fn string_compare(op: Op) -> bool {
    op == Op::Cmpsb || op == Op::Cmpsw || op == Op::Scasb || op == Op::Scasw
}

/// Whether the prefixes of an instruction can be encoded: 16-bit operand
/// and address size, REPE only on the comparing string instructions, and
/// REP only on the others.
pub open spec fn prefix_ok(d: Decoded) -> bool {
    &&& d.op_size == OperandSize::Bits16
    &&& d.address_size == OperandSize::Bits16
    &&& (d.repeat == RepeatMode::Rep ==> !string_compare(d.command))
    &&& (d.repeat == RepeatMode::Repe ==> string_compare(d.command))
}

/// The byte that holds a signed 8-bit number.
pub open spec fn unsigned8(v: i8) -> u8 {
    if v >= 0 {
        v as u8
    } else {
        (v + 256) as u8
    }
}

/// The word that holds a signed 16-bit number.
pub open spec fn unsigned16(v: i16) -> u16 {
    if v >= 0 {
        v as u16
    } else {
        (v + 0x1_0000) as u16
    }
}

/// A word as two bytes, low byte first.
pub open spec fn word_bytes(v: u16) -> Seq<u8> {
    seq![(v % 256) as u8, (v / 256) as u8]
}

/// The ModR/M byte with the field `reg` and the operand `p`, and the
/// displacement that follows it.
pub open spec fn modrm_bytes(reg: u8, p: Parameter) -> Seq<u8> {
    match p {
        Parameter::Reg8(i) => seq![(0xC0 + reg * 8 + i) as u8],
        Parameter::Reg16(i) => seq![(0xC0 + reg * 8 + i) as u8],
        Parameter::Ptr16(_, off) => seq![(reg * 8 + 6) as u8] + word_bytes(off),
        Parameter::Ptr16Amode(_, a) => seq![(reg * 8 + a.rm()) as u8],
        Parameter::Ptr16AmodeS8(_, a, d) => seq![(0x40 + reg * 8 + a.rm()) as u8, unsigned8(d)],
        Parameter::Ptr16AmodeS16(_, a, d) => seq![(0x80 + reg * 8 + a.rm()) as u8] + word_bytes(
            unsigned16(d),
        ),
        _ => Seq::empty(),
    }
}

pub open spec fn imm_bytes(imm: Imm) -> Seq<u8> {
    match imm {
        Imm::No => Seq::empty(),
        Imm::Byte(v) => seq![v],
        Imm::Word(v) => word_bytes(v),
    }
}

/// The opcode of a plan: one byte, or 0Fh and a second byte.
pub open spec fn opcode_bytes(p: Plan) -> Seq<u8> {
    if p.escape {
        seq![0x0Fu8, p.opcode]
    } else {
        seq![p.opcode]
    }
}

/// The bytes of an encoding after the prefixes.
pub open spec fn plan_bytes(p: Plan) -> Seq<u8> {
    opcode_bytes(p) + match p.modrm {
        Some(m) => modrm_bytes(m.0, m.1),
        None => Seq::empty(),
    } + imm_bytes(p.imm)
}

/// The bytes that the encoder emits for an instruction; none for an
/// instruction outside its reach.
pub open spec fn spec_encode(d: Decoded) -> Option<Seq<u8>> {
    if prefix_ok(d) {
        match plan(d, d.segment_prefix) {
            Some(p) => if plan_valid(p) {
                Some(prefix_bytes(d) + plan_bytes(p))
            } else {
                None
            },
            None => None,
        }
    } else {
        None
    }
}

/// The `reg` field of a plan is a 3-bit value.
pub open spec fn plan_valid(p: Plan) -> bool {
    match p.modrm {
        Some(m) => m.0 < 8,
        None => true,
    }
}

/// The bytes of a sequence of instructions, one after the other; none if
/// one of the first `k` instructions cannot be encoded.
pub open spec fn encode_all(ops: Seq<Decoded>, k: nat) -> Option<Seq<u8>>
    decreases k,
{
    if k == 0 {
        Some(Seq::empty())
    } else {
        match (encode_all(ops, (k - 1) as nat), spec_encode(ops[k - 1])) {
            (Some(a), Some(b)) => Some(a + b),
            _ => None,
        }
    }
}

fn push_word(out: &mut Vec<u8>, v: u16)
    ensures
        final(out)@ == old(out)@ + word_bytes(v),
{
    out.push((v % 256) as u8);
    out.push((v / 256) as u8);
    assert(out@ =~= old(out)@ + word_bytes(v));
}

fn push_modrm(out: &mut Vec<u8>, reg: u8, p: Parameter)
    requires
        reg < 8,
        p.wf(),
    ensures
        final(out)@ == old(out)@ + modrm_bytes(reg, p),
{
    match p {
        Parameter::Reg8(i) => {
            out.push(0xC0 + reg * 8 + i);
        },
        Parameter::Reg16(i) => {
            out.push(0xC0 + reg * 8 + i);
        },
        Parameter::Ptr16(_, off) => {
            out.push(reg * 8 + 6);
            push_word(out, off);
        },
        Parameter::Ptr16Amode(_, a) => {
            out.push(reg * 8 + a.index());
        },
        Parameter::Ptr16AmodeS8(_, a, d) => {
            out.push(0x40 + reg * 8 + a.index());
            out.push(
                if d >= 0 {
                    d as u8
                } else {
                    (d as i16 + 256) as u8
                },
            );
        },
        Parameter::Ptr16AmodeS16(_, a, d) => {
            out.push(0x80 + reg * 8 + a.index());
            push_word(
                out,
                if d >= 0 {
                    d as u16
                } else {
                    (d as i32 + 0x1_0000) as u16
                },
            );
        },
        _ => {},
    }
    assert(out@ =~= old(out)@ + modrm_bytes(reg, p));
}

fn push_prefixes(out: &mut Vec<u8>, d: &Decoded)
    ensures
        final(out)@ == old(out)@ + prefix_bytes(*d),
{
    if d.lock {
        out.push(0xF0);
    }
    match d.repeat {
        RepeatMode::NoRepeat => {},
        RepeatMode::Rep => {
            out.push(0xF3);
        },
        RepeatMode::Repe => {
            out.push(0xF3);
        },
        RepeatMode::Repne => {
            out.push(0xF2);
        },
    }
    match d.segment_prefix {
        Segment::Default => {},
        Segment::ES => {
            out.push(0x26);
        },
        Segment::CS => {
            out.push(0x2E);
        },
        Segment::SS => {
            out.push(0x36);
        },
        Segment::DS => {
            out.push(0x3E);
        },
        Segment::FS => {
            out.push(0x64);
        },
        Segment::GS => {
            out.push(0x65);
        },
    }
    assert(out@ =~= old(out)@ + prefix_bytes(*d));
}

fn push_opcode(out: &mut Vec<u8>, p: &Plan)
    ensures
        final(out)@ == old(out)@ + opcode_bytes(*p),
{
    if p.escape {
        out.push(0x0F);
    }
    out.push(p.opcode);
    assert(out@ =~= old(out)@ + opcode_bytes(*p));
}

fn push_imm(out: &mut Vec<u8>, imm: Imm)
    ensures
        final(out)@ == old(out)@ + imm_bytes(imm),
{
    match imm {
        Imm::No => {},
        Imm::Byte(v) => {
            out.push(v);
        },
        Imm::Word(v) => {
            push_word(out, v);
        },
    }
    assert(out@ =~= old(out)@ + imm_bytes(imm));
}

fn push_plan(out: &mut Vec<u8>, p: &Plan)
    requires
        match p.modrm {
            Some(m) => m.0 < 8 && m.1.wf(),
            None => true,
        },
    ensures
        final(out)@ == old(out)@ + plan_bytes(*p),
{
    push_opcode(out, p);
    match p.modrm {
        Some(m) => {
            push_modrm(out, m.0, m.1);
        },
        None => {},
    }
    let ghost middle = out@;
    push_imm(out, p.imm);
    assert(out@ =~= old(out)@ + plan_bytes(*p));
}

fn prefixes_ok(d: &Decoded) -> (r: bool)
    ensures
        r == prefix_ok(*d),
{
    let narrow = match d.op_size {
        OperandSize::Bits16 => true,
        OperandSize::Bits32 => false,
    };
    let near = match d.address_size {
        OperandSize::Bits16 => true,
        OperandSize::Bits32 => false,
    };
    let compare = match d.command {
        Op::Cmpsb | Op::Cmpsw | Op::Scasb | Op::Scasw => true,
        _ => false,
    };
    let repeat = match d.repeat {
        RepeatMode::Rep => !compare,
        RepeatMode::Repe => compare,
        _ => true,
    };
    narrow && near && repeat
}

/// The encoder.
pub struct Encoder {}

impl Encoder {
    pub fn new() -> Encoder {
        Encoder {  }
    }

    /// Appends the bytes of one instruction to `out`; an instruction that
    /// cannot be encoded leaves `out` as it is.
    pub fn encode_into(&self, out: &mut Vec<u8>, d: &Decoded) -> (r: Result<(), EncodeError>)
        requires
            d.wf(),
        ensures
            match spec_encode(*d) {
                Some(b) => r is Ok && final(out)@ == old(out)@ + b,
                None => r is Err && final(out)@ == old(out)@,
            },
    {
        if !prefixes_ok(d) {
            return Err(EncodeError::Unsupported);
        }
        let p = match plan_for(d, d.segment_prefix) {
            Some(p) => p,
            None => {
                return Err(EncodeError::Unsupported);
            },
        };
        let valid = match p.modrm {
            Some(m) => m.0 < 8 && rm_is_wf(&m.1),
            None => true,
        };
        if !valid {
            proof {
                lemma_plan_operand(*d, d.segment_prefix);
            }
            return Err(EncodeError::Unsupported);
        }
        push_prefixes(out, d);
        push_plan(out, &p);
        assert(out@ =~= old(out)@ + (prefix_bytes(*d) + plan_bytes(p)));
        Ok(())
    }

    /// The bytes of one instruction.
    pub fn encode(&self, d: &Decoded) -> (r: Result<Vec<u8>, EncodeError>)
        requires
            d.wf(),
        ensures
            match spec_encode(*d) {
                Some(b) => r is Ok && r->Ok_0@ == b,
                None => r is Err,
            },
    {
        let mut out: Vec<u8> = Vec::new();
        match self.encode_into(&mut out, d) {
            Ok(()) => {
                assert(out@ =~= spec_encode(*d)->0);
                Ok(out)
            },
            Err(e) => Err(e),
        }
    }

    /// The bytes of a sequence of instructions, one after the other.
    pub fn encode_vec(&self, ops: &Vec<Decoded>) -> (r: Result<Vec<u8>, EncodeError>)
        requires
            forall|i: int| 0 <= i < ops@.len() ==> (#[trigger] ops@[i]).wf(),
        ensures
            match encode_all(ops@, ops@.len()) {
                Some(b) => r is Ok && r->Ok_0@ == b,
                None => r is Err,
            },
    {
        let mut out: Vec<u8> = Vec::new();
        let mut i: usize = 0;
        assert(out@ =~= Seq::<u8>::empty());
        while i < ops.len()
            invariant
                i <= ops@.len(),
                forall|k: int| 0 <= k < ops@.len() ==> (#[trigger] ops@[k]).wf(),
                encode_all(ops@, i as nat) == Some(out@),
            decreases ops@.len() - i,
        {
            match self.encode_into(&mut out, &ops[i]) {
                Ok(()) => {},
                Err(e) => {
                    proof {
                        lemma_encode_all_fails(ops@, (i + 1) as nat, ops@.len());
                    }
                    return Err(e);
                },
            }
            i += 1;
        }
        Ok(out)
    }
}

fn rm_is_wf(p: &Parameter) -> (r: bool)
    ensures
        r == p.wf(),
{
    match *p {
        Parameter::Reg8(i) => i < 8,
        Parameter::Reg16(i) => i < 8,
        Parameter::SReg16(i) => i < 6,
        _ => true,
    }
}

/// The `reg` field of every plan is a 3-bit value, and its r/m operand
/// names a register that exists.
pub proof fn lemma_plan_operand(d: Decoded, seg: Segment)
    ensures
        match plan(d, seg) {
            Some(p) => match p.modrm {
                Some(m) => m.0 < 8 && m.1.wf(),
                None => true,
            },
            None => true,
        },
{
    reveal(plan);
    reveal(other_plan);
}

/// Once an instruction cannot be encoded, no longer sequence can.
pub proof fn lemma_encode_all_fails(ops: Seq<Decoded>, k: nat, n: nat)
    requires
        encode_all(ops, k) is None,
        k <= n,
    ensures
        encode_all(ops, n) is None,
    decreases n - k,
{
    if k < n {
        lemma_encode_all_fails(ops, k + 1, n);
    }
}

} // verus!
