//! Disassembly: instructions as text.
use vstd::prelude::*;
use vstd::string::*;
use crate::cpu::CPU;
use crate::decoder::{decode, spec_decode};
use crate::hex::{hex, hex_bytes, hex_join, hex_padded, hex_text, hex_width};
use crate::instruction::{Decoded, Parameter, Segment};
use crate::op::Op;

verus! {

/// The name of a segment register.
pub open spec fn sreg_name(reg: u8) -> Seq<char> {
    match reg {
        0 => "es"@,
        1 => "cs"@,
        2 => "ss"@,
        3 => "ds"@,
        4 => "fs"@,
        5 => "gs"@,
        _ => "?"@,
    }
}

pub fn sreg(reg: u8) -> (r: &'static str)
    ensures
        r@ == sreg_name(reg),
{
    match reg {
        0 => "es",
        1 => "cs",
        2 => "ss",
        3 => "ds",
        4 => "fs",
        5 => "gs",
        _ => "?",
    }
}

/// The registers of a 16-bit addressing mode.
pub open spec fn amode_name(reg: u8) -> Seq<char> {
    match reg {
        0 => "bx+si"@,
        1 => "bx+di"@,
        2 => "bp+si"@,
        3 => "bp+di"@,
        4 => "si"@,
        5 => "di"@,
        6 => "bp"@,
        7 => "bx"@,
        _ => "?"@,
    }
}

pub fn amode(reg: u8) -> (r: &'static str)
    ensures
        r@ == amode_name(reg),
{
    match reg {
        0 => "bx+si",
        1 => "bx+di",
        2 => "bp+si",
        3 => "bp+di",
        4 => "si",
        5 => "di",
        6 => "bp",
        7 => "bx",
        _ => "?",
    }
}

/// The name of a byte register.
pub open spec fn r8_name(reg: u8) -> Seq<char> {
    match reg {
        0 => "al"@,
        1 => "cl"@,
        2 => "dl"@,
        3 => "bl"@,
        4 => "ah"@,
        5 => "ch"@,
        6 => "dh"@,
        7 => "bh"@,
        _ => "?"@,
    }
}

pub fn r8(reg: u8) -> (r: &'static str)
    ensures
        r@ == r8_name(reg),
{
    match reg {
        0 => "al",
        1 => "cl",
        2 => "dl",
        3 => "bl",
        4 => "ah",
        5 => "ch",
        6 => "dh",
        7 => "bh",
        _ => "?",
    }
}

/// The name of a word register.
pub open spec fn r16_name(reg: u8) -> Seq<char> {
    match reg {
        0 => "ax"@,
        1 => "cx"@,
        2 => "dx"@,
        3 => "bx"@,
        4 => "sp"@,
        5 => "bp"@,
        6 => "si"@,
        7 => "di"@,
        _ => "?"@,
    }
}

pub fn r16(reg: u8) -> (r: &'static str)
    ensures
        r@ == r16_name(reg),
{
    match reg {
        0 => "ax",
        1 => "cx",
        2 => "dx",
        3 => "bx",
        4 => "sp",
        5 => "bp",
        6 => "si",
        7 => "di",
        _ => "?",
    }
}

/// The name of an instruction kind.
pub open spec fn op_name(op: Op) -> Seq<char> {
    match op {
        Op::Aaa => "Aaa"@,
        Op::Aad => "Aad"@,
        Op::Aam => "Aam"@,
        Op::Aas => "Aas"@,
        Op::Adc8 => "Adc8"@,
        Op::Adc16 => "Adc16"@,
        Op::Adc32 => "Adc32"@,
        Op::Add8 => "Add8"@,
        Op::Add16 => "Add16"@,
        Op::Add32 => "Add32"@,
        Op::And8 => "And8"@,
        Op::And16 => "And16"@,
        Op::And32 => "And32"@,
        Op::Arpl => "Arpl"@,
        Op::Bound => "Bound"@,
        Op::Bsf => "Bsf"@,
        Op::Bt => "Bt"@,
        Op::Bts => "Bts"@,
        Op::CallNear => "CallNear"@,
        Op::CallFar => "CallFar"@,
        Op::Cbw => "Cbw"@,
        Op::Clc => "Clc"@,
        Op::Cld => "Cld"@,
        Op::Cli => "Cli"@,
        Op::Cmc => "Cmc"@,
        Op::Cmp8 => "Cmp8"@,
        Op::Cmp16 => "Cmp16"@,
        Op::Cmp32 => "Cmp32"@,
        Op::Cmpsb => "Cmpsb"@,
        Op::Cmpsw => "Cmpsw"@,
        Op::Cwd16 => "Cwd16"@,
        Op::Cwde32 => "Cwde32"@,
        Op::Daa => "Daa"@,
        Op::Das => "Das"@,
        Op::Dec8 => "Dec8"@,
        Op::Dec16 => "Dec16"@,
        Op::Dec32 => "Dec32"@,
        Op::Div8 => "Div8"@,
        Op::Div16 => "Div16"@,
        Op::Div32 => "Div32"@,
        Op::Enter => "Enter"@,
        Op::Hlt => "Hlt"@,
        Op::Idiv8 => "Idiv8"@,
        Op::Idiv16 => "Idiv16"@,
        Op::Idiv32 => "Idiv32"@,
        Op::Imul8 => "Imul8"@,
        Op::Imul16 => "Imul16"@,
        Op::Imul32 => "Imul32"@,
        Op::In8 => "In8"@,
        Op::In16 => "In16"@,
        Op::Inc8 => "Inc8"@,
        Op::Inc16 => "Inc16"@,
        Op::Inc32 => "Inc32"@,
        Op::Insb => "Insb"@,
        Op::Insw => "Insw"@,
        Op::Int => "Int"@,
        Op::Into => "Into"@,
        Op::Iret => "Iret"@,
        Op::Ja => "Ja"@,
        Op::Jc => "Jc"@,
        Op::Jcxz => "Jcxz"@,
        Op::Jg => "Jg"@,
        Op::Jl => "Jl"@,
        Op::JmpShort => "JmpShort"@,
        Op::JmpNear => "JmpNear"@,
        Op::JmpFar => "JmpFar"@,
        Op::Jna => "Jna"@,
        Op::Jnc => "Jnc"@,
        Op::Jng => "Jng"@,
        Op::Jnl => "Jnl"@,
        Op::Jno => "Jno"@,
        Op::Jns => "Jns"@,
        Op::Jnz => "Jnz"@,
        Op::Jo => "Jo"@,
        Op::Jpe => "Jpe"@,
        Op::Jpo => "Jpo"@,
        Op::Js => "Js"@,
        Op::Jz => "Jz"@,
        Op::Lahf => "Lahf"@,
        Op::Lds => "Lds"@,
        Op::Lea16 => "Lea16"@,
        Op::Leave => "Leave"@,
        Op::Les => "Les"@,
        Op::Lodsb => "Lodsb"@,
        Op::Lodsw => "Lodsw"@,
        Op::Lodsd => "Lodsd"@,
        Op::Loop => "Loop"@,
        Op::Loope => "Loope"@,
        Op::Loopne => "Loopne"@,
        Op::Mov8 => "Mov8"@,
        Op::Mov16 => "Mov16"@,
        Op::Mov32 => "Mov32"@,
        Op::Movsb => "Movsb"@,
        Op::Movsw => "Movsw"@,
        Op::Movsd => "Movsd"@,
        Op::Movsx16 => "Movsx16"@,
        Op::Movsx32 => "Movsx32"@,
        Op::Movzx16 => "Movzx16"@,
        Op::Movzx32 => "Movzx32"@,
        Op::Mul8 => "Mul8"@,
        Op::Mul16 => "Mul16"@,
        Op::Mul32 => "Mul32"@,
        Op::Neg8 => "Neg8"@,
        Op::Neg16 => "Neg16"@,
        Op::Neg32 => "Neg32"@,
        Op::Nop => "Nop"@,
        Op::Not8 => "Not8"@,
        Op::Not16 => "Not16"@,
        Op::Not32 => "Not32"@,
        Op::Or8 => "Or8"@,
        Op::Or16 => "Or16"@,
        Op::Or32 => "Or32"@,
        Op::Out8 => "Out8"@,
        Op::Out16 => "Out16"@,
        Op::Outsb => "Outsb"@,
        Op::Outsw => "Outsw"@,
        Op::Pop16 => "Pop16"@,
        Op::Pop32 => "Pop32"@,
        Op::Popa16 => "Popa16"@,
        Op::Popad32 => "Popad32"@,
        Op::Popf => "Popf"@,
        Op::Push16 => "Push16"@,
        Op::Push32 => "Push32"@,
        Op::Pusha16 => "Pusha16"@,
        Op::Pushad32 => "Pushad32"@,
        Op::Pushf => "Pushf"@,
        Op::Rcl8 => "Rcl8"@,
        Op::Rcl16 => "Rcl16"@,
        Op::Rcl32 => "Rcl32"@,
        Op::Rcr8 => "Rcr8"@,
        Op::Rcr16 => "Rcr16"@,
        Op::Rcr32 => "Rcr32"@,
        Op::Retn => "Retn"@,
        Op::Retf => "Retf"@,
        Op::RetImm16 => "RetImm16"@,
        Op::Rol8 => "Rol8"@,
        Op::Rol16 => "Rol16"@,
        Op::Rol32 => "Rol32"@,
        Op::Ror8 => "Ror8"@,
        Op::Ror16 => "Ror16"@,
        Op::Ror32 => "Ror32"@,
        Op::Sahf => "Sahf"@,
        Op::Salc => "Salc"@,
        Op::Sar8 => "Sar8"@,
        Op::Sar16 => "Sar16"@,
        Op::Sar32 => "Sar32"@,
        Op::Sbb8 => "Sbb8"@,
        Op::Sbb16 => "Sbb16"@,
        Op::Sbb32 => "Sbb32"@,
        Op::Scasb => "Scasb"@,
        Op::Scasw => "Scasw"@,
        Op::Setc => "Setc"@,
        Op::Setg => "Setg"@,
        Op::Setnz => "Setnz"@,
        Op::Shl8 => "Shl8"@,
        Op::Shl16 => "Shl16"@,
        Op::Shl32 => "Shl32"@,
        Op::Shld => "Shld"@,
        Op::Shr8 => "Shr8"@,
        Op::Shr16 => "Shr16"@,
        Op::Shr32 => "Shr32"@,
        Op::Shrd => "Shrd"@,
        Op::Sldt => "Sldt"@,
        Op::Stc => "Stc"@,
        Op::Std => "Std"@,
        Op::Sti => "Sti"@,
        Op::Stosb => "Stosb"@,
        Op::Stosw => "Stosw"@,
        Op::Stosd => "Stosd"@,
        Op::Sub8 => "Sub8"@,
        Op::Sub16 => "Sub16"@,
        Op::Sub32 => "Sub32"@,
        Op::Test8 => "Test8"@,
        Op::Test16 => "Test16"@,
        Op::Test32 => "Test32"@,
        Op::Xchg8 => "Xchg8"@,
        Op::Xchg16 => "Xchg16"@,
        Op::Xchg32 => "Xchg32"@,
        Op::Xlatb => "Xlatb"@,
        Op::Xor8 => "Xor8"@,
        Op::Xor16 => "Xor16"@,
        Op::Xor32 => "Xor32"@,
        Op::Uninitialized => "Uninitialized"@,
        Op::Invalid(_) => "Invalid"@,
    }
}

pub fn name_of(op: Op) -> (r: &'static str)
    ensures
        r@ == op_name(op),
{
    match op {
        Op::Aaa => "Aaa",
        Op::Aad => "Aad",
        Op::Aam => "Aam",
        Op::Aas => "Aas",
        Op::Adc8 => "Adc8",
        Op::Adc16 => "Adc16",
        Op::Adc32 => "Adc32",
        Op::Add8 => "Add8",
        Op::Add16 => "Add16",
        Op::Add32 => "Add32",
        Op::And8 => "And8",
        Op::And16 => "And16",
        Op::And32 => "And32",
        Op::Arpl => "Arpl",
        Op::Bound => "Bound",
        Op::Bsf => "Bsf",
        Op::Bt => "Bt",
        Op::Bts => "Bts",
        Op::CallNear => "CallNear",
        Op::CallFar => "CallFar",
        Op::Cbw => "Cbw",
        Op::Clc => "Clc",
        Op::Cld => "Cld",
        Op::Cli => "Cli",
        Op::Cmc => "Cmc",
        Op::Cmp8 => "Cmp8",
        Op::Cmp16 => "Cmp16",
        Op::Cmp32 => "Cmp32",
        Op::Cmpsb => "Cmpsb",
        Op::Cmpsw => "Cmpsw",
        Op::Cwd16 => "Cwd16",
        Op::Cwde32 => "Cwde32",
        Op::Daa => "Daa",
        Op::Das => "Das",
        Op::Dec8 => "Dec8",
        Op::Dec16 => "Dec16",
        Op::Dec32 => "Dec32",
        Op::Div8 => "Div8",
        Op::Div16 => "Div16",
        Op::Div32 => "Div32",
        Op::Enter => "Enter",
        Op::Hlt => "Hlt",
        Op::Idiv8 => "Idiv8",
        Op::Idiv16 => "Idiv16",
        Op::Idiv32 => "Idiv32",
        Op::Imul8 => "Imul8",
        Op::Imul16 => "Imul16",
        Op::Imul32 => "Imul32",
        Op::In8 => "In8",
        Op::In16 => "In16",
        Op::Inc8 => "Inc8",
        Op::Inc16 => "Inc16",
        Op::Inc32 => "Inc32",
        Op::Insb => "Insb",
        Op::Insw => "Insw",
        Op::Int => "Int",
        Op::Into => "Into",
        Op::Iret => "Iret",
        Op::Ja => "Ja",
        Op::Jc => "Jc",
        Op::Jcxz => "Jcxz",
        Op::Jg => "Jg",
        Op::Jl => "Jl",
        Op::JmpShort => "JmpShort",
        Op::JmpNear => "JmpNear",
        Op::JmpFar => "JmpFar",
        Op::Jna => "Jna",
        Op::Jnc => "Jnc",
        Op::Jng => "Jng",
        Op::Jnl => "Jnl",
        Op::Jno => "Jno",
        Op::Jns => "Jns",
        Op::Jnz => "Jnz",
        Op::Jo => "Jo",
        Op::Jpe => "Jpe",
        Op::Jpo => "Jpo",
        Op::Js => "Js",
        Op::Jz => "Jz",
        Op::Lahf => "Lahf",
        Op::Lds => "Lds",
        Op::Lea16 => "Lea16",
        Op::Leave => "Leave",
        Op::Les => "Les",
        Op::Lodsb => "Lodsb",
        Op::Lodsw => "Lodsw",
        Op::Lodsd => "Lodsd",
        Op::Loop => "Loop",
        Op::Loope => "Loope",
        Op::Loopne => "Loopne",
        Op::Mov8 => "Mov8",
        Op::Mov16 => "Mov16",
        Op::Mov32 => "Mov32",
        Op::Movsb => "Movsb",
        Op::Movsw => "Movsw",
        Op::Movsd => "Movsd",
        Op::Movsx16 => "Movsx16",
        Op::Movsx32 => "Movsx32",
        Op::Movzx16 => "Movzx16",
        Op::Movzx32 => "Movzx32",
        Op::Mul8 => "Mul8",
        Op::Mul16 => "Mul16",
        Op::Mul32 => "Mul32",
        Op::Neg8 => "Neg8",
        Op::Neg16 => "Neg16",
        Op::Neg32 => "Neg32",
        Op::Nop => "Nop",
        Op::Not8 => "Not8",
        Op::Not16 => "Not16",
        Op::Not32 => "Not32",
        Op::Or8 => "Or8",
        Op::Or16 => "Or16",
        Op::Or32 => "Or32",
        Op::Out8 => "Out8",
        Op::Out16 => "Out16",
        Op::Outsb => "Outsb",
        Op::Outsw => "Outsw",
        Op::Pop16 => "Pop16",
        Op::Pop32 => "Pop32",
        Op::Popa16 => "Popa16",
        Op::Popad32 => "Popad32",
        Op::Popf => "Popf",
        Op::Push16 => "Push16",
        Op::Push32 => "Push32",
        Op::Pusha16 => "Pusha16",
        Op::Pushad32 => "Pushad32",
        Op::Pushf => "Pushf",
        Op::Rcl8 => "Rcl8",
        Op::Rcl16 => "Rcl16",
        Op::Rcl32 => "Rcl32",
        Op::Rcr8 => "Rcr8",
        Op::Rcr16 => "Rcr16",
        Op::Rcr32 => "Rcr32",
        Op::Retn => "Retn",
        Op::Retf => "Retf",
        Op::RetImm16 => "RetImm16",
        Op::Rol8 => "Rol8",
        Op::Rol16 => "Rol16",
        Op::Rol32 => "Rol32",
        Op::Ror8 => "Ror8",
        Op::Ror16 => "Ror16",
        Op::Ror32 => "Ror32",
        Op::Sahf => "Sahf",
        Op::Salc => "Salc",
        Op::Sar8 => "Sar8",
        Op::Sar16 => "Sar16",
        Op::Sar32 => "Sar32",
        Op::Sbb8 => "Sbb8",
        Op::Sbb16 => "Sbb16",
        Op::Sbb32 => "Sbb32",
        Op::Scasb => "Scasb",
        Op::Scasw => "Scasw",
        Op::Setc => "Setc",
        Op::Setg => "Setg",
        Op::Setnz => "Setnz",
        Op::Shl8 => "Shl8",
        Op::Shl16 => "Shl16",
        Op::Shl32 => "Shl32",
        Op::Shld => "Shld",
        Op::Shr8 => "Shr8",
        Op::Shr16 => "Shr16",
        Op::Shr32 => "Shr32",
        Op::Shrd => "Shrd",
        Op::Sldt => "Sldt",
        Op::Stc => "Stc",
        Op::Std => "Std",
        Op::Sti => "Sti",
        Op::Stosb => "Stosb",
        Op::Stosw => "Stosw",
        Op::Stosd => "Stosd",
        Op::Sub8 => "Sub8",
        Op::Sub16 => "Sub16",
        Op::Sub32 => "Sub32",
        Op::Test8 => "Test8",
        Op::Test16 => "Test16",
        Op::Test32 => "Test32",
        Op::Xchg8 => "Xchg8",
        Op::Xchg16 => "Xchg16",
        Op::Xchg32 => "Xchg32",
        Op::Xlatb => "Xlatb",
        Op::Xor8 => "Xor8",
        Op::Xor16 => "Xor16",
        Op::Xor32 => "Xor32",
        Op::Uninitialized => "Uninitialized",
        Op::Invalid(_) => "Invalid",
    }
}

/// The segment override in front of a memory operand.
pub open spec fn segment_text(seg: Segment) -> Seq<char> {
    match seg {
        Segment::Default => ""@,
        Segment::ES => "es:"@,
        Segment::CS => "cs:"@,
        Segment::SS => "ss:"@,
        Segment::DS => "ds:"@,
        Segment::FS => "fs:"@,
        Segment::GS => "gs:"@,
    }
}

pub fn segment_str(seg: Segment) -> (r: &'static str)
    ensures
        r@ == segment_text(seg),
{
    match seg {
        Segment::Default => "",
        Segment::ES => "es:",
        Segment::CS => "cs:",
        Segment::SS => "ss:",
        Segment::DS => "ds:",
        Segment::FS => "fs:",
        Segment::GS => "gs:",
    }
}

/// A displacement with its sign, in `width` hexadecimal digits.
pub open spec fn signed_text(d: int, width: nat) -> Seq<char> {
    if d >= 0 {
        "+0x"@ + hex_text(d as nat, width)
    } else {
        "-0x"@ + hex_text((-d) as nat, width)
    }
}

/// An operand as text.
pub open spec fn param_text(p: Parameter) -> Seq<char> {
    match p {
        Parameter::Imm8(v) => "0x"@ + hex_text(v as nat, 2),
        Parameter::Imm16(v) => "0x"@ + hex_text(v as nat, 4),
        Parameter::Imm32(v) => "0x"@ + hex_text(v as nat, 8),
        Parameter::Reg8(i) => r8_name(i),
        Parameter::Reg16(i) => r16_name(i),
        Parameter::SReg16(i) => sreg_name(i),
        Parameter::Ptr16Amode(seg, a) => "["@ + segment_text(seg) + amode_name(a.rm()) + "]"@,
        Parameter::Ptr16AmodeS8(seg, a, d) => "["@ + segment_text(seg) + amode_name(a.rm())
            + signed_text(d as int, 2) + "]"@,
        Parameter::Ptr16AmodeS16(seg, a, d) => "["@ + segment_text(seg) + amode_name(a.rm())
            + signed_text(d as int, 4) + "]"@,
        Parameter::Ptr16(seg, off) => "["@ + segment_text(seg) + "0x"@ + hex_text(off as nat, 4)
            + "]"@,
        Parameter::Ptr16Imm(seg, off) => hex_text(seg as nat, 4) + ":"@ + hex_text(off as nat, 4),
        Parameter::Empty => ""@,
    }
}

/// An instruction as text: the name of its kind, then its operands.
pub open spec fn instruction_text(d: Decoded) -> Seq<char> {
    if d.dst is Empty {
        op_name(d.command)
    } else if d.src is Empty {
        op_name(d.command) + "  "@ + param_text(d.dst)
    } else if d.src2 is Empty {
        op_name(d.command) + "  "@ + param_text(d.dst) + ", "@ + param_text(d.src)
    } else {
        op_name(d.command) + "  "@ + param_text(d.dst) + ", "@ + param_text(d.src) + ", "@
            + param_text(d.src2)
    }
}

/// The listing line of an instruction: its address in brackets, in at
/// least six hexadecimal digits, its bytes, and its text.
pub open spec fn pretty_text(offset: usize, bytes: Seq<u8>, text: Seq<char>) -> Seq<char> {
    "["@ + hex_text(
        offset as nat,
        if hex_width(offset as nat) > 6 {
            hex_width(offset as nat)
        } else {
            6
        },
    ) + "] "@ + hex_join(bytes, " "@) + "   "@ + text
}

fn signed_string(d: i32, width: usize) -> (r: String)
    requires
        width <= 16,
        -0x1_0000 <= d <= 0x1_0000,
    ensures
        r@ == signed_text(d as int, width as nat),
{
    if d >= 0 {
        let mut r = String::from_str("+0x");
        r.append(hex(d as u64, width).as_str());
        r
    } else {
        let mut r = String::from_str("-0x");
        r.append(hex((-d) as u64, width).as_str());
        r
    }
}

/// An operand as text.
pub fn param_string(p: &Parameter) -> (r: String)
    ensures
        r@ == param_text(*p),
{
    match *p {
        Parameter::Imm8(v) => {
            let mut r = String::from_str("0x");
            r.append(hex(v as u64, 2).as_str());
            r
        },
        Parameter::Imm16(v) => {
            let mut r = String::from_str("0x");
            r.append(hex(v as u64, 4).as_str());
            r
        },
        Parameter::Imm32(v) => {
            let mut r = String::from_str("0x");
            r.append(hex(v as u64, 8).as_str());
            r
        },
        Parameter::Reg8(i) => String::from_str(r8(i)),
        Parameter::Reg16(i) => String::from_str(r16(i)),
        Parameter::SReg16(i) => String::from_str(sreg(i)),
        Parameter::Ptr16Amode(seg, a) => {
            let mut r = String::from_str("[");
            r.append(segment_str(seg));
            r.append(amode(a.index()));
            r.append("]");
            r
        },
        Parameter::Ptr16AmodeS8(seg, a, d) => {
            let mut r = String::from_str("[");
            r.append(segment_str(seg));
            r.append(amode(a.index()));
            r.append(signed_string(d as i32, 2).as_str());
            r.append("]");
            r
        },
        Parameter::Ptr16AmodeS16(seg, a, d) => {
            let mut r = String::from_str("[");
            r.append(segment_str(seg));
            r.append(amode(a.index()));
            r.append(signed_string(d as i32, 4).as_str());
            r.append("]");
            r
        },
        Parameter::Ptr16(seg, off) => {
            let mut r = String::from_str("[");
            r.append(segment_str(seg));
            r.append("0x");
            r.append(hex(off as u64, 4).as_str());
            r.append("]");
            r
        },
        Parameter::Ptr16Imm(seg, off) => {
            let mut r = hex(seg as u64, 4);
            r.append(":");
            r.append(hex(off as u64, 4).as_str());
            r
        },
        Parameter::Empty => String::from_str(""),
    }
}

/// An instruction as text.
pub fn instruction_string(d: &Decoded) -> (r: String)
    ensures
        r@ == instruction_text(*d),
{
    let mut r = String::from_str(name_of(d.command));
    let has_dst = match d.dst {
        Parameter::Empty => false,
        _ => true,
    };
    let has_src = match d.src {
        Parameter::Empty => false,
        _ => true,
    };
    let has_src2 = match d.src2 {
        Parameter::Empty => false,
        _ => true,
    };
    if has_dst {
        r.append("  ");
        r.append(param_string(&d.dst).as_str());
        if has_src {
            r.append(", ");
            r.append(param_string(&d.src).as_str());
            if has_src2 {
                r.append(", ");
                r.append(param_string(&d.src2).as_str());
            }
        }
    }
    r
}

/// One line of a disassembly listing.
pub struct Instruction {
    /// flat address of the instruction
    pub offset: usize,
    pub length: usize,
    pub text: String,
    pub bytes: Vec<u8>,
}

impl Instruction {
    /// The line as text: address, bytes and instruction.
    pub fn pretty_string(&self) -> (r: String)
        ensures
            r@ == pretty_text(self.offset, self.bytes@, self.text@),
    {
        let mut r = String::from_str("[");
        r.append(hex_padded(self.offset as u64, 6).as_str());
        r.append("] ");
        r.append(self.to_hex_string(&self.bytes).as_str());
        r.append("   ");
        r.append(self.text.as_str());
        r
    }

    /// The bytes in hexadecimal, separated by blanks.
    pub fn to_hex_string(&self, bytes: &Vec<u8>) -> (r: String)
        ensures
            r@ == hex_join(bytes@, " "@),
    {
        hex_bytes(bytes, " ")
    }
}

impl CPU {
    /// The instruction at CS:IP as a listing line. Nothing is executed.
    pub fn disasm_instruction(&mut self) -> (r: Instruction)
        requires
            old(self).wf(),
        ensures
            *final(self) == *old(self),
            r.offset == old(self)@.code_address(),
            r.length == spec_decode(old(self)@.code_window(), old(self)@.ip).length,
            r.bytes@ == old(self)@.code_window().subrange(0, r.length as int),
            r.text@ == instruction_text(spec_decode(old(self)@.code_window(), old(self)@.ip)),
    {
        let w = self.fetch();
        let d = decode(w.as_slice(), self.ip);
        let length = d.length as usize;
        let offset = self.get_offset();
        let bytes = vstd::slice::slice_to_vec(vstd::slice::slice_subrange(w.as_slice(), 0, length));
        Instruction { offset, length, text: instruction_string(&d), bytes }
    }
}

} // verus!
