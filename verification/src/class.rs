//! The instruction kinds sorted into classes of like behaviour.
use vstd::prelude::*;
use crate::alu::ShiftKind;
use crate::op::Op;

verus! {

/// The arithmetic and logic instructions of two operands.
#[derive(Clone, Copy, Debug, PartialEq, Eq, Structural)]
pub enum Binary {
    Add,
    Adc,
    Sub,
    Sbb,
    Cmp,
    And,
    Or,
    Xor,
    Test,
}

/// The arithmetic and logic instructions of one operand.
#[derive(Clone, Copy, Debug, PartialEq, Eq, Structural)]
pub enum Unary {
    Inc,
    Dec,
    Neg,
    Not,
}

/// Multiplication and division.
#[derive(Clone, Copy, Debug, PartialEq, Eq, Structural)]
pub enum MulDiv {
    Mul,
    Imul,
    Div,
    Idiv,
}

/// The conditions of the conditional jumps and of SETcc.
#[derive(Clone, Copy, Debug, PartialEq, Eq, Structural)]
pub enum Condition {
    O,
    No,
    C,
    Nc,
    Z,
    Nz,
    Na,
    A,
    S,
    Ns,
    Pe,
    Po,
    L,
    Nl,
    Ng,
    G,
    Cxz,
}

/// LOOP, LOOPE and LOOPNE.
#[derive(Clone, Copy, Debug, PartialEq, Eq, Structural)]
pub enum LoopKind {
    Always,
    WhileEqual,
    WhileNotEqual,
}

/// The string instructions.
#[derive(Clone, Copy, Debug, PartialEq, Eq, Structural)]
pub enum StringOp {
    Movs,
    Cmps,
    Scas,
    Lods,
    Stos,
    Ins,
    Outs,
}

/// The instructions that set or clear one flag.
#[derive(Clone, Copy, Debug, PartialEq, Eq, Structural)]
pub enum FlagOp {
    Clc,
    Stc,
    Cmc,
    Cld,
    Std,
    Cli,
    Sti,
}

/// The adjustments of AL after decimal arithmetic.
#[derive(Clone, Copy, Debug, PartialEq, Eq, Structural)]
pub enum Bcd {
    Aaa,
    Aas,
    Daa,
    Das,
}

/// What an instruction kind does, with the operand width where there are
/// two (`true` for 16 bits).
#[derive(Clone, Copy, Debug, PartialEq, Eq, Structural)]
pub enum Class {
    Binary(Binary, bool),
    Unary(Unary, bool),
    Shift(ShiftKind, bool),
    MulDiv(MulDiv, bool),
    Mov(bool),
    Xchg(bool),
    Lea,
    /// LDS and LES, with the index of the segment register that is loaded
    LoadFar(u8),
    /// MOVSX (`true`) and MOVZX
    Extend(bool),
    Push,
    Pop,
    Pusha,
    Popa,
    Pushf,
    Popf,
    Enter,
    Leave,
    Jump,
    JumpFar,
    Branch(Condition),
    SetCond(Condition),
    Loop(LoopKind),
    CallNear,
    CallFar,
    /// RET; `true` for the far return
    Ret(bool),
    Int,
    Into,
    Iret,
    Str(StringOp, bool),
    Flag(FlagOp),
    Salc,
    Lahf,
    Sahf,
    Cbw,
    Cwd,
    Xlat,
    Adjust(Bcd),
    Aam,
    Aad,
    In(bool),
    Out(bool),
    Nop,
    Hlt,
    /// BT; `true` for BTS, which also sets the bit
    BitTest(bool),
    BitScan,
    /// SHLD (`true`) and SHRD
    DoubleShift(bool),
    /// a kind that the executor has no entry for
    Unimplemented,
}

/// The class of an instruction kind.
pub open spec fn classify(op: Op) -> Class {
    match op {
        Op::Add8 => Class::Binary(Binary::Add, false),
        Op::Add16 => Class::Binary(Binary::Add, true),
        Op::Adc8 => Class::Binary(Binary::Adc, false),
        Op::Adc16 => Class::Binary(Binary::Adc, true),
        Op::Sub8 => Class::Binary(Binary::Sub, false),
        Op::Sub16 => Class::Binary(Binary::Sub, true),
        Op::Sbb8 => Class::Binary(Binary::Sbb, false),
        Op::Sbb16 => Class::Binary(Binary::Sbb, true),
        Op::Cmp8 => Class::Binary(Binary::Cmp, false),
        Op::Cmp16 => Class::Binary(Binary::Cmp, true),
        Op::And8 => Class::Binary(Binary::And, false),
        Op::And16 => Class::Binary(Binary::And, true),
        Op::Or8 => Class::Binary(Binary::Or, false),
        Op::Or16 => Class::Binary(Binary::Or, true),
        Op::Xor8 => Class::Binary(Binary::Xor, false),
        Op::Xor16 => Class::Binary(Binary::Xor, true),
        Op::Test8 => Class::Binary(Binary::Test, false),
        Op::Test16 => Class::Binary(Binary::Test, true),
        Op::Inc8 => Class::Unary(Unary::Inc, false),
        Op::Inc16 => Class::Unary(Unary::Inc, true),
        Op::Dec8 => Class::Unary(Unary::Dec, false),
        Op::Dec16 => Class::Unary(Unary::Dec, true),
        Op::Neg8 => Class::Unary(Unary::Neg, false),
        Op::Neg16 => Class::Unary(Unary::Neg, true),
        Op::Not8 => Class::Unary(Unary::Not, false),
        Op::Not16 => Class::Unary(Unary::Not, true),
        Op::Rol8 => Class::Shift(ShiftKind::Rol, false),
        Op::Rol16 => Class::Shift(ShiftKind::Rol, true),
        Op::Ror8 => Class::Shift(ShiftKind::Ror, false),
        Op::Ror16 => Class::Shift(ShiftKind::Ror, true),
        Op::Rcl8 => Class::Shift(ShiftKind::Rcl, false),
        Op::Rcl16 => Class::Shift(ShiftKind::Rcl, true),
        Op::Rcr8 => Class::Shift(ShiftKind::Rcr, false),
        Op::Rcr16 => Class::Shift(ShiftKind::Rcr, true),
        Op::Shl8 => Class::Shift(ShiftKind::Shl, false),
        Op::Shl16 => Class::Shift(ShiftKind::Shl, true),
        Op::Shr8 => Class::Shift(ShiftKind::Shr, false),
        Op::Shr16 => Class::Shift(ShiftKind::Shr, true),
        Op::Sar8 => Class::Shift(ShiftKind::Sar, false),
        Op::Sar16 => Class::Shift(ShiftKind::Sar, true),
        Op::Mul8 => Class::MulDiv(MulDiv::Mul, false),
        Op::Mul16 => Class::MulDiv(MulDiv::Mul, true),
        Op::Imul8 => Class::MulDiv(MulDiv::Imul, false),
        Op::Imul16 => Class::MulDiv(MulDiv::Imul, true),
        Op::Div8 => Class::MulDiv(MulDiv::Div, false),
        Op::Div16 => Class::MulDiv(MulDiv::Div, true),
        Op::Idiv8 => Class::MulDiv(MulDiv::Idiv, false),
        Op::Idiv16 => Class::MulDiv(MulDiv::Idiv, true),
        Op::Mov8 => Class::Mov(false),
        Op::Mov16 => Class::Mov(true),
        Op::Xchg8 => Class::Xchg(false),
        Op::Xchg16 => Class::Xchg(true),
        Op::Lea16 => Class::Lea,
        Op::Lds => Class::LoadFar(3),
        Op::Les => Class::LoadFar(0),
        Op::Movsx16 => Class::Extend(true),
        Op::Movzx16 => Class::Extend(false),
        Op::Push16 => Class::Push,
        Op::Pop16 => Class::Pop,
        Op::Pusha16 => Class::Pusha,
        Op::Popa16 => Class::Popa,
        Op::Pushf => Class::Pushf,
        Op::Popf => Class::Popf,
        Op::Enter => Class::Enter,
        Op::Leave => Class::Leave,
        Op::JmpShort | Op::JmpNear => Class::Jump,
        Op::JmpFar => Class::JumpFar,
        Op::Jo => Class::Branch(Condition::O),
        Op::Jno => Class::Branch(Condition::No),
        Op::Jc => Class::Branch(Condition::C),
        Op::Jnc => Class::Branch(Condition::Nc),
        Op::Jz => Class::Branch(Condition::Z),
        Op::Jnz => Class::Branch(Condition::Nz),
        Op::Jna => Class::Branch(Condition::Na),
        Op::Ja => Class::Branch(Condition::A),
        Op::Js => Class::Branch(Condition::S),
        Op::Jns => Class::Branch(Condition::Ns),
        Op::Jpe => Class::Branch(Condition::Pe),
        Op::Jpo => Class::Branch(Condition::Po),
        Op::Jl => Class::Branch(Condition::L),
        Op::Jnl => Class::Branch(Condition::Nl),
        Op::Jng => Class::Branch(Condition::Ng),
        Op::Jg => Class::Branch(Condition::G),
        Op::Jcxz => Class::Branch(Condition::Cxz),
        Op::Setc => Class::SetCond(Condition::C),
        Op::Setg => Class::SetCond(Condition::G),
        Op::Setnz => Class::SetCond(Condition::Nz),
        Op::Loop => Class::Loop(LoopKind::Always),
        Op::Loope => Class::Loop(LoopKind::WhileEqual),
        Op::Loopne => Class::Loop(LoopKind::WhileNotEqual),
        Op::CallNear => Class::CallNear,
        Op::CallFar => Class::CallFar,
        Op::Retn | Op::RetImm16 => Class::Ret(false),
        Op::Retf => Class::Ret(true),
        Op::Int => Class::Int,
        Op::Into => Class::Into,
        Op::Iret => Class::Iret,
        Op::Movsb => Class::Str(StringOp::Movs, false),
        Op::Movsw => Class::Str(StringOp::Movs, true),
        Op::Cmpsb => Class::Str(StringOp::Cmps, false),
        Op::Cmpsw => Class::Str(StringOp::Cmps, true),
        Op::Scasb => Class::Str(StringOp::Scas, false),
        Op::Scasw => Class::Str(StringOp::Scas, true),
        Op::Lodsb => Class::Str(StringOp::Lods, false),
        Op::Lodsw => Class::Str(StringOp::Lods, true),
        Op::Stosb => Class::Str(StringOp::Stos, false),
        Op::Stosw => Class::Str(StringOp::Stos, true),
        Op::Insb => Class::Str(StringOp::Ins, false),
        Op::Insw => Class::Str(StringOp::Ins, true),
        Op::Outsb => Class::Str(StringOp::Outs, false),
        Op::Outsw => Class::Str(StringOp::Outs, true),
        Op::Clc => Class::Flag(FlagOp::Clc),
        Op::Stc => Class::Flag(FlagOp::Stc),
        Op::Cmc => Class::Flag(FlagOp::Cmc),
        Op::Cld => Class::Flag(FlagOp::Cld),
        Op::Std => Class::Flag(FlagOp::Std),
        Op::Cli => Class::Flag(FlagOp::Cli),
        Op::Sti => Class::Flag(FlagOp::Sti),
        Op::Salc => Class::Salc,
        Op::Lahf => Class::Lahf,
        Op::Sahf => Class::Sahf,
        Op::Cbw => Class::Cbw,
        Op::Cwd16 => Class::Cwd,
        Op::Xlatb => Class::Xlat,
        Op::Aaa => Class::Adjust(Bcd::Aaa),
        Op::Aas => Class::Adjust(Bcd::Aas),
        Op::Daa => Class::Adjust(Bcd::Daa),
        Op::Das => Class::Adjust(Bcd::Das),
        Op::Aam => Class::Aam,
        Op::Aad => Class::Aad,
        Op::In8 => Class::In(false),
        Op::In16 => Class::In(true),
        Op::Out8 => Class::Out(false),
        Op::Out16 => Class::Out(true),
        Op::Nop => Class::Nop,
        Op::Hlt => Class::Hlt,
        Op::Bt => Class::BitTest(false),
        Op::Bts => Class::BitTest(true),
        Op::Bsf => Class::BitScan,
        Op::Shld => Class::DoubleShift(true),
        Op::Shrd => Class::DoubleShift(false),
        _ => Class::Unimplemented,
    }
}

pub fn class_of(op: Op) -> (c: Class)
    ensures
        c == classify(op),
        c matches Class::LoadFar(i) ==> i < 6,
{
    match op {
        Op::Add8 => Class::Binary(Binary::Add, false),
        Op::Add16 => Class::Binary(Binary::Add, true),
        Op::Adc8 => Class::Binary(Binary::Adc, false),
        Op::Adc16 => Class::Binary(Binary::Adc, true),
        Op::Sub8 => Class::Binary(Binary::Sub, false),
        Op::Sub16 => Class::Binary(Binary::Sub, true),
        Op::Sbb8 => Class::Binary(Binary::Sbb, false),
        Op::Sbb16 => Class::Binary(Binary::Sbb, true),
        Op::Cmp8 => Class::Binary(Binary::Cmp, false),
        Op::Cmp16 => Class::Binary(Binary::Cmp, true),
        Op::And8 => Class::Binary(Binary::And, false),
        Op::And16 => Class::Binary(Binary::And, true),
        Op::Or8 => Class::Binary(Binary::Or, false),
        Op::Or16 => Class::Binary(Binary::Or, true),
        Op::Xor8 => Class::Binary(Binary::Xor, false),
        Op::Xor16 => Class::Binary(Binary::Xor, true),
        Op::Test8 => Class::Binary(Binary::Test, false),
        Op::Test16 => Class::Binary(Binary::Test, true),
        Op::Inc8 => Class::Unary(Unary::Inc, false),
        Op::Inc16 => Class::Unary(Unary::Inc, true),
        Op::Dec8 => Class::Unary(Unary::Dec, false),
        Op::Dec16 => Class::Unary(Unary::Dec, true),
        Op::Neg8 => Class::Unary(Unary::Neg, false),
        Op::Neg16 => Class::Unary(Unary::Neg, true),
        Op::Not8 => Class::Unary(Unary::Not, false),
        Op::Not16 => Class::Unary(Unary::Not, true),
        Op::Rol8 => Class::Shift(ShiftKind::Rol, false),
        Op::Rol16 => Class::Shift(ShiftKind::Rol, true),
        Op::Ror8 => Class::Shift(ShiftKind::Ror, false),
        Op::Ror16 => Class::Shift(ShiftKind::Ror, true),
        Op::Rcl8 => Class::Shift(ShiftKind::Rcl, false),
        Op::Rcl16 => Class::Shift(ShiftKind::Rcl, true),
        Op::Rcr8 => Class::Shift(ShiftKind::Rcr, false),
        Op::Rcr16 => Class::Shift(ShiftKind::Rcr, true),
        Op::Shl8 => Class::Shift(ShiftKind::Shl, false),
        Op::Shl16 => Class::Shift(ShiftKind::Shl, true),
        Op::Shr8 => Class::Shift(ShiftKind::Shr, false),
        Op::Shr16 => Class::Shift(ShiftKind::Shr, true),
        Op::Sar8 => Class::Shift(ShiftKind::Sar, false),
        Op::Sar16 => Class::Shift(ShiftKind::Sar, true),
        Op::Mul8 => Class::MulDiv(MulDiv::Mul, false),
        Op::Mul16 => Class::MulDiv(MulDiv::Mul, true),
        Op::Imul8 => Class::MulDiv(MulDiv::Imul, false),
        Op::Imul16 => Class::MulDiv(MulDiv::Imul, true),
        Op::Div8 => Class::MulDiv(MulDiv::Div, false),
        Op::Div16 => Class::MulDiv(MulDiv::Div, true),
        Op::Idiv8 => Class::MulDiv(MulDiv::Idiv, false),
        Op::Idiv16 => Class::MulDiv(MulDiv::Idiv, true),
        Op::Mov8 => Class::Mov(false),
        Op::Mov16 => Class::Mov(true),
        Op::Xchg8 => Class::Xchg(false),
        Op::Xchg16 => Class::Xchg(true),
        Op::Lea16 => Class::Lea,
        Op::Lds => Class::LoadFar(3),
        Op::Les => Class::LoadFar(0),
        Op::Movsx16 => Class::Extend(true),
        Op::Movzx16 => Class::Extend(false),
        Op::Push16 => Class::Push,
        Op::Pop16 => Class::Pop,
        Op::Pusha16 => Class::Pusha,
        Op::Popa16 => Class::Popa,
        Op::Pushf => Class::Pushf,
        Op::Popf => Class::Popf,
        Op::Enter => Class::Enter,
        Op::Leave => Class::Leave,
        Op::JmpShort | Op::JmpNear => Class::Jump,
        Op::JmpFar => Class::JumpFar,
        Op::Jo => Class::Branch(Condition::O),
        Op::Jno => Class::Branch(Condition::No),
        Op::Jc => Class::Branch(Condition::C),
        Op::Jnc => Class::Branch(Condition::Nc),
        Op::Jz => Class::Branch(Condition::Z),
        Op::Jnz => Class::Branch(Condition::Nz),
        Op::Jna => Class::Branch(Condition::Na),
        Op::Ja => Class::Branch(Condition::A),
        Op::Js => Class::Branch(Condition::S),
        Op::Jns => Class::Branch(Condition::Ns),
        Op::Jpe => Class::Branch(Condition::Pe),
        Op::Jpo => Class::Branch(Condition::Po),
        Op::Jl => Class::Branch(Condition::L),
        Op::Jnl => Class::Branch(Condition::Nl),
        Op::Jng => Class::Branch(Condition::Ng),
        Op::Jg => Class::Branch(Condition::G),
        Op::Jcxz => Class::Branch(Condition::Cxz),
        Op::Setc => Class::SetCond(Condition::C),
        Op::Setg => Class::SetCond(Condition::G),
        Op::Setnz => Class::SetCond(Condition::Nz),
        Op::Loop => Class::Loop(LoopKind::Always),
        Op::Loope => Class::Loop(LoopKind::WhileEqual),
        Op::Loopne => Class::Loop(LoopKind::WhileNotEqual),
        Op::CallNear => Class::CallNear,
        Op::CallFar => Class::CallFar,
        Op::Retn | Op::RetImm16 => Class::Ret(false),
        Op::Retf => Class::Ret(true),
        Op::Int => Class::Int,
        Op::Into => Class::Into,
        Op::Iret => Class::Iret,
        Op::Movsb => Class::Str(StringOp::Movs, false),
        Op::Movsw => Class::Str(StringOp::Movs, true),
        Op::Cmpsb => Class::Str(StringOp::Cmps, false),
        Op::Cmpsw => Class::Str(StringOp::Cmps, true),
        Op::Scasb => Class::Str(StringOp::Scas, false),
        Op::Scasw => Class::Str(StringOp::Scas, true),
        Op::Lodsb => Class::Str(StringOp::Lods, false),
        Op::Lodsw => Class::Str(StringOp::Lods, true),
        Op::Stosb => Class::Str(StringOp::Stos, false),
        Op::Stosw => Class::Str(StringOp::Stos, true),
        Op::Insb => Class::Str(StringOp::Ins, false),
        Op::Insw => Class::Str(StringOp::Ins, true),
        Op::Outsb => Class::Str(StringOp::Outs, false),
        Op::Outsw => Class::Str(StringOp::Outs, true),
        Op::Clc => Class::Flag(FlagOp::Clc),
        Op::Stc => Class::Flag(FlagOp::Stc),
        Op::Cmc => Class::Flag(FlagOp::Cmc),
        Op::Cld => Class::Flag(FlagOp::Cld),
        Op::Std => Class::Flag(FlagOp::Std),
        Op::Cli => Class::Flag(FlagOp::Cli),
        Op::Sti => Class::Flag(FlagOp::Sti),
        Op::Salc => Class::Salc,
        Op::Lahf => Class::Lahf,
        Op::Sahf => Class::Sahf,
        Op::Cbw => Class::Cbw,
        Op::Cwd16 => Class::Cwd,
        Op::Xlatb => Class::Xlat,
        Op::Aaa => Class::Adjust(Bcd::Aaa),
        Op::Aas => Class::Adjust(Bcd::Aas),
        Op::Daa => Class::Adjust(Bcd::Daa),
        Op::Das => Class::Adjust(Bcd::Das),
        Op::Aam => Class::Aam,
        Op::Aad => Class::Aad,
        Op::In8 => Class::In(false),
        Op::In16 => Class::In(true),
        Op::Out8 => Class::Out(false),
        Op::Out16 => Class::Out(true),
        Op::Nop => Class::Nop,
        Op::Hlt => Class::Hlt,
        Op::Bt => Class::BitTest(false),
        Op::Bts => Class::BitTest(true),
        Op::Bsf => Class::BitScan,
        Op::Shld => Class::DoubleShift(true),
        Op::Shrd => Class::DoubleShift(false),
        _ => Class::Unimplemented,
    }
}

} // verus!
