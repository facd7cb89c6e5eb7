//! Instruction snippets for differential testing: each sets the operands
//! of one instruction to drawn values and then runs the instruction. The
//! values come from a random number generator, or from whoever calls.
use vstd::prelude::*;
use rand::{Rng, XorShiftRng};
use crate::instruction::{AMode, Decoded, Parameter, Segment};
use crate::op::Op;
use crate::register::lo_byte;

verus! {

/// The generator of the `rand` crate that the values are drawn from.
#[verifier::external_type_specification]
#[verifier::external_body]
pub struct ExXorShiftRng(rand::XorShiftRng);

/// The values that a snippet puts into the operands. Where an operand is a
/// byte, it takes the low byte of the value.
#[derive(Clone, Copy, Debug)]
pub struct Draw {
    pub a: u16,
    pub b: u16,
    pub c: u16,
}

/// The next byte of the generator, by `Rng::gen` of the `rand` crate.
/// Nothing is claimed of the value, nor of the generator afterwards.
#[verifier::external_body]
fn draw_u8(rng: &mut XorShiftRng) -> (r: u8) {
    rng.gen()
}

/// The next word of the generator, by `Rng::gen` of the `rand` crate.
/// Nothing is claimed of the value, nor of the generator afterwards.
#[verifier::external_body]
fn draw_u16(rng: &mut XorShiftRng) -> (r: u16) {
    rng.gen()
}

/// Whether there is a snippet for the instruction kind.
pub open spec fn tested(op: Op) -> bool {
    match op {
        Op::Cmpsw | Op::Shld | Op::Shrd => true,
        Op::Shl8 | Op::Shr8 | Op::Sar8 | Op::Rol8 | Op::Ror8 | Op::Rcl8 | Op::Rcr8 => true,
        Op::Cmp8 | Op::And8 | Op::Xor8 | Op::Or8 | Op::Add8 | Op::Adc8 | Op::Sub8 | Op::Sbb8
        | Op::Test8 => true,
        Op::Mul8 | Op::Imul8 | Op::Div8 | Op::Idiv8 | Op::Xchg8 | Op::Not8 | Op::Neg8 => true,
        Op::Lahf | Op::Salc | Op::Clc | Op::Cld | Op::Cli | Op::Cmc | Op::Stc | Op::Std | Op::Sti => true,
        Op::Aas | Op::Aaa | Op::Daa | Op::Das | Op::Cbw | Op::Sahf | Op::Cwd16 => true,
        Op::Aad | Op::Aam | Op::Lea16 | Op::Nop => true,
        _ => false,
    }
}

pub fn is_tested(op: &Op) -> (r: bool)
    ensures
        r == tested(*op),
{
    match op {
        Op::Cmpsw | Op::Shld | Op::Shrd => true,
        Op::Shl8 | Op::Shr8 | Op::Sar8 | Op::Rol8 | Op::Ror8 | Op::Rcl8 | Op::Rcr8 => true,
        Op::Cmp8 | Op::And8 | Op::Xor8 | Op::Or8 | Op::Add8 | Op::Adc8 | Op::Sub8 | Op::Sbb8
        | Op::Test8 => true,
        Op::Mul8 | Op::Imul8 | Op::Div8 | Op::Idiv8 | Op::Xchg8 | Op::Not8 | Op::Neg8 => true,
        Op::Lahf | Op::Salc | Op::Clc | Op::Cld | Op::Cli | Op::Cmc | Op::Stc | Op::Std | Op::Sti => true,
        Op::Aas | Op::Aaa | Op::Daa | Op::Das | Op::Cbw | Op::Sahf | Op::Cwd16 => true,
        Op::Aad | Op::Aam | Op::Lea16 | Op::Nop => true,
        _ => false,
    }
}

fn low(v: u16) -> (r: u8)
    ensures
        r == lo_byte(v),
{
    (v % 256) as u8
}

/// The snippet for an instruction kind: instructions that load the drawn
/// values into the operands of the kind, then the instruction itself. There
/// is none for a kind that is not tested this way.
pub open spec fn snippet(op: Op, r: Draw) -> Option<Seq<Decoded>> {
    let ax = Parameter::Reg16(0);
    let dx = Parameter::Reg16(2);
    let bx = Parameter::Reg16(3);
    let si = Parameter::Reg16(6);
    let di = Parameter::Reg16(7);
    let al = Parameter::Reg8(0);
    let dl = Parameter::Reg8(2);
    let bl = Parameter::Reg8(3);
    let ah = Parameter::Reg8(4);
    match op {
        Op::Cmpsw => Some(
            seq![
                Decoded::spec_new(Op::Mov16, si, Parameter::Imm16(0x3030), Parameter::Empty),
                Decoded::spec_new(
                    Op::Mov16,
                    Parameter::Ptr16Amode(Segment::Default, AMode::SI),
                    Parameter::Imm16(r.a), Parameter::Empty),
                Decoded::spec_new(Op::Mov16, di, Parameter::Imm16(0x3040), Parameter::Empty),
                Decoded::spec_new(
                    Op::Mov16,
                    Parameter::Ptr16Amode(Segment::Default, AMode::DI),
                    Parameter::Imm16(r.b), Parameter::Empty),
                Decoded::spec_new(op, Parameter::Empty, Parameter::Empty, Parameter::Empty),
            ],
        ),
        Op::Shld | Op::Shrd => Some(
            seq![
                Decoded::spec_new(Op::Mov16, ax, Parameter::Imm16(r.a), Parameter::Empty),
                Decoded::spec_new(Op::Mov16, dx, Parameter::Imm16(r.b), Parameter::Empty),
                Decoded::spec_new(op, ax, dx, Parameter::Imm8(lo_byte(r.c))),
            ],
        ),
        Op::Shl8 | Op::Shr8 | Op::Sar8 | Op::Rol8 | Op::Ror8 | Op::Rcl8 | Op::Rcr8 | Op::Cmp8
        | Op::And8 | Op::Xor8 | Op::Or8 | Op::Add8 | Op::Adc8 | Op::Sub8 | Op::Sbb8 | Op::Test8 => Some(
            seq![
                Decoded::spec_new(Op::Mov8, al, Parameter::Imm8(lo_byte(r.a)), Parameter::Empty),
                Decoded::spec_new(op, al, Parameter::Imm8(lo_byte(r.b)), Parameter::Empty),
            ],
        ),
        Op::Mul8 | Op::Imul8 => Some(
            seq![
                Decoded::spec_new(Op::Mov8, al, Parameter::Imm8(lo_byte(r.a)), Parameter::Empty),
                Decoded::spec_new(Op::Mov8, dl, Parameter::Imm8(lo_byte(r.b)), Parameter::Empty),
                Decoded::spec_new(op, dl, Parameter::Empty, Parameter::Empty),
            ],
        ),
        Op::Div8 | Op::Idiv8 => Some(
            seq![
                Decoded::spec_new(Op::Mov16, ax, Parameter::Imm16(r.a), Parameter::Empty),
                Decoded::spec_new(Op::Mov8, dl, Parameter::Imm8(lo_byte(r.b)), Parameter::Empty),
                Decoded::spec_new(op, dl, Parameter::Empty, Parameter::Empty),
            ],
        ),
        Op::Xchg8 => Some(
            seq![
                Decoded::spec_new(Op::Mov8, al, Parameter::Imm8(lo_byte(r.a)), Parameter::Empty),
                Decoded::spec_new(Op::Mov8, dl, Parameter::Imm8(lo_byte(r.b)), Parameter::Empty),
                Decoded::spec_new(op, dl, bl, Parameter::Empty),
            ],
        ),
        Op::Lahf | Op::Salc | Op::Clc | Op::Cld | Op::Cli | Op::Cmc | Op::Stc | Op::Std | Op::Sti => Some(
            seq![Decoded::spec_new(Op::Push16, Parameter::Imm16(r.a), Parameter::Empty, Parameter::Empty), Decoded::spec_new(Op::Popf, Parameter::Empty, Parameter::Empty, Parameter::Empty), Decoded::spec_new(op, Parameter::Empty, Parameter::Empty, Parameter::Empty)],
        ),
        Op::Aas | Op::Aaa | Op::Daa | Op::Das | Op::Cbw => Some(
            seq![Decoded::spec_new(Op::Mov8, al, Parameter::Imm8(lo_byte(r.a)), Parameter::Empty), Decoded::spec_new(op, Parameter::Empty, Parameter::Empty, Parameter::Empty)],
        ),
        Op::Not8 | Op::Neg8 => Some(
            seq![Decoded::spec_new(Op::Mov8, al, Parameter::Imm8(lo_byte(r.a)), Parameter::Empty), Decoded::spec_new(op, al, Parameter::Empty, Parameter::Empty)],
        ),
        Op::Sahf => Some(seq![Decoded::spec_new(Op::Mov8, ah, Parameter::Imm8(lo_byte(r.a)), Parameter::Empty), Decoded::spec_new(op, Parameter::Empty, Parameter::Empty, Parameter::Empty)]),
        Op::Cwd16 => Some(seq![Decoded::spec_new(Op::Mov16, ax, Parameter::Imm16(r.a), Parameter::Empty), Decoded::spec_new(op, Parameter::Empty, Parameter::Empty, Parameter::Empty)]),
        Op::Aad | Op::Aam => Some(
            seq![
                Decoded::spec_new(Op::Mov16, ax, Parameter::Imm16(r.a), Parameter::Empty),
                Decoded::spec_new(op, Parameter::Imm8(lo_byte(r.b)), Parameter::Empty, Parameter::Empty),
            ],
        ),
        Op::Lea16 => Some(
            seq![
                Decoded::spec_new(Op::Mov16, bx, Parameter::Imm16(r.a), Parameter::Empty),
                Decoded::spec_new(op, ax, Parameter::Ptr16Amode(Segment::Default, AMode::BX), Parameter::Empty),
            ],
        ),
        Op::Nop => Some(seq![Decoded::spec_new(op, Parameter::Empty, Parameter::Empty, Parameter::Empty)]),
        _ => None,
    }
}

/// The snippet for an instruction kind with the values `r`.
pub fn snippet_of(op: Op, r: Draw) -> (s: Option<Vec<Decoded>>)
    ensures
        match snippet(op, r) {
            Some(q) => s is Some && s->0@ == q,
            None => s is None,
        },
        s is Some == tested(op),
{
    let ax = Parameter::Reg16(0);
    let dx = Parameter::Reg16(2);
    let bx = Parameter::Reg16(3);
    let si = Parameter::Reg16(6);
    let di = Parameter::Reg16(7);
    let al = Parameter::Reg8(0);
    let dl = Parameter::Reg8(2);
    let bl = Parameter::Reg8(3);
    let ah = Parameter::Reg8(4);
    match op {
        Op::Cmpsw => Some(
            vec![
                Decoded::new3(Op::Mov16, si, Parameter::Imm16(0x3030), Parameter::Empty),
                Decoded::new3(
                    Op::Mov16,
                    Parameter::Ptr16Amode(Segment::Default, AMode::SI),
                    Parameter::Imm16(r.a), Parameter::Empty),
                Decoded::new3(Op::Mov16, di, Parameter::Imm16(0x3040), Parameter::Empty),
                Decoded::new3(
                    Op::Mov16,
                    Parameter::Ptr16Amode(Segment::Default, AMode::DI),
                    Parameter::Imm16(r.b), Parameter::Empty),
                Decoded::new(op),
            ],
        ),
        Op::Shld | Op::Shrd => Some(
            vec![
                Decoded::new3(Op::Mov16, ax, Parameter::Imm16(r.a), Parameter::Empty),
                Decoded::new3(Op::Mov16, dx, Parameter::Imm16(r.b), Parameter::Empty),
                Decoded::new3(op, ax, dx, Parameter::Imm8(low(r.c))),
            ],
        ),
        Op::Shl8 | Op::Shr8 | Op::Sar8 | Op::Rol8 | Op::Ror8 | Op::Rcl8 | Op::Rcr8 | Op::Cmp8
        | Op::And8 | Op::Xor8 | Op::Or8 | Op::Add8 | Op::Adc8 | Op::Sub8 | Op::Sbb8 | Op::Test8 => Some(
            vec![
                Decoded::new3(Op::Mov8, al, Parameter::Imm8(low(r.a)), Parameter::Empty),
                Decoded::new3(op, al, Parameter::Imm8(low(r.b)), Parameter::Empty),
            ],
        ),
        Op::Mul8 | Op::Imul8 => Some(
            vec![
                Decoded::new3(Op::Mov8, al, Parameter::Imm8(low(r.a)), Parameter::Empty),
                Decoded::new3(Op::Mov8, dl, Parameter::Imm8(low(r.b)), Parameter::Empty),
                Decoded::new3(op, dl, Parameter::Empty, Parameter::Empty),
            ],
        ),
        Op::Div8 | Op::Idiv8 => Some(
            vec![
                Decoded::new3(Op::Mov16, ax, Parameter::Imm16(r.a), Parameter::Empty),
                Decoded::new3(Op::Mov8, dl, Parameter::Imm8(low(r.b)), Parameter::Empty),
                Decoded::new3(op, dl, Parameter::Empty, Parameter::Empty),
            ],
        ),
        Op::Xchg8 => Some(
            vec![
                Decoded::new3(Op::Mov8, al, Parameter::Imm8(low(r.a)), Parameter::Empty),
                Decoded::new3(Op::Mov8, dl, Parameter::Imm8(low(r.b)), Parameter::Empty),
                Decoded::new3(op, dl, bl, Parameter::Empty),
            ],
        ),
        Op::Lahf | Op::Salc | Op::Clc | Op::Cld | Op::Cli | Op::Cmc | Op::Stc | Op::Std | Op::Sti => Some(
            vec![Decoded::new3(Op::Push16, Parameter::Imm16(r.a), Parameter::Empty, Parameter::Empty), Decoded::new(Op::Popf), Decoded::new(op)],
        ),
        Op::Aas | Op::Aaa | Op::Daa | Op::Das | Op::Cbw => Some(
            vec![Decoded::new3(Op::Mov8, al, Parameter::Imm8(low(r.a)), Parameter::Empty), Decoded::new(op)],
        ),
        Op::Not8 | Op::Neg8 => Some(
            vec![Decoded::new3(Op::Mov8, al, Parameter::Imm8(low(r.a)), Parameter::Empty), Decoded::new3(op, al, Parameter::Empty, Parameter::Empty)],
        ),
        Op::Sahf => Some(vec![Decoded::new3(Op::Mov8, ah, Parameter::Imm8(low(r.a)), Parameter::Empty), Decoded::new(op)]),
        Op::Cwd16 => Some(vec![Decoded::new3(Op::Mov16, ax, Parameter::Imm16(r.a), Parameter::Empty), Decoded::new(op)]),
        Op::Aad | Op::Aam => Some(
            vec![
                Decoded::new3(Op::Mov16, ax, Parameter::Imm16(r.a), Parameter::Empty),
                Decoded::new3(op, Parameter::Imm8(low(r.b)), Parameter::Empty, Parameter::Empty),
            ],
        ),
        Op::Lea16 => Some(
            vec![
                Decoded::new3(Op::Mov16, bx, Parameter::Imm16(r.a), Parameter::Empty),
                Decoded::new3(op, ax, Parameter::Ptr16Amode(Segment::Default, AMode::BX), Parameter::Empty),
            ],
        ),
        Op::Nop => Some(vec![Decoded::new(op)]),
        _ => None,
    }
}

/// A snippet that sets up the state for an instruction kind and runs it,
/// with values drawn from `rng`: one value for each operand that the
/// snippet sets, in the order of the snippet, a byte for a byte operand and
/// a word for a word operand. The result is the snippet for some values.
pub fn get_mutator_snippet(op: &Op, rng: &mut XorShiftRng) -> (s: Vec<Decoded>)
    requires
        tested(*op),
    ensures
        exists|r: Draw| #[trigger] snippet(*op, r) == Some(s@),
{
    let r = match op {
        Op::Cmpsw => {
            let a = draw_u16(rng);
            let b = draw_u16(rng);
            Draw { a, b, c: 0 }
        },
        Op::Shld | Op::Shrd => {
            let a = draw_u16(rng);
            let b = draw_u16(rng);
            let c = draw_u8(rng);
            Draw { a, b, c: c as u16 }
        },
        Op::Div8 | Op::Idiv8 | Op::Aad | Op::Aam => {
            let a = draw_u16(rng);
            let b = draw_u8(rng);
            Draw { a, b: b as u16, c: 0 }
        },
        Op::Lahf | Op::Salc | Op::Clc | Op::Cld | Op::Cli | Op::Cmc | Op::Stc | Op::Std | Op::Sti
        | Op::Cwd16 | Op::Lea16 => {
            let a = draw_u16(rng);
            Draw { a, b: 0, c: 0 }
        },
        Op::Aas | Op::Aaa | Op::Daa | Op::Das | Op::Cbw | Op::Not8 | Op::Neg8 | Op::Sahf => {
            let a = draw_u8(rng);
            Draw { a: a as u16, b: 0, c: 0 }
        },
        Op::Shl8 | Op::Shr8 | Op::Sar8 | Op::Rol8 | Op::Ror8 | Op::Rcl8 | Op::Rcr8 | Op::Cmp8
        | Op::And8 | Op::Xor8 | Op::Or8 | Op::Add8 | Op::Adc8 | Op::Sub8 | Op::Sbb8 | Op::Test8
        | Op::Mul8 | Op::Imul8 | Op::Xchg8 => {
            let a = draw_u8(rng);
            let b = draw_u8(rng);
            Draw { a: a as u16, b: b as u16, c: 0 }
        },
        _ => Draw { a: 0, b: 0, c: 0 },
    };
    let s = snippet_of(*op, r);
    proof {
        assert(snippet(*op, r) == Some(s->0@));
    }
    s.unwrap()
}

} // verus!
