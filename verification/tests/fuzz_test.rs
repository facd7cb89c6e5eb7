use dustbox::cpu::CPU;
use dustbox::decoder::decode;
use dustbox::encoder::Encoder;
use dustbox::fuzz::{get_mutator_snippet, is_tested, snippet_of, Draw};
use dustbox::instruction::{AMode, Decoded, Parameter, Segment};
use dustbox::op::Op;
use rand::{Rng, XorShiftRng};

const TESTED: [Op; 43] = [
    Op::Cmpsw, Op::Shld, Op::Shrd, Op::Aaa, Op::Aas, Op::Aad, Op::Daa, Op::Das, Op::Aam, Op::Shl8,
    Op::Rol8, Op::Ror8, Op::Rcr8, Op::Rcl8, Op::Shr8, Op::Sar8, Op::Cmp8, Op::And8, Op::Xor8,
    Op::Or8, Op::Add8, Op::Adc8, Op::Sub8, Op::Sbb8, Op::Test8, Op::Not8, Op::Mul8, Op::Imul8,
    Op::Xchg8, Op::Div8, Op::Idiv8, Op::Neg8, Op::Lahf, Op::Sahf, Op::Salc, Op::Nop, Op::Clc,
    Op::Cld, Op::Cli, Op::Cmc, Op::Stc, Op::Cbw, Op::Lea16,
];

#[test]
fn snippets_end_with_the_instruction_and_can_be_encoded() {
    let encoder = Encoder::new();
    let draw = Draw { a: 0x1234, b: 0xABCD, c: 0x0F05 };
    for op in TESTED.iter().chain([Op::Std, Op::Sti, Op::Cwd16].iter()) {
        let snippet = snippet_of(*op, draw).unwrap();
        assert_eq!(*op, snippet.last().unwrap().command);
        let bytes = encoder.encode_vec(&snippet).unwrap();
        // the bytes decode to the snippet
        let mut at = 0;
        for d in snippet.iter() {
            let got = decode(&bytes[at..], 0);
            let mut expected = *d;
            expected.length = got.length;
            assert_eq!(expected, got);
            at += got.length as usize;
        }
        assert_eq!(bytes.len(), at);
    }
    assert_eq!(None, snippet_of(Op::Hlt, draw).map(|s| s.len()));
    assert_eq!(None, snippet_of(Op::Mov16, draw).map(|s| s.len()));
}

#[test]
fn snippets_put_the_drawn_values_into_the_operands() {
    let draw = Draw { a: 0x1234, b: 0xABCD, c: 0x0F05 };
    assert_eq!(
        vec![
            Decoded::new2(Op::Mov8, Parameter::Reg8(0), Parameter::Imm8(0x34)),
            Decoded::new2(Op::Add8, Parameter::Reg8(0), Parameter::Imm8(0xCD)),
        ],
        snippet_of(Op::Add8, draw).unwrap()
    );
    assert_eq!(
        vec![
            Decoded::new2(Op::Mov16, Parameter::Reg16(0), Parameter::Imm16(0x1234)),
            Decoded::new2(Op::Mov16, Parameter::Reg16(2), Parameter::Imm16(0xABCD)),
            Decoded::new3(Op::Shld, Parameter::Reg16(0), Parameter::Reg16(2), Parameter::Imm8(0x05)),
        ],
        snippet_of(Op::Shld, draw).unwrap()
    );
    assert_eq!(
        vec![
            Decoded::new1(Op::Push16, Parameter::Imm16(0x1234)),
            Decoded::new(Op::Popf),
            Decoded::new(Op::Cmc),
        ],
        snippet_of(Op::Cmc, draw).unwrap()
    );
    assert_eq!(
        vec![
            Decoded::new2(Op::Mov16, Parameter::Reg16(3), Parameter::Imm16(0x1234)),
            Decoded::new2(
                Op::Lea16,
                Parameter::Reg16(0),
                Parameter::Ptr16Amode(Segment::Default, AMode::BX)
            ),
        ],
        snippet_of(Op::Lea16, draw).unwrap()
    );
    assert_eq!(5, snippet_of(Op::Cmpsw, draw).unwrap().len());
    assert_eq!(vec![Decoded::new(Op::Nop)], snippet_of(Op::Nop, draw).unwrap());
}

#[test]
fn a_snippet_runs() {
    let encoder = Encoder::new();
    let snippet = snippet_of(Op::Shld, Draw { a: 0x1234, b: 0xABCD, c: 4 }).unwrap();
    let bytes = encoder.encode_vec(&snippet).unwrap();
    assert_eq!(vec![0xB8, 0x34, 0x12, 0xBA, 0xCD, 0xAB, 0x0F, 0xA4, 0xD0, 0x04], bytes);
    let mut cpu = CPU::new();
    cpu.load_rom(&bytes, 0x100);
    for _ in 0..3 {
        cpu.execute_instruction();
    }
    assert_eq!(0x234A, cpu.r16[0].u16());
    assert!(cpu.flags.carry);
    assert!(!cpu.fatal_error);
}

#[test]
fn two_byte_opcodes_are_encoded() {
    let encoder = Encoder::new();
    let cases: Vec<(Decoded, Vec<u8>)> = vec![
        (
            Decoded::new2(Op::Movzx16, Parameter::Reg16(1), Parameter::Reg8(0)),
            vec![0x0F, 0xB6, 0xC8],
        ),
        (
            Decoded::new2(
                Op::Movsx16,
                Parameter::Reg16(6),
                Parameter::Ptr16(Segment::Default, 0x1000),
            ),
            vec![0x0F, 0xBE, 0x36, 0x00, 0x10],
        ),
        (Decoded::new2(Op::Bt, Parameter::Reg16(0), Parameter::Reg16(3)), vec![0x0F, 0xA3, 0xD8]),
        (Decoded::new2(Op::Bts, Parameter::Reg16(0), Parameter::Reg16(3)), vec![0x0F, 0xAB, 0xD8]),
        (Decoded::new2(Op::Bsf, Parameter::Reg16(1), Parameter::Reg16(0)), vec![0x0F, 0xBC, 0xC8]),
        (Decoded::new1(Op::Setc, Parameter::Reg8(3)), vec![0x0F, 0x92, 0xC3]),
        (Decoded::new1(Op::Setnz, Parameter::Reg8(0)), vec![0x0F, 0x95, 0xC0]),
        (Decoded::new1(Op::Setg, Parameter::Reg8(7)), vec![0x0F, 0x9F, 0xC7]),
        (
            Decoded::new3(Op::Shrd, Parameter::Reg16(0), Parameter::Reg16(2), Parameter::Imm8(3)),
            vec![0x0F, 0xAC, 0xD0, 0x03],
        ),
        (Decoded::new2(Op::Imul16, Parameter::Reg16(1), Parameter::Reg16(3)), vec![0x0F, 0xAF, 0xCB]),
        (
            Decoded::new3(Op::Imul16, Parameter::Reg16(1), Parameter::Reg16(3), Parameter::Imm16(0xFFFE)),
            vec![0x69, 0xCB, 0xFE, 0xFF],
        ),
        (Decoded::new1(Op::Imul16, Parameter::Reg16(3)), vec![0xF7, 0xEB]),
        (Decoded::new1(Op::Push16, Parameter::SReg16(4)), vec![0x0F, 0xA0]),
        (Decoded::new1(Op::Pop16, Parameter::SReg16(5)), vec![0x0F, 0xA9]),
    ];
    for (d, bytes) in cases {
        assert_eq!(Ok(bytes.clone()), encoder.encode(&d), "{:?}", d);
        let mut expected = d;
        expected.length = bytes.len() as u8;
        assert_eq!(expected, decode(&bytes, 0x0100));
    }
}

#[test]
fn a_snippet_holds_what_the_generator_gave() {
    let mut rng = XorShiftRng::new_unseeded();
    let mut same = XorShiftRng::new_unseeded();
    let a: u8 = same.gen();
    let b: u8 = same.gen();
    assert_eq!(
        vec![
            Decoded::new2(Op::Mov8, Parameter::Reg8(0), Parameter::Imm8(a)),
            Decoded::new2(Op::Add8, Parameter::Reg8(0), Parameter::Imm8(b)),
        ],
        get_mutator_snippet(&Op::Add8, &mut rng)
    );
    // the generator has moved on: the next snippet has the next values
    let x: u16 = same.gen();
    let y: u16 = same.gen();
    let z: u8 = same.gen();
    assert_eq!(
        vec![
            Decoded::new2(Op::Mov16, Parameter::Reg16(0), Parameter::Imm16(x)),
            Decoded::new2(Op::Mov16, Parameter::Reg16(2), Parameter::Imm16(y)),
            Decoded::new3(Op::Shrd, Parameter::Reg16(0), Parameter::Reg16(2), Parameter::Imm8(z)),
        ],
        get_mutator_snippet(&Op::Shrd, &mut rng)
    );
    let v: u16 = same.gen();
    let w: u8 = same.gen();
    assert_eq!(
        vec![
            Decoded::new2(Op::Mov16, Parameter::Reg16(0), Parameter::Imm16(v)),
            Decoded::new1(Op::Aam, Parameter::Imm8(w)),
        ],
        get_mutator_snippet(&Op::Aam, &mut rng)
    );
    // no value is drawn for an instruction without operands to set
    assert_eq!(vec![Decoded::new(Op::Nop)], get_mutator_snippet(&Op::Nop, &mut rng));
    let f: u16 = same.gen();
    assert_eq!(
        vec![
            Decoded::new1(Op::Push16, Parameter::Imm16(f)),
            Decoded::new(Op::Popf),
            Decoded::new(Op::Stc),
        ],
        get_mutator_snippet(&Op::Stc, &mut rng)
    );
    // the stream of an unseeded generator is fixed, and it is not constant
    assert!(a != b || x != y);
}

#[test]
fn every_tested_kind_has_a_snippet_from_the_generator() {
    let encoder = Encoder::new();
    let mut rng = XorShiftRng::new_unseeded();
    for op in TESTED.iter().chain([Op::Std, Op::Sti, Op::Cwd16].iter()) {
        assert!(is_tested(op));
        let snippet = get_mutator_snippet(op, &mut rng);
        assert_eq!(*op, snippet.last().unwrap().command);
        assert_eq!(snippet.len(), snippet_of(*op, Draw { a: 0, b: 0, c: 0 }).unwrap().len());
        assert!(encoder.encode_vec(&snippet).is_ok());
    }
    assert!(!is_tested(&Op::Hlt));
    assert!(!is_tested(&Op::Mov16));
    assert!(!is_tested(&Op::Shl16));
}
