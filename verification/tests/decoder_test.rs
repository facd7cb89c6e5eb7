use dustbox::decoder::decode;
use dustbox::disasm::{amode, instruction_string, param_string, r16, r8, sreg, Instruction};
use dustbox::encoder::{EncodeError, Encoder};
use dustbox::instruction::{AMode, Decoded, OperandSize, Parameter, RepeatMode, Segment};
use dustbox::op::{Invalid, Op};

fn check(bytes: &[u8], command: Op, dst: Parameter, src: Parameter, length: u8) {
    let d = decode(bytes, 0x0100);
    assert_eq!(command, d.command, "{:02X?}", bytes);
    assert_eq!(dst, d.dst, "{:02X?}", bytes);
    assert_eq!(src, d.src, "{:02X?}", bytes);
    assert_eq!(length, d.length, "{:02X?}", bytes);
}

const E: Parameter = Parameter::Empty;

#[test]
fn decodes_moves() {
    check(&[0xB8, 0x23, 0x01], Op::Mov16, Parameter::Reg16(0), Parameter::Imm16(0x0123), 3);
    check(&[0xB2, 0x13], Op::Mov8, Parameter::Reg8(2), Parameter::Imm8(0x13), 2);
    check(&[0x8E, 0xC1], Op::Mov16, Parameter::SReg16(0), Parameter::Reg16(1), 2);
    check(&[0x8C, 0xD8], Op::Mov16, Parameter::Reg16(0), Parameter::SReg16(3), 2);
    check(&[0x8B, 0xE0], Op::Mov16, Parameter::Reg16(4), Parameter::Reg16(0), 2);
    check(&[0x88, 0xD0], Op::Mov8, Parameter::Reg8(0), Parameter::Reg8(2), 2);
    check(
        &[0xA1, 0x34, 0x12],
        Op::Mov16,
        Parameter::Reg16(0),
        Parameter::Ptr16(Segment::Default, 0x1234),
        3,
    );
    check(
        &[0xA2, 0x34, 0x12],
        Op::Mov8,
        Parameter::Ptr16(Segment::Default, 0x1234),
        Parameter::Reg8(0),
        3,
    );
    check(
        &[0xC7, 0x06, 0x00, 0x20, 0x34, 0x12],
        Op::Mov16,
        Parameter::Ptr16(Segment::Default, 0x2000),
        Parameter::Imm16(0x1234),
        6,
    );
    check(
        &[0xC6, 0x47, 0x10, 0x7F],
        Op::Mov8,
        Parameter::Ptr16AmodeS8(Segment::Default, AMode::BX, 0x10),
        Parameter::Imm8(0x7F),
        4,
    );
}

#[test]
fn decodes_addressing_modes() {
    let modes = [
        AMode::BXSI,
        AMode::BXDI,
        AMode::BPSI,
        AMode::BPDI,
        AMode::SI,
        AMode::DI,
        AMode::BP,
        AMode::BX,
    ];
    for rm in 0..8u8 {
        let mode = modes[rm as usize];
        // mod = 00
        if rm == 6 {
            check(
                &[0x8B, 0x06, 0x78, 0x56],
                Op::Mov16,
                Parameter::Reg16(0),
                Parameter::Ptr16(Segment::Default, 0x5678),
                4,
            );
        } else {
            check(
                &[0x8B, rm],
                Op::Mov16,
                Parameter::Reg16(0),
                Parameter::Ptr16Amode(Segment::Default, mode),
                2,
            );
        }
        // mod = 01, a signed displacement of 8 bits
        check(
            &[0x8B, 0x48 | rm, 0xFE],
            Op::Mov16,
            Parameter::Reg16(1),
            Parameter::Ptr16AmodeS8(Segment::Default, mode, -2),
            3,
        );
        // mod = 10, a displacement of 16 bits
        check(
            &[0x8B, 0x90 | rm, 0x00, 0x80],
            Op::Mov16,
            Parameter::Reg16(2),
            Parameter::Ptr16AmodeS16(Segment::Default, mode, -32768),
            4,
        );
        // mod = 11
        check(&[0x8B, 0xD8 | rm], Op::Mov16, Parameter::Reg16(3), Parameter::Reg16(rm), 2);
        check(&[0x8A, 0xD8 | rm], Op::Mov8, Parameter::Reg8(3), Parameter::Reg8(rm), 2);
        assert_eq!(rm, mode.index());
        assert_eq!(mode, AMode::of_rm(rm));
        assert_eq!(rm == 2 || rm == 3 || rm == 6, mode.is_bp_based());
    }
}

#[test]
fn decodes_arithmetic() {
    check(&[0x04, 0x01], Op::Add8, Parameter::Reg8(0), Parameter::Imm8(1), 2);
    check(&[0x05, 0x34, 0x12], Op::Add16, Parameter::Reg16(0), Parameter::Imm16(0x1234), 3);
    check(&[0x01, 0xD8], Op::Add16, Parameter::Reg16(0), Parameter::Reg16(3), 2);
    check(&[0x2B, 0xC3], Op::Sub16, Parameter::Reg16(0), Parameter::Reg16(3), 2);
    check(&[0x31, 0xC0], Op::Xor16, Parameter::Reg16(0), Parameter::Reg16(0), 2);
    check(&[0x3C, 0x0D], Op::Cmp8, Parameter::Reg8(0), Parameter::Imm8(0x0D), 2);
    check(&[0x81, 0xC7, 0xC0, 0x00], Op::Add16, Parameter::Reg16(7), Parameter::Imm16(0x00C0), 4);
    // an 8-bit immediate is sign-extended
    check(&[0x83, 0xEB, 0xFF], Op::Sub16, Parameter::Reg16(3), Parameter::Imm16(0xFFFF), 3);
    check(&[0x80, 0xFC, 0x42], Op::Cmp8, Parameter::Reg8(4), Parameter::Imm8(0x42), 3);
    check(&[0x49], Op::Dec16, Parameter::Reg16(1), E, 1);
    check(&[0x47], Op::Inc16, Parameter::Reg16(7), E, 1);
    check(&[0xFE, 0xC8], Op::Dec8, Parameter::Reg8(0), E, 2);
    check(&[0xFF, 0x06, 0x00, 0x10], Op::Inc16, Parameter::Ptr16(Segment::Default, 0x1000), E, 4);
    check(&[0xF6, 0xD0], Op::Not8, Parameter::Reg8(0), E, 2);
    check(&[0xF7, 0xDB], Op::Neg16, Parameter::Reg16(3), E, 2);
    check(&[0xF6, 0xE3], Op::Mul8, Parameter::Reg8(3), E, 2);
    check(&[0xF7, 0xF9], Op::Idiv16, Parameter::Reg16(1), E, 2);
    check(&[0xF6, 0xC3, 0x80], Op::Test8, Parameter::Reg8(3), Parameter::Imm8(0x80), 3);
    check(&[0xF7, 0xC1, 0x00, 0x80], Op::Test16, Parameter::Reg16(1), Parameter::Imm16(0x8000), 4);
    check(&[0xD0, 0xE0], Op::Shl8, Parameter::Reg8(0), Parameter::Imm8(1), 2);
    check(&[0xD3, 0xE8], Op::Shr16, Parameter::Reg16(0), Parameter::Reg8(1), 2);
    check(&[0xC1, 0xF8, 0x04], Op::Sar16, Parameter::Reg16(0), Parameter::Imm8(4), 3);
    check(&[0xD4, 0x0A], Op::Aam, Parameter::Imm8(10), E, 2);
    let d = decode(&[0x69, 0xC3, 0x10, 0x00], 0);
    assert_eq!(Op::Imul16, d.command);
    assert_eq!(Parameter::Reg16(0), d.dst);
    assert_eq!(Parameter::Reg16(3), d.src);
    assert_eq!(Parameter::Imm16(0x0010), d.src2);
    assert_eq!(4, d.length);
    let d = decode(&[0x6B, 0xC3, 0xF0], 0);
    assert_eq!(Parameter::Imm16(0xFFF0), d.src2);
    assert_eq!(3, d.length);
}

#[test]
fn decodes_transfers_with_absolute_targets() {
    // the target is relative to the end of the instruction
    check(&[0xEB, 0x02], Op::JmpShort, Parameter::Imm16(0x0104), E, 2);
    check(&[0xE2, 0xFD], Op::Loop, Parameter::Imm16(0x00FF), E, 2);
    check(&[0x74, 0x80], Op::Jz, Parameter::Imm16(0x0082), E, 2);
    check(&[0xE8, 0x00, 0x10], Op::CallNear, Parameter::Imm16(0x1103), E, 3);
    check(&[0xE9, 0xFD, 0xFF], Op::JmpNear, Parameter::Imm16(0x0100), E, 3);
    check(&[0xEA, 0x00, 0x01, 0x5F, 0x08], Op::JmpFar, Parameter::Ptr16Imm(0x085F, 0x0100), E, 5);
    check(&[0xFF, 0xE3], Op::JmpNear, Parameter::Reg16(3), E, 2);
    check(&[0xFF, 0x17], Op::CallNear, Parameter::Ptr16Amode(Segment::Default, AMode::BX), E, 2);
    check(&[0xC3], Op::Retn, E, E, 1);
    check(&[0xC2, 0x04, 0x00], Op::RetImm16, Parameter::Imm16(4), E, 3);
    check(&[0xCB], Op::Retf, E, E, 1);
    check(&[0xCD, 0x21], Op::Int, Parameter::Imm8(0x21), E, 2);
    check(&[0xCC], Op::Int, Parameter::Imm8(3), E, 1);
    check(&[0xCF], Op::Iret, E, E, 1);
    // the target wraps at 16 bits
    let d = decode(&[0xEB, 0x10], 0xFFF8);
    assert_eq!(Parameter::Imm16(0x000A), d.dst);
    let d = decode(&[0x0F, 0x84, 0x00, 0x01], 0x0100);
    assert_eq!(Op::Jz, d.command);
    assert_eq!(Parameter::Imm16(0x0204), d.dst);
    assert_eq!(4, d.length);
}

#[test]
fn decodes_stack_and_string_instructions() {
    check(&[0x1E], Op::Push16, Parameter::SReg16(3), E, 1);
    check(&[0x07], Op::Pop16, Parameter::SReg16(0), E, 1);
    check(&[0x50], Op::Push16, Parameter::Reg16(0), E, 1);
    check(&[0x5F], Op::Pop16, Parameter::Reg16(7), E, 1);
    check(&[0x68, 0x34, 0x12], Op::Push16, Parameter::Imm16(0x1234), E, 3);
    check(&[0x6A, 0x80], Op::Push16, Parameter::Imm16(0xFF80), E, 2);
    check(&[0x9C], Op::Pushf, E, E, 1);
    check(&[0x9D], Op::Popf, E, E, 1);
    check(&[0x60], Op::Pusha16, E, E, 1);
    check(&[0xC8, 0x10, 0x00, 0x00], Op::Enter, Parameter::Imm16(0x0010), Parameter::Imm8(0), 4);
    check(&[0xC9], Op::Leave, E, E, 1);
    check(&[0xAA], Op::Stosb, E, E, 1);
    check(&[0xA5], Op::Movsw, E, E, 1);
    check(&[0x0F, 0xA0], Op::Push16, Parameter::SReg16(4), E, 2);
    check(&[0x0F, 0xB6, 0xC3], Op::Movzx16, Parameter::Reg16(0), Parameter::Reg8(3), 3);
    check(&[0xD6], Op::Salc, E, E, 1);
    check(&[0xF4], Op::Hlt, E, E, 1);
    check(&[0x90], Op::Nop, E, E, 1);
    check(&[0x93], Op::Xchg16, Parameter::Reg16(0), Parameter::Reg16(3), 1);
    check(&[0xE4, 0x60], Op::In8, Parameter::Reg8(0), Parameter::Imm8(0x60), 2);
    check(&[0xEE], Op::Out8, Parameter::Reg16(2), Parameter::Reg8(0), 1);
}

#[test]
fn prefixes_stack_and_the_last_segment_wins() {
    let d = decode(&[0x26, 0x8B, 0x07], 0);
    assert_eq!(Segment::ES, d.segment_prefix);
    assert_eq!(Parameter::Ptr16Amode(Segment::ES, AMode::BX), d.src);
    assert_eq!(3, d.length);
    let d = decode(&[0x26, 0x2E, 0x36, 0xA0, 0x00, 0x10], 0);
    assert_eq!(Segment::SS, d.segment_prefix);
    assert_eq!(Parameter::Ptr16(Segment::SS, 0x1000), d.src);
    assert_eq!(6, d.length);
    let d = decode(&[0xF3, 0xA4], 0);
    assert_eq!(Op::Movsb, d.command);
    assert_eq!(RepeatMode::Rep, d.repeat);
    let d = decode(&[0xF3, 0xA6], 0);
    assert_eq!(RepeatMode::Repe, d.repeat);
    let d = decode(&[0xF2, 0xAE], 0);
    assert_eq!(RepeatMode::Repne, d.repeat);
    let d = decode(&[0xF0, 0x65, 0x01, 0x07], 0);
    assert!(d.lock);
    assert_eq!(Segment::GS, d.segment_prefix);
    assert_eq!(RepeatMode::NoRepeat, d.repeat);
    let d = decode(&[0x66, 0x67, 0x90], 0);
    assert_eq!(OperandSize::Bits32, d.op_size);
    assert_eq!(OperandSize::Bits32, d.address_size);
    assert_eq!(3, d.length);
    let d = decode(&[0x90], 0);
    assert_eq!(OperandSize::Bits16, d.op_size);
    assert_eq!(Segment::Default, d.segment_prefix);
    assert!(!d.lock);
}

#[test]
fn invalid_instructions() {
    // an opcode that is not in the map
    check(&[0x0F, 0xFF], Op::Invalid(Invalid::Op), E, E, 2);
    check(&[0x9B], Op::Invalid(Invalid::Op), E, E, 1);
    // a group without an instruction for the reg field
    check(&[0xFE, 0xD0], Op::Invalid(Invalid::Reg(2)), E, E, 2);
    check(&[0xFF, 0xF8], Op::Invalid(Invalid::Reg(7)), E, E, 2);
    check(&[0xF6, 0xC8, 0x00], Op::Invalid(Invalid::Reg(1)), E, E, 2);
    check(&[0xC6, 0xC8, 0x00], Op::Invalid(Invalid::Reg(1)), E, E, 2);
    check(&[0x8E, 0xF0], Op::Invalid(Invalid::Reg(6)), E, E, 2);
    // x87 escapes, with their operand
    check(&[0xD9, 0xC0], Op::Invalid(Invalid::FPUOp), E, E, 2);
    check(&[0xDD, 0x06, 0x00, 0x10], Op::Invalid(Invalid::FPUOp), E, E, 4);
    assert!(!Op::Invalid(Invalid::Op).is_valid());
    assert!(!Op::Uninitialized.is_valid());
    assert!(Op::Nop.is_valid());
}

#[test]
fn an_instruction_is_at_most_15_bytes_long() {
    // an instruction that the stream does not hold in full
    check(&[], Op::Invalid(Invalid::Op), E, E, 0);
    check(&[0xB8, 0x01], Op::Invalid(Invalid::Op), E, E, 2);
    check(&[0x26], Op::Invalid(Invalid::Op), E, E, 1);
    check(&[0x81, 0x06, 0x00], Op::Invalid(Invalid::Op), E, E, 3);
    // 15 prefixes and no opcode
    let prefixes = [0x26u8; 20];
    check(&prefixes, Op::Invalid(Invalid::Op), E, E, 15);
    // 14 prefixes and a one-byte opcode
    let mut bytes = vec![0x2Eu8; 14];
    bytes.push(0x90);
    bytes.push(0x90);
    let d = decode(&bytes, 0);
    assert_eq!(Op::Nop, d.command);
    assert_eq!(15, d.length);
    // 13 prefixes and an opcode with an immediate: one byte too many
    let mut bytes = vec![0x2Eu8; 13];
    bytes.extend_from_slice(&[0xB8, 0x01, 0x00]);
    let d = decode(&bytes, 0);
    assert_eq!(Op::Invalid(Invalid::Op), d.command);
    assert_eq!(15, d.length);
}

#[test]
fn the_length_is_the_number_of_bytes_consumed() {
    // every opcode byte, followed by a fixed tail: the bytes after the length
    // have no say in the result, and the bytes before it are all needed
    let tail_a = [0x12u8, 0x34, 0x56, 0x78, 0x9A, 0xBC, 0xDE, 0xF0, 0x11, 0x22, 0x33, 0x44, 0x55, 0x66, 0x77];
    let tail_b = [0x12u8, 0x34, 0x56, 0x78, 0x9A, 0xBC, 0x00, 0xFF, 0x00, 0xFF, 0x00, 0xFF, 0x00, 0xFF, 0x00];
    for opcode in 0..=255u8 {
        for second in [0x00u8, 0x06, 0x47, 0x86, 0xC3, 0xFF] {
            let mut bytes = vec![opcode, second];
            bytes.extend_from_slice(&tail_a);
            let d = decode(&bytes, 0x0100);
            assert!(d.length as usize <= 15);
            assert!(d.length as usize <= bytes.len());
            if d.command.is_valid() {
                assert!(d.length >= 1);
                let n = d.length as usize;
                let mut other = bytes[..n].to_vec();
                other.extend_from_slice(&tail_b);
                assert_eq!(d, decode(&other, 0x0100));
                assert_eq!(d, decode(&bytes[..n], 0x0100));
                if n < 15 {
                    let shorter = decode(&bytes[..n - 1], 0x0100);
                    assert!(shorter != d);
                }
            }
        }
    }
}

#[test]
fn group_indices() {
    assert_eq!(0, Op::Test8.f6_index());
    assert_eq!(2, Op::Not8.f6_index());
    assert_eq!(3, Op::Neg8.f6_index());
    assert_eq!(4, Op::Mul8.f6_index());
    assert_eq!(5, Op::Imul8.f6_index());
    assert_eq!(6, Op::Div8.f6_index());
    assert_eq!(7, Op::Idiv8.f6_index());
    assert_eq!(0, Op::Inc8.feff_index());
    assert_eq!(0, Op::Inc16.feff_index());
    assert_eq!(1, Op::Dec8.feff_index());
    assert_eq!(1, Op::Dec32.feff_index());
    assert_eq!(2, Op::CallNear.feff_index());
    assert_eq!(4, Op::JmpNear.feff_index());
    assert_eq!(6, Op::Push16.feff_index());
    // the decoder agrees
    for (op, index) in [(Op::Not8, 2u8), (Op::Neg8, 3), (Op::Mul8, 4), (Op::Imul8, 5), (Op::Div8, 6), (Op::Idiv8, 7)] {
        assert_eq!(op, decode(&[0xF6, 0xC0 | (index << 3)], 0).command);
    }
    for (op, index) in [(Op::Inc16, 0u8), (Op::Dec16, 1), (Op::CallNear, 2), (Op::JmpNear, 4), (Op::Push16, 6)] {
        assert_eq!(op, decode(&[0xFF, 0xC0 | (index << 3)], 0).command);
    }
}

fn round_trip(d: Decoded) -> Vec<u8> {
    let encoder = Encoder::new();
    let bytes = encoder.encode(&d).unwrap();
    let mut expected = d;
    expected.length = bytes.len() as u8;
    assert_eq!(expected, decode(&bytes, 0x0100), "{:02X?}", bytes);
    // the same with more bytes behind
    let mut longer = bytes.clone();
    longer.extend_from_slice(&[0xCC; 16]);
    assert_eq!(expected, decode(&longer, 0x0100));
    bytes
}

#[test]
fn encoded_instructions_decode_to_themselves() {
    assert_eq!(vec![0x90], round_trip(Decoded::new(Op::Nop)));
    assert_eq!(vec![0x9D], round_trip(Decoded::new(Op::Popf)));
    assert_eq!(vec![0xD5, 0x0A], round_trip(Decoded::new1(Op::Aad, Parameter::Imm8(10))));
    assert_eq!(vec![0x68, 0x00, 0x00], round_trip(Decoded::new1(Op::Push16, Parameter::Imm16(0))));
    assert_eq!(
        vec![0xB8, 0x34, 0x12],
        round_trip(Decoded::new2(Op::Mov16, Parameter::Reg16(0), Parameter::Imm16(0x1234)))
    );
    assert_eq!(
        vec![0xB4, 0x7F],
        round_trip(Decoded::new2(Op::Mov8, Parameter::Reg8(4), Parameter::Imm8(0x7F)))
    );
    assert_eq!(
        vec![0x80, 0xC0, 0x01],
        round_trip(Decoded::new2(Op::Add8, Parameter::Reg8(0), Parameter::Imm8(1)))
    );
    assert_eq!(
        vec![0x81, 0xFB, 0x34, 0x12],
        round_trip(Decoded::new2(Op::Cmp16, Parameter::Reg16(3), Parameter::Imm16(0x1234)))
    );
    assert_eq!(
        vec![0x86, 0xDA],
        round_trip(Decoded::new2(Op::Xchg8, Parameter::Reg8(2), Parameter::Reg8(3)))
    );
    assert_eq!(vec![0xF6, 0xE2], round_trip(Decoded::new1(Op::Mul8, Parameter::Reg8(2))));
    assert_eq!(vec![0xF6, 0xD8], round_trip(Decoded::new1(Op::Neg8, Parameter::Reg8(0))));
    assert_eq!(
        vec![0xF6, 0xC0, 0x80],
        round_trip(Decoded::new2(Op::Test8, Parameter::Reg8(0), Parameter::Imm8(0x80)))
    );
    assert_eq!(
        vec![0xC0, 0xE8, 0x03],
        round_trip(Decoded::new2(Op::Shr8, Parameter::Reg8(0), Parameter::Imm8(3)))
    );
    assert_eq!(
        vec![0xD3, 0xF8],
        round_trip(Decoded::new2(Op::Sar16, Parameter::Reg16(0), Parameter::Reg8(1)))
    );
    assert_eq!(
        vec![0x8D, 0x07],
        round_trip(Decoded::new2(
            Op::Lea16,
            Parameter::Reg16(0),
            Parameter::Ptr16Amode(Segment::Default, AMode::BX)
        ))
    );
    assert_eq!(
        vec![0xC7, 0x04, 0x30, 0x30],
        round_trip(Decoded::new2(
            Op::Mov16,
            Parameter::Ptr16Amode(Segment::Default, AMode::SI),
            Parameter::Imm16(0x3030)
        ))
    );
    assert_eq!(
        vec![0x8E, 0xD8],
        round_trip(Decoded::new2(Op::Mov16, Parameter::SReg16(3), Parameter::Reg16(0)))
    );
    assert_eq!(vec![0xFF, 0xF3], round_trip(Decoded::new1(Op::Push16, Parameter::Reg16(3))));
    assert_eq!(vec![0x1E], round_trip(Decoded::new1(Op::Push16, Parameter::SReg16(3))));
    assert_eq!(vec![0x8F, 0xC1], round_trip(Decoded::new1(Op::Pop16, Parameter::Reg16(1))));
    assert_eq!(vec![0xFE, 0xC4], round_trip(Decoded::new1(Op::Inc8, Parameter::Reg8(4))));
    assert_eq!(vec![0xFF, 0xE0], round_trip(Decoded::new1(Op::JmpNear, Parameter::Reg16(0))));
}

#[test]
fn encoded_memory_operands_and_prefixes_decode_to_themselves() {
    let mut d = Decoded::new2(
        Op::Add16,
        Parameter::Ptr16AmodeS8(Segment::ES, AMode::BPDI, -3),
        Parameter::Reg16(2),
    );
    d.segment_prefix = Segment::ES;
    assert_eq!(vec![0x26, 0x01, 0x53, 0xFD], round_trip(d));
    let mut d = Decoded::new2(
        Op::Mov8,
        Parameter::Reg8(7),
        Parameter::Ptr16AmodeS16(Segment::CS, AMode::SI, -0x1234),
    );
    d.segment_prefix = Segment::CS;
    d.lock = true;
    assert_eq!(vec![0xF0, 0x2E, 0x8A, 0xBC, 0xCC, 0xED], round_trip(d));
    let d = Decoded::new2(
        Op::Sub8,
        Parameter::Ptr16(Segment::Default, 0xBEEF),
        Parameter::Imm8(5),
    );
    assert_eq!(vec![0x80, 0x2E, 0xEF, 0xBE, 0x05], round_trip(d));
    let mut d = Decoded::new(Op::Movsb);
    d.repeat = RepeatMode::Rep;
    assert_eq!(vec![0xF3, 0xA4], round_trip(d));
    let mut d = Decoded::new(Op::Cmpsw);
    d.repeat = RepeatMode::Repe;
    assert_eq!(vec![0xF3, 0xA7], round_trip(d));
    let mut d = Decoded::new(Op::Scasb);
    d.repeat = RepeatMode::Repne;
    d.segment_prefix = Segment::FS;
    assert_eq!(vec![0xF2, 0x64, 0xAE], round_trip(d));
    // every register form of every two-operand arithmetic instruction
    let ops8 = [Op::Add8, Op::Or8, Op::Adc8, Op::Sbb8, Op::And8, Op::Sub8, Op::Xor8, Op::Cmp8];
    let ops16 = [Op::Add16, Op::Or16, Op::Adc16, Op::Sbb16, Op::And16, Op::Sub16, Op::Xor16, Op::Cmp16];
    for i in 0..8 {
        for r in 0..8u8 {
            round_trip(Decoded::new2(ops8[i], Parameter::Reg8(r), Parameter::Reg8(7 - r)));
            round_trip(Decoded::new2(ops16[i], Parameter::Reg16(r), Parameter::Reg16(7 - r)));
            round_trip(Decoded::new2(ops8[i], Parameter::Reg8(r), Parameter::Imm8(0x80 | r)));
            round_trip(Decoded::new2(
                ops16[i],
                Parameter::Reg16(r),
                Parameter::Ptr16AmodeS8(Segment::Default, AMode::of_rm(r), 0x7F),
            ));
        }
    }
}

#[test]
fn what_the_encoder_does_not_emit() {
    let encoder = Encoder::new();
    // a relative target
    let d = Decoded::new1(Op::JmpShort, Parameter::Imm16(0x0100));
    assert_eq!(Err(EncodeError::Unsupported), encoder.encode(&d));
    // [bp] without a displacement
    let d = Decoded::new2(
        Op::Mov16,
        Parameter::Reg16(0),
        Parameter::Ptr16Amode(Segment::Default, AMode::BP),
    );
    assert_eq!(Err(EncodeError::Unsupported), encoder.encode(&d));
    // a memory operand under another segment than the prefix
    let d = Decoded::new2(
        Op::Mov16,
        Parameter::Reg16(0),
        Parameter::Ptr16(Segment::ES, 0x1000),
    );
    assert_eq!(Err(EncodeError::Unsupported), encoder.encode(&d));
    // operands of the wrong width
    let d = Decoded::new2(Op::Add8, Parameter::Reg16(0), Parameter::Imm8(1));
    assert_eq!(Err(EncodeError::Unsupported), encoder.encode(&d));
    let d = Decoded::new2(Op::Add16, Parameter::Reg16(0), Parameter::Imm8(1));
    assert_eq!(Err(EncodeError::Unsupported), encoder.encode(&d));
    // REPE on an instruction that does not compare
    let mut d = Decoded::new(Op::Movsb);
    d.repeat = RepeatMode::Repe;
    assert_eq!(Err(EncodeError::Unsupported), encoder.encode(&d));
    let mut d = Decoded::new(Op::Nop);
    d.op_size = OperandSize::Bits32;
    assert_eq!(Err(EncodeError::Unsupported), encoder.encode(&d));
    assert_eq!(Err(EncodeError::Unsupported), encoder.encode(&Decoded::new(Op::Uninitialized)));
    // one instruction that cannot be encoded spoils the sequence
    let ops = vec![Decoded::new(Op::Nop), Decoded::new1(Op::Jz, Parameter::Imm16(0))];
    assert_eq!(Err(EncodeError::Unsupported), encoder.encode_vec(&ops));
    let ops = vec![
        Decoded::new2(Op::Mov16, Parameter::Reg16(0), Parameter::Imm16(0)),
        Decoded::new1(Op::Push16, Parameter::Imm16(0)),
        Decoded::new(Op::Popf),
    ];
    assert_eq!(Ok(vec![0xB8, 0x00, 0x00, 0x68, 0x00, 0x00, 0x9D]), encoder.encode_vec(&ops));
    assert_eq!(Ok(vec![]), encoder.encode_vec(&vec![]));
}

#[test]
fn names_of_registers_and_addressing_modes() {
    assert_eq!(["es", "cs", "ss", "ds", "fs", "gs", "?"], [sreg(0), sreg(1), sreg(2), sreg(3), sreg(4), sreg(5), sreg(6)]);
    assert_eq!("bx+si", amode(0));
    assert_eq!("bx+di", amode(1));
    assert_eq!("bp+si", amode(2));
    assert_eq!("bp+di", amode(3));
    assert_eq!("si", amode(4));
    assert_eq!("di", amode(5));
    assert_eq!("bp", amode(6));
    assert_eq!("bx", amode(7));
    assert_eq!("?", amode(8));
    assert_eq!("al", r8(0));
    assert_eq!("bh", r8(7));
    assert_eq!("ax", r16(0));
    assert_eq!("di", r16(7));
    assert_eq!("?", r16(8));
}

#[test]
fn instructions_as_text() {
    assert_eq!("0x7F", param_string(&Parameter::Imm8(0x7F)));
    assert_eq!("0x00AB", param_string(&Parameter::Imm16(0xAB)));
    assert_eq!("0x0000BEEF", param_string(&Parameter::Imm32(0xBEEF)));
    assert_eq!("dl", param_string(&Parameter::Reg8(2)));
    assert_eq!("sp", param_string(&Parameter::Reg16(4)));
    assert_eq!("ds", param_string(&Parameter::SReg16(3)));
    assert_eq!("[bx+si]", param_string(&Parameter::Ptr16Amode(Segment::Default, AMode::BXSI)));
    assert_eq!("[es:di+0x10]", param_string(&Parameter::Ptr16AmodeS8(Segment::ES, AMode::DI, 0x10)));
    assert_eq!("[bp-0x80]", param_string(&Parameter::Ptr16AmodeS8(Segment::Default, AMode::BP, -128)));
    assert_eq!("[si-0x8000]", param_string(&Parameter::Ptr16AmodeS16(Segment::Default, AMode::SI, -32768)));
    assert_eq!("[bx+0x662C]", param_string(&Parameter::Ptr16AmodeS16(Segment::Default, AMode::BX, 0x662C)));
    assert_eq!("[cs:0x1234]", param_string(&Parameter::Ptr16(Segment::CS, 0x1234)));
    assert_eq!("FFFF:0000", param_string(&Parameter::Ptr16Imm(0xFFFF, 0)));
    assert_eq!("", param_string(&Parameter::Empty));
    assert_eq!("Nop", instruction_string(&decode(&[0x90], 0)));
    assert_eq!("Push16  ds", instruction_string(&decode(&[0x1E], 0)));
    assert_eq!("Mov16  cx, 0x0123", instruction_string(&decode(&[0xB9, 0x23, 0x01], 0)));
    assert_eq!("Imul16  ax, bx, 0x0010", instruction_string(&decode(&[0x69, 0xC3, 0x10, 0x00], 0)));
    assert_eq!("Invalid", instruction_string(&decode(&[0x0F, 0xFF], 0)));
}

#[test]
fn listing_lines() {
    let line = Instruction {
        offset: 0x86F0,
        length: 3,
        text: String::from("Mov16  cx, 0x0123"),
        bytes: vec![0xB9, 0x23, 0x01],
    };
    assert_eq!("B9 23 01", line.to_hex_string(&line.bytes));
    assert_eq!("[0086F0] B9 23 01   Mov16  cx, 0x0123", line.pretty_string());
    let line = Instruction { offset: 0x1234567, length: 0, text: String::new(), bytes: vec![] };
    assert_eq!("", line.to_hex_string(&line.bytes));
    assert_eq!("[1234567]    ", line.pretty_string());
    let line = Instruction { offset: 0, length: 1, text: String::from("Nop"), bytes: vec![0x90] };
    assert_eq!("[000000] 90   Nop", line.pretty_string());
    assert_eq!("0F AB", line.to_hex_string(&vec![0x0F, 0xAB]));
}
