//! The instruction decoder: from the bytes at the instruction pointer to a
//! typed instruction record.
//!
//! An instruction is at most 15 bytes long. Any number of prefix bytes comes
//! first, then the opcode (one byte, or 0Fh and a second byte), then the
//! ModR/M byte and its displacement where the opcode has one, then the
//! immediate operands in operand order.
use vstd::prelude::*;
use crate::address::wrap16;
use crate::instruction::{AMode, Decoded, OperandSize, Parameter, RepeatMode, Segment};
use crate::op::{Invalid, Op};
use crate::opcode::{
    arg_wf, effective_src, effective_src_of, lookup_primary, lookup_secondary, primary, secondary,
    select, select_op, Arg, Entry,
};

verus! {

/// The longest encoding, in bytes.
pub const MAX_LENGTH: usize = 15;

/// What the prefix bytes in front of an opcode say.
#[derive(Clone, Copy, Debug, PartialEq, Eq, Structural)]
pub struct Prefixes {
    /// number of prefix bytes
    pub count: u8,
    /// the last segment override
    pub segment: Segment,
    /// `Rep` for F3h, `Repne` for F2h
    pub repeat: RepeatMode,
    pub lock: bool,
    pub op_size: OperandSize,
    pub address_size: OperandSize,
}

pub open spec fn no_prefixes() -> Prefixes {
    Prefixes {
        count: 0,
        segment: Segment::Default,
        repeat: RepeatMode::NoRepeat,
        lock: false,
        op_size: OperandSize::Bits16,
        address_size: OperandSize::Bits16,
    }
}

/// The prefix bytes: segment overrides, operand size, address size, LOCK,
/// REPNE and REP.
pub open spec fn is_prefix(b: u8) -> bool {
    b == 0x26 || b == 0x2E || b == 0x36 || b == 0x3E || b == 0x64 || b == 0x65 || b == 0x66 || b
        == 0x67 || b == 0xF0 || b == 0xF2 || b == 0xF3
}

/// `p` after one more prefix byte `b`: prefixes stack, and of two prefixes of
/// one kind the later wins.
pub open spec fn with_prefix(p: Prefixes, b: u8) -> Prefixes {
    let q = Prefixes { count: (p.count + 1) as u8, ..p };
    match b {
        0x26 => Prefixes { segment: Segment::ES, ..q },
        0x2E => Prefixes { segment: Segment::CS, ..q },
        0x36 => Prefixes { segment: Segment::SS, ..q },
        0x3E => Prefixes { segment: Segment::DS, ..q },
        0x64 => Prefixes { segment: Segment::FS, ..q },
        0x65 => Prefixes { segment: Segment::GS, ..q },
        0x66 => Prefixes { op_size: OperandSize::Bits32, ..q },
        0x67 => Prefixes { address_size: OperandSize::Bits32, ..q },
        0xF0 => Prefixes { lock: true, ..q },
        0xF2 => Prefixes { repeat: RepeatMode::Repne, ..q },
        0xF3 => Prefixes { repeat: RepeatMode::Rep, ..q },
        _ => q,
    }
}

/// The prefixes of the instruction in `w`, scanning on from index `i` with
/// `p` gathered so far.
pub open spec fn scan_prefixes(w: Seq<u8>, i: int, p: Prefixes) -> Prefixes
    decreases w.len() - i,
{
    if 0 <= i < w.len() && is_prefix(w[i]) {
        scan_prefixes(w, i + 1, with_prefix(p, w[i]))
    } else {
        p
    }
}

/// The part of the byte stream that one instruction can occupy: its first 15
/// bytes.
pub open spec fn window(bytes: Seq<u8>) -> Seq<u8> {
    if bytes.len() > MAX_LENGTH {
        bytes.subrange(0, MAX_LENGTH as int)
    } else {
        bytes
    }
}

/// Byte `i` of the window; past its end, 0.
pub open spec fn byte_at(w: Seq<u8>, i: int) -> u8 {
    if 0 <= i < w.len() {
        w[i]
    } else {
        0
    }
}

/// The little-endian word at index `i` of the window.
pub open spec fn word_at(w: Seq<u8>, i: int) -> u16 {
    (byte_at(w, i) as int + 256 * (byte_at(w, i + 1) as int)) as u16
}

/// The byte as a signed number.
pub open spec fn signed8(b: u8) -> int {
    if b < 128 {
        b as int
    } else {
        b as int - 256
    }
}

/// The word as a signed number.
pub open spec fn signed16(v: u16) -> int {
    if v < 0x8000 {
        v as int
    } else {
        v as int - 0x1_0000
    }
}

/// The fields of a ModR/M byte.
#[derive(Clone, Copy, Debug, PartialEq, Eq, Structural)]
pub struct ModRm {
    pub md: u8,
    pub reg: u8,
    pub rm: u8,
}

/// `mod` is the top two bits, `reg` the middle three, `rm` the low three.
pub open spec fn split_modrm(b: u8) -> ModRm {
    ModRm { md: b / 64, reg: (b / 8) % 8, rm: b % 8 }
}

/// Number of displacement bytes that follow the ModR/M byte.
pub open spec fn disp_len(m: ModRm) -> int {
    if m.md == 0 {
        if m.rm == 6 {
            2
        } else {
            0
        }
    } else if m.md == 1 {
        1
    } else if m.md == 2 {
        2
    } else {
        0
    }
}

/// The r/m operand: a register for `mod` = 3, else memory, with the
/// displacement that starts at index `at` of the window.
pub open spec fn rm_param(m: ModRm, w: Seq<u8>, at: int, seg: Segment, wide: bool) -> Parameter {
    if m.md == 3 {
        if wide {
            Parameter::Reg16(m.rm)
        } else {
            Parameter::Reg8(m.rm)
        }
    } else if m.md == 0 {
        if m.rm == 6 {
            Parameter::Ptr16(seg, word_at(w, at))
        } else {
            Parameter::Ptr16Amode(seg, AMode::from_rm(m.rm))
        }
    } else if m.md == 1 {
        Parameter::Ptr16AmodeS8(seg, AMode::from_rm(m.rm), signed8(byte_at(w, at)) as i8)
    } else {
        Parameter::Ptr16AmodeS16(seg, AMode::from_rm(m.rm), signed16(word_at(w, at)) as i16)
    }
}

/// Number of immediate bytes that the operand form takes.
pub open spec fn arg_len(a: Arg) -> int {
    match a {
        Arg::Imm8 | Arg::Imm8S | Arg::Rel8 => 1,
        Arg::Imm16 | Arg::Rel16 | Arg::Moffs => 2,
        Arg::Far => 4,
        _ => 0,
    }
}

/// The operand of form `a`. Its immediate bytes start at index `pos` of the
/// window, the displacement of the ModR/M byte at `disp_at`. Relative
/// targets are resolved against `ip`, the offset of the instruction.
pub open spec fn arg_param(
    a: Arg,
    w: Seq<u8>,
    pos: int,
    m: ModRm,
    disp_at: int,
    code: u8,
    seg: Segment,
    ip: u16,
) -> Parameter {
    match a {
        Arg::Empty => Parameter::Empty,
        Arg::Rm8 => rm_param(m, w, disp_at, seg, false),
        Arg::Rm16 => rm_param(m, w, disp_at, seg, true),
        Arg::R8 => Parameter::Reg8(m.reg),
        Arg::R16 => Parameter::Reg16(m.reg),
        Arg::SReg => Parameter::SReg16(m.reg),
        Arg::Imm8 => Parameter::Imm8(byte_at(w, pos)),
        Arg::Imm16 => Parameter::Imm16(word_at(w, pos)),
        Arg::Imm8S => Parameter::Imm16(wrap16(signed8(byte_at(w, pos)))),
        Arg::Rel8 => Parameter::Imm16(wrap16(ip + pos + 1 + signed8(byte_at(w, pos)))),
        Arg::Rel16 => Parameter::Imm16(wrap16(ip + pos + 2 + word_at(w, pos))),
        Arg::One => Parameter::Imm8(1),
        Arg::Three => Parameter::Imm8(3),
        Arg::FixReg8(i) => Parameter::Reg8(i),
        Arg::FixReg16(i) => Parameter::Reg16(i),
        Arg::FixSReg(i) => Parameter::SReg16(i),
        Arg::OpReg8 => Parameter::Reg8(code % 8),
        Arg::OpReg16 => Parameter::Reg16(code % 8),
        Arg::Moffs => Parameter::Ptr16(seg, word_at(w, pos)),
        Arg::Far => Parameter::Ptr16Imm(word_at(w, pos + 2), word_at(w, pos)),
    }
}

/// F3h in front of CMPS and SCAS repeats while equal; elsewhere it is a plain
/// repeat.
pub open spec fn repeat_of(op: Op, prefix: RepeatMode) -> RepeatMode {
    if prefix == RepeatMode::Rep && (op == Op::Cmpsb || op == Op::Cmpsw || op == Op::Scasb || op
        == Op::Scasw) {
        RepeatMode::Repe
    } else {
        prefix
    }
}

/// The record of an undecodable instruction of which `length` bytes were
/// read.
pub open spec fn invalid(reason: Invalid, length: int, p: Prefixes) -> Decoded {
    Decoded {
        command: Op::Invalid(reason),
        dst: Parameter::Empty,
        src: Parameter::Empty,
        src2: Parameter::Empty,
        segment_prefix: p.segment,
        repeat: p.repeat,
        lock: p.lock,
        op_size: p.op_size,
        address_size: p.address_size,
        length: length as u8,
    }
}

/// The instruction with table row `e`. `m` is its ModR/M byte, the
/// displacement starts at `disp_at` and the immediates at `pos`.
#[verifier::opaque]
pub open spec fn decode_operands(
    w: Seq<u8>,
    p: Prefixes,
    ip: u16,
    e: Entry,
    code: u8,
    m: ModRm,
    disp_at: int,
    pos: int,
) -> Decoded {
    match select(e.sel, m.reg) {
        Err(reason) => invalid(
            reason,
            if reason == Invalid::FPUOp {
                pos
            } else {
                disp_at
            },
            p,
        ),
        Ok(op) => if e.has_sreg() && m.reg >= 6 {
            invalid(Invalid::Reg(m.reg), disp_at, p)
        } else {
            let src = effective_src(e.sel, m.reg, e.src);
            let after_dst = pos + arg_len(e.dst);
            let after_src = after_dst + arg_len(src);
            let end = after_src + arg_len(e.src2);
            Decoded {
                command: op,
                dst: arg_param(e.dst, w, pos, m, disp_at, code, p.segment, ip),
                src: arg_param(src, w, after_dst, m, disp_at, code, p.segment, ip),
                src2: arg_param(e.src2, w, after_src, m, disp_at, code, p.segment, ip),
                segment_prefix: p.segment,
                repeat: repeat_of(op, p.repeat),
                lock: p.lock,
                op_size: p.op_size,
                address_size: p.address_size,
                length: end as u8,
            }
        },
    }
}

/// The instruction whose opcode follows the prefixes `p`, reading bytes past
/// the end of the window as 0.
#[verifier::opaque]
pub open spec fn decode_opcode(w: Seq<u8>, p: Prefixes, ip: u16) -> Decoded {
    let n = p.count as int;
    let b = byte_at(w, n);
    let two = b == 0x0F;
    let code = if two {
        byte_at(w, n + 1)
    } else {
        b
    };
    let e = if two {
        secondary(code)
    } else {
        primary(code)
    };
    let after = if two {
        n + 2
    } else {
        n + 1
    };
    if e.has_modrm() {
        let m = split_modrm(byte_at(w, after));
        decode_operands(w, p, ip, e, code, m, after + 1, after + 1 + disp_len(m))
    } else {
        decode_operands(w, p, ip, e, code, ModRm { md: 0, reg: 0, rm: 0 }, after, after)
    }
}

/// The instruction that the byte stream `bytes` starts with, when its first
/// byte lies at offset `ip` of the code segment.
///
/// An instruction that does not end within the first 15 bytes of the stream,
/// or within the stream, is invalid, and so is a stream of 15 prefix bytes.
pub open spec fn spec_decode(bytes: Seq<u8>, ip: u16) -> Decoded {
    let w = window(bytes);
    let p = scan_prefixes(w, 0, no_prefixes());
    if p.count >= MAX_LENGTH {
        invalid(Invalid::Op, MAX_LENGTH as int, p)
    } else {
        let raw = decode_opcode(w, p, ip);
        if raw.length > w.len() {
            invalid(Invalid::Op, w.len() as int, p)
        } else {
            raw
        }
    }
}

pub fn is_prefix_byte(b: u8) -> (r: bool)
    ensures
        r == is_prefix(b),
{
    b == 0x26 || b == 0x2E || b == 0x36 || b == 0x3E || b == 0x64 || b == 0x65 || b == 0x66 || b
        == 0x67 || b == 0xF0 || b == 0xF2 || b == 0xF3
}

pub fn add_prefix(p: Prefixes, b: u8) -> (r: Prefixes)
    requires
        p.count < 255,
    ensures
        r == with_prefix(p, b),
{
    let mut q = p;
    q.count = p.count + 1;
    match b {
        0x26 => {
            q.segment = Segment::ES;
        },
        0x2E => {
            q.segment = Segment::CS;
        },
        0x36 => {
            q.segment = Segment::SS;
        },
        0x3E => {
            q.segment = Segment::DS;
        },
        0x64 => {
            q.segment = Segment::FS;
        },
        0x65 => {
            q.segment = Segment::GS;
        },
        0x66 => {
            q.op_size = OperandSize::Bits32;
        },
        0x67 => {
            q.address_size = OperandSize::Bits32;
        },
        0xF0 => {
            q.lock = true;
        },
        0xF2 => {
            q.repeat = RepeatMode::Repne;
        },
        0xF3 => {
            q.repeat = RepeatMode::Rep;
        },
        _ => {},
    }
    q
}

fn peek(bytes: &[u8], i: usize) -> (r: u8)
    ensures
        r == byte_at(window(bytes@), i as int),
{
    if i < bytes.len() && i < MAX_LENGTH {
        bytes[i]
    } else {
        0
    }
}

fn peek16(bytes: &[u8], i: usize) -> (r: u16)
    requires
        i < 64,
    ensures
        r == word_at(window(bytes@), i as int),
{
    let lo: u16 = peek(bytes, i) as u16;
    let hi: u16 = peek(bytes, i + 1) as u16;
    hi * 256 + lo
}

/// The byte as a signed number.
pub fn to_signed8(b: u8) -> (r: i8)
    ensures
        r == signed8(b),
{
    if b < 128 {
        b as i8
    } else {
        (b as i16 - 256) as i8
    }
}

/// The word as a signed number.
pub fn to_signed16(v: u16) -> (r: i16)
    ensures
        r == signed16(v),
{
    if v < 0x8000 {
        v as i16
    } else {
        (v as i32 - 0x1_0000) as i16
    }
}

/// `base + delta`, wrapped to 16 bits.
pub fn offset_by(base: u16, delta: i32) -> (r: u16)
    requires
        -0x1_0000 <= delta <= 0x2_0000,
    ensures
        r == wrap16(base + delta),
{
    ((base as i32 + delta + 0x1_0000) % 0x1_0000) as u16
}

pub fn split(b: u8) -> (m: ModRm)
    ensures
        m == split_modrm(b),
        m.md < 4,
        m.reg < 8,
        m.rm < 8,
{
    ModRm { md: b / 64, reg: (b / 8) % 8, rm: b % 8 }
}

fn disp_length(m: ModRm) -> (r: usize)
    ensures
        r == disp_len(m),
        r <= 2,
{
    if m.md == 0 {
        if m.rm == 6 {
            2
        } else {
            0
        }
    } else if m.md == 1 {
        1
    } else if m.md == 2 {
        2
    } else {
        0
    }
}

fn rm_operand(m: ModRm, bytes: &[u8], at: usize, seg: Segment, wide: bool) -> (r: Parameter)
    requires
        at < 64,
        m.rm < 8,
    ensures
        r == rm_param(m, window(bytes@), at as int, seg, wide),
        r.wf(),
{
    if m.md == 3 {
        if wide {
            Parameter::Reg16(m.rm)
        } else {
            Parameter::Reg8(m.rm)
        }
    } else if m.md == 0 {
        if m.rm == 6 {
            Parameter::Ptr16(seg, peek16(bytes, at))
        } else {
            Parameter::Ptr16Amode(seg, AMode::of_rm(m.rm))
        }
    } else if m.md == 1 {
        Parameter::Ptr16AmodeS8(seg, AMode::of_rm(m.rm), to_signed8(peek(bytes, at)))
    } else {
        Parameter::Ptr16AmodeS16(seg, AMode::of_rm(m.rm), to_signed16(peek16(bytes, at)))
    }
}

fn operand_len(a: Arg) -> (r: usize)
    ensures
        r == arg_len(a),
        r <= 4,
{
    match a {
        Arg::Imm8 | Arg::Imm8S | Arg::Rel8 => 1,
        Arg::Imm16 | Arg::Rel16 | Arg::Moffs => 2,
        Arg::Far => 4,
        _ => 0,
    }
}

fn operand(
    a: Arg,
    bytes: &[u8],
    pos: usize,
    m: ModRm,
    disp_at: usize,
    code: u8,
    seg: Segment,
    ip: u16,
) -> (r: Parameter)
    requires
        pos < 32,
        disp_at < 32,
        m.rm < 8,
    ensures
        r == arg_param(a, window(bytes@), pos as int, m, disp_at as int, code, seg, ip),
        arg_wf(a) && m.reg < 8 && (a == Arg::SReg ==> m.reg < 6) ==> r.wf(),
{
    match a {
        Arg::Empty => Parameter::Empty,
        Arg::Rm8 => rm_operand(m, bytes, disp_at, seg, false),
        Arg::Rm16 => rm_operand(m, bytes, disp_at, seg, true),
        Arg::R8 => Parameter::Reg8(m.reg),
        Arg::R16 => Parameter::Reg16(m.reg),
        Arg::SReg => Parameter::SReg16(m.reg),
        Arg::Imm8 => Parameter::Imm8(peek(bytes, pos)),
        Arg::Imm16 => Parameter::Imm16(peek16(bytes, pos)),
        Arg::Imm8S => Parameter::Imm16(offset_by(0, to_signed8(peek(bytes, pos)) as i32)),
        Arg::Rel8 => Parameter::Imm16(
            offset_by(ip, pos as i32 + 1 + to_signed8(peek(bytes, pos)) as i32),
        ),
        Arg::Rel16 => Parameter::Imm16(offset_by(ip, pos as i32 + 2 + peek16(bytes, pos) as i32)),
        Arg::One => Parameter::Imm8(1),
        Arg::Three => Parameter::Imm8(3),
        Arg::FixReg8(i) => Parameter::Reg8(i),
        Arg::FixReg16(i) => Parameter::Reg16(i),
        Arg::FixSReg(i) => Parameter::SReg16(i),
        Arg::OpReg8 => Parameter::Reg8(code % 8),
        Arg::OpReg16 => Parameter::Reg16(code % 8),
        Arg::Moffs => Parameter::Ptr16(seg, peek16(bytes, pos)),
        Arg::Far => Parameter::Ptr16Imm(peek16(bytes, pos + 2), peek16(bytes, pos)),
    }
}

fn repeat_for(op: Op, prefix: RepeatMode) -> (r: RepeatMode)
    ensures
        r == repeat_of(op, prefix),
{
    let string_compare = match op {
        Op::Cmpsb | Op::Cmpsw | Op::Scasb | Op::Scasw => true,
        _ => false,
    };
    match prefix {
        RepeatMode::Rep => if string_compare {
            RepeatMode::Repe
        } else {
            RepeatMode::Rep
        },
        _ => prefix,
    }
}

fn make_invalid(reason: Invalid, length: usize, p: Prefixes) -> (r: Decoded)
    requires
        length < 256,
    ensures
        r == invalid(reason, length as int, p),
{
    Decoded {
        command: Op::Invalid(reason),
        dst: Parameter::Empty,
        src: Parameter::Empty,
        src2: Parameter::Empty,
        segment_prefix: p.segment,
        repeat: p.repeat,
        lock: p.lock,
        op_size: p.op_size,
        address_size: p.address_size,
        length: length as u8,
    }
}

fn operands(
    bytes: &[u8],
    p: Prefixes,
    ip: u16,
    e: Entry,
    code: u8,
    m: ModRm,
    disp_at: usize,
    pos: usize,
) -> (r: Decoded)
    requires
        disp_at <= pos <= 20,
        m.rm < 8,
    ensures
        r == decode_operands(window(bytes@), p, ip, e, code, m, disp_at as int, pos as int),
        e.wf() && m.reg < 8 ==> r.dst.wf() && r.src.wf() && r.src2.wf(),
{
    reveal(decode_operands);
    match select_op(e.sel, m.reg) {
        Err(reason) => {
            let fpu = match reason {
                Invalid::FPUOp => true,
                _ => false,
            };
            make_invalid(
                reason,
                if fpu {
                    pos
                } else {
                    disp_at
                },
                p,
            )
        },
        Ok(op) => {
            if e.names_sreg() && m.reg >= 6 {
                make_invalid(Invalid::Reg(m.reg), disp_at, p)
            } else {
                let src = effective_src_of(e.sel, m.reg, e.src);
                let after_dst = pos + operand_len(e.dst);
                let after_src = after_dst + operand_len(src);
                let end = after_src + operand_len(e.src2);
                Decoded {
                    command: op,
                    dst: operand(e.dst, bytes, pos, m, disp_at, code, p.segment, ip),
                    src: operand(src, bytes, after_dst, m, disp_at, code, p.segment, ip),
                    src2: operand(e.src2, bytes, after_src, m, disp_at, code, p.segment, ip),
                    segment_prefix: p.segment,
                    repeat: repeat_for(op, p.repeat),
                    lock: p.lock,
                    op_size: p.op_size,
                    address_size: p.address_size,
                    length: end as u8,
                }
            }
        },
    }
}

fn opcode(bytes: &[u8], p: Prefixes, ip: u16) -> (r: Decoded)
    requires
        p.count < MAX_LENGTH,
    ensures
        r == decode_opcode(window(bytes@), p, ip),
        r.dst.wf() && r.src.wf() && r.src2.wf(),
{
    reveal(decode_opcode);
    let n: usize = p.count as usize;
    let b = peek(bytes, n);
    let two = b == 0x0F;
    let code = if two {
        peek(bytes, n + 1)
    } else {
        b
    };
    let e = if two {
        lookup_secondary(code)
    } else {
        lookup_primary(code)
    };
    let after: usize = if two {
        n + 2
    } else {
        n + 1
    };
    if e.modrm_follows() {
        let m = split(peek(bytes, after));
        operands(bytes, p, ip, e, code, m, after + 1, after + 1 + disp_length(m))
    } else {
        operands(bytes, p, ip, e, code, ModRm { md: 0, reg: 0, rm: 0 }, after, after)
    }
}

/// Decodes the instruction that `bytes` starts with; `ip` is the offset of
/// its first byte in the code segment.
pub fn decode(bytes: &[u8], ip: u16) -> (d: Decoded)
    ensures
        d == spec_decode(bytes@, ip),
        d.length <= MAX_LENGTH,
        d.length <= bytes@.len(),
        d.wf(),
{
    let limit: usize = if bytes.len() > MAX_LENGTH {
        MAX_LENGTH
    } else {
        bytes.len()
    };
    let ghost w = window(bytes@);
    let mut p = Prefixes {
        count: 0,
        segment: Segment::Default,
        repeat: RepeatMode::NoRepeat,
        lock: false,
        op_size: OperandSize::Bits16,
        address_size: OperandSize::Bits16,
    };
    let mut i: usize = 0;
    while i < limit && is_prefix_byte(bytes[i])
        invariant
            w == window(bytes@),
            limit == w.len(),
            limit <= MAX_LENGTH,
            i <= limit,
            p.count == i,
            scan_prefixes(w, 0, no_prefixes()) == scan_prefixes(w, i as int, p),
        decreases limit - i,
    {
        p = add_prefix(p, bytes[i]);
        i += 1;
    }
    assert(scan_prefixes(w, i as int, p) == p);
    if i >= MAX_LENGTH {
        make_invalid(Invalid::Op, MAX_LENGTH, p)
    } else {
        let raw = opcode(bytes, p, ip);
        if raw.length as usize > limit {
            make_invalid(Invalid::Op, limit, p)
        } else {
            raw
        }
    }
}

} // verus!
