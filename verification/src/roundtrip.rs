//! Decoding what the encoder emits gives the instruction back.
use vstd::prelude::*;
use crate::decoder::{
    arg_len, arg_param, byte_at, decode_opcode, decode_operands, disp_len, is_prefix, no_prefixes,
    repeat_of, rm_param, scan_prefixes, signed16, signed8, spec_decode, split_modrm, window,
    with_prefix, word_at, ModRm, Prefixes,
};
use crate::encoder::{
    alu_index, imm8_opcode, imm_bytes, lock_bytes, modrm_bytes, opcode_bytes, other_plan,
    plain_opcode, plan, plan_bytes, plan_valid, prefix_bytes, prefix_ok, repeat_bytes, rm_ok,
    segment_bytes, shift_index, spec_encode, unary_index, unsigned16, unsigned8, word_bytes, Imm,
    Plan,
};
use crate::instruction::{Decoded, OperandSize, Parameter, RepeatMode, Segment};
use crate::op::{Invalid, Op};
use crate::opcode::{effective_src, primary, secondary, select, Arg, Entry};

verus! {

/// A ModR/M byte built from its fields splits into them.
pub proof fn lemma_split(md: u8, reg: u8, rm: u8)
    requires
        md < 4,
        reg < 8,
        rm < 8,
    ensures
        split_modrm((md * 64 + reg * 8 + rm) as u8) == (ModRm { md, reg, rm }),
{
}

/// The word that a signed number is stored in reads back as the number.
pub proof fn lemma_signed(d8: i8, d16: i16)
    ensures
        signed8(unsigned8(d8)) == d8,
        signed16(unsigned16(d16)) == d16,
{
}

/// The two bytes of a word read back as the word.
pub proof fn lemma_word_at(w: Seq<u8>, at: int, v: u16)
    requires
        0 <= at,
        at + 2 <= w.len(),
        w.subrange(at, at + 2) == word_bytes(v),
    ensures
        word_at(w, at) == v,
{
    assert(w[at] == w.subrange(at, at + 2)[0]);
    assert(w[at + 1] == w.subrange(at, at + 2)[1]);
}

/// The r/m operand that a ModR/M byte and its displacement were built from
/// is the operand that they decode to.
pub proof fn lemma_modrm(w: Seq<u8>, at: int, reg: u8, p: Parameter, wide: bool, seg: Segment)
    requires
        0 <= at,
        reg < 8,
        rm_ok(p, wide, seg),
        at + modrm_bytes(reg, p).len() <= w.len(),
        w.subrange(at, at + modrm_bytes(reg, p).len()) == modrm_bytes(reg, p),
    ensures
        split_modrm(byte_at(w, at)).reg == reg,
        rm_param(split_modrm(byte_at(w, at)), w, at + 1, seg, wide) == p,
        1 + disp_len(split_modrm(byte_at(w, at))) == modrm_bytes(reg, p).len(),
{
    let bytes = modrm_bytes(reg, p);
    let n = bytes.len() as int;
    assert forall|k: int| 0 <= k < n implies w[at + k] == bytes[k] by {
        assert(w.subrange(at, at + n)[k] == w[at + k]);
    }
    assert(byte_at(w, at) == bytes[0]);
    match p {
        Parameter::Reg8(i) => {
            lemma_split(3, reg, i);
        },
        Parameter::Reg16(i) => {
            lemma_split(3, reg, i);
        },
        Parameter::Ptr16(s, off) => {
            lemma_split(0, reg, 6);
            let head = seq![(reg * 8 + 6) as u8];
            assert(bytes == head + word_bytes(off));
            assert(bytes[1] == word_bytes(off)[0]);
            assert(bytes[2] == word_bytes(off)[1]);
            assert(w.subrange(at + 1, at + 3) =~= word_bytes(off));
            lemma_word_at(w, at + 1, off);
        },
        Parameter::Ptr16Amode(s, a) => {
            lemma_split(0, reg, a.rm());
        },
        Parameter::Ptr16AmodeS8(s, a, d) => {
            lemma_split(1, reg, a.rm());
            lemma_signed(d, 0);
            assert(byte_at(w, at + 1) == unsigned8(d));
        },
        Parameter::Ptr16AmodeS16(s, a, d) => {
            lemma_split(2, reg, a.rm());
            lemma_signed(0, d);
            let head = seq![(0x80 + reg * 8 + a.rm()) as u8];
            assert(bytes == head + word_bytes(unsigned16(d)));
            assert(bytes[1] == word_bytes(unsigned16(d))[0]);
            assert(bytes[2] == word_bytes(unsigned16(d))[1]);
            assert(w.subrange(at + 1, at + 3) =~= word_bytes(unsigned16(d)));
            lemma_word_at(w, at + 1, unsigned16(d));
        },
        _ => {},
    }
}

/// The repeat mode that a repeat prefix stands for.
pub open spec fn prefix_repeat(r: RepeatMode) -> RepeatMode {
    if r == RepeatMode::Repe {
        RepeatMode::Rep
    } else {
        r
    }
}

/// What the decoder gathers from the prefixes that the encoder emits.
pub open spec fn prefixes_of(d: Decoded) -> Prefixes {
    Prefixes {
        count: prefix_bytes(d).len() as u8,
        segment: d.segment_prefix,
        repeat: prefix_repeat(d.repeat),
        lock: d.lock,
        op_size: OperandSize::Bits16,
        address_size: OperandSize::Bits16,
    }
}

/// The scan of prefixes that the encoder emitted, followed by a byte that
/// is no prefix, gathers what the instruction says.
pub proof fn lemma_prefixes(d: Decoded, rest: Seq<u8>)
    requires
        rest.len() > 0,
        !is_prefix(rest[0]),
    ensures
        scan_prefixes(prefix_bytes(d) + rest, 0, no_prefixes()) == prefixes_of(d),
        prefix_bytes(d).len() <= 3,
{
    let l = lock_bytes(d.lock);
    let r = repeat_bytes(d.repeat);
    let s = segment_bytes(d.segment_prefix);
    let w = prefix_bytes(d) + rest;
    let n = prefix_bytes(d).len() as int;
    assert(w[n] == rest[0]);
    assert forall|k: int| 0 <= k < n implies #[trigger] w[k] == (l + r + s)[k] by {}
    reveal_with_fuel(scan_prefixes, 5);
    let none = no_prefixes();
    if d.lock {
        assert(w[0] == 0xF0);
        let locked = with_prefix(none, 0xF0);
        if r.len() > 0 {
            assert(w[1] == r[0]);
            if s.len() > 0 {
                assert(w[2] == s[0]);
            }
        } else {
            if s.len() > 0 {
                assert(w[1] == s[0]);
            }
        }
    } else {
        if r.len() > 0 {
            assert(w[0] == r[0]);
            if s.len() > 0 {
                assert(w[1] == s[0]);
            }
        } else {
            if s.len() > 0 {
                assert(w[0] == s[0]);
            }
        }
    }
}

/// The `reg` field of a plan; 0 without a ModR/M byte.
pub open spec fn plan_reg(p: Plan) -> u8 {
    match p.modrm {
        Some(m) => m.0,
        None => 0,
    }
}

/// The r/m operand of a plan.
pub open spec fn plan_rm(p: Plan) -> Parameter {
    match p.modrm {
        Some(m) => m.1,
        None => Parameter::Empty,
    }
}

/// Whether operand form `a` of a table row decodes, from the bytes of the
/// plan, to the operand `param`.
pub open spec fn arg_matches(a: Arg, param: Parameter, p: Plan, seg: Segment) -> bool {
    match a {
        Arg::Empty => param is Empty,
        Arg::Rm8 => p.modrm is Some && param == plan_rm(p) && rm_ok(param, false, seg),
        Arg::Rm16 => p.modrm is Some && param == plan_rm(p) && rm_ok(param, true, seg),
        Arg::R8 => p.modrm is Some && param == Parameter::Reg8(plan_reg(p)),
        Arg::R16 => p.modrm is Some && param == Parameter::Reg16(plan_reg(p)),
        Arg::SReg => p.modrm is Some && param == Parameter::SReg16(plan_reg(p))
            && plan_reg(p) < 6,
        Arg::Imm8 => p.imm matches Imm::Byte(v) && param == Parameter::Imm8(v),
        Arg::Imm16 => p.imm matches Imm::Word(v) && param == Parameter::Imm16(v),
        Arg::FixReg8(i) => param == Parameter::Reg8(i),
        Arg::FixReg16(i) => param == Parameter::Reg16(i),
        Arg::FixSReg(i) => param == Parameter::SReg16(i),
        Arg::OpReg8 => param == Parameter::Reg8(p.opcode % 8),
        Arg::OpReg16 => param == Parameter::Reg16(p.opcode % 8),
        _ => false,
    }
}

/// Whether the table row `e` describes the plan `p` of the instruction `d`.
pub open spec fn row_matches(e: Entry, p: Plan, d: Decoded) -> bool {
    let reg = plan_reg(p);
    let src = effective_src(e.sel, reg, e.src);
    &&& plan_valid(p)
    &&& e.has_modrm() == (p.modrm is Some)
    &&& select(e.sel, reg) == Ok::<Op, Invalid>(d.command)
    &&& arg_matches(e.dst, d.dst, p, d.segment_prefix)
    &&& arg_matches(src, d.src, p, d.segment_prefix)
    &&& arg_matches(e.src2, d.src2, p, d.segment_prefix)
    &&& arg_len(e.dst) + arg_len(src) + arg_len(e.src2) == imm_bytes(p.imm).len()
    &&& (arg_len(e.dst) == 0 || arg_len(src) == 0)
    &&& (arg_len(e.dst) == 0 || arg_len(e.src2) == 0)
    &&& (arg_len(src) == 0 || arg_len(e.src2) == 0)
    &&& (p.modrm is Some ==> rm_ok(plan_rm(p), true, d.segment_prefix) || rm_ok(
        plan_rm(p),
        false,
        d.segment_prefix,
    ))
}

/// The instruction with its length set.
pub open spec fn with_length(d: Decoded, n: int) -> Decoded {
    Decoded { length: n as u8, ..d }
}

/// The index of the opcode byte that selects the row of the opcode map,
/// after `n` prefix bytes.
pub open spec fn opcode_at(p: Plan, n: int) -> int {
    if p.escape {
        n + 1
    } else {
        n
    }
}

/// The row of the opcode map for the opcode of a plan.
pub open spec fn row_of(p: Plan) -> Entry {
    if p.escape {
        secondary(p.opcode)
    } else {
        primary(p.opcode)
    }
}

/// The bytes of the ModR/M part of a plan.
pub open spec fn plan_modrm_bytes(p: Plan) -> Seq<u8> {
    match p.modrm {
        Some(m) => modrm_bytes(m.0, m.1),
        None => Seq::empty(),
    }
}

/// Where the parts of the bytes of a plan lie: the opcode, then the
/// ModR/M part, then the immediate.
pub proof fn lemma_body(p: Plan)
    ensures
        ({
            let body = plan_bytes(p);
            let e = opcode_at(p, 0);
            let mb = plan_modrm_bytes(p);
            let ib = imm_bytes(p.imm);
            &&& mb.len() <= 3
            &&& ib.len() <= 2
            &&& body.len() == e + 1 + mb.len() + ib.len()
            &&& body[e] == p.opcode
            &&& (p.escape ==> body[0] == 0x0F)
            &&& forall|j: int| 0 <= j < mb.len() ==> #[trigger] body[e + 1 + j] == mb[j]
            &&& forall|j: int| 0 <= j < ib.len() ==> #[trigger] body[e + 1 + mb.len() + j] == ib[j]
        }),
{
    let body = plan_bytes(p);
    let ob = opcode_bytes(p);
    let mb = plan_modrm_bytes(p);
    let ib = imm_bytes(p.imm);
    assert(body == ob + mb + ib);
    assert(ob.len() == opcode_at(p, 0) + 1);
    assert(ob[opcode_at(p, 0)] == p.opcode);
    assert forall|j: int| 0 <= j < ob.len() implies body[j] == ob[j] by {
        assert((ob + mb)[j] == ob[j]);
    }
    assert forall|j: int| 0 <= j < mb.len() implies #[trigger] body[ob.len() + j] == mb[j] by {
        assert((ob + mb)[ob.len() + j] == mb[j]);
    }
    assert forall|j: int| 0 <= j < ib.len() implies #[trigger] body[ob.len() + mb.len() + j]
        == ib[j] by {}
}

/// Where the parts of an encoding lie: the opcode after the prefixes, then
/// the ModR/M part, then the immediate.
pub proof fn lemma_layout(d: Decoded, p: Plan)
    requires
        !is_prefix(p.opcode),
    ensures
        ({
            let w = prefix_bytes(d) + plan_bytes(p);
            let n = prefix_bytes(d).len() as int;
            let k = opcode_at(p, n);
            let mb = plan_modrm_bytes(p);
            let ib = imm_bytes(p.imm);
            &&& n <= 3
            &&& mb.len() <= 3
            &&& ib.len() <= 2
            &&& w.len() == k + 1 + mb.len() + ib.len()
            &&& window(w) == w
            &&& scan_prefixes(w, 0, no_prefixes()) == prefixes_of(d)
            &&& byte_at(w, k) == p.opcode
            &&& (p.escape ==> byte_at(w, n) == 0x0F)
            &&& w.subrange(k + 1, k + 1 + mb.len()) == mb
            &&& w.subrange(k + 1 + mb.len(), w.len() as int) == ib
        }),
{
    let pre = prefix_bytes(d);
    let body = plan_bytes(p);
    let w = pre + body;
    let n = pre.len() as int;
    let k = opcode_at(p, n);
    let e = opcode_at(p, 0);
    let mb = plan_modrm_bytes(p);
    let ib = imm_bytes(p.imm);
    lemma_body(p);
    lemma_prefixes(d, body);
    assert forall|j: int| 0 <= j < body.len() implies #[trigger] w[n + j] == body[j] by {}
    assert(w[n + e] == body[e]);
    assert(w[n + 0] == body[0]);
    assert forall|j: int| 0 <= j < mb.len() implies #[trigger] w[k + 1 + j] == mb[j] by {
        assert(w[n + (e + 1 + j)] == body[e + 1 + j]);
    }
    assert forall|j: int| 0 <= j < ib.len() implies #[trigger] w[k + 1 + mb.len() + j] == ib[j] by {
        assert(w[n + (e + 1 + mb.len() + j)] == body[e + 1 + mb.len() + j]);
    }
    assert(w.subrange(k + 1, k + 1 + mb.len()) =~= mb);
    assert(w.subrange(k + 1 + mb.len(), w.len() as int) =~= ib);
}

/// The operand that a form of the table row decodes to is the operand of
/// the instruction.
pub proof fn lemma_arg(
    a: Arg,
    param: Parameter,
    p: Plan,
    w: Seq<u8>,
    n: int,
    seg: Segment,
    ip: u16,
)
    requires
        0 <= n <= 4,
        arg_matches(a, param, p, seg),
        plan_valid(p),
        w.len() == n + 1 + plan_modrm_bytes(p).len() + imm_bytes(p.imm).len(),
        w.subrange(n + 1, n + 1 + plan_modrm_bytes(p).len()) == plan_modrm_bytes(p),
        w.subrange(n + 1 + plan_modrm_bytes(p).len(), w.len() as int) == imm_bytes(p.imm),
        arg_len(a) == 0 || arg_len(a) == imm_bytes(p.imm).len(),
        p.modrm is Some ==> rm_ok(plan_rm(p), true, seg) || rm_ok(plan_rm(p), false, seg),
    ensures
        arg_param(
            a,
            w,
            n + 1 + plan_modrm_bytes(p).len(),
            if p.modrm is Some {
                split_modrm(byte_at(w, n + 1))
            } else {
                ModRm { md: 0, reg: 0, rm: 0 }
            },
            n + 2,
            p.opcode,
            seg,
            ip,
        ) == param,
{
    let mb = plan_modrm_bytes(p);
    let pos = n + 1 + mb.len();
    let ib = imm_bytes(p.imm);
    match p.imm {
        Imm::No => {},
        Imm::Byte(v) => {
            assert(w.subrange(pos, w.len() as int)[0] == w[pos]);
        },
        Imm::Word(v) => {
            lemma_word_at(w, pos, v);
        },
    }
    match p.modrm {
        Some(m) => {
            if rm_ok(m.1, true, seg) {
                lemma_modrm(w, n + 1, m.0, m.1, true, seg);
            }
            if rm_ok(m.1, false, seg) {
                lemma_modrm(w, n + 1, m.0, m.1, false, seg);
            }
        },
        None => {},
    }
}

/// The ModR/M fields that the decoder reads for a plan.
pub open spec fn plan_split(p: Plan, w: Seq<u8>, n: int) -> ModRm {
    if p.modrm is Some {
        split_modrm(byte_at(w, n + 1))
    } else {
        ModRm { md: 0, reg: 0, rm: 0 }
    }
}

/// Decoding the operands of the bytes of a plan under a table row that
/// describes it gives the instruction back.
pub proof fn lemma_operands(d: Decoded, p: Plan, e: Entry, ip: u16)
    requires
        prefix_ok(d),
        !is_prefix(p.opcode),
        row_matches(e, p, d),
    ensures
        ({
            let w = prefix_bytes(d) + plan_bytes(p);
            let k = opcode_at(p, prefix_bytes(d).len() as int);
            decode_operands(
                w,
                prefixes_of(d),
                ip,
                e,
                p.opcode,
                plan_split(p, w, k),
                if p.modrm is Some {
                    k + 2
                } else {
                    k + 1
                },
                k + 1 + plan_modrm_bytes(p).len(),
            ) == with_length(d, w.len() as int)
        }),
        p.modrm is Some ==> 1 + disp_len(
            split_modrm(
                byte_at(
                    prefix_bytes(d) + plan_bytes(p),
                    opcode_at(p, prefix_bytes(d).len() as int) + 1,
                ),
            ),
        ) == plan_modrm_bytes(p).len(),
{
    let w = prefix_bytes(d) + plan_bytes(p);
    let k = opcode_at(p, prefix_bytes(d).len() as int);
    let seg = d.segment_prefix;
    let reg = plan_reg(p);
    let src = effective_src(e.sel, reg, e.src);
    lemma_layout(d, p);
    lemma_arg(e.dst, d.dst, p, w, k, seg, ip);
    lemma_arg(src, d.src, p, w, k, seg, ip);
    lemma_arg(e.src2, d.src2, p, w, k, seg, ip);
    match p.modrm {
        Some(m) => {
            if rm_ok(m.1, true, seg) {
                lemma_modrm(w, k + 1, m.0, m.1, true, seg);
            } else {
                lemma_modrm(w, k + 1, m.0, m.1, false, seg);
            }
        },
        None => {},
    }
    let m = plan_split(p, w, k);
    assert(m.reg == reg);
    let mb = plan_modrm_bytes(p);
    let pos = k + 1 + mb.len();
    reveal(decode_operands);
    assert(repeat_of(d.command, prefix_repeat(d.repeat)) == d.repeat);
    assert(e.has_sreg() ==> m.reg < 6);
    let after_dst = pos + arg_len(e.dst);
    let after_src = after_dst + arg_len(src);
    if arg_len(src) == 0 {
        lemma_arg_position(src, w, pos, after_dst, m, k + 2, p.opcode, seg, ip);
    }
    if arg_len(e.src2) == 0 {
        lemma_arg_position(e.src2, w, pos, after_src, m, k + 2, p.opcode, seg, ip);
    }
    if p.modrm is None {
        lemma_arg_disp(e.dst, w, pos, m, k + 2, k + 1, p.opcode, seg, ip);
        lemma_arg_disp(src, w, after_dst, m, k + 2, k + 1, p.opcode, seg, ip);
        lemma_arg_disp(e.src2, w, after_src, m, k + 2, k + 1, p.opcode, seg, ip);
    }
}

/// An operand form without immediate bytes decodes alike at every
/// position.
pub proof fn lemma_arg_position(
    a: Arg,
    w: Seq<u8>,
    pos1: int,
    pos2: int,
    m: ModRm,
    disp_at: int,
    code: u8,
    seg: Segment,
    ip: u16,
)
    requires
        arg_len(a) == 0,
    ensures
        arg_param(a, w, pos1, m, disp_at, code, seg, ip) == arg_param(
            a,
            w,
            pos2,
            m,
            disp_at,
            code,
            seg,
            ip,
        ),
{
}

/// An operand form that is not read from a ModR/M byte decodes alike
/// wherever the displacement would start.
pub proof fn lemma_arg_disp(
    a: Arg,
    w: Seq<u8>,
    pos: int,
    m: ModRm,
    disp1: int,
    disp2: int,
    code: u8,
    seg: Segment,
    ip: u16,
)
    requires
        a != Arg::Rm8,
        a != Arg::Rm16,
    ensures
        arg_param(a, w, pos, m, disp1, code, seg, ip) == arg_param(
            a,
            w,
            pos,
            m,
            disp2,
            code,
            seg,
            ip,
        ),
{
}

/// Decoding the bytes of a plan, under the row of the opcode map that
/// describes it, gives the instruction back.
pub proof fn lemma_row_decodes(d: Decoded, p: Plan, ip: u16)
    requires
        prefix_ok(d),
        !is_prefix(p.opcode),
        !p.escape ==> p.opcode != 0x0F,
        row_matches(row_of(p), p, d),
    ensures
        spec_decode(prefix_bytes(d) + plan_bytes(p), ip) == with_length(
            d,
            (prefix_bytes(d) + plan_bytes(p)).len() as int,
        ),
        (prefix_bytes(d) + plan_bytes(p)).len() <= 10,
{
    let w = prefix_bytes(d) + plan_bytes(p);
    lemma_layout(d, p);
    lemma_operands(d, p, row_of(p), ip);
    reveal(decode_opcode);
}

/// What the opcode map says of the opcode of a plan.
pub open spec fn plan_in_map(d: Decoded, p: Plan) -> bool {
    &&& !is_prefix(p.opcode)
    &&& (!p.escape ==> p.opcode != 0x0F)
    &&& row_matches(row_of(p), p, d)
}

/// The plan of an instruction without operands is in the opcode map.
pub proof fn lemma_plain(d: Decoded)
    requires
        plain_opcode(d.command) is Some,
        plan(d, d.segment_prefix) is Some,
    ensures
        plan_in_map(d, plan(d, d.segment_prefix)->0),
{
    reveal(plan);
}

/// The plan of an instruction with an 8-bit immediate is in the opcode map.
pub proof fn lemma_imm8(d: Decoded)
    requires
        imm8_opcode(d.command) is Some,
        plan(d, d.segment_prefix) is Some,
    ensures
        plan_in_map(d, plan(d, d.segment_prefix)->0),
{
    reveal(plan);
}

/// The plan of a two-operand arithmetic instruction is in the opcode map.
pub proof fn lemma_alu(d: Decoded)
    requires
        alu_index(d.command) is Some,
        plan(d, d.segment_prefix) is Some,
    ensures
        plan_in_map(d, plan(d, d.segment_prefix)->0),
{
    reveal(plan);
}

/// The plan of an instruction of group F6h/F7h is in the opcode map.
pub proof fn lemma_unary(d: Decoded)
    requires
        unary_index(d.command) is Some,
        plan(d, d.segment_prefix) is Some,
    ensures
        plan_in_map(d, plan(d, d.segment_prefix)->0),
{
    reveal(plan);
    if plan(d, d.segment_prefix) == other_plan(d, d.segment_prefix) {
        lemma_other(d);
    }
}

/// The plan of a shift or rotate is in the opcode map.
pub proof fn lemma_shift(d: Decoded)
    requires
        shift_index(d.command) is Some,
        plan(d, d.segment_prefix) is Some,
    ensures
        plan_in_map(d, plan(d, d.segment_prefix)->0),
{
    reveal(plan);
}

/// The plan of a move, exchange, stack or group instruction is in the
/// opcode map.
pub proof fn lemma_other(d: Decoded)
    requires
        other_plan(d, d.segment_prefix) is Some,
    ensures
        plan_in_map(d, other_plan(d, d.segment_prefix)->0),
{
    reveal(other_plan);
}

/// Decoding what the encoder emits for an instruction gives the
/// instruction back, with its length set to the number of bytes emitted.
pub proof fn lemma_decode_encode(d: Decoded, ip: u16)
    requires
        spec_encode(d) is Some,
    ensures
        spec_decode(spec_encode(d)->0, ip) == with_length(d, spec_encode(d)->0.len() as int),
        spec_encode(d)->0.len() <= 10,
{
    let p = plan(d, d.segment_prefix)->0;
    reveal(plan);
    if plain_opcode(d.command) is Some {
        lemma_plain(d);
    } else if imm8_opcode(d.command) is Some {
        lemma_imm8(d);
    } else if alu_index(d.command) is Some {
        lemma_alu(d);
    } else if unary_index(d.command) is Some {
        lemma_unary(d);
    } else if shift_index(d.command) is Some {
        lemma_shift(d);
    } else {
        lemma_other(d);
    }
    lemma_row_decodes(d, p, ip);
}

/// What the encoder emits is a valid instruction.
pub proof fn lemma_encoded_is_valid(d: Decoded)
    requires
        spec_encode(d) is Some,
    ensures
        d.command.spec_is_valid(),
{
    reveal(plan);
    reveal(other_plan);
}

/// Executing the encoding of an instruction is executing the instruction:
/// in a state whose next instruction bytes are what the encoder emits for
/// `d`, one step is the step of `d`, with its length set to the number of
/// bytes emitted.
pub proof fn lemma_executing_encoding(s: crate::state::State, d: Decoded)
    requires
        spec_encode(d) is Some,
        spec_encode(d)->0.len() <= s.code_window().len(),
        forall|k: int| 0 <= k < spec_encode(d)->0.len() ==> s.code_window()[k] == spec_encode(d)->0[k],
    ensures
        s.next() == s.step(with_length(d, spec_encode(d)->0.len() as int)),
        s.next_effect() == s.step_effect(with_length(d, spec_encode(d)->0.len() as int)),
{
    let b = spec_encode(d)->0;
    lemma_decode_encode(d, s.ip);
    lemma_encoded_is_valid(d);
    crate::consume::lemma_decode_consumes_length(b, s.code_window(), s.ip);
}

} // verus!
