//! The length of a decoded instruction is the number of bytes that the
//! decoder has consumed: no byte past the length has a say in the result.
use vstd::prelude::*;
use crate::decoder::{
    arg_len, arg_param, byte_at, decode_opcode, decode_operands, disp_len, is_prefix, no_prefixes,
    scan_prefixes, spec_decode, split_modrm, window, with_prefix, MAX_LENGTH, ModRm, Prefixes,
};
use crate::instruction::Segment;
use crate::opcode::{effective_src, primary, secondary, Arg, Entry};

verus! {

/// Whether two windows hold the same bytes below index `n`.
pub open spec fn agree(w1: Seq<u8>, w2: Seq<u8>, n: int) -> bool {
    &&& n <= w1.len()
    &&& n <= w2.len()
    &&& forall|k: int| 0 <= k < n ==> w1[k] == w2[k]
}

/// Every prefix byte is counted.
pub proof fn lemma_scan_count(w: Seq<u8>, i: int, p: Prefixes)
    requires
        0 <= i <= w.len() <= MAX_LENGTH,
        p.count == i,
    ensures
        i <= scan_prefixes(w, i, p).count <= w.len(),
        scan_prefixes(w, i, p).count < w.len() ==> !is_prefix(
            w[scan_prefixes(w, i, p).count as int],
        ),
        forall|k: int| i <= k < scan_prefixes(w, i, p).count ==> is_prefix(w[k]),
    decreases w.len() - i,
{
    if i < w.len() && is_prefix(w[i]) {
        lemma_scan_count(w, i + 1, with_prefix(p, w[i]));
    }
}

/// Two windows that agree up to and including the first byte that is no
/// prefix have the same prefixes.
pub proof fn lemma_scan_agree(w1: Seq<u8>, w2: Seq<u8>, i: int, p: Prefixes, n: int)
    requires
        0 <= i <= w1.len() <= MAX_LENGTH,
        w2.len() <= MAX_LENGTH,
        p.count == i,
        agree(w1, w2, n),
        scan_prefixes(w1, i, p).count < n,
    ensures
        scan_prefixes(w2, i, p) == scan_prefixes(w1, i, p),
    decreases w1.len() - i,
{
    lemma_scan_count(w1, i, p);
    if i < w1.len() && is_prefix(w1[i]) {
        lemma_scan_agree(w1, w2, i + 1, with_prefix(p, w1[i]), n);
    }
}

/// An operand whose bytes lie in the part on which two windows agree is
/// the same in both.
pub proof fn lemma_arg_agree(
    a: Arg,
    w1: Seq<u8>,
    w2: Seq<u8>,
    n: int,
    pos: int,
    m: ModRm,
    disp_at: int,
    code: u8,
    seg: Segment,
    ip: u16,
)
    requires
        agree(w1, w2, n),
        0 <= pos,
        pos + arg_len(a) <= n,
        0 <= disp_at,
        m.md < 4,
        (a == Arg::Rm8 || a == Arg::Rm16) ==> disp_at + disp_len(m) <= n,
    ensures
        arg_param(a, w1, pos, m, disp_at, code, seg, ip) == arg_param(
            a,
            w2,
            pos,
            m,
            disp_at,
            code,
            seg,
            ip,
        ),
{
    assert forall|k: int| 0 <= k < n implies byte_at(w1, k) == byte_at(w2, k) by {}
    if arg_len(a) >= 1 {
        assert(byte_at(w1, pos) == byte_at(w2, pos));
    }
    if arg_len(a) >= 2 {
        assert(byte_at(w1, pos + 1) == byte_at(w2, pos + 1));
    }
    if arg_len(a) >= 4 {
        assert(byte_at(w1, pos + 2) == byte_at(w2, pos + 2));
        assert(byte_at(w1, pos + 3) == byte_at(w2, pos + 3));
    }
    if a == Arg::Rm8 || a == Arg::Rm16 {
        if disp_len(m) >= 1 {
            assert(byte_at(w1, disp_at) == byte_at(w2, disp_at));
        }
        if disp_len(m) >= 2 {
            assert(byte_at(w1, disp_at + 1) == byte_at(w2, disp_at + 1));
        }
    }
}

/// The operands of a valid instruction are the same in two windows that
/// agree on its bytes.
pub proof fn lemma_operands_agree(
    w1: Seq<u8>,
    w2: Seq<u8>,
    p: Prefixes,
    ip: u16,
    e: Entry,
    code: u8,
    m: ModRm,
    disp_at: int,
    pos: int,
)
    requires
        0 <= disp_at <= pos,
        m.md < 4,
        e.has_modrm() ==> pos == disp_at + disp_len(m),
        decode_operands(w1, p, ip, e, code, m, disp_at, pos).command.spec_is_valid(),
        pos + arg_len(e.dst) + arg_len(effective_src(e.sel, m.reg, e.src)) + arg_len(e.src2) < 256,
        agree(w1, w2, decode_operands(w1, p, ip, e, code, m, disp_at, pos).length as int),
    ensures
        decode_operands(w2, p, ip, e, code, m, disp_at, pos) == decode_operands(
            w1,
            p,
            ip,
            e,
            code,
            m,
            disp_at,
            pos,
        ),
{
    reveal(decode_operands);
    let src = effective_src(e.sel, m.reg, e.src);
    let after_dst = pos + arg_len(e.dst);
    let after_src = after_dst + arg_len(src);
    let end = after_src + arg_len(e.src2);
    let n = decode_operands(w1, p, ip, e, code, m, disp_at, pos).length as int;
    assert(n == end);
    lemma_arg_agree(e.dst, w1, w2, n, pos, m, disp_at, code, p.segment, ip);
    lemma_arg_agree(src, w1, w2, n, after_dst, m, disp_at, code, p.segment, ip);
    lemma_arg_agree(e.src2, w1, w2, n, after_src, m, disp_at, code, p.segment, ip);
}

/// A valid instruction is decoded alike from two windows that agree on its
/// bytes.
pub proof fn lemma_opcode_agree(w1: Seq<u8>, w2: Seq<u8>, p: Prefixes, ip: u16)
    requires
        p.count < MAX_LENGTH,
        decode_opcode(w1, p, ip).command.spec_is_valid(),
        agree(w1, w2, decode_opcode(w1, p, ip).length as int),
    ensures
        decode_opcode(w2, p, ip) == decode_opcode(w1, p, ip),
{
    reveal(decode_opcode);
    reveal(decode_operands);
    let n = p.count as int;
    let b = byte_at(w1, n);
    let two = b == 0x0F;
    let code = if two {
        byte_at(w1, n + 1)
    } else {
        b
    };
    let e = if two {
        secondary(code)
    } else {
        primary(code)
    };
    let after = if two {
        n + 2
    } else {
        n + 1
    };
    let len = decode_opcode(w1, p, ip).length as int;
    assert(len >= after);
    assert forall|k: int| 0 <= k < len implies byte_at(w1, k) == byte_at(w2, k) by {}
    assert(byte_at(w2, n) == b);
    if two {
        assert(byte_at(w2, n + 1) == code);
    }
    if e.has_modrm() {
        let m = split_modrm(byte_at(w1, after));
        assert(len >= after + 1 + disp_len(m));
        assert(byte_at(w2, after) == byte_at(w1, after));
        lemma_operands_agree(w1, w2, p, ip, e, code, m, after + 1, after + 1 + disp_len(m));
    } else {
        lemma_operands_agree(
            w1,
            w2,
            p,
            ip,
            e,
            code,
            ModRm { md: 0, reg: 0, rm: 0 },
            after,
            after,
        );
    }
}

/// The length of a valid instruction is the number of bytes consumed: a
/// byte stream that starts with the same `length` bytes decodes to the same
/// instruction, whatever follows them.
pub proof fn lemma_decode_consumes_length(b1: Seq<u8>, b2: Seq<u8>, ip: u16)
    requires
        spec_decode(b1, ip).command.spec_is_valid(),
        spec_decode(b1, ip).length <= b2.len(),
        forall|k: int| 0 <= k < spec_decode(b1, ip).length ==> b1[k] == b2[k],
    ensures
        spec_decode(b2, ip) == spec_decode(b1, ip),
        spec_decode(b1, ip).length <= MAX_LENGTH,
        spec_decode(b1, ip).length <= b1.len(),
        spec_decode(b1, ip).length >= 1,
{
    let w1 = window(b1);
    let w2 = window(b2);
    let d = spec_decode(b1, ip);
    let p = scan_prefixes(w1, 0, no_prefixes());
    lemma_scan_count(w1, 0, no_prefixes());
    let raw = decode_opcode(w1, p, ip);
    assert(d == raw);
    reveal(decode_opcode);
    reveal(decode_operands);
    let len = d.length as int;
    assert(len <= w1.len());
    assert(len > p.count);
    assert(agree(w1, w2, len));
    lemma_scan_agree(w1, w2, 0, no_prefixes(), len);
    lemma_opcode_agree(w1, w2, p, ip);
}

} // verus!
