//! Hexadecimal text.
use vstd::prelude::*;
use vstd::string::*;

verus! {

/// The hexadecimal digit for a value below 16, in upper case.
pub open spec fn hex_char(n: u8) -> char {
    match n {
        0 => '0',
        1 => '1',
        2 => '2',
        3 => '3',
        4 => '4',
        5 => '5',
        6 => '6',
        7 => '7',
        8 => '8',
        9 => '9',
        10 => 'A',
        11 => 'B',
        12 => 'C',
        13 => 'D',
        14 => 'E',
        _ => 'F',
    }
}

/// 16 to the power of `n`.
pub open spec fn pow16(n: nat) -> nat
    decreases n,
{
    if n == 0 {
        1
    } else {
        16 * pow16((n - 1) as nat)
    }
}

/// The `width` lowest hexadecimal digits of `v`, the highest first.
pub open spec fn hex_text(v: nat, width: nat) -> Seq<char>
    decreases width,
{
    if width == 0 {
        Seq::empty()
    } else {
        hex_text(v / 16, (width - 1) as nat).push(hex_char((v % 16) as u8))
    }
}

/// The number of hexadecimal digits that `v` needs; 1 for 0.
pub open spec fn hex_width(v: nat) -> nat
    decreases v,
{
    if v < 16 {
        1
    } else {
        1 + hex_width(v / 16)
    }
}

/// The bytes in hexadecimal, two digits each, with `sep` between them.
pub open spec fn hex_join(bytes: Seq<u8>, sep: Seq<char>) -> Seq<char>
    decreases bytes.len(),
{
    if bytes.len() == 0 {
        Seq::empty()
    } else if bytes.len() == 1 {
        hex_text(bytes[0] as nat, 2)
    } else {
        hex_join(bytes.drop_last(), sep) + sep + hex_text(bytes.last() as nat, 2)
    }
}

/// The digit as a string of one character.
pub fn hex_digit(n: u8) -> (r: &'static str)
    requires
        n < 16,
    ensures
        r@ == seq![hex_char(n)],
{
    match n {
        0 => {
            proof {
                reveal_strlit("0");
            }
            assert("0"@ =~= seq![hex_char(n)]);
            "0"
        },
        1 => {
            proof {
                reveal_strlit("1");
            }
            assert("1"@ =~= seq![hex_char(n)]);
            "1"
        },
        2 => {
            proof {
                reveal_strlit("2");
            }
            assert("2"@ =~= seq![hex_char(n)]);
            "2"
        },
        3 => {
            proof {
                reveal_strlit("3");
            }
            assert("3"@ =~= seq![hex_char(n)]);
            "3"
        },
        4 => {
            proof {
                reveal_strlit("4");
            }
            assert("4"@ =~= seq![hex_char(n)]);
            "4"
        },
        5 => {
            proof {
                reveal_strlit("5");
            }
            assert("5"@ =~= seq![hex_char(n)]);
            "5"
        },
        6 => {
            proof {
                reveal_strlit("6");
            }
            assert("6"@ =~= seq![hex_char(n)]);
            "6"
        },
        7 => {
            proof {
                reveal_strlit("7");
            }
            assert("7"@ =~= seq![hex_char(n)]);
            "7"
        },
        8 => {
            proof {
                reveal_strlit("8");
            }
            assert("8"@ =~= seq![hex_char(n)]);
            "8"
        },
        9 => {
            proof {
                reveal_strlit("9");
            }
            assert("9"@ =~= seq![hex_char(n)]);
            "9"
        },
        10 => {
            proof {
                reveal_strlit("A");
            }
            assert("A"@ =~= seq![hex_char(n)]);
            "A"
        },
        11 => {
            proof {
                reveal_strlit("B");
            }
            assert("B"@ =~= seq![hex_char(n)]);
            "B"
        },
        12 => {
            proof {
                reveal_strlit("C");
            }
            assert("C"@ =~= seq![hex_char(n)]);
            "C"
        },
        13 => {
            proof {
                reveal_strlit("D");
            }
            assert("D"@ =~= seq![hex_char(n)]);
            "D"
        },
        14 => {
            proof {
                reveal_strlit("E");
            }
            assert("E"@ =~= seq![hex_char(n)]);
            "E"
        },
        _ => {
            proof {
                reveal_strlit("F");
            }
            assert("F"@ =~= seq![hex_char(n)]);
            "F"
        },
    }
}

/// Number of hexadecimal digits of `v`.
pub fn hex_width_of(v: u64) -> (r: usize)
    ensures
        r == hex_width(v as nat),
        1 <= r <= 16,
{
    let mut n: usize = 1;
    let mut rest: u64 = v;
    assert(pow16(0) == 1);
    assert(rest as nat * pow16(0) == rest as nat) by (nonlinear_arith)
        requires
            pow16(0) == 1,
    ;
    while rest >= 16
        invariant
            1 <= n <= 16,
            n + hex_width(rest as nat) == 1 + hex_width(v as nat),
            rest as nat * pow16((n - 1) as nat) <= v,
        decreases rest,
    {
        proof {
            assert(pow16(n as nat) == 16 * pow16((n - 1) as nat));
            assert((rest / 16) as nat * pow16(n as nat) <= rest as nat * pow16((n - 1) as nat))
                by (nonlinear_arith)
                requires
                    pow16(n as nat) == 16 * pow16((n - 1) as nat),
            ;
            if n == 16 {
                lemma_pow16_16();
                assert((rest / 16) as nat * pow16(16) >= pow16(16)) by (nonlinear_arith)
                    requires
                        rest / 16 >= 1,
                ;
            }
        }
        rest = rest / 16;
        n += 1;
    }
    n
}

/// 16 to the power of 16 is 2 to the power of 64.
pub proof fn lemma_pow16_16()
    ensures
        pow16(16) == 0x1_0000_0000_0000_0000,
{
    reveal_with_fuel(pow16, 17);
}

/// The `width` lowest hexadecimal digits of `v`.
pub fn hex(v: u64, width: usize) -> (r: String)
    requires
        width <= 16,
    ensures
        r@ == hex_text(v as nat, width as nat),
    decreases width,
{
    if width == 0 {
        let r = String::from_str("");
        proof {
            reveal_strlit("");
        }
        assert(r@ =~= hex_text(v as nat, 0));
        r
    } else {
        let mut r = hex(v / 16, width - 1);
        r.append(hex_digit((v % 16) as u8));
        assert(r@ =~= hex_text(v as nat, width as nat));
        r
    }
}

/// `v` in hexadecimal, with zeros in front up to `min_width` digits.
pub fn hex_padded(v: u64, min_width: usize) -> (r: String)
    requires
        min_width <= 16,
    ensures
        r@ == hex_text(
            v as nat,
            if hex_width(v as nat) > min_width {
                hex_width(v as nat)
            } else {
                min_width as nat
            },
        ),
{
    let w = hex_width_of(v);
    if w > min_width {
        hex(v, w)
    } else {
        hex(v, min_width)
    }
}

/// The bytes in hexadecimal, with `sep` between them.
pub fn hex_bytes(bytes: &Vec<u8>, sep: &str) -> (r: String)
    ensures
        r@ == hex_join(bytes@, sep@),
{
    let mut r = String::from_str("");
    proof {
        reveal_strlit("");
    }
    let mut i: usize = 0;
    assert(bytes@.subrange(0, 0) =~= Seq::<u8>::empty());
    assert(r@ =~= hex_join(bytes@.subrange(0, 0), sep@));
    while i < bytes.len()
        invariant
            i <= bytes@.len(),
            r@ == hex_join(bytes@.subrange(0, i as int), sep@),
        decreases bytes@.len() - i,
    {
        let ghost before = r@;
        if i > 0 {
            r.append(sep);
        }
        let digits = hex(bytes[i] as u64, 2);
        r.append(digits.as_str());
        proof {
            let part = bytes@.subrange(0, i + 1);
            assert(part.drop_last() =~= bytes@.subrange(0, i as int));
            assert(part.last() == bytes@[i as int]);
            if i == 0 {
                assert(before =~= Seq::<char>::empty());
                assert(r@ =~= hex_text(bytes@[0] as nat, 2));
            } else {
                assert(r@ =~= before + sep@ + hex_text(bytes@[i as int] as nat, 2));
            }
        }
        i += 1;
    }
    assert(bytes@.subrange(0, bytes@.len() as int) =~= bytes@);
    r
}

} // verus!
