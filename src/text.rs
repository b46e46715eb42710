//! Decimal and hexadecimal rendering of integers, as C source text.
use vstd::prelude::*;
use vstd::string::StringExecFns;

verus! {

/// The lower-case hexadecimal digit of `d`, for `d < 16`.
pub open spec fn hex_digit(d: nat) -> char {
    if d < 10 {
        (('0' as nat) + d) as char
    } else {
        (('a' as nat) + (d - 10)) as char
    }
}

/// The decimal digits of `n`, most significant first, with no leading zero.
pub open spec fn dec_digits(n: nat) -> Seq<char>
    decreases n,
{
    if n < 10 {
        seq![(('0' as nat) + n) as char]
    } else {
        dec_digits(n / 10) + seq![(('0' as nat) + n % 10) as char]
    }
}

/// A signed integer in decimal, with a leading `-` when negative.
pub open spec fn dec_int(n: int) -> Seq<char> {
    if n < 0 {
        seq!['-'] + dec_digits((-n) as nat)
    } else {
        dec_digits(n as nat)
    }
}

/// The last `width` hexadecimal digits of `n`, zero-padded, most significant first.
pub open spec fn hex_fixed(n: nat, width: nat) -> Seq<char>
    decreases width,
{
    if width == 0 {
        seq![]
    } else {
        hex_fixed(n / 16, (width - 1) as nat) + seq![hex_digit(n % 16)]
    }
}

/// Two lower-case hexadecimal digits for each byte, in order.
pub open spec fn hex_chars(b: Seq<u8>) -> Seq<char>
    decreases b.len(),
{
    if b.len() == 0 {
        seq![]
    } else {
        hex_chars(b.drop_last()) + hex_fixed(b.last() as nat, 2)
    }
}

/// A byte as a C literal: `0x` and two hexadecimal digits.
pub open spec fn byte_literal(b: u8) -> Seq<char> {
    seq!['0', 'x'] + hex_fixed(b as nat, 2)
}

fn digit_str(d: u64) -> (r: &'static str)
    requires
        d < 16,
    ensures
        r@ == seq![hex_digit(d as nat)],
{
    proof {
        reveal_strlit("0");
        reveal_strlit("1");
        reveal_strlit("2");
        reveal_strlit("3");
        reveal_strlit("4");
        reveal_strlit("5");
        reveal_strlit("6");
        reveal_strlit("7");
        reveal_strlit("8");
        reveal_strlit("9");
        reveal_strlit("a");
        reveal_strlit("b");
        reveal_strlit("c");
        reveal_strlit("d");
        reveal_strlit("e");
        reveal_strlit("f");
    }
    let r = match d {
        0 => "0",
        1 => "1",
        2 => "2",
        3 => "3",
        4 => "4",
        5 => "5",
        6 => "6",
        7 => "7",
        8 => "8",
        9 => "9",
        10 => "a",
        11 => "b",
        12 => "c",
        13 => "d",
        14 => "e",
        _ => "f",
    };
    assert(r@ =~= seq![hex_digit(d as nat)]);
    r
}

/// Appends `n` in decimal to `out`.
pub fn push_dec(out: &mut String, n: u64)
    ensures
        final(out)@ == old(out)@ + dec_digits(n as nat),
    decreases n,
{
    if n >= 10 {
        push_dec(out, n / 10);
    }
    out.append(digit_str(n % 10));
    proof {
        assert(hex_digit((n % 10) as nat) == (('0' as nat) + (n % 10) as nat) as char);
        if n >= 10 {
            assert(final(out)@ =~= old(out)@ + dec_digits(n as nat));
        } else {
            assert(final(out)@ =~= old(out)@ + dec_digits(n as nat));
        }
    }
}

/// Appends `n` in decimal to `out`, with a leading `-` when negative.
pub fn push_dec_signed(out: &mut String, n: i64)
    ensures
        final(out)@ == old(out)@ + dec_int(n as int),
{
    if n < 0 {
        out.append("-");
        let m: u64 = (-(n as i128)) as u64;
        push_dec(out, m);
        proof {
            reveal_strlit("-");
            assert(final(out)@ =~= old(out)@ + dec_int(n as int));
        }
    } else {
        push_dec(out, n as u64);
    }
}

/// Appends the last `width` hexadecimal digits of `n` to `out`.
pub fn push_hex_fixed(out: &mut String, n: u64, width: u64)
    ensures
        final(out)@ == old(out)@ + hex_fixed(n as nat, width as nat),
    decreases width,
{
    if width > 0 {
        push_hex_fixed(out, n / 16, width - 1);
        out.append(digit_str(n % 16));
        proof {
            assert(final(out)@ =~= old(out)@ + hex_fixed(n as nat, width as nat));
        }
    } else {
        proof {
            assert(final(out)@ =~= old(out)@ + hex_fixed(n as nat, width as nat));
        }
    }
}

/// Appends a byte as a C literal (`0x2a`) to `out`.
pub fn push_byte_literal(out: &mut String, b: u8)
    ensures
        final(out)@ == old(out)@ + byte_literal(b),
{
    out.append("0x");
    push_hex_fixed(out, b as u64, 2);
    proof {
        reveal_strlit("0x");
        assert(final(out)@ =~= old(out)@ + byte_literal(b));
    }
}

proof fn lemma_dec_digits_len(n: nat)
    ensures
        dec_digits(n).len() >= 1,
        n >= 10 ==> dec_digits(n).len() >= 2,
    decreases n,
{
    if n >= 10 {
        lemma_dec_digits_len(n / 10);
    }
}

/// Different numbers are written with different decimal digits.
pub proof fn lemma_dec_digits_injective(a: nat, b: nat)
    requires
        dec_digits(a) == dec_digits(b),
    ensures
        a == b,
    decreases a,
{
    lemma_dec_digits_len(a);
    lemma_dec_digits_len(b);
    if a < 10 && b < 10 {
        let (ca, cb) = ((('0' as nat) + a) as char, (('0' as nat) + b) as char);
        assert(dec_digits(a) == seq![ca]);
        assert(dec_digits(b) == seq![cb]);
        assert(seq![ca][0] == seq![cb][0]);
        assert(ca == cb);
    } else if a >= 10 && b >= 10 {
        let (da, db) = (dec_digits(a), dec_digits(b));
        assert(da.last() == db.last());
        assert(da.drop_last() =~= dec_digits(a / 10));
        assert(db.drop_last() =~= dec_digits(b / 10));
        lemma_dec_digits_injective(a / 10, b / 10);
        assert((('0' as nat) + a % 10) as char == (('0' as nat) + b % 10) as char);
        assert(a % 10 == b % 10);
        assert(a == 10 * (a / 10) + a % 10) by (nonlinear_arith);
        assert(b == 10 * (b / 10) + b % 10) by (nonlinear_arith);
    } else {
        assert(dec_digits(a).len() != dec_digits(b).len());
    }
}

/// Below `16^width`, different numbers get different hexadecimal digits: a
/// bit pattern written with `hex_fixed` can be read back exactly.
pub proof fn lemma_hex_fixed_injective(a: nat, b: nat, width: nat)
    requires
        a < vstd::arithmetic::power::pow(16, width),
        b < vstd::arithmetic::power::pow(16, width),
        hex_fixed(a, width) == hex_fixed(b, width),
    ensures
        a == b,
    decreases width,
{
    vstd::arithmetic::power::lemma_pow_positive(16, width);
    if width == 0 {
        assert(vstd::arithmetic::power::pow(16, 0) == 1) by {
            vstd::arithmetic::power::lemma_pow0(16);
        }
    } else {
        let w1 = (width - 1) as nat;
        let lower = vstd::arithmetic::power::pow(16, w1);
        assert(vstd::arithmetic::power::pow(16, width) == 16 * lower) by {
            vstd::arithmetic::power::lemma_pow_adds(16, 1, w1);
            vstd::arithmetic::power::lemma_pow1(16);
        }
        let (ha, hb) = (hex_fixed(a, width), hex_fixed(b, width));
        assert(ha.last() == hb.last());
        assert(ha.drop_last() =~= hex_fixed(a / 16, w1));
        assert(hb.drop_last() =~= hex_fixed(b / 16, w1));
        assert(a / 16 < lower) by (nonlinear_arith)
            requires
                a < 16 * lower,
        ;
        assert(b / 16 < lower) by (nonlinear_arith)
            requires
                b < 16 * lower,
        ;
        lemma_hex_fixed_injective(a / 16, b / 16, w1);
        assert(a % 16 == b % 16) by {
            assert(hex_digit(a % 16) == hex_digit(b % 16));
        }
        assert(a == 16 * (a / 16) + a % 16) by (nonlinear_arith);
        assert(b == 16 * (b / 16) + b % 16) by (nonlinear_arith);
    }
}

/// `hex_fixed` writes exactly `width` digits.
pub proof fn lemma_hex_fixed_len(n: nat, width: nat)
    ensures
        hex_fixed(n, width).len() == width,
    decreases width,
{
    if width > 0 {
        lemma_hex_fixed_len(n / 16, (width - 1) as nat);
    }
}

} // verus!
