//! The characters of a string, and integers as text.

use vstd::prelude::*;
use vstd::string::*;

verus! {

/// The characters of `s`, in order.
pub fn chars_of(s: &str) -> (v: Vec<char>)
    ensures
        v@ == s@,
{
    let mut v: Vec<char> = Vec::new();
    for c in it: s.chars()
        invariant
            it.seq() == s@,
            v@ == it.seq().take(it.index()),
    {
        v.push(c);
    }
    v
}

/// The character that stands for the digit `d` in bases up to sixteen,
/// letters in lower case.
pub open spec fn digit_char(d: int) -> char
    recommends
        0 <= d < 16,
{
    if d == 0 {
        '0'
    } else if d == 1 {
        '1'
    } else if d == 2 {
        '2'
    } else if d == 3 {
        '3'
    } else if d == 4 {
        '4'
    } else if d == 5 {
        '5'
    } else if d == 6 {
        '6'
    } else if d == 7 {
        '7'
    } else if d == 8 {
        '8'
    } else if d == 9 {
        '9'
    } else if d == 10 {
        'a'
    } else if d == 11 {
        'b'
    } else if d == 12 {
        'c'
    } else if d == 13 {
        'd'
    } else if d == 14 {
        'e'
    } else {
        'f'
    }
}

/// The one-character string for the digit `d`.
fn digit_str(d: u8) -> (s: &'static str)
    requires
        d < 16,
    ensures
        s@ == seq![digit_char(d as int)],
{
    let digits: &'static str = "0123456789abcdef";
    proof {
        reveal_strlit("0123456789abcdef");
    }
    let s = digits.substring_ascii(d as usize, d as usize + 1);
    assert(s@ =~= seq![digit_char(d as int)]);
    s
}

/// The decimal numeral of `n`, without leading zeros.
pub open spec fn decimal(n: nat) -> Seq<char>
    decreases n,
{
    if n < 10 {
        seq![digit_char(n as int)]
    } else {
        decimal(n / 10).push(digit_char((n % 10) as int))
    }
}

/// The decimal numeral of `n`, with a minus sign before it where `n` is negative.
pub open spec fn signed_decimal(n: int) -> Seq<char> {
    if n < 0 {
        seq!['-'] + decimal((-n) as nat)
    } else {
        decimal(n as nat)
    }
}

/// The byte that the two's complement form of `v` ends in.
pub open spec fn low_byte(v: int) -> int {
    v % 256
}

/// The two hexadecimal digits of the byte `b`, the high one first.
pub open spec fn hex_byte(b: int) -> Seq<char>
    recommends
        0 <= b < 256,
{
    seq![digit_char(b / 16), digit_char(b % 16)]
}

/// Appends the decimal numeral of `n` to `out`.
pub fn push_decimal(out: &mut String, n: u64)
    ensures
        final(out)@ == old(out)@ + decimal(n as nat),
    decreases n,
{
    if n >= 10 {
        push_decimal(out, n / 10);
    }
    out.append(digit_str((n % 10) as u8));
    proof {
        let d = seq![digit_char((n % 10) as int)];
        if n >= 10 {
            assert(old(out)@ + decimal((n / 10) as nat) + d =~= old(out)@ + decimal(n as nat));
        }
    }
}

/// Appends the decimal numeral of `n` to `out`, with its sign where it is negative.
pub fn push_signed_decimal(out: &mut String, n: i32)
    ensures
        final(out)@ == old(out)@ + signed_decimal(n as int),
{
    if n < 0 {
        out.append("-");
        proof {
            reveal_strlit("-");
            assert("-"@ =~= seq!['-']);
        }
        let m: u64 = (-(n as i64)) as u64;
        push_decimal(out, m);
        assert(final(out)@ =~= old(out)@ + signed_decimal(n as int));
    } else {
        push_decimal(out, n as u64);
    }
}

/// The low byte of `v`.
pub fn low_byte_of(v: i32) -> (b: u8)
    ensures
        b == low_byte(v as int),
{
    if v >= 0 {
        (v % 256) as u8
    } else {
        let m: i32 = (-(v + 1)) % 256;
        assert(low_byte(v as int) == 255 - m) by (nonlinear_arith)
            requires
                v < 0,
                m == (-(v + 1)) % 256,
        ;
        (255 - m) as u8
    }
}

/// Appends the two hexadecimal digits of `b` to `out`.
pub fn push_hex_byte(out: &mut String, b: u8)
    ensures
        final(out)@ == old(out)@ + hex_byte(b as int),
{
    out.append(digit_str(b / 16));
    out.append(digit_str(b % 16));
    assert(final(out)@ =~= old(out)@ + hex_byte(b as int));
}

} // verus!
