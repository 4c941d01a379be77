//! Verified building blocks for the diagnostic text renderings: hexadecimal
//! and decimal digit sequences.

use vstd::prelude::*;
use vstd::string::StringExecFns;

verus! {

/// The upper-case hexadecimal digit for a value below 16.
pub open spec fn spec_hex_digit(n: int) -> char
    recommends
        0 <= n < 16,
{
    if n == 0 {
        '0'
    } else if n == 1 {
        '1'
    } else if n == 2 {
        '2'
    } else if n == 3 {
        '3'
    } else if n == 4 {
        '4'
    } else if n == 5 {
        '5'
    } else if n == 6 {
        '6'
    } else if n == 7 {
        '7'
    } else if n == 8 {
        '8'
    } else if n == 9 {
        '9'
    } else if n == 10 {
        'A'
    } else if n == 11 {
        'B'
    } else if n == 12 {
        'C'
    } else if n == 13 {
        'D'
    } else if n == 14 {
        'E'
    } else {
        'F'
    }
}

/// The two upper-case hexadecimal digits of a byte.
pub open spec fn spec_hex_u8(b: u8) -> Seq<char> {
    seq![spec_hex_digit(b as int / 16), spec_hex_digit(b as int % 16)]
}

/// The four upper-case hexadecimal digits of a 16-bit value.
pub open spec fn spec_hex_u16(v: u16) -> Seq<char> {
    spec_hex_u8((v / 0x100) as u8) + spec_hex_u8((v % 0x100) as u8)
}

/// The decimal digits of a nonnegative number, most significant first.
pub open spec fn spec_dec(n: int) -> Seq<char>
    recommends
        n >= 0,
    decreases n,
{
    if n < 10 {
        seq![spec_hex_digit(n)]
    } else {
        spec_dec(n / 10) + seq![spec_hex_digit(n % 10)]
    }
}

/// The one-character string holding the digit for a value below 16.
pub fn digit_str(n: u8) -> (r: &'static str)
    requires
        n < 16,
    ensures
        r@ == seq![spec_hex_digit(n as int)],
{
    proof {
        reveal_strlit("0");
        reveal_strlit("1");
        reveal_strlit("2");
        reveal_strlit("3");
        reveal_strlit("4");
        reveal_strlit("5");
        reveal_strlit("6");
        reveal_strlit("7");
        reveal_strlit("8");
        reveal_strlit("9");
        reveal_strlit("A");
        reveal_strlit("B");
        reveal_strlit("C");
        reveal_strlit("D");
        reveal_strlit("E");
        reveal_strlit("F");
    }
    match n {
        0 => "0",
        1 => "1",
        2 => "2",
        3 => "3",
        4 => "4",
        5 => "5",
        6 => "6",
        7 => "7",
        8 => "8",
        9 => "9",
        10 => "A",
        11 => "B",
        12 => "C",
        13 => "D",
        14 => "E",
        _ => "F",
    }
}

/// Appends the two hexadecimal digits of `b` to `out`.
pub fn push_hex_u8(out: &mut String, b: u8)
    ensures
        final(out)@ == old(out)@ + spec_hex_u8(b),
{
    out.append(digit_str(b / 16));
    out.append(digit_str(b % 16));
    proof {
        assert(out@ =~= old(out)@ + spec_hex_u8(b));
    }
}

/// Appends the four hexadecimal digits of `v` to `out`.
pub fn push_hex_u16(out: &mut String, v: u16)
    ensures
        final(out)@ == old(out)@ + spec_hex_u16(v),
{
    push_hex_u8(out, (v / 0x100) as u8);
    push_hex_u8(out, (v % 0x100) as u8);
    proof {
        assert(out@ =~= old(out)@ + spec_hex_u16(v));
    }
}

/// Appends the decimal rendering of `v` to `out`.
pub fn push_dec_u64(out: &mut String, v: u64)
    ensures
        final(out)@ == old(out)@ + spec_dec(v as int),
    decreases v,
{
    if v < 10 {
        out.append(digit_str(v as u8));
    } else {
        push_dec_u64(out, v / 10);
        out.append(digit_str((v % 10) as u8));
        proof {
            assert(out@ =~= old(out)@ + spec_dec(v as int));
        }
    }
}

} // verus!
