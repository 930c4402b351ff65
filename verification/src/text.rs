//! Decimal text of integers, as Godot and Rust print them.

use vstd::prelude::*;

verus! {

/// The character of the decimal digit `d`.
pub open spec fn digit_char(d: nat) -> char {
    if d == 0 {
        '0'
    } else if d == 1 {
        '1'
    } else if d == 2 {
        '2'
    } else if d == 3 {
        '3'
    } else if d == 4 {
        '4'
    } else if d == 5 {
        '5'
    } else if d == 6 {
        '6'
    } else if d == 7 {
        '7'
    } else if d == 8 {
        '8'
    } else {
        '9'
    }
}

/// The decimal digits of `n`, most significant first, without leading zeros.
pub open spec fn decimal(n: nat) -> Seq<char>
    decreases n,
{
    if n < 10 {
        seq![digit_char(n)]
    } else {
        decimal(n / 10) + seq![digit_char(n % 10)]
    }
}

/// The decimal text of `v`, with a leading `-` for negative numbers.
pub open spec fn signed_decimal(v: int) -> Seq<char> {
    if v < 0 {
        seq!['-'] + decimal((-v) as nat)
    } else {
        decimal(v as nat)
    }
}

/// The character of the hexadecimal digit `d`, with upper-case letters.
pub open spec fn hex_digit_char(d: nat) -> char {
    if d < 10 {
        digit_char(d)
    } else if d == 10 {
        'A'
    } else if d == 11 {
        'B'
    } else if d == 12 {
        'C'
    } else if d == 13 {
        'D'
    } else if d == 14 {
        'E'
    } else {
        'F'
    }
}

/// The upper-case hexadecimal digits of `n`, most significant first, without leading zeros.
pub open spec fn hex_upper(n: nat) -> Seq<char>
    decreases n,
{
    if n < 16 {
        seq![hex_digit_char(n)]
    } else {
        hex_upper(n / 16) + seq![hex_digit_char(n % 16)]
    }
}

/// The one-character string of the hexadecimal digit `d`.
fn hex_digit_str(d: u64) -> (r: &'static str)
    requires
        d < 16,
    ensures
        r@ == seq![hex_digit_char(d as nat)],
{
    if d < 10 {
        return digit_str(d);
    }
    proof {
        reveal_strlit("A");
        reveal_strlit("B");
        reveal_strlit("C");
        reveal_strlit("D");
        reveal_strlit("E");
        reveal_strlit("F");
    }
    match d {
        10 => "A",
        11 => "B",
        12 => "C",
        13 => "D",
        14 => "E",
        _ => "F",
    }
}

/// Appends the upper-case hexadecimal digits of `n` to `s`.
pub fn push_hex_upper(s: &mut String, n: u64)
    ensures
        final(s)@ == old(s)@ + hex_upper(n as nat),
    decreases n,
{
    if n >= 16 {
        push_hex_upper(s, n / 16);
    }
    s.append(hex_digit_str(n % 16));
    proof {
        if n >= 16 {
            assert(old(s)@ + hex_upper((n / 16) as nat) + seq![hex_digit_char((n % 16) as nat)] =~= old(s)@
                + hex_upper(n as nat));
        }
    }
}

/// The one-character string of the decimal digit `d`.
fn digit_str(d: u64) -> (r: &'static str)
    requires
        d < 10,
    ensures
        r@ == seq![digit_char(d as nat)],
{
    proof {
        reveal_strlit("0");
        reveal_strlit("1");
        reveal_strlit("2");
        reveal_strlit("3");
        reveal_strlit("4");
        reveal_strlit("5");
        reveal_strlit("6");
        reveal_strlit("7");
        reveal_strlit("8");
        reveal_strlit("9");
    }
    match d {
        0 => "0",
        1 => "1",
        2 => "2",
        3 => "3",
        4 => "4",
        5 => "5",
        6 => "6",
        7 => "7",
        8 => "8",
        _ => "9",
    }
}

/// Appends the decimal digits of `n` to `s`.
pub fn push_decimal(s: &mut String, n: u64)
    ensures
        final(s)@ == old(s)@ + decimal(n as nat),
    decreases n,
{
    if n >= 10 {
        push_decimal(s, n / 10);
    }
    s.append(digit_str(n % 10));
    proof {
        if n >= 10 {
            assert(decimal(n as nat) == decimal((n / 10) as nat) + seq![digit_char((n % 10) as nat)]);
            assert(old(s)@ + decimal((n / 10) as nat) + seq![digit_char((n % 10) as nat)] =~= old(s)@
                + decimal(n as nat));
        }
    }
}

/// Appends the decimal text of `v` to `s`, with a leading `-` if `v` is negative.
pub fn push_signed_decimal(s: &mut String, v: i32)
    ensures
        final(s)@ == old(s)@ + signed_decimal(v as int),
{
    if v < 0 {
        proof {
            reveal_strlit("-");
        }
        s.append("-");
        let magnitude: u64 = (0i64 - v as i64) as u64;
        push_decimal(s, magnitude);
        proof {
            assert(old(s)@ + seq!['-'] + decimal(magnitude as nat) =~= old(s)@ + signed_decimal(v as int));
        }
    } else {
        push_decimal(s, v as u64);
    }
}

/// Whether displayed text has to be laid out again after it was written: a width, a precision
/// or an alignment was requested of the formatter.
pub fn needs_layout(width: Option<usize>, precision: Option<usize>, aligned: bool) -> (r: bool)
    ensures
        r == (width is Some || precision is Some || aligned),
{
    width.is_some() || precision.is_some() || aligned
}

} // verus!
