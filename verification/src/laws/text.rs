//! Laws of the decimal and hexadecimal text of integers: reading the digits back gives the
//! number.

use vstd::prelude::*;

use crate::text::{decimal, hex_upper, signed_decimal};

verus! {

/// The value of the digit character `c` in base 16 (decimal digits, then `A` to `F`), or `None`
/// for any other character.
pub open spec fn digit_value(c: char) -> Option<nat> {
    if '0' <= c && c <= '9' {
        Some((c as nat - '0' as nat) as nat)
    } else if 'A' <= c && c <= 'F' {
        Some((c as nat - 'A' as nat + 10) as nat)
    } else {
        None
    }
}

/// All characters of `s` are digits below `base`.
pub open spec fn all_digits(s: Seq<char>, base: nat) -> bool {
    forall|i: int| 0 <= i < s.len() ==> (#[trigger] digit_value(s[i]) matches Some(d) && d < base)
}

/// The number that the digits `s` write in `base`, most significant first.
pub open spec fn read_digits(s: Seq<char>, base: nat) -> nat
    decreases s.len(),
{
    if s.len() == 0 {
        0
    } else {
        let d = match digit_value(s.last()) {
            Some(d) => d,
            None => 0,
        };
        read_digits(s.drop_last(), base) * base + d
    }
}

/// Each hexadecimal digit character has the value of its digit.
proof fn lemma_digit_char_value(d: nat)
    requires
        d < 16,
    ensures
        digit_value(crate::text::hex_digit_char(d)) == Some(d),
        d < 10 ==> crate::text::hex_digit_char(d) == crate::text::digit_char(d),
{
    assert('0' as nat == 48 && '1' as nat == 49 && '2' as nat == 50 && '3' as nat == 51 && '4' as nat == 52
        && '5' as nat == 53 && '6' as nat == 54 && '7' as nat == 55 && '8' as nat == 56 && '9' as nat == 57);
    assert('A' as nat == 65 && 'B' as nat == 66 && 'C' as nat == 67 && 'D' as nat == 68 && 'E' as nat == 69
        && 'F' as nat == 70);
}

/// Reading the decimal text of `n` back gives `n`: it is made of decimal digits only, and its
/// first digit is `0` only for zero.
pub proof fn lemma_decimal_reads_back(n: nat)
    ensures
        all_digits(decimal(n), 10),
        read_digits(decimal(n), 10) == n,
        decimal(n).len() >= 1,
        decimal(n)[0] == '0' <==> n == 0,
    decreases n,
{
    if n < 10 {
        lemma_digit_char_value(n);
        assert(decimal(n) == seq![crate::text::digit_char(n)]);
        assert(seq![crate::text::digit_char(n)].drop_last() =~= Seq::<char>::empty());
        assert(read_digits(Seq::<char>::empty(), 10) == 0);
    } else {
        lemma_decimal_reads_back(n / 10);
        let prefix = decimal(n / 10);
        let last = crate::text::digit_char(n % 10);
        lemma_digit_char_value(n % 10);
        assert(decimal(n) == prefix + seq![last]);
        assert((prefix + seq![last]).drop_last() =~= prefix);
        assert((prefix + seq![last]).last() == last);
        assert(read_digits(decimal(n), 10) == read_digits(prefix, 10) * 10 + n % 10);
        assert(n == (n / 10) * 10 + n % 10);
        assert forall|i: int| 0 <= i < decimal(n).len() implies (#[trigger] digit_value(decimal(n)[i]) matches Some(
            d,
        ) && d < 10) by {
            if i < prefix.len() {
                assert(decimal(n)[i] == prefix[i]);
            }
        }
        assert(decimal(n)[0] == prefix[0]);
    }
}

/// Reading the upper-case hexadecimal text of `n` back gives `n`: it is made of hexadecimal
/// digits only, and its first digit is `0` only for zero.
pub proof fn lemma_hex_reads_back(n: nat)
    ensures
        all_digits(hex_upper(n), 16),
        read_digits(hex_upper(n), 16) == n,
        hex_upper(n).len() >= 1,
        hex_upper(n)[0] == '0' <==> n == 0,
    decreases n,
{
    if n < 16 {
        lemma_digit_char_value(n);
        assert(hex_upper(n) == seq![crate::text::hex_digit_char(n)]);
        assert(seq![crate::text::hex_digit_char(n)].drop_last() =~= Seq::<char>::empty());
        assert(read_digits(Seq::<char>::empty(), 16) == 0);
    } else {
        lemma_hex_reads_back(n / 16);
        let prefix = hex_upper(n / 16);
        let last = crate::text::hex_digit_char(n % 16);
        lemma_digit_char_value(n % 16);
        assert(hex_upper(n) == prefix + seq![last]);
        assert((prefix + seq![last]).drop_last() =~= prefix);
        assert((prefix + seq![last]).last() == last);
        assert(read_digits(hex_upper(n), 16) == read_digits(prefix, 16) * 16 + n % 16);
        assert(n == (n / 16) * 16 + n % 16);
        assert forall|i: int| 0 <= i < hex_upper(n).len() implies (#[trigger] digit_value(hex_upper(n)[i]) matches Some(
            d,
        ) && d < 16) by {
            if i < prefix.len() {
                assert(hex_upper(n)[i] == prefix[i]);
            }
        }
        assert(hex_upper(n)[0] == prefix[0]);
    }
}

/// The signed decimal text of `v` is `-` followed by the digits of `-v` for a negative `v`, and
/// the digits of `v` otherwise; the digits read back as the magnitude of `v`.
pub proof fn lemma_signed_decimal_reads_back(v: int)
    ensures
        v < 0 ==> signed_decimal(v)[0] == '-' && read_digits(signed_decimal(v).drop_first(), 10) == -v,
        v >= 0 ==> read_digits(signed_decimal(v), 10) == v && signed_decimal(v)[0] != '-',
{
    if v < 0 {
        lemma_decimal_reads_back((-v) as nat);
        assert(signed_decimal(v).drop_first() =~= decimal((-v) as nat));
    } else {
        lemma_decimal_reads_back(v as nat);
        let c = decimal(v as nat)[0];
        assert(digit_value(c) is Some);
    }
}

} // verus!
