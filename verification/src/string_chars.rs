//! Validation of sequences of code points as Unicode scalar values.

use vstd::prelude::*;

verus! {

/// `v` is a Unicode scalar value: at most `char::MAX` and not a surrogate code point.
pub open spec fn is_unicode_scalar(v: u32) -> bool {
    v <= 0x10FFFF && !(0xD800 <= v && v <= 0xDFFF)
}

/// Calls `char::from_u32`, which returns the character with code point `v`, or `None` when `v`
/// is a surrogate or above `char::MAX`, as the standard library documents.
#[verifier::external_body]
fn char_from_u32(v: u32) -> (r: Option<char>)
    ensures
        r is Some <==> is_unicode_scalar(v),
        r matches Some(c) ==> c as u32 == v,
{
    char::from_u32(v)
}

/// Validates that a `u32` slice contains only valid Unicode scalar values, and returns them as
/// characters if so.
pub fn validate_unicode_scalar_sequence(seq: &[u32]) -> (r: Option<Vec<char>>)
    ensures
        r is Some <==> forall|i: int| 0 <= i < seq@.len() ==> is_unicode_scalar(#[trigger] seq@[i]),
        r matches Some(chars) ==> chars@.len() == seq@.len() && forall|i: int|
            0 <= i < seq@.len() ==> #[trigger] chars@[i] as u32 == seq@[i],
{
    let mut chars: Vec<char> = Vec::new();
    let mut i: usize = 0;
    while i < seq.len()
        invariant
            i <= seq@.len(),
            chars@.len() == i,
            forall|j: int| 0 <= j < i ==> is_unicode_scalar(#[trigger] seq@[j]),
            forall|j: int| 0 <= j < i ==> #[trigger] chars@[j] as u32 == seq@[j],
        decreases seq@.len() - i,
    {
        match char_from_u32(seq[i]) {
            Some(c) => chars.push(c),
            None => return None,
        }
        i += 1;
    }
    Some(chars)
}

} // verus!
