//! Laws of the validation of code points.

use vstd::prelude::*;

use crate::string_chars::is_unicode_scalar;

verus! {

/// The code points accepted as Unicode scalar values are exactly the code points of characters.
pub proof fn lemma_scalars_are_char_code_points(v: u32)
    ensures
        is_unicode_scalar(v) <==> exists|c: char| #[trigger] (c as u32) == v,
{
    if exists|c: char| #[trigger] (c as u32) == v {
        let c = choose|c: char| #[trigger] (c as u32) == v;
        vstd::utf8::char_is_scalar(c);
    }
    if is_unicode_scalar(v) {
        let c = v as char;
        assert(c as u32 == v);
    }
}

} // verus!
