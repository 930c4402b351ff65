//! The total order of string names, from the engine's less-than operator.

use vstd::prelude::*;

use std::cmp::Ordering;

verus! {

/// Orders two string names from what the engine answers: whether the first is less than the
/// second (`less`), whether the second is less than the first (`greater`), and whether they are
/// equal (`equal`).
///
/// The engine's answers are consistent: at least one of the three holds.
pub fn string_name_order(less: bool, greater: bool, equal: bool) -> (r: Ordering)
    requires
        less || greater || equal,
    ensures
        r == (if less {
            Ordering::Less
        } else if greater {
            Ordering::Greater
        } else {
            Ordering::Equal
        }),
{
    if less {
        Ordering::Less
    } else if greater {
        Ordering::Greater
    } else {
        Ordering::Equal
    }
}

} // verus!
