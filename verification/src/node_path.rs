//! Index arithmetic of node paths.

use vstd::prelude::*;

use crate::vectors::component::{clamp_i32, fits_i32};

verus! {

/// The begin index that Godot 4.4 and later slice a node path at, expressed for the slicing of
/// earlier versions, which count the boundary between names and subnames as one more position.
pub open spec fn spec_subpath_begin(begin: i32, name_count: i32, subname_count: i32) -> int {
    let total = name_count + subname_count;
    let clamped = clamp_i32(begin, -total as i32, total as i32);
    let from_start = if clamped < 0 { clamped + total } else { clamped as int };
    if from_start > name_count { from_start + 1 } else { from_start }
}

/// Translates the `begin` of `NodePath::subpath()` for engines before Godot 4.4: `begin` is
/// clamped to the total number of names and subnames, a negative `begin` counts from the end,
/// and a position among the subnames is shifted by one.
pub fn subpath_begin(begin: i32, name_count: i32, subname_count: i32) -> (r: i32)
    requires
        name_count >= 0,
        subname_count >= 0,
        fits_i32(name_count + subname_count),
        spec_subpath_begin(begin, name_count, subname_count) <= i32::MAX,
    ensures
        r == spec_subpath_begin(begin, name_count, subname_count),
{
    let total_count = name_count + subname_count;

    let mut begin = if begin < -total_count {
        -total_count
    } else if begin > total_count {
        total_count
    } else {
        begin
    };
    if begin < 0 {
        begin += total_count;
    }
    if begin > name_count {
        begin += 1;
    }
    begin
}

/// The translated begin lies between zero and one past the total number of names and subnames.
pub proof fn lemma_subpath_begin_in_range(begin: i32, name_count: i32, subname_count: i32)
    requires
        name_count >= 0,
        subname_count >= 0,
    ensures
        0 <= spec_subpath_begin(begin, name_count, subname_count) <= name_count + subname_count + 1,
{
}

/// How the begin moves, case by case: a begin among the names (at most `name_count`) is kept,
/// whatever the number of subnames; a begin past the names is moved one position further; a
/// begin beyond the end stops at the end (moved past the names when there are subnames); a
/// negative begin is first counted from the end, and one before the start stops at zero.
pub proof fn lemma_subpath_begin_cases(begin: i32, name_count: i32, subname_count: i32)
    requires
        name_count >= 0,
        subname_count >= 0,
        fits_i32(name_count + subname_count),
    ensures
        0 <= begin <= name_count ==> spec_subpath_begin(begin, name_count, subname_count) == begin,
        name_count < begin <= name_count + subname_count ==> spec_subpath_begin(
            begin,
            name_count,
            subname_count,
        ) == begin + 1,
        begin > name_count + subname_count ==> spec_subpath_begin(begin, name_count, subname_count)
            == name_count + subname_count + (if subname_count > 0 { 1int } else { 0int }),
        -(name_count + subname_count) <= begin < 0 ==> spec_subpath_begin(begin, name_count, subname_count)
            == spec_subpath_begin((begin + name_count + subname_count) as i32, name_count, subname_count),
        begin < -(name_count + subname_count) ==> spec_subpath_begin(begin, name_count, subname_count) == 0,
{
}

} // verus!
