//! Arithmetic on single `i32` components, shared by all integer vector types.

use vstd::prelude::*;

verus! {

/// `v` is representable as an `i32`.
pub open spec fn fits_i32(v: int) -> bool {
    i32::MIN <= v <= i32::MAX
}

/// The smaller of two components.
pub open spec fn min_i32(a: i32, b: i32) -> i32 {
    if a < b { a } else { b }
}

/// The larger of two components.
pub open spec fn max_i32(a: i32, b: i32) -> i32 {
    if a > b { a } else { b }
}

/// `v` limited to the range `lo..=hi`.
pub open spec fn clamp_i32(v: i32, lo: i32, hi: i32) -> i32 {
    if v < lo { lo } else if v > hi { hi } else { v }
}

/// Absolute value of a component, as a mathematical integer.
pub open spec fn abs_int(v: int) -> int {
    if v < 0 { -v } else { v }
}

/// `1` for positive, `-1` for negative and `0` for zero components.
pub open spec fn sign_i32(v: i32) -> i32 {
    if v > 0 { 1i32 } else if v < 0 { -1i32 } else { 0i32 }
}

/// Integer division rounding toward zero, as Rust's `/` does.
pub open spec fn trunc_div(a: int, b: int) -> int {
    if (a >= 0) == (b > 0) || a == 0 {
        abs_int(a) / abs_int(b)
    } else {
        -(abs_int(a) / abs_int(b))
    }
}

/// Integer division rounding toward negative infinity.
pub open spec fn floor_div(a: int, b: int) -> int {
    if b > 0 { a / b } else { (-a) / (-b) }
}

/// The multiple of `step` closest to `value`; halfway cases round toward positive infinity
/// when `step` is positive. A zero `step` leaves `value` unchanged.
pub open spec fn snap(value: int, step: int) -> int {
    if step == 0 { value } else { step * floor_div(trunc_div(step, 2) + value, step) }
}

/// The inputs on which snapping one component stays within `i32` at every step.
pub open spec fn snap_fits(value: i32, step: i32) -> bool {
    &&& !(value == i32::MIN && step == -1)
    &&& fits_i32(trunc_div(step as int, 2) + value)
    &&& fits_i32(snap(value as int, step as int))
}

/// Euclidean division of a negated numerator by a positive divisor, in terms of the
/// division of the numerator itself.
proof fn lemma_div_of_negated(x: int, m: int)
    requires
        x >= 0,
        m > 0,
    ensures
        (-x) / m == -(x / m) - (if x % m == 0 { 0int } else { 1int }),
{
    vstd::arithmetic::div_mod::lemma_fundamental_div_mod(x, m);
    let q = x / m;
    let r = x % m;
    if r == 0 {
        assert(-x == m * (-q) + 0) by (nonlinear_arith)
            requires x == m * q + r, r == 0;
        vstd::arithmetic::div_mod::lemma_fundamental_div_mod_converse(-x, m, -q, 0);
    } else {
        assert(-x == m * (-q - 1) + (m - r)) by (nonlinear_arith)
            requires x == m * q + r;
        vstd::arithmetic::div_mod::lemma_fundamental_div_mod_converse(-x, m, -q - 1, m - r);
    }
}

/// Floor division of two `i64` values with a positive divisor.
fn floor_div_positive(n: i64, m: i64) -> (d: i64)
    requires
        m > 0,
        i32::MIN as int * 2 <= n <= i32::MAX as int * 2,
    ensures
        d == (n as int) / (m as int),
{
    let mut d = n / m;
    let r = n % m;
    proof {
        if n < 0 {
            lemma_div_of_negated(-n as int, m as int);
        }
    }
    if r < 0 {
        d -= 1;
    }
    d
}

/// Snaps `value` to the closest multiple of `step` (see [`snap`]).
pub fn snap_one(value: i32, step: i32) -> (r: i32)
    requires
        snap_fits(value, step),
    ensures
        r == snap(value as int, step as int),
{
    let mut value = value;
    if step != 0 {
        let a = step / 2 + value;
        let d = if step > 0 {
            floor_div_positive(a as i64, step as i64)
        } else {
            floor_div_positive(-(a as i64), -(step as i64))
        };
        value = (step as i64 * d) as i32;
    }
    value
}

/// Dividing `a` by `b` neither divides by zero nor overflows.
pub open spec fn div_fits(a: i32, b: i32) -> bool {
    b != 0 && !(a == i32::MIN && b == -1)
}

/// `1` for a positive component, `-1` for a negative one and `0` for zero.
pub fn sign_one(c: i32) -> (r: i32)
    ensures
        r == sign_i32(c),
{
    if c == 0 {
        0
    } else if c > 0 {
        1
    } else {
        -1
    }
}

/// Limits one component to `min..=max`, as `i32::clamp` does.
pub fn clamp_one(v: i32, min: i32, max: i32) -> (r: i32)
    requires
        min <= max,
    ensures
        r == clamp_i32(v, min, max),
{
    if v < min {
        min
    } else if v > max {
        max
    } else {
        v
    }
}

/// Divides one component by another, rounding toward zero like Rust's `/` on `i32`.
pub fn div_one(a: i32, b: i32) -> (r: i32)
    requires
        div_fits(a, b),
    ensures
        r == trunc_div(a as int, b as int),
{
    let (n, m) = if b > 0 {
        (a as i64, b as i64)
    } else {
        (-(a as i64), -(b as i64))
    };
    let q = n / m;
    proof {
        assert(q == (if n >= 0 { (n as int) / (m as int) } else { -((-n as int) / (m as int)) }));
        assert(abs_int(n as int) == abs_int(a as int));
        assert(abs_int(m as int) == abs_int(b as int));
        let x = abs_int(n as int);
        vstd::arithmetic::div_mod::lemma_div_pos_is_pos(x, m as int);
        vstd::arithmetic::div_mod::lemma_div_nonincreasing(x, m as int);
        if m >= 2 {
            vstd::arithmetic::div_mod::lemma_div_is_ordered_by_denominator(x, 2, m as int);
            vstd::arithmetic::div_mod::lemma_div_is_ordered(x, 0x8000_0000, 2);
        }
        assert(q == (if n >= 0 { x / (m as int) } else { -(x / (m as int)) }));
    }
    q as i32
}

} // verus!
