//! Laws of integer vector components and axes.

use vstd::prelude::*;

use crate::vectors::component::{
    abs_int, clamp_i32, floor_div, max_i32, min_i32, sign_i32, snap, trunc_div,
};
use crate::vectors::{Vector2Axis, Vector3Axis, Vector4Axis};

verus! {

/// Half of a nonzero step, rounded toward zero, lies between zero (inclusive) and the step
/// (exclusive), on the step's side of zero.
proof fn lemma_half_step(step: int)
    requires
        step != 0,
    ensures
        step > 0 ==> 0 <= trunc_div(step, 2) < step,
        step < 0 ==> step < trunc_div(step, 2) <= 0,
{
    let m = abs_int(step);
    assert(0 <= m / 2 < m);
}

/// Floor division brackets the dividend between two consecutive multiples of the divisor.
proof fn lemma_floor_div_brackets(a: int, b: int)
    requires
        b != 0,
    ensures
        b > 0 ==> b * floor_div(a, b) <= a < b * floor_div(a, b) + b,
        b < 0 ==> b * floor_div(a, b) >= a > b * floor_div(a, b) + b,
{
    if b > 0 {
        vstd::arithmetic::div_mod::lemma_fundamental_div_mod(a, b);
    } else {
        vstd::arithmetic::div_mod::lemma_fundamental_div_mod(-a, -b);
        let q = (-a) / (-b);
        assert(b * q == -((-b) * q)) by (nonlinear_arith);
    }
}

/// Floor division of a multiple of the divisor plus a remainder that lies between zero and the
/// divisor gives the multiplier.
proof fn lemma_floor_div_of_multiple(k: int, b: int, r: int)
    requires
        b > 0 ==> 0 <= r < b,
        b < 0 ==> b < r <= 0,
        b != 0,
    ensures
        floor_div(b * k + r, b) == k,
{
    if b > 0 {
        vstd::arithmetic::div_mod::lemma_fundamental_div_mod_converse(b * k + r, b, k, r);
    } else {
        assert(-(b * k + r) == (-b) * k + (-r)) by (nonlinear_arith);
        vstd::arithmetic::div_mod::lemma_fundamental_div_mod_converse(-(b * k + r), -b, k, -r);
    }
}

/// Snapping gives a multiple of the step that is the closest one to the value, with halfway
/// cases resolved by adding half the step (rounded toward zero) before rounding down.
pub proof fn lemma_snap_is_nearest_multiple(value: int, step: int)
    requires
        step != 0,
    ensures
        snap(value, step) == step * floor_div(trunc_div(step, 2) + value, step),
        step > 0 ==> snap(value, step) <= trunc_div(step, 2) + value < snap(value, step) + step,
        step < 0 ==> snap(value, step) >= trunc_div(step, 2) + value > snap(value, step) + step,
{
    lemma_floor_div_brackets(trunc_div(step, 2) + value, step);
}

/// Snapping a multiple of the step leaves it unchanged, so snapping twice is snapping once.
pub proof fn lemma_snap_idempotent(value: int, step: int)
    ensures
        snap(snap(value, step), step) == snap(value, step),
{
    if step != 0 {
        let k = floor_div(trunc_div(step, 2) + value, step);
        lemma_half_step(step);
        assert(trunc_div(step, 2) + step * k == step * k + trunc_div(step, 2));
        lemma_floor_div_of_multiple(k, step, trunc_div(step, 2));
    }
}

/// Snapping with a zero step changes nothing.
pub proof fn lemma_snap_zero_step(value: int)
    ensures
        snap(value, 0) == value,
{
}

/// A component limited to `lo..=hi` lies within that range, and is unchanged if it was
/// already there.
pub proof fn lemma_clamp_within(v: i32, lo: i32, hi: i32)
    requires
        lo <= hi,
    ensures
        lo <= clamp_i32(v, lo, hi) <= hi,
        lo <= v <= hi ==> clamp_i32(v, lo, hi) == v,
        clamp_i32(v, lo, hi) == min_i32(max_i32(v, lo), hi),
{
}

/// The component-wise minimum and maximum do not depend on the order of their arguments, and
/// the minimum never exceeds the maximum.
pub proof fn lemma_min_max_order(a: i32, b: i32)
    ensures
        min_i32(a, b) == min_i32(b, a),
        max_i32(a, b) == max_i32(b, a),
        min_i32(a, b) <= a <= max_i32(a, b),
        min_i32(a, b) <= b <= max_i32(a, b),
{
}

/// A component is its sign times its absolute value.
pub proof fn lemma_sign_times_abs(v: i32)
    ensures
        sign_i32(v) * abs_int(v as int) == v,
{
    let s = sign_i32(v) as int;
    let a = abs_int(v as int);
    if v < 0 {
        assert(s == -1 && a == -v);
        assert(s * a == v) by (nonlinear_arith)
            requires
                s == -1,
                a == -v,
        ;
    } else if v > 0 {
        assert(s == 1 && a == v);
        assert(s * a == v) by (nonlinear_arith)
            requires
                s == 1,
                a == v,
        ;
    }
}

/// Each 2D axis is found again from its position, and only there.
pub proof fn lemma_vector2_axis_roundtrip(axis: Vector2Axis, i: int)
    ensures
        Vector2Axis::from_index(axis.index_of()) == Some(axis),
        Vector2Axis::from_index(i) matches Some(a) ==> a.index_of() == i,
{
}

/// Each 3D axis is found again from its position, and only there.
pub proof fn lemma_vector3_axis_roundtrip(axis: Vector3Axis, i: int)
    ensures
        Vector3Axis::from_index(axis.index_of()) == Some(axis),
        Vector3Axis::from_index(i) matches Some(a) ==> a.index_of() == i,
{
}

/// Each 4D axis is found again from its position, and only there.
pub proof fn lemma_vector4_axis_roundtrip(axis: Vector4Axis, i: int)
    ensures
        Vector4Axis::from_index(axis.index_of()) == Some(axis),
        Vector4Axis::from_index(i) matches Some(a) ==> a.index_of() == i,
{
}

} // verus!
