//! Laws of the arithmetic operators on integer vectors: each operator acts on every component
//! as the integer operation does, and the operators relate to each other as integer arithmetic
//! makes them.

use vstd::prelude::*;

use vstd::std_specs::ops::{AddSpec, DivSpec, MulSpec, NegSpec, SubSpec};

use crate::vectors::component::{abs_int, div_fits, fits_i32, trunc_div};
use crate::vectors::{Vector2Axis, Vector2i, Vector3Axis, Vector3i, Vector4Axis, Vector4i};

verus! {

/// `q` is the quotient of `n` by `d` rounded toward zero: `q * d` is the multiple of `d` that lies
/// on the same side of zero as `n`, and closest to `n` without passing it.
pub open spec fn is_truncated_quotient(n: int, d: int, q: int) -> bool {
    &&& d != 0
    &&& abs_int(q * d) <= abs_int(n) < abs_int(q * d) + abs_int(d)
    &&& n >= 0 ==> q * d >= 0
    &&& n <= 0 ==> q * d <= 0
}

/// Division rounding toward zero gives the truncated quotient.
proof fn lemma_trunc_div_is_truncated_quotient(n: int, d: int)
    requires
        d != 0,
    ensures
        is_truncated_quotient(n, d, trunc_div(n, d)),
{
    let nn = abs_int(n);
    let dd = abs_int(d);
    let q0 = nn / dd;
    vstd::arithmetic::div_mod::lemma_fundamental_div_mod(nn, dd);
    vstd::arithmetic::div_mod::lemma_div_pos_is_pos(nn, dd);
    assert(q0 * dd <= nn < q0 * dd + dd) by (nonlinear_arith)
        requires
            nn == dd * q0 + nn % dd,
            0 <= nn % dd < dd,
    ;
    assert(q0 * dd >= 0) by (nonlinear_arith)
        requires
            q0 >= 0,
            dd > 0,
    ;
    let q = trunc_div(n, d);
    if n == 0 {
        assert(q0 == 0);
        assert(q == 0);
        assert(q * d == 0);
    } else if (n >= 0) == (d > 0) {
        assert(q == q0);
        if d > 0 {
            assert(q * d == q0 * dd);
        } else {
            assert(q * d == -(q0 * dd)) by (nonlinear_arith)
                requires
                    q == q0,
                    dd == -d,
            ;
        }
    } else {
        assert(q == -q0);
        if d > 0 {
            assert(q * d == -(q0 * dd)) by (nonlinear_arith)
                requires
                    q == -q0,
                    dd == d,
            ;
        } else {
            assert(q * d == q0 * dd) by (nonlinear_arith)
                requires
                    q == -q0,
                    dd == -d,
            ;
        }
    }
}

/// Dividing components that do not overflow gives a quotient that fits in a component.
proof fn lemma_trunc_div_fits(n: i32, d: i32)
    requires
        div_fits(n, d),
    ensures
        fits_i32(trunc_div(n as int, d as int)),
{
    let nn = abs_int(n as int);
    let dd = abs_int(d as int);
    vstd::arithmetic::div_mod::lemma_div_pos_is_pos(nn, dd);
    vstd::arithmetic::div_mod::lemma_div_nonincreasing(nn, dd);
    if dd >= 2 {
        vstd::arithmetic::div_mod::lemma_div_is_ordered_by_denominator(nn, 2, dd);
        vstd::arithmetic::div_mod::lemma_div_is_ordered(nn, 0x8000_0000, 2);
    }
}

/// The truncated quotient of two components, kept as a component, is the truncated quotient.
proof fn lemma_component_quotient(n: i32, d: i32)
    requires
        div_fits(n, d),
    ensures
        is_truncated_quotient(n as int, d as int, (trunc_div(n as int, d as int) as i32) as int),
{
    lemma_trunc_div_fits(n, d);
    lemma_trunc_div_is_truncated_quotient(n as int, d as int);
}

/// Adding two `Vector2i`s adds every component, and the order of the operands does not matter.
pub proof fn lemma_vector2i_add(u: Vector2i, v: Vector2i)
    ensures
        forall|a: Vector2Axis| fits_i32(u.component(a) + v.component(a)) ==> #[trigger] AddSpec::add_spec(u, v).component(a)
            == u.component(a) + v.component(a),
        AddSpec::add_spec(u, v) == AddSpec::add_spec(v, u),
{
    assert(u.component(Vector2Axis::X) == u.x);
    assert(u.component(Vector2Axis::Y) == u.y);
    assert(v.component(Vector2Axis::X) == v.x);
    assert(v.component(Vector2Axis::Y) == v.y);
}

/// Subtracting a `Vector2i` subtracts every component, and adding it back gives the first operand.
pub proof fn lemma_vector2i_sub(u: Vector2i, v: Vector2i)
    ensures
        forall|a: Vector2Axis| fits_i32(u.component(a) - v.component(a)) ==> #[trigger] SubSpec::sub_spec(u, v).component(a)
            == u.component(a) - v.component(a),
        (forall|a: Vector2Axis| fits_i32(#[trigger] u.component(a) - v.component(a))) ==> AddSpec::add_spec(
            SubSpec::sub_spec(u, v),
            v,
        ) == u,
{
    assert(u.component(Vector2Axis::X) == u.x);
    assert(u.component(Vector2Axis::Y) == u.y);
    assert(v.component(Vector2Axis::X) == v.x);
    assert(v.component(Vector2Axis::Y) == v.y);
}

/// Multiplying two `Vector2i`s multiplies every component, and the order of the operands does not
/// matter.
pub proof fn lemma_vector2i_mul(u: Vector2i, v: Vector2i)
    ensures
        forall|a: Vector2Axis| fits_i32(u.component(a) * v.component(a)) ==> #[trigger] MulSpec::<Vector2i>::mul_spec(u, v).component(a)
            == u.component(a) * v.component(a),
        MulSpec::<Vector2i>::mul_spec(u, v) == MulSpec::<Vector2i>::mul_spec(v, u),
{
    assert(u.component(Vector2Axis::X) == u.x);
    assert(u.component(Vector2Axis::Y) == u.y);
    assert(v.component(Vector2Axis::X) == v.x);
    assert(v.component(Vector2Axis::Y) == v.y);
    assert(u.x * v.x == v.x * u.x) by (nonlinear_arith);
    assert(u.y * v.y == v.y * u.y) by (nonlinear_arith);
}

/// Scaling a `Vector2i` by a scalar multiplies every component, whether the scalar stands on the
/// left or on the right.
pub proof fn lemma_vector2i_scale(s: i32, v: Vector2i)
    ensures
        forall|a: Vector2Axis| fits_i32(v.component(a) * s) ==> #[trigger] MulSpec::<i32>::mul_spec(v, s).component(a)
            == v.component(a) * s,
        MulSpec::<Vector2i>::mul_spec(s, v) == MulSpec::<i32>::mul_spec(v, s),
        forall|a: Vector2Axis| fits_i32(s * v.component(a)) ==> #[trigger] MulSpec::<Vector2i>::mul_spec(s, v).component(a)
            == s * v.component(a),
{
    assert(v.component(Vector2Axis::X) == v.x);
    assert(v.component(Vector2Axis::Y) == v.y);
    assert(v.x * s == s * v.x) by (nonlinear_arith);
    assert(v.y * s == s * v.y) by (nonlinear_arith);
}

/// Dividing two `Vector2i`s divides every component, rounding toward zero.
pub proof fn lemma_vector2i_div(u: Vector2i, v: Vector2i)
    ensures
        forall|a: Vector2Axis| div_fits(u.component(a), v.component(a)) ==> is_truncated_quotient(
            u.component(a) as int,
            v.component(a) as int,
            #[trigger] DivSpec::<Vector2i>::div_spec(u, v).component(a) as int,
        ),
{
    assert(u.component(Vector2Axis::X) == u.x);
    assert(u.component(Vector2Axis::Y) == u.y);
    assert(v.component(Vector2Axis::X) == v.x);
    assert(v.component(Vector2Axis::Y) == v.y);
    assert forall|a: Vector2Axis| div_fits(u.component(a), v.component(a)) implies is_truncated_quotient(
        u.component(a) as int,
        v.component(a) as int,
        #[trigger] DivSpec::<Vector2i>::div_spec(u, v).component(a) as int,
    ) by {
        lemma_component_quotient(u.component(a), v.component(a));
    }
}

/// Dividing a `Vector2i` by a scalar divides every component by it, rounding toward zero.
pub proof fn lemma_vector2i_div_scalar(v: Vector2i, s: i32)
    ensures
        forall|a: Vector2Axis| div_fits(v.component(a), s) ==> is_truncated_quotient(
            v.component(a) as int,
            s as int,
            #[trigger] DivSpec::<i32>::div_spec(v, s).component(a) as int,
        ),
{
    assert(v.component(Vector2Axis::X) == v.x);
    assert(v.component(Vector2Axis::Y) == v.y);
    assert forall|a: Vector2Axis| div_fits(v.component(a), s) implies is_truncated_quotient(
        v.component(a) as int,
        s as int,
        #[trigger] DivSpec::<i32>::div_spec(v, s).component(a) as int,
    ) by {
        lemma_component_quotient(v.component(a), s);
    }
}

/// Negating a `Vector2i` negates every component, so a vector plus its negation is the zero vector,
/// and negating twice gives the vector back.
pub proof fn lemma_vector2i_neg(v: Vector2i)
    requires
        forall|a: Vector2Axis| #[trigger] v.component(a) != i32::MIN,
    ensures
        forall|a: Vector2Axis| #[trigger] NegSpec::neg_spec(v).component(a) == -v.component(a),
        AddSpec::add_spec(v, NegSpec::neg_spec(v)) == (Vector2i { x: 0, y: 0 }),
        NegSpec::neg_spec(NegSpec::neg_spec(v)) == v,
{
    assert(v.component(Vector2Axis::X) == v.x);
    assert(v.component(Vector2Axis::Y) == v.y);
}

/// Adding two `Vector3i`s adds every component, and the order of the operands does not matter.
pub proof fn lemma_vector3i_add(u: Vector3i, v: Vector3i)
    ensures
        forall|a: Vector3Axis| fits_i32(u.component(a) + v.component(a)) ==> #[trigger] AddSpec::add_spec(u, v).component(a)
            == u.component(a) + v.component(a),
        AddSpec::add_spec(u, v) == AddSpec::add_spec(v, u),
{
    assert(u.component(Vector3Axis::X) == u.x);
    assert(u.component(Vector3Axis::Y) == u.y);
    assert(u.component(Vector3Axis::Z) == u.z);
    assert(v.component(Vector3Axis::X) == v.x);
    assert(v.component(Vector3Axis::Y) == v.y);
    assert(v.component(Vector3Axis::Z) == v.z);
}

/// Subtracting a `Vector3i` subtracts every component, and adding it back gives the first operand.
pub proof fn lemma_vector3i_sub(u: Vector3i, v: Vector3i)
    ensures
        forall|a: Vector3Axis| fits_i32(u.component(a) - v.component(a)) ==> #[trigger] SubSpec::sub_spec(u, v).component(a)
            == u.component(a) - v.component(a),
        (forall|a: Vector3Axis| fits_i32(#[trigger] u.component(a) - v.component(a))) ==> AddSpec::add_spec(
            SubSpec::sub_spec(u, v),
            v,
        ) == u,
{
    assert(u.component(Vector3Axis::X) == u.x);
    assert(u.component(Vector3Axis::Y) == u.y);
    assert(u.component(Vector3Axis::Z) == u.z);
    assert(v.component(Vector3Axis::X) == v.x);
    assert(v.component(Vector3Axis::Y) == v.y);
    assert(v.component(Vector3Axis::Z) == v.z);
}

/// Multiplying two `Vector3i`s multiplies every component, and the order of the operands does not
/// matter.
pub proof fn lemma_vector3i_mul(u: Vector3i, v: Vector3i)
    ensures
        forall|a: Vector3Axis| fits_i32(u.component(a) * v.component(a)) ==> #[trigger] MulSpec::<Vector3i>::mul_spec(u, v).component(a)
            == u.component(a) * v.component(a),
        MulSpec::<Vector3i>::mul_spec(u, v) == MulSpec::<Vector3i>::mul_spec(v, u),
{
    assert(u.component(Vector3Axis::X) == u.x);
    assert(u.component(Vector3Axis::Y) == u.y);
    assert(u.component(Vector3Axis::Z) == u.z);
    assert(v.component(Vector3Axis::X) == v.x);
    assert(v.component(Vector3Axis::Y) == v.y);
    assert(v.component(Vector3Axis::Z) == v.z);
    assert(u.x * v.x == v.x * u.x) by (nonlinear_arith);
    assert(u.y * v.y == v.y * u.y) by (nonlinear_arith);
    assert(u.z * v.z == v.z * u.z) by (nonlinear_arith);
}

/// Scaling a `Vector3i` by a scalar multiplies every component, whether the scalar stands on the
/// left or on the right.
pub proof fn lemma_vector3i_scale(s: i32, v: Vector3i)
    ensures
        forall|a: Vector3Axis| fits_i32(v.component(a) * s) ==> #[trigger] MulSpec::<i32>::mul_spec(v, s).component(a)
            == v.component(a) * s,
        MulSpec::<Vector3i>::mul_spec(s, v) == MulSpec::<i32>::mul_spec(v, s),
        forall|a: Vector3Axis| fits_i32(s * v.component(a)) ==> #[trigger] MulSpec::<Vector3i>::mul_spec(s, v).component(a)
            == s * v.component(a),
{
    assert(v.component(Vector3Axis::X) == v.x);
    assert(v.component(Vector3Axis::Y) == v.y);
    assert(v.component(Vector3Axis::Z) == v.z);
    assert(v.x * s == s * v.x) by (nonlinear_arith);
    assert(v.y * s == s * v.y) by (nonlinear_arith);
    assert(v.z * s == s * v.z) by (nonlinear_arith);
}

/// Dividing two `Vector3i`s divides every component, rounding toward zero.
pub proof fn lemma_vector3i_div(u: Vector3i, v: Vector3i)
    ensures
        forall|a: Vector3Axis| div_fits(u.component(a), v.component(a)) ==> is_truncated_quotient(
            u.component(a) as int,
            v.component(a) as int,
            #[trigger] DivSpec::<Vector3i>::div_spec(u, v).component(a) as int,
        ),
{
    assert(u.component(Vector3Axis::X) == u.x);
    assert(u.component(Vector3Axis::Y) == u.y);
    assert(u.component(Vector3Axis::Z) == u.z);
    assert(v.component(Vector3Axis::X) == v.x);
    assert(v.component(Vector3Axis::Y) == v.y);
    assert(v.component(Vector3Axis::Z) == v.z);
    assert forall|a: Vector3Axis| div_fits(u.component(a), v.component(a)) implies is_truncated_quotient(
        u.component(a) as int,
        v.component(a) as int,
        #[trigger] DivSpec::<Vector3i>::div_spec(u, v).component(a) as int,
    ) by {
        lemma_component_quotient(u.component(a), v.component(a));
    }
}

/// Dividing a `Vector3i` by a scalar divides every component by it, rounding toward zero.
pub proof fn lemma_vector3i_div_scalar(v: Vector3i, s: i32)
    ensures
        forall|a: Vector3Axis| div_fits(v.component(a), s) ==> is_truncated_quotient(
            v.component(a) as int,
            s as int,
            #[trigger] DivSpec::<i32>::div_spec(v, s).component(a) as int,
        ),
{
    assert(v.component(Vector3Axis::X) == v.x);
    assert(v.component(Vector3Axis::Y) == v.y);
    assert(v.component(Vector3Axis::Z) == v.z);
    assert forall|a: Vector3Axis| div_fits(v.component(a), s) implies is_truncated_quotient(
        v.component(a) as int,
        s as int,
        #[trigger] DivSpec::<i32>::div_spec(v, s).component(a) as int,
    ) by {
        lemma_component_quotient(v.component(a), s);
    }
}

/// Negating a `Vector3i` negates every component, so a vector plus its negation is the zero vector,
/// and negating twice gives the vector back.
pub proof fn lemma_vector3i_neg(v: Vector3i)
    requires
        forall|a: Vector3Axis| #[trigger] v.component(a) != i32::MIN,
    ensures
        forall|a: Vector3Axis| #[trigger] NegSpec::neg_spec(v).component(a) == -v.component(a),
        AddSpec::add_spec(v, NegSpec::neg_spec(v)) == (Vector3i { x: 0, y: 0, z: 0 }),
        NegSpec::neg_spec(NegSpec::neg_spec(v)) == v,
{
    assert(v.component(Vector3Axis::X) == v.x);
    assert(v.component(Vector3Axis::Y) == v.y);
    assert(v.component(Vector3Axis::Z) == v.z);
}

/// Adding two `Vector4i`s adds every component, and the order of the operands does not matter.
pub proof fn lemma_vector4i_add(u: Vector4i, v: Vector4i)
    ensures
        forall|a: Vector4Axis| fits_i32(u.component(a) + v.component(a)) ==> #[trigger] AddSpec::add_spec(u, v).component(a)
            == u.component(a) + v.component(a),
        AddSpec::add_spec(u, v) == AddSpec::add_spec(v, u),
{
    assert(u.component(Vector4Axis::X) == u.x);
    assert(u.component(Vector4Axis::Y) == u.y);
    assert(u.component(Vector4Axis::Z) == u.z);
    assert(u.component(Vector4Axis::W) == u.w);
    assert(v.component(Vector4Axis::X) == v.x);
    assert(v.component(Vector4Axis::Y) == v.y);
    assert(v.component(Vector4Axis::Z) == v.z);
    assert(v.component(Vector4Axis::W) == v.w);
}

/// Subtracting a `Vector4i` subtracts every component, and adding it back gives the first operand.
pub proof fn lemma_vector4i_sub(u: Vector4i, v: Vector4i)
    ensures
        forall|a: Vector4Axis| fits_i32(u.component(a) - v.component(a)) ==> #[trigger] SubSpec::sub_spec(u, v).component(a)
            == u.component(a) - v.component(a),
        (forall|a: Vector4Axis| fits_i32(#[trigger] u.component(a) - v.component(a))) ==> AddSpec::add_spec(
            SubSpec::sub_spec(u, v),
            v,
        ) == u,
{
    assert(u.component(Vector4Axis::X) == u.x);
    assert(u.component(Vector4Axis::Y) == u.y);
    assert(u.component(Vector4Axis::Z) == u.z);
    assert(u.component(Vector4Axis::W) == u.w);
    assert(v.component(Vector4Axis::X) == v.x);
    assert(v.component(Vector4Axis::Y) == v.y);
    assert(v.component(Vector4Axis::Z) == v.z);
    assert(v.component(Vector4Axis::W) == v.w);
}

/// Multiplying two `Vector4i`s multiplies every component, and the order of the operands does not
/// matter.
pub proof fn lemma_vector4i_mul(u: Vector4i, v: Vector4i)
    ensures
        forall|a: Vector4Axis| fits_i32(u.component(a) * v.component(a)) ==> #[trigger] MulSpec::<Vector4i>::mul_spec(u, v).component(a)
            == u.component(a) * v.component(a),
        MulSpec::<Vector4i>::mul_spec(u, v) == MulSpec::<Vector4i>::mul_spec(v, u),
{
    assert(u.component(Vector4Axis::X) == u.x);
    assert(u.component(Vector4Axis::Y) == u.y);
    assert(u.component(Vector4Axis::Z) == u.z);
    assert(u.component(Vector4Axis::W) == u.w);
    assert(v.component(Vector4Axis::X) == v.x);
    assert(v.component(Vector4Axis::Y) == v.y);
    assert(v.component(Vector4Axis::Z) == v.z);
    assert(v.component(Vector4Axis::W) == v.w);
    assert(u.x * v.x == v.x * u.x) by (nonlinear_arith);
    assert(u.y * v.y == v.y * u.y) by (nonlinear_arith);
    assert(u.z * v.z == v.z * u.z) by (nonlinear_arith);
    assert(u.w * v.w == v.w * u.w) by (nonlinear_arith);
}

/// Scaling a `Vector4i` by a scalar multiplies every component, whether the scalar stands on the
/// left or on the right.
pub proof fn lemma_vector4i_scale(s: i32, v: Vector4i)
    ensures
        forall|a: Vector4Axis| fits_i32(v.component(a) * s) ==> #[trigger] MulSpec::<i32>::mul_spec(v, s).component(a)
            == v.component(a) * s,
        MulSpec::<Vector4i>::mul_spec(s, v) == MulSpec::<i32>::mul_spec(v, s),
        forall|a: Vector4Axis| fits_i32(s * v.component(a)) ==> #[trigger] MulSpec::<Vector4i>::mul_spec(s, v).component(a)
            == s * v.component(a),
{
    assert(v.component(Vector4Axis::X) == v.x);
    assert(v.component(Vector4Axis::Y) == v.y);
    assert(v.component(Vector4Axis::Z) == v.z);
    assert(v.component(Vector4Axis::W) == v.w);
    assert(v.x * s == s * v.x) by (nonlinear_arith);
    assert(v.y * s == s * v.y) by (nonlinear_arith);
    assert(v.z * s == s * v.z) by (nonlinear_arith);
    assert(v.w * s == s * v.w) by (nonlinear_arith);
}

/// Dividing two `Vector4i`s divides every component, rounding toward zero.
pub proof fn lemma_vector4i_div(u: Vector4i, v: Vector4i)
    ensures
        forall|a: Vector4Axis| div_fits(u.component(a), v.component(a)) ==> is_truncated_quotient(
            u.component(a) as int,
            v.component(a) as int,
            #[trigger] DivSpec::<Vector4i>::div_spec(u, v).component(a) as int,
        ),
{
    assert(u.component(Vector4Axis::X) == u.x);
    assert(u.component(Vector4Axis::Y) == u.y);
    assert(u.component(Vector4Axis::Z) == u.z);
    assert(u.component(Vector4Axis::W) == u.w);
    assert(v.component(Vector4Axis::X) == v.x);
    assert(v.component(Vector4Axis::Y) == v.y);
    assert(v.component(Vector4Axis::Z) == v.z);
    assert(v.component(Vector4Axis::W) == v.w);
    assert forall|a: Vector4Axis| div_fits(u.component(a), v.component(a)) implies is_truncated_quotient(
        u.component(a) as int,
        v.component(a) as int,
        #[trigger] DivSpec::<Vector4i>::div_spec(u, v).component(a) as int,
    ) by {
        lemma_component_quotient(u.component(a), v.component(a));
    }
}

/// Dividing a `Vector4i` by a scalar divides every component by it, rounding toward zero.
pub proof fn lemma_vector4i_div_scalar(v: Vector4i, s: i32)
    ensures
        forall|a: Vector4Axis| div_fits(v.component(a), s) ==> is_truncated_quotient(
            v.component(a) as int,
            s as int,
            #[trigger] DivSpec::<i32>::div_spec(v, s).component(a) as int,
        ),
{
    assert(v.component(Vector4Axis::X) == v.x);
    assert(v.component(Vector4Axis::Y) == v.y);
    assert(v.component(Vector4Axis::Z) == v.z);
    assert(v.component(Vector4Axis::W) == v.w);
    assert forall|a: Vector4Axis| div_fits(v.component(a), s) implies is_truncated_quotient(
        v.component(a) as int,
        s as int,
        #[trigger] DivSpec::<i32>::div_spec(v, s).component(a) as int,
    ) by {
        lemma_component_quotient(v.component(a), s);
    }
}

/// Negating a `Vector4i` negates every component, so a vector plus its negation is the zero vector,
/// and negating twice gives the vector back.
pub proof fn lemma_vector4i_neg(v: Vector4i)
    requires
        forall|a: Vector4Axis| #[trigger] v.component(a) != i32::MIN,
    ensures
        forall|a: Vector4Axis| #[trigger] NegSpec::neg_spec(v).component(a) == -v.component(a),
        AddSpec::add_spec(v, NegSpec::neg_spec(v)) == (Vector4i { x: 0, y: 0, z: 0, w: 0 }),
        NegSpec::neg_spec(NegSpec::neg_spec(v)) == v,
{
    assert(v.component(Vector4Axis::X) == v.x);
    assert(v.component(Vector4Axis::Y) == v.y);
    assert(v.component(Vector4Axis::Z) == v.z);
    assert(v.component(Vector4Axis::W) == v.w);
}

/// The squared length of a `Vector2i` is the sum of the squares of its components: it is never
/// negative, it is zero only for the zero vector, and negating the vector keeps it.
pub proof fn lemma_vector2i_length_squared(v: Vector2i)
    ensures
        v.spec_length_squared() == v.component(Vector2Axis::X) * v.component(Vector2Axis::X) + v.component(Vector2Axis::Y) * v.component(Vector2Axis::Y),
        v.spec_length_squared() >= 0,
        v.spec_length_squared() == 0 <==> v == (Vector2i { x: 0, y: 0 }),
        (forall|a: Vector2Axis| #[trigger] v.component(a) != i32::MIN) ==> NegSpec::neg_spec(v).spec_length_squared()
            == v.spec_length_squared(),
{
    assert(v.component(Vector2Axis::X) == v.x);
    assert(v.component(Vector2Axis::Y) == v.y);
    assert(v.x * v.x >= 0) by (nonlinear_arith);
    assert(v.x * v.x == 0 ==> v.x == 0) by (nonlinear_arith);
    assert(v.y * v.y >= 0) by (nonlinear_arith);
    assert(v.y * v.y == 0 ==> v.y == 0) by (nonlinear_arith);
    assert((-v.x) * (-v.x) == v.x * v.x) by (nonlinear_arith);
    assert((-v.y) * (-v.y) == v.y * v.y) by (nonlinear_arith);
    if forall|a: Vector2Axis| #[trigger] v.component(a) != i32::MIN {
        assert(v.component(Vector2Axis::X) != i32::MIN);
        assert(v.component(Vector2Axis::Y) != i32::MIN);
    }
}

/// The squared distance between two `Vector2i`s is the squared length of their difference, and does
/// not depend on the direction in which it is measured.
pub proof fn lemma_vector2i_distance_squared(from: Vector2i, to: Vector2i)
    ensures
        from.difference_fits(to) ==> from.spec_distance_squared(to) == SubSpec::sub_spec(to, from).spec_length_squared(),
        from.spec_distance_squared(to) == to.spec_distance_squared(from),
{
    assert((to.x - from.x) * (to.x - from.x) == (from.x - to.x) * (from.x - to.x)) by (nonlinear_arith);
    assert((to.y - from.y) * (to.y - from.y) == (from.y - to.y) * (from.y - to.y)) by (nonlinear_arith);
}

/// The squared length of a `Vector3i` is the sum of the squares of its components: it is never
/// negative, it is zero only for the zero vector, and negating the vector keeps it.
pub proof fn lemma_vector3i_length_squared(v: Vector3i)
    ensures
        v.spec_length_squared() == v.component(Vector3Axis::X) * v.component(Vector3Axis::X) + v.component(Vector3Axis::Y) * v.component(Vector3Axis::Y) + v.component(Vector3Axis::Z) * v.component(Vector3Axis::Z),
        v.spec_length_squared() >= 0,
        v.spec_length_squared() == 0 <==> v == (Vector3i { x: 0, y: 0, z: 0 }),
        (forall|a: Vector3Axis| #[trigger] v.component(a) != i32::MIN) ==> NegSpec::neg_spec(v).spec_length_squared()
            == v.spec_length_squared(),
{
    assert(v.component(Vector3Axis::X) == v.x);
    assert(v.component(Vector3Axis::Y) == v.y);
    assert(v.component(Vector3Axis::Z) == v.z);
    assert(v.x * v.x >= 0) by (nonlinear_arith);
    assert(v.x * v.x == 0 ==> v.x == 0) by (nonlinear_arith);
    assert(v.y * v.y >= 0) by (nonlinear_arith);
    assert(v.y * v.y == 0 ==> v.y == 0) by (nonlinear_arith);
    assert(v.z * v.z >= 0) by (nonlinear_arith);
    assert(v.z * v.z == 0 ==> v.z == 0) by (nonlinear_arith);
    assert((-v.x) * (-v.x) == v.x * v.x) by (nonlinear_arith);
    assert((-v.y) * (-v.y) == v.y * v.y) by (nonlinear_arith);
    assert((-v.z) * (-v.z) == v.z * v.z) by (nonlinear_arith);
    if forall|a: Vector3Axis| #[trigger] v.component(a) != i32::MIN {
        assert(v.component(Vector3Axis::X) != i32::MIN);
        assert(v.component(Vector3Axis::Y) != i32::MIN);
        assert(v.component(Vector3Axis::Z) != i32::MIN);
    }
}

/// The squared distance between two `Vector3i`s is the squared length of their difference, and does
/// not depend on the direction in which it is measured.
pub proof fn lemma_vector3i_distance_squared(from: Vector3i, to: Vector3i)
    ensures
        from.difference_fits(to) ==> from.spec_distance_squared(to) == SubSpec::sub_spec(to, from).spec_length_squared(),
        from.spec_distance_squared(to) == to.spec_distance_squared(from),
{
    assert((to.x - from.x) * (to.x - from.x) == (from.x - to.x) * (from.x - to.x)) by (nonlinear_arith);
    assert((to.y - from.y) * (to.y - from.y) == (from.y - to.y) * (from.y - to.y)) by (nonlinear_arith);
    assert((to.z - from.z) * (to.z - from.z) == (from.z - to.z) * (from.z - to.z)) by (nonlinear_arith);
}

/// The squared length of a `Vector4i` is the sum of the squares of its components: it is never
/// negative, it is zero only for the zero vector, and negating the vector keeps it.
pub proof fn lemma_vector4i_length_squared(v: Vector4i)
    ensures
        v.spec_length_squared() == v.component(Vector4Axis::X) * v.component(Vector4Axis::X) + v.component(Vector4Axis::Y) * v.component(Vector4Axis::Y) + v.component(Vector4Axis::Z) * v.component(Vector4Axis::Z) + v.component(Vector4Axis::W) * v.component(Vector4Axis::W),
        v.spec_length_squared() >= 0,
        v.spec_length_squared() == 0 <==> v == (Vector4i { x: 0, y: 0, z: 0, w: 0 }),
        (forall|a: Vector4Axis| #[trigger] v.component(a) != i32::MIN) ==> NegSpec::neg_spec(v).spec_length_squared()
            == v.spec_length_squared(),
{
    assert(v.component(Vector4Axis::X) == v.x);
    assert(v.component(Vector4Axis::Y) == v.y);
    assert(v.component(Vector4Axis::Z) == v.z);
    assert(v.component(Vector4Axis::W) == v.w);
    assert(v.x * v.x >= 0) by (nonlinear_arith);
    assert(v.x * v.x == 0 ==> v.x == 0) by (nonlinear_arith);
    assert(v.y * v.y >= 0) by (nonlinear_arith);
    assert(v.y * v.y == 0 ==> v.y == 0) by (nonlinear_arith);
    assert(v.z * v.z >= 0) by (nonlinear_arith);
    assert(v.z * v.z == 0 ==> v.z == 0) by (nonlinear_arith);
    assert(v.w * v.w >= 0) by (nonlinear_arith);
    assert(v.w * v.w == 0 ==> v.w == 0) by (nonlinear_arith);
    assert((-v.x) * (-v.x) == v.x * v.x) by (nonlinear_arith);
    assert((-v.y) * (-v.y) == v.y * v.y) by (nonlinear_arith);
    assert((-v.z) * (-v.z) == v.z * v.z) by (nonlinear_arith);
    assert((-v.w) * (-v.w) == v.w * v.w) by (nonlinear_arith);
    if forall|a: Vector4Axis| #[trigger] v.component(a) != i32::MIN {
        assert(v.component(Vector4Axis::X) != i32::MIN);
        assert(v.component(Vector4Axis::Y) != i32::MIN);
        assert(v.component(Vector4Axis::Z) != i32::MIN);
        assert(v.component(Vector4Axis::W) != i32::MIN);
    }
}

/// The squared distance between two `Vector4i`s is the squared length of their difference, and does
/// not depend on the direction in which it is measured.
pub proof fn lemma_vector4i_distance_squared(from: Vector4i, to: Vector4i)
    ensures
        from.difference_fits(to) ==> from.spec_distance_squared(to) == SubSpec::sub_spec(to, from).spec_length_squared(),
        from.spec_distance_squared(to) == to.spec_distance_squared(from),
{
    assert((to.x - from.x) * (to.x - from.x) == (from.x - to.x) * (from.x - to.x)) by (nonlinear_arith);
    assert((to.y - from.y) * (to.y - from.y) == (from.y - to.y) * (from.y - to.y)) by (nonlinear_arith);
    assert((to.z - from.z) * (to.z - from.z) == (from.z - to.z) * (from.z - to.z)) by (nonlinear_arith);
    assert((to.w - from.w) * (to.w - from.w) == (from.w - to.w) * (from.w - to.w)) by (nonlinear_arith);
}

} // verus!
