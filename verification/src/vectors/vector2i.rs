//! The `Vector2i` type: 2 integer components.

use vstd::prelude::*;

use super::axis::Vector2Axis;
use vstd::std_specs::ops::{AddSpec, DivSpec, MulSpec, SubSpec};
use crate::text::{push_signed_decimal, signed_decimal};
use super::component::{
    abs_int, clamp_i32, clamp_one, div_fits, div_one, fits_i32, max_i32, min_i32, sign_i32, sign_one, snap, snap_fits,
    snap_one, trunc_div,
};

verus! {

/// Vector used for 2D math using integer coordinates.
///
/// 2-element structure that can be used to represent discrete positions or directions in 2D space,
/// as well as any other pair of numeric values. The values are limited to 32 bits.
#[derive(Default, Copy, Clone, Eq, PartialEq, Structural, Ord, PartialOrd, Hash, Debug)]
pub struct Vector2i {
    /// The vector's X component.
    pub x: i32,
    /// The vector's Y component.
    pub y: i32,
}

impl Vector2i {
    /// The component on `axis`.
    pub open spec fn component(self, axis: Vector2Axis) -> i32 {
        match axis {
            Vector2Axis::X => self.x,
            Vector2Axis::Y => self.y,
        }
    }

    /// The component on `axis` is strictly greater than every other component.
    pub open spec fn is_strict_max_axis(self, axis: Vector2Axis) -> bool {
        forall|other: Vector2Axis| other != axis ==> #[trigger] self.component(other) < self.component(axis)
    }

    /// The component on `axis` is strictly smaller than every other component.
    pub open spec fn is_strict_min_axis(self, axis: Vector2Axis) -> bool {
        forall|other: Vector2Axis| other != axis ==> #[trigger] self.component(other) > self.component(axis)
    }

    /// Creates a vector with the given components.
    pub fn new(x: i32, y: i32) -> (r: Self)
        ensures
            r == (Vector2i { x, y }),
    {
        Vector2i { x, y }
    }

    /// Creates a vector with all components set to `v`.
    pub fn splat(v: i32) -> (r: Self)
        ensures
            r == (Vector2i { x: v, y: v }),
    {
        Vector2i { x: v, y: v }
    }

    /// Creates a vector from the given tuple.
    pub fn from_tuple(tuple: (i32, i32)) -> (r: Self)
        ensures
            r == (Vector2i { x: tuple.0, y: tuple.1 }),
    {
        Self::new(tuple.0, tuple.1)
    }

    /// Creates a vector from the given array.
    pub fn from_array(array: [i32; 2]) -> (r: Self)
        ensures
            r == (Vector2i { x: array@[0], y: array@[1] }),
    {
        Self::new(array[0], array[1])
    }

    /// Returns a tuple with the components of the vector.
    pub fn to_tuple(&self) -> (r: (i32, i32))
        ensures
            r == (self.x, self.y),
    {
        (self.x, self.y)
    }

    /// Returns an array with the components of the vector.
    pub fn to_array(&self) -> (r: [i32; 2])
        ensures
            r@ == seq![self.x, self.y],
    {
        [self.x, self.y]
    }

    /// Returns a new vector with all components in absolute values (i.e. positive or zero).
    pub fn abs(self) -> (r: Self)
        requires
            self.x != i32::MIN,
            self.y != i32::MIN,
        ensures
            r.x == abs_int(self.x as int),
            r.y == abs_int(self.y as int),
            forall|a: Vector2Axis| #[trigger] r.component(a) == abs_int(self.component(a) as int),
    {
        Self::new(if self.x < 0 { -self.x } else { self.x }, if self.y < 0 { -self.y } else { self.y })
    }

    /// Returns a new vector with all components clamped between the components of `min` and `max`.
    pub fn clamp(self, min: Self, max: Self) -> (r: Self)
        requires
            min.x <= max.x,
            min.y <= max.y,
        ensures
            r.x == clamp_i32(self.x, min.x, max.x),
            r.y == clamp_i32(self.y, min.y, max.y),
            forall|a: Vector2Axis| #[trigger] r.component(a) == clamp_i32(self.component(a), min.component(a), max.component(a)),
    {
        self.coord_max(min).coord_min(max)
    }

    /// The sum of the squares of the components.
    pub open spec fn spec_length_squared(self) -> int {
        self.x * self.x + self.y * self.y
    }

    /// Squared length (squared magnitude) of this vector.
    pub fn length_squared(self) -> (r: i32)
        requires
            fits_i32(self.spec_length_squared()),
        ensures
            r == self.spec_length_squared(),
    {
        proof {
            assert(0 <= self.x * self.x) by (nonlinear_arith);
            assert(0 <= self.y * self.y) by (nonlinear_arith);
        }
        self.x * self.x + self.y * self.y
    }

    /// Returns a new vector containing the minimum of the two vectors, component-wise.
    pub fn coord_min(self, other: Self) -> (r: Self)
        ensures
            r == (Vector2i { x: min_i32(self.x, other.x), y: min_i32(self.y, other.y) }),
            forall|a: Vector2Axis| #[trigger] r.component(a) == min_i32(self.component(a), other.component(a)),
    {
        Self::new(if self.x < other.x { self.x } else { other.x }, if self.y < other.y { self.y } else { other.y })
    }

    /// Returns a new vector containing the maximum of the two vectors, component-wise.
    pub fn coord_max(self, other: Self) -> (r: Self)
        ensures
            r == (Vector2i { x: max_i32(self.x, other.x), y: max_i32(self.y, other.y) }),
            forall|a: Vector2Axis| #[trigger] r.component(a) == max_i32(self.component(a), other.component(a)),
    {
        Self::new(if self.x > other.x { self.x } else { other.x }, if self.y > other.y { self.y } else { other.y })
    }

    /// Returns a new vector with each component set to 1 if the component is positive, -1 if
    /// negative, and 0 if zero.
    pub fn sign(self) -> (r: Self)
        ensures
            r == (Vector2i { x: sign_i32(self.x), y: sign_i32(self.y) }),
            forall|a: Vector2Axis| #[trigger] r.component(a) == sign_i32(self.component(a)),
    {
        Self::new(sign_one(self.x), sign_one(self.y))
    }

    /// The componentwise difference `to - self` fits in `i32`.
    pub open spec fn difference_fits(self, to: Self) -> bool {
        fits_i32(to.x - self.x) && fits_i32(to.y - self.y)
    }

    /// The squared distance between `self` and `to`.
    pub open spec fn spec_distance_squared(self, to: Self) -> int {
        (to.x - self.x) * (to.x - self.x) + (to.y - self.y) * (to.y - self.y)
    }

    /// Returns the squared distance between this vector and `to`.
    pub fn distance_squared_to(self, to: Self) -> (r: i32)
        requires
            self.difference_fits(to),
            fits_i32(self.spec_distance_squared(to)),
        ensures
            r == self.spec_distance_squared(to),
    {
        (to - self).length_squared()
    }

    /// Returns `self` with each component limited to a range defined by `min` and `max`.
    pub fn clampi(self, min: i32, max: i32) -> (r: Self)
        requires
            min <= max,
        ensures
            r == (Vector2i { x: clamp_i32(self.x, min, max), y: clamp_i32(self.y, min, max) }),
            forall|a: Vector2Axis| #[trigger] r.component(a) == clamp_i32(self.component(a), min, max),
    {
        Self::new(clamp_one(self.x, min, max), clamp_one(self.y, min, max))
    }

    /// Returns a new vector with each component set to the minimum of `self` and `with`.
    pub fn mini(self, with: i32) -> (r: Self)
        ensures
            r == (Vector2i { x: min_i32(self.x, with), y: min_i32(self.y, with) }),
            forall|a: Vector2Axis| #[trigger] r.component(a) == min_i32(self.component(a), with),
    {
        Self::new(self.x.min(with), self.y.min(with))
    }

    /// Returns a new vector with each component set to the maximum of `self` and `with`.
    pub fn maxi(self, with: i32) -> (r: Self)
        ensures
            r == (Vector2i { x: max_i32(self.x, with), y: max_i32(self.y, with) }),
            forall|a: Vector2Axis| #[trigger] r.component(a) == max_i32(self.component(a), with),
    {
        Self::new(self.x.max(with), self.y.max(with))
    }

    /// A new vector with each component snapped to the closest multiple of the corresponding
    /// component in `step`.
    pub fn snapped(self, step: Self) -> (r: Self)
        requires
            snap_fits(self.x, step.x),
            snap_fits(self.y, step.y),
        ensures
            r.x == snap(self.x as int, step.x as int),
            r.y == snap(self.y as int, step.y as int),
            forall|a: Vector2Axis| #[trigger] r.component(a) == snap(self.component(a) as int, step.component(a) as int),
    {
        Self::new(snap_one(self.x, step.x), snap_one(self.y, step.y))
    }

    /// A new vector with each component snapped to the closest multiple of `step`.
    pub fn snappedi(self, step: i32) -> (r: Self)
        requires
            snap_fits(self.x, step),
            snap_fits(self.y, step),
        ensures
            r.x == snap(self.x as int, step as int),
            r.y == snap(self.y as int, step as int),
            forall|a: Vector2Axis| #[trigger] r.component(a) == snap(self.component(a) as int, step as int),
    {
        self.snapped(Self::splat(step))
    }

    /// The text of the vector as Godot prints it, such as `(1, 1)`.
    pub open spec fn spec_to_string(self) -> Seq<char> {
        seq!['('] + signed_decimal(self.x as int) + seq![',', ' '] + signed_decimal(self.y as int) + seq![')']
    }

    /// Formats the vector like Godot: `(x, y)`.
    pub fn to_string(&self) -> (r: String)
        ensures
            r@ == self.spec_to_string(),
    {
        proof {
            reveal_strlit("(");
            reveal_strlit(", ");
            reveal_strlit(")");
        }
        let mut s = String::new();
        s.append("(");
        push_signed_decimal(&mut s, self.x);
        s.append(", ");
        push_signed_decimal(&mut s, self.y);
        s.append(")");
        proof {
            assert(s@ =~= self.spec_to_string());
        }
        s
    }

    /// Returns the axis of the vector's highest value, or `None` if no component is strictly
    /// greater than all others.
    pub fn max_axis(self) -> (r: Option<Vector2Axis>)
        ensures
            r matches Some(a) ==> self.is_strict_max_axis(a),
            r is None ==> forall|a: Vector2Axis| !self.is_strict_max_axis(a),
    {
        if self.x < self.y {
            Some(Vector2Axis::Y)
        } else if self.x == self.y {
            assert(self.component(Vector2Axis::X) == self.component(Vector2Axis::Y));
            None
        } else {
            Some(Vector2Axis::X)
        }
    }

    /// Returns the axis of the vector's lowest value, or `None` if no component is strictly
    /// smaller than all others.
    pub fn min_axis(self) -> (r: Option<Vector2Axis>)
        ensures
            r matches Some(a) ==> self.is_strict_min_axis(a),
            r is None ==> forall|a: Vector2Axis| !self.is_strict_min_axis(a),
    {
        if self.x < self.y {
            Some(Vector2Axis::X)
        } else if self.x == self.y {
            assert(self.component(Vector2Axis::X) == self.component(Vector2Axis::Y));
            None
        } else {
            Some(Vector2Axis::Y)
        }
    }

    /// Element-wise sum of all vectors in `vectors`.
    pub fn sum(vectors: &[Self]) -> (r: Self)
        requires
            forall|i: int, axis: Vector2Axis| 0 <= i <= vectors@.len() ==> fits_i32(#[trigger] component_sum(vectors@.take(i), axis)),
        ensures
            forall|axis: Vector2Axis| #[trigger] r.component(axis) == component_sum(vectors@, axis),
    {
        let mut acc = Self::splat(0);
        let mut i: usize = 0;
        proof {
            assert(vectors@.take(0) =~= Seq::<Self>::empty());
        }
        while i < vectors.len()
            invariant
                i <= vectors@.len(),
                forall|i: int, axis: Vector2Axis| 0 <= i <= vectors@.len() ==> fits_i32(#[trigger] component_sum(vectors@.take(i), axis)),
                forall|axis: Vector2Axis| #[trigger] acc.component(axis) == component_sum(vectors@.take(i as int), axis),
            decreases vectors@.len() - i,
        {
            proof {
                assert(vectors@.take(i as int + 1).drop_last() =~= vectors@.take(i as int));
                assert(fits_i32(component_sum(vectors@.take(i as int + 1), Vector2Axis::X)));
                assert(acc.component(Vector2Axis::X) == acc.x);
                assert(vectors@[i as int].component(Vector2Axis::X) == vectors@[i as int].x);
                assert(fits_i32(component_sum(vectors@.take(i as int + 1), Vector2Axis::Y)));
                assert(acc.component(Vector2Axis::Y) == acc.y);
                assert(vectors@[i as int].component(Vector2Axis::Y) == vectors@[i as int].y);
            }
            acc = acc + vectors[i];
            i += 1;
        }
        proof {
            assert(vectors@.take(vectors@.len() as int) =~= vectors@);
        }
        acc
    }

    /// Element-wise product of all vectors in `vectors`.
    pub fn product(vectors: &[Self]) -> (r: Self)
        requires
            forall|i: int, axis: Vector2Axis| 0 <= i <= vectors@.len() ==> fits_i32(#[trigger] component_product(vectors@.take(i), axis)),
        ensures
            forall|axis: Vector2Axis| #[trigger] r.component(axis) == component_product(vectors@, axis),
    {
        let mut acc = Self::splat(1);
        let mut i: usize = 0;
        proof {
            assert(vectors@.take(0) =~= Seq::<Self>::empty());
        }
        while i < vectors.len()
            invariant
                i <= vectors@.len(),
                forall|i: int, axis: Vector2Axis| 0 <= i <= vectors@.len() ==> fits_i32(#[trigger] component_product(vectors@.take(i), axis)),
                forall|axis: Vector2Axis| #[trigger] acc.component(axis) == component_product(vectors@.take(i as int), axis),
            decreases vectors@.len() - i,
        {
            proof {
                assert(vectors@.take(i as int + 1).drop_last() =~= vectors@.take(i as int));
                assert(fits_i32(component_product(vectors@.take(i as int + 1), Vector2Axis::X)));
                assert(acc.component(Vector2Axis::X) == acc.x);
                assert(vectors@[i as int].component(Vector2Axis::X) == vectors@[i as int].x);
                assert(fits_i32(component_product(vectors@.take(i as int + 1), Vector2Axis::Y)));
                assert(acc.component(Vector2Axis::Y) == acc.y);
                assert(vectors@[i as int].component(Vector2Axis::Y) == vectors@[i as int].y);
            }
            acc = acc * vectors[i];
            i += 1;
        }
        proof {
            assert(vectors@.take(vectors@.len() as int) =~= vectors@);
        }
        acc
    }

    /// Adds `rhs` to this vector component-wise (the `+=` operator).
    pub fn add_assign(&mut self, rhs: Self)
        requires
            fits_i32(old(self).x + rhs.x),
            fits_i32(old(self).y + rhs.y),
        ensures
            *final(self) == (Vector2i { x: (old(self).x + rhs.x) as i32, y: (old(self).y + rhs.y) as i32 }),
            *final(self) == AddSpec::add_spec(*old(self), rhs),
    {
        *self = *self + rhs;
    }

    /// Subtracts `rhs` from this vector component-wise (the `-=` operator).
    pub fn sub_assign(&mut self, rhs: Self)
        requires
            fits_i32(old(self).x - rhs.x),
            fits_i32(old(self).y - rhs.y),
        ensures
            *final(self) == (Vector2i { x: (old(self).x - rhs.x) as i32, y: (old(self).y - rhs.y) as i32 }),
            *final(self) == SubSpec::sub_spec(*old(self), rhs),
    {
        *self = *self - rhs;
    }

    /// Multiplies this vector by `rhs` component-wise (the `*=` operator).
    pub fn mul_assign(&mut self, rhs: Self)
        requires
            fits_i32(old(self).x * rhs.x),
            fits_i32(old(self).y * rhs.y),
        ensures
            *final(self) == (Vector2i { x: (old(self).x * rhs.x) as i32, y: (old(self).y * rhs.y) as i32 }),
            *final(self) == MulSpec::<Vector2i>::mul_spec(*old(self), rhs),
    {
        *self = *self * rhs;
    }

    /// Multiplies every component of this vector by `rhs` (the `*=` operator with a scalar).
    pub fn mul_assign_scalar(&mut self, rhs: i32)
        requires
            fits_i32(old(self).x * rhs),
            fits_i32(old(self).y * rhs),
        ensures
            *final(self) == (Vector2i { x: (old(self).x * rhs) as i32, y: (old(self).y * rhs) as i32 }),
            *final(self) == MulSpec::<i32>::mul_spec(*old(self), rhs),
    {
        *self = *self * rhs;
    }

    /// Divides this vector by `rhs` component-wise, rounding toward zero (the `/=` operator).
    pub fn div_assign(&mut self, rhs: Self)
        requires
            div_fits(old(self).x, rhs.x),
            div_fits(old(self).y, rhs.y),
        ensures
            *final(self) == (Vector2i { x: trunc_div(old(self).x as int, rhs.x as int) as i32, y: trunc_div(old(self).y as int, rhs.y as int) as i32 }),
            *final(self) == DivSpec::<Vector2i>::div_spec(*old(self), rhs),
    {
        *self = *self / rhs;
    }

    /// Divides every component of this vector by `rhs`, rounding toward zero (the `/=` operator with a scalar).
    pub fn div_assign_scalar(&mut self, rhs: i32)
        requires
            div_fits(old(self).x, rhs),
            div_fits(old(self).y, rhs),
        ensures
            *final(self) == (Vector2i { x: trunc_div(old(self).x as int, rhs as int) as i32, y: trunc_div(old(self).y as int, rhs as int) as i32 }),
            *final(self) == DivSpec::<i32>::div_spec(*old(self), rhs),
    {
        *self = *self / rhs;
    }
}

/// The sum of the components on `axis` of all vectors in `vectors`.
pub open spec fn component_sum(vectors: Seq<Vector2i>, axis: Vector2Axis) -> int
    decreases vectors.len(),
{
    if vectors.len() == 0 {
        0
    } else {
        component_sum(vectors.drop_last(), axis) + vectors.last().component(axis)
    }
}

/// The product of the components on `axis` of all vectors in `vectors`.
pub open spec fn component_product(vectors: Seq<Vector2i>, axis: Vector2Axis) -> int
    decreases vectors.len(),
{
    if vectors.len() == 0 {
        1
    } else {
        component_product(vectors.drop_last(), axis) * vectors.last().component(axis)
    }
}

impl std::ops::Index<Vector2Axis> for Vector2i {
    type Output = i32;

    fn index(&self, axis: Vector2Axis) -> (r: &i32)
        ensures
            *r == self.component(axis),
    {
        match axis {
            Vector2Axis::X => &self.x,
            Vector2Axis::Y => &self.y,
        }
    }
}

impl std::ops::IndexMut<Vector2Axis> for Vector2i {
    fn index_mut(&mut self, axis: Vector2Axis) -> (r: &mut i32)
        ensures
            *r == old(self).component(axis),
            final(self).component(axis) == *final(r),
            forall|other: Vector2Axis| other != axis ==> final(self).component(other) == old(self).component(other),
    {
        match axis {
            Vector2Axis::X => &mut self.x,
            Vector2Axis::Y => &mut self.y,
        }
    }
}

impl vstd::std_specs::core::IndexSpecImpl<Vector2Axis> for Vector2i {
    open spec fn index_req(&self, axis: &Vector2Axis) -> bool {
        true
    }
}

impl std::ops::Neg for Vector2i {
    type Output = Vector2i;

    fn neg(self) -> (r: Vector2i) {
        Vector2i { x: -self.x, y: -self.y }
    }
}

impl vstd::std_specs::ops::NegSpecImpl for Vector2i {
    open spec fn obeys_neg_spec() -> bool {
        true
    }

    open spec fn neg_req(self) -> bool {
        self.x != i32::MIN && self.y != i32::MIN
    }

    open spec fn neg_spec(self) -> Vector2i {
        Vector2i { x: (-self.x) as i32, y: (-self.y) as i32 }
    }
}

impl std::ops::Add for Vector2i {
    type Output = Vector2i;

    fn add(self, rhs: Vector2i) -> (r: Vector2i) {
        Vector2i { x: self.x + rhs.x, y: self.y + rhs.y }
    }
}

impl vstd::std_specs::ops::AddSpecImpl for Vector2i {
    open spec fn obeys_add_spec() -> bool {
        true
    }

    open spec fn add_req(self, rhs: Vector2i) -> bool {
        fits_i32(self.x + rhs.x) && fits_i32(self.y + rhs.y)
    }

    open spec fn add_spec(self, rhs: Vector2i) -> Vector2i {
        Vector2i { x: (self.x + rhs.x) as i32, y: (self.y + rhs.y) as i32 }
    }
}

impl std::ops::Sub for Vector2i {
    type Output = Vector2i;

    fn sub(self, rhs: Vector2i) -> (r: Vector2i) {
        Vector2i { x: self.x - rhs.x, y: self.y - rhs.y }
    }
}

impl vstd::std_specs::ops::SubSpecImpl for Vector2i {
    open spec fn obeys_sub_spec() -> bool {
        true
    }

    open spec fn sub_req(self, rhs: Vector2i) -> bool {
        fits_i32(self.x - rhs.x) && fits_i32(self.y - rhs.y)
    }

    open spec fn sub_spec(self, rhs: Vector2i) -> Vector2i {
        Vector2i { x: (self.x - rhs.x) as i32, y: (self.y - rhs.y) as i32 }
    }
}

impl std::ops::Mul for Vector2i {
    type Output = Vector2i;

    fn mul(self, rhs: Vector2i) -> (r: Vector2i) {
        Vector2i { x: self.x * rhs.x, y: self.y * rhs.y }
    }
}

impl vstd::std_specs::ops::MulSpecImpl for Vector2i {
    open spec fn obeys_mul_spec() -> bool {
        true
    }

    open spec fn mul_req(self, rhs: Vector2i) -> bool {
        fits_i32(self.x * rhs.x) && fits_i32(self.y * rhs.y)
    }

    open spec fn mul_spec(self, rhs: Vector2i) -> Vector2i {
        Vector2i { x: (self.x * rhs.x) as i32, y: (self.y * rhs.y) as i32 }
    }
}

impl std::ops::Mul<i32> for Vector2i {
    type Output = Vector2i;

    fn mul(self, rhs: i32) -> (r: Vector2i) {
        Vector2i { x: self.x * rhs, y: self.y * rhs }
    }
}

impl vstd::std_specs::ops::MulSpecImpl<i32> for Vector2i {
    open spec fn obeys_mul_spec() -> bool {
        true
    }

    open spec fn mul_req(self, rhs: i32) -> bool {
        fits_i32(self.x * rhs) && fits_i32(self.y * rhs)
    }

    open spec fn mul_spec(self, rhs: i32) -> Vector2i {
        Vector2i { x: (self.x * rhs) as i32, y: (self.y * rhs) as i32 }
    }
}

impl std::ops::Mul<Vector2i> for i32 {
    type Output = Vector2i;

    fn mul(self, rhs: Vector2i) -> (r: Vector2i) {
        Vector2i { x: rhs.x * self, y: rhs.y * self }
    }
}

impl vstd::std_specs::ops::MulSpecImpl<Vector2i> for i32 {
    open spec fn obeys_mul_spec() -> bool {
        true
    }

    open spec fn mul_req(self, rhs: Vector2i) -> bool {
        fits_i32(rhs.x * self) && fits_i32(rhs.y * self)
    }

    open spec fn mul_spec(self, rhs: Vector2i) -> Vector2i {
        Vector2i { x: (rhs.x * self) as i32, y: (rhs.y * self) as i32 }
    }
}

impl std::ops::Div for Vector2i {
    type Output = Vector2i;

    fn div(self, rhs: Vector2i) -> (r: Vector2i) {
        Vector2i { x: div_one(self.x, rhs.x), y: div_one(self.y, rhs.y) }
    }
}

impl vstd::std_specs::ops::DivSpecImpl for Vector2i {
    open spec fn obeys_div_spec() -> bool {
        true
    }

    open spec fn div_req(self, rhs: Vector2i) -> bool {
        div_fits(self.x, rhs.x) && div_fits(self.y, rhs.y)
    }

    open spec fn div_spec(self, rhs: Vector2i) -> Vector2i {
        Vector2i { x: trunc_div(self.x as int, rhs.x as int) as i32, y: trunc_div(self.y as int, rhs.y as int) as i32 }
    }
}

impl std::ops::Div<i32> for Vector2i {
    type Output = Vector2i;

    fn div(self, rhs: i32) -> (r: Vector2i) {
        Vector2i { x: div_one(self.x, rhs), y: div_one(self.y, rhs) }
    }
}

impl vstd::std_specs::ops::DivSpecImpl<i32> for Vector2i {
    open spec fn obeys_div_spec() -> bool {
        true
    }

    open spec fn div_req(self, rhs: i32) -> bool {
        div_fits(self.x, rhs) && div_fits(self.y, rhs)
    }

    open spec fn div_spec(self, rhs: i32) -> Vector2i {
        Vector2i { x: trunc_div(self.x as int, rhs as int) as i32, y: trunc_div(self.y as int, rhs as int) as i32 }
    }
}

} // verus!
