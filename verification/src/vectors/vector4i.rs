//! The `Vector4i` type: 4 integer components.

use vstd::prelude::*;

use super::axis::Vector4Axis;
use vstd::std_specs::ops::{AddSpec, DivSpec, MulSpec, SubSpec};
use crate::text::{push_signed_decimal, signed_decimal};
use super::component::{
    abs_int, clamp_i32, clamp_one, div_fits, div_one, fits_i32, max_i32, min_i32, sign_i32, sign_one, snap, snap_fits,
    snap_one, trunc_div,
};

verus! {

/// Vector used for 4D math using integer coordinates.
///
/// 4-element structure that can be used to represent 4D grid coordinates or sets of integers.
/// The values are limited to 32 bits.
#[derive(Default, Copy, Clone, Eq, PartialEq, Structural, Ord, PartialOrd, Hash, Debug)]
pub struct Vector4i {
    /// The vector's X component.
    pub x: i32,
    /// The vector's Y component.
    pub y: i32,
    /// The vector's Z component.
    pub z: i32,
    /// The vector's W component.
    pub w: i32,
}

impl Vector4i {
    /// The component on `axis`.
    pub open spec fn component(self, axis: Vector4Axis) -> i32 {
        match axis {
            Vector4Axis::X => self.x,
            Vector4Axis::Y => self.y,
            Vector4Axis::Z => self.z,
            Vector4Axis::W => self.w,
        }
    }

    /// The component on `axis` is strictly greater than every other component.
    pub open spec fn is_strict_max_axis(self, axis: Vector4Axis) -> bool {
        forall|other: Vector4Axis| other != axis ==> #[trigger] self.component(other) < self.component(axis)
    }

    /// The component on `axis` is strictly smaller than every other component.
    pub open spec fn is_strict_min_axis(self, axis: Vector4Axis) -> bool {
        forall|other: Vector4Axis| other != axis ==> #[trigger] self.component(other) > self.component(axis)
    }

    /// Creates a vector with the given components.
    pub fn new(x: i32, y: i32, z: i32, w: i32) -> (r: Self)
        ensures
            r == (Vector4i { x, y, z, w }),
    {
        Vector4i { x, y, z, w }
    }

    /// Creates a vector with all components set to `v`.
    pub fn splat(v: i32) -> (r: Self)
        ensures
            r == (Vector4i { x: v, y: v, z: v, w: v }),
    {
        Vector4i { x: v, y: v, z: v, w: v }
    }

    /// Creates a vector from the given tuple.
    pub fn from_tuple(tuple: (i32, i32, i32, i32)) -> (r: Self)
        ensures
            r == (Vector4i { x: tuple.0, y: tuple.1, z: tuple.2, w: tuple.3 }),
    {
        Self::new(tuple.0, tuple.1, tuple.2, tuple.3)
    }

    /// Creates a vector from the given array.
    pub fn from_array(array: [i32; 4]) -> (r: Self)
        ensures
            r == (Vector4i { x: array@[0], y: array@[1], z: array@[2], w: array@[3] }),
    {
        Self::new(array[0], array[1], array[2], array[3])
    }

    /// Returns a tuple with the components of the vector.
    pub fn to_tuple(&self) -> (r: (i32, i32, i32, i32))
        ensures
            r == (self.x, self.y, self.z, self.w),
    {
        (self.x, self.y, self.z, self.w)
    }

    /// Returns an array with the components of the vector.
    pub fn to_array(&self) -> (r: [i32; 4])
        ensures
            r@ == seq![self.x, self.y, self.z, self.w],
    {
        [self.x, self.y, self.z, self.w]
    }

    /// Returns a new vector with all components in absolute values (i.e. positive or zero).
    pub fn abs(self) -> (r: Self)
        requires
            self.x != i32::MIN,
            self.y != i32::MIN,
            self.z != i32::MIN,
            self.w != i32::MIN,
        ensures
            r.x == abs_int(self.x as int),
            r.y == abs_int(self.y as int),
            r.z == abs_int(self.z as int),
            r.w == abs_int(self.w as int),
            forall|a: Vector4Axis| #[trigger] r.component(a) == abs_int(self.component(a) as int),
    {
        Self::new(if self.x < 0 { -self.x } else { self.x }, if self.y < 0 { -self.y } else { self.y }, if self.z < 0 { -self.z } else { self.z }, if self.w < 0 { -self.w } else { self.w })
    }

    /// Returns a new vector with all components clamped between the components of `min` and `max`.
    pub fn clamp(self, min: Self, max: Self) -> (r: Self)
        requires
            min.x <= max.x,
            min.y <= max.y,
            min.z <= max.z,
            min.w <= max.w,
        ensures
            r.x == clamp_i32(self.x, min.x, max.x),
            r.y == clamp_i32(self.y, min.y, max.y),
            r.z == clamp_i32(self.z, min.z, max.z),
            r.w == clamp_i32(self.w, min.w, max.w),
            forall|a: Vector4Axis| #[trigger] r.component(a) == clamp_i32(self.component(a), min.component(a), max.component(a)),
    {
        self.coord_max(min).coord_min(max)
    }

    /// The sum of the squares of the components.
    pub open spec fn spec_length_squared(self) -> int {
        self.x * self.x + self.y * self.y + self.z * self.z + self.w * self.w
    }

    /// Squared length (squared magnitude) of this vector.
    pub fn length_squared(self) -> (r: i32)
        requires
            fits_i32(self.spec_length_squared()),
        ensures
            r == self.spec_length_squared(),
    {
        proof {
            assert(0 <= self.x * self.x) by (nonlinear_arith);
            assert(0 <= self.y * self.y) by (nonlinear_arith);
            assert(0 <= self.z * self.z) by (nonlinear_arith);
            assert(0 <= self.w * self.w) by (nonlinear_arith);
        }
        self.x * self.x + self.y * self.y + self.z * self.z + self.w * self.w
    }

    /// Returns a new vector containing the minimum of the two vectors, component-wise.
    pub fn coord_min(self, other: Self) -> (r: Self)
        ensures
            r == (Vector4i { x: min_i32(self.x, other.x), y: min_i32(self.y, other.y), z: min_i32(self.z, other.z), w: min_i32(self.w, other.w) }),
            forall|a: Vector4Axis| #[trigger] r.component(a) == min_i32(self.component(a), other.component(a)),
    {
        Self::new(if self.x < other.x { self.x } else { other.x }, if self.y < other.y { self.y } else { other.y }, if self.z < other.z { self.z } else { other.z }, if self.w < other.w { self.w } else { other.w })
    }

    /// Returns a new vector containing the maximum of the two vectors, component-wise.
    pub fn coord_max(self, other: Self) -> (r: Self)
        ensures
            r == (Vector4i { x: max_i32(self.x, other.x), y: max_i32(self.y, other.y), z: max_i32(self.z, other.z), w: max_i32(self.w, other.w) }),
            forall|a: Vector4Axis| #[trigger] r.component(a) == max_i32(self.component(a), other.component(a)),
    {
        Self::new(if self.x > other.x { self.x } else { other.x }, if self.y > other.y { self.y } else { other.y }, if self.z > other.z { self.z } else { other.z }, if self.w > other.w { self.w } else { other.w })
    }

    /// Returns a new vector with each component set to 1 if the component is positive, -1 if
    /// negative, and 0 if zero.
    pub fn sign(self) -> (r: Self)
        ensures
            r == (Vector4i { x: sign_i32(self.x), y: sign_i32(self.y), z: sign_i32(self.z), w: sign_i32(self.w) }),
            forall|a: Vector4Axis| #[trigger] r.component(a) == sign_i32(self.component(a)),
    {
        Self::new(sign_one(self.x), sign_one(self.y), sign_one(self.z), sign_one(self.w))
    }

    /// The componentwise difference `to - self` fits in `i32`.
    pub open spec fn difference_fits(self, to: Self) -> bool {
        fits_i32(to.x - self.x) && fits_i32(to.y - self.y) && fits_i32(to.z - self.z) && fits_i32(to.w - self.w)
    }

    /// The squared distance between `self` and `to`.
    pub open spec fn spec_distance_squared(self, to: Self) -> int {
        (to.x - self.x) * (to.x - self.x) + (to.y - self.y) * (to.y - self.y) + (to.z - self.z) * (to.z - self.z) + (to.w - self.w) * (to.w - self.w)
    }

    /// Returns the squared distance between this vector and `to`.
    pub fn distance_squared_to(self, to: Self) -> (r: i32)
        requires
            self.difference_fits(to),
            fits_i32(self.spec_distance_squared(to)),
        ensures
            r == self.spec_distance_squared(to),
    {
        (to - self).length_squared()
    }

    /// Returns `self` with each component limited to a range defined by `min` and `max`.
    pub fn clampi(self, min: i32, max: i32) -> (r: Self)
        requires
            min <= max,
        ensures
            r == (Vector4i { x: clamp_i32(self.x, min, max), y: clamp_i32(self.y, min, max), z: clamp_i32(self.z, min, max), w: clamp_i32(self.w, min, max) }),
            forall|a: Vector4Axis| #[trigger] r.component(a) == clamp_i32(self.component(a), min, max),
    {
        Self::new(clamp_one(self.x, min, max), clamp_one(self.y, min, max), clamp_one(self.z, min, max), clamp_one(self.w, min, max))
    }

    /// Returns a new vector with each component set to the minimum of `self` and `with`.
    pub fn mini(self, with: i32) -> (r: Self)
        ensures
            r == (Vector4i { x: min_i32(self.x, with), y: min_i32(self.y, with), z: min_i32(self.z, with), w: min_i32(self.w, with) }),
            forall|a: Vector4Axis| #[trigger] r.component(a) == min_i32(self.component(a), with),
    {
        Self::new(self.x.min(with), self.y.min(with), self.z.min(with), self.w.min(with))
    }

    /// Returns a new vector with each component set to the maximum of `self` and `with`.
    pub fn maxi(self, with: i32) -> (r: Self)
        ensures
            r == (Vector4i { x: max_i32(self.x, with), y: max_i32(self.y, with), z: max_i32(self.z, with), w: max_i32(self.w, with) }),
            forall|a: Vector4Axis| #[trigger] r.component(a) == max_i32(self.component(a), with),
    {
        Self::new(self.x.max(with), self.y.max(with), self.z.max(with), self.w.max(with))
    }

    /// A new vector with each component snapped to the closest multiple of the corresponding
    /// component in `step`.
    pub fn snapped(self, step: Self) -> (r: Self)
        requires
            snap_fits(self.x, step.x),
            snap_fits(self.y, step.y),
            snap_fits(self.z, step.z),
            snap_fits(self.w, step.w),
        ensures
            r.x == snap(self.x as int, step.x as int),
            r.y == snap(self.y as int, step.y as int),
            r.z == snap(self.z as int, step.z as int),
            r.w == snap(self.w as int, step.w as int),
            forall|a: Vector4Axis| #[trigger] r.component(a) == snap(self.component(a) as int, step.component(a) as int),
    {
        Self::new(snap_one(self.x, step.x), snap_one(self.y, step.y), snap_one(self.z, step.z), snap_one(self.w, step.w))
    }

    /// A new vector with each component snapped to the closest multiple of `step`.
    pub fn snappedi(self, step: i32) -> (r: Self)
        requires
            snap_fits(self.x, step),
            snap_fits(self.y, step),
            snap_fits(self.z, step),
            snap_fits(self.w, step),
        ensures
            r.x == snap(self.x as int, step as int),
            r.y == snap(self.y as int, step as int),
            r.z == snap(self.z as int, step as int),
            r.w == snap(self.w as int, step as int),
            forall|a: Vector4Axis| #[trigger] r.component(a) == snap(self.component(a) as int, step as int),
    {
        self.snapped(Self::splat(step))
    }

    /// The text of the vector as Godot prints it, such as `(1, 1, 1, 1)`.
    pub open spec fn spec_to_string(self) -> Seq<char> {
        seq!['('] + signed_decimal(self.x as int) + seq![',', ' '] + signed_decimal(self.y as int) + seq![',', ' '] + signed_decimal(self.z as int) + seq![',', ' '] + signed_decimal(self.w as int) + seq![')']
    }

    /// Formats the vector like Godot: `(x, y, z, w)`.
    pub fn to_string(&self) -> (r: String)
        ensures
            r@ == self.spec_to_string(),
    {
        proof {
            reveal_strlit("(");
            reveal_strlit(", ");
            reveal_strlit(")");
        }
        let mut s = String::new();
        s.append("(");
        push_signed_decimal(&mut s, self.x);
        s.append(", ");
        push_signed_decimal(&mut s, self.y);
        s.append(", ");
        push_signed_decimal(&mut s, self.z);
        s.append(", ");
        push_signed_decimal(&mut s, self.w);
        s.append(")");
        proof {
            assert(s@ =~= self.spec_to_string());
        }
        s
    }

    /// The components in the order `x, y, z, w`.
    pub open spec fn values(self) -> Seq<i32> {
        seq![self.x, self.y, self.z, self.w]
    }

    /// Each component sits in [`Self::values`] at the position of its axis.
    proof fn lemma_component_is_value(self)
        ensures
            forall|a: Vector4Axis| #[trigger] self.component(a) == self.values()[a.index_of()],
            forall|a: Vector4Axis| 0 <= #[trigger] a.index_of() < 4,
            forall|a: Vector4Axis, b: Vector4Axis| a != b ==> #[trigger] a.index_of() != #[trigger] b.index_of(),
    {
        assert forall|a: Vector4Axis, b: Vector4Axis| a != b implies #[trigger] a.index_of() != #[trigger] b.index_of() by {
            match a {
                Vector4Axis::X => {},
                Vector4Axis::Y => {},
                Vector4Axis::Z => {},
                Vector4Axis::W => {},
            }
        }
    }

    /// The axis at position `i` in `X, Y, Z, W`.
    spec fn axis_at(i: int) -> Vector4Axis {
        if i == 0 {
            Vector4Axis::X
        } else if i == 1 {
            Vector4Axis::Y
        } else if i == 2 {
            Vector4Axis::Z
        } else {
            Vector4Axis::W
        }
    }

    /// Returns the axis of the vector's highest value, or `None` if no component is strictly
    /// greater than all others.
    pub fn max_axis(self) -> (r: Option<Vector4Axis>)
        ensures
            r matches Some(a) ==> self.is_strict_max_axis(a),
            r is None ==> forall|a: Vector4Axis| !self.is_strict_max_axis(a),
    {
        let ghost vals = self.values();
        let mut max_axis = Vector4Axis::X;
        let mut previous: Option<i32> = None;
        let mut max_value = self.x;

        let components = [(Vector4Axis::Y, self.y), (Vector4Axis::Z, self.z), (Vector4Axis::W, self.w)];
        let mut i: usize = 0;
        while i < 3
            invariant
                i <= 3,
                vals == self.values(),
                components@ == seq![(Vector4Axis::Y, self.y), (Vector4Axis::Z, self.z), (Vector4Axis::W, self.w)],
                0 <= max_axis.index_of() <= i,
                max_value == vals[max_axis.index_of()],
                forall|j: int| 0 <= j <= i ==> vals[j] <= max_value,
                forall|j: int| max_axis.index_of() < j <= i ==> vals[j] < max_value,
                previous is None ==> max_axis.index_of() == 0,
                previous matches Some(p) ==> {
                    &&& 0 < max_axis.index_of()
                    &&& p <= max_value
                    &&& forall|j: int| 0 <= j < max_axis.index_of() ==> vals[j] <= p
                    &&& exists|j: int| 0 <= j < max_axis.index_of() && vals[j] == p
                },
            decreases 3 - i,
        {
            let (axis, value) = components[i];
            if value >= max_value {
                proof {
                    let m = max_axis.index_of();
                    if let Some(p) = previous {
                        let j0 = choose|j: int| 0 <= j < max_axis.index_of() && vals[j] == p;
                        assert(0 <= j0 < i + 1 && vals[j0] == p);
                    }
                    assert(0 <= m < i + 1 && vals[m] == max_value);
                }
                max_axis = axis;
                previous = Some(max_value);
                max_value = value;
            }
            i += 1;
        }
        proof {
            self.lemma_component_is_value();
            assert(Self::axis_at(max_axis.index_of()) == max_axis);
        }
        match previous {
            Some(p) if p == max_value => {
                proof {
                    let j0 = choose|j: int| 0 <= j < max_axis.index_of() && vals[j] == p;
                    let b = Self::axis_at(j0);
                    assert(b.index_of() == j0);
                    assert forall|a: Vector4Axis| !self.is_strict_max_axis(a) by {
                        if a == max_axis {
                            assert(b != a && self.component(b) >= self.component(a));
                        } else {
                            assert(self.component(max_axis) >= self.component(a));
                        }
                    }
                }
                None
            },
            _ => Some(max_axis),
        }
    }

    /// Returns the axis of the vector's lowest value, or `None` if no component is strictly
    /// smaller than all others.
    pub fn min_axis(self) -> (r: Option<Vector4Axis>)
        ensures
            r matches Some(a) ==> self.is_strict_min_axis(a),
            r is None ==> forall|a: Vector4Axis| !self.is_strict_min_axis(a),
    {
        let ghost vals = self.values();
        let mut min_axis = Vector4Axis::X;
        let mut previous: Option<i32> = None;
        let mut min_value = self.x;

        let components = [(Vector4Axis::Y, self.y), (Vector4Axis::Z, self.z), (Vector4Axis::W, self.w)];
        let mut i: usize = 0;
        while i < 3
            invariant
                i <= 3,
                vals == self.values(),
                components@ == seq![(Vector4Axis::Y, self.y), (Vector4Axis::Z, self.z), (Vector4Axis::W, self.w)],
                0 <= min_axis.index_of() <= i,
                min_value == vals[min_axis.index_of()],
                forall|j: int| 0 <= j <= i ==> vals[j] >= min_value,
                forall|j: int| min_axis.index_of() < j <= i ==> vals[j] > min_value,
                previous is None ==> min_axis.index_of() == 0,
                previous matches Some(p) ==> {
                    &&& 0 < min_axis.index_of()
                    &&& p >= min_value
                    &&& forall|j: int| 0 <= j < min_axis.index_of() ==> vals[j] >= p
                    &&& exists|j: int| 0 <= j < min_axis.index_of() && vals[j] == p
                },
            decreases 3 - i,
        {
            let (axis, value) = components[i];
            if value <= min_value {
                proof {
                    let m = min_axis.index_of();
                    if let Some(p) = previous {
                        let j0 = choose|j: int| 0 <= j < min_axis.index_of() && vals[j] == p;
                        assert(0 <= j0 < i + 1 && vals[j0] == p);
                    }
                    assert(0 <= m < i + 1 && vals[m] == min_value);
                }
                min_axis = axis;
                previous = Some(min_value);
                min_value = value;
            }
            i += 1;
        }
        proof {
            self.lemma_component_is_value();
            assert(Self::axis_at(min_axis.index_of()) == min_axis);
        }
        match previous {
            Some(p) if p == min_value => {
                proof {
                    let j0 = choose|j: int| 0 <= j < min_axis.index_of() && vals[j] == p;
                    let b = Self::axis_at(j0);
                    assert(b.index_of() == j0);
                    assert forall|a: Vector4Axis| !self.is_strict_min_axis(a) by {
                        if a == min_axis {
                            assert(b != a && self.component(b) <= self.component(a));
                        } else {
                            assert(self.component(min_axis) <= self.component(a));
                        }
                    }
                }
                None
            },
            _ => Some(min_axis),
        }
    }

    /// Element-wise sum of all vectors in `vectors`.
    pub fn sum(vectors: &[Self]) -> (r: Self)
        requires
            forall|i: int, axis: Vector4Axis| 0 <= i <= vectors@.len() ==> fits_i32(#[trigger] component_sum(vectors@.take(i), axis)),
        ensures
            forall|axis: Vector4Axis| #[trigger] r.component(axis) == component_sum(vectors@, axis),
    {
        let mut acc = Self::splat(0);
        let mut i: usize = 0;
        proof {
            assert(vectors@.take(0) =~= Seq::<Self>::empty());
        }
        while i < vectors.len()
            invariant
                i <= vectors@.len(),
                forall|i: int, axis: Vector4Axis| 0 <= i <= vectors@.len() ==> fits_i32(#[trigger] component_sum(vectors@.take(i), axis)),
                forall|axis: Vector4Axis| #[trigger] acc.component(axis) == component_sum(vectors@.take(i as int), axis),
            decreases vectors@.len() - i,
        {
            proof {
                assert(vectors@.take(i as int + 1).drop_last() =~= vectors@.take(i as int));
                assert(fits_i32(component_sum(vectors@.take(i as int + 1), Vector4Axis::X)));
                assert(acc.component(Vector4Axis::X) == acc.x);
                assert(vectors@[i as int].component(Vector4Axis::X) == vectors@[i as int].x);
                assert(fits_i32(component_sum(vectors@.take(i as int + 1), Vector4Axis::Y)));
                assert(acc.component(Vector4Axis::Y) == acc.y);
                assert(vectors@[i as int].component(Vector4Axis::Y) == vectors@[i as int].y);
                assert(fits_i32(component_sum(vectors@.take(i as int + 1), Vector4Axis::Z)));
                assert(acc.component(Vector4Axis::Z) == acc.z);
                assert(vectors@[i as int].component(Vector4Axis::Z) == vectors@[i as int].z);
                assert(fits_i32(component_sum(vectors@.take(i as int + 1), Vector4Axis::W)));
                assert(acc.component(Vector4Axis::W) == acc.w);
                assert(vectors@[i as int].component(Vector4Axis::W) == vectors@[i as int].w);
            }
            acc = acc + vectors[i];
            i += 1;
        }
        proof {
            assert(vectors@.take(vectors@.len() as int) =~= vectors@);
        }
        acc
    }

    /// Element-wise product of all vectors in `vectors`.
    pub fn product(vectors: &[Self]) -> (r: Self)
        requires
            forall|i: int, axis: Vector4Axis| 0 <= i <= vectors@.len() ==> fits_i32(#[trigger] component_product(vectors@.take(i), axis)),
        ensures
            forall|axis: Vector4Axis| #[trigger] r.component(axis) == component_product(vectors@, axis),
    {
        let mut acc = Self::splat(1);
        let mut i: usize = 0;
        proof {
            assert(vectors@.take(0) =~= Seq::<Self>::empty());
        }
        while i < vectors.len()
            invariant
                i <= vectors@.len(),
                forall|i: int, axis: Vector4Axis| 0 <= i <= vectors@.len() ==> fits_i32(#[trigger] component_product(vectors@.take(i), axis)),
                forall|axis: Vector4Axis| #[trigger] acc.component(axis) == component_product(vectors@.take(i as int), axis),
            decreases vectors@.len() - i,
        {
            proof {
                assert(vectors@.take(i as int + 1).drop_last() =~= vectors@.take(i as int));
                assert(fits_i32(component_product(vectors@.take(i as int + 1), Vector4Axis::X)));
                assert(acc.component(Vector4Axis::X) == acc.x);
                assert(vectors@[i as int].component(Vector4Axis::X) == vectors@[i as int].x);
                assert(fits_i32(component_product(vectors@.take(i as int + 1), Vector4Axis::Y)));
                assert(acc.component(Vector4Axis::Y) == acc.y);
                assert(vectors@[i as int].component(Vector4Axis::Y) == vectors@[i as int].y);
                assert(fits_i32(component_product(vectors@.take(i as int + 1), Vector4Axis::Z)));
                assert(acc.component(Vector4Axis::Z) == acc.z);
                assert(vectors@[i as int].component(Vector4Axis::Z) == vectors@[i as int].z);
                assert(fits_i32(component_product(vectors@.take(i as int + 1), Vector4Axis::W)));
                assert(acc.component(Vector4Axis::W) == acc.w);
                assert(vectors@[i as int].component(Vector4Axis::W) == vectors@[i as int].w);
            }
            acc = acc * vectors[i];
            i += 1;
        }
        proof {
            assert(vectors@.take(vectors@.len() as int) =~= vectors@);
        }
        acc
    }

    /// Adds `rhs` to this vector component-wise (the `+=` operator).
    pub fn add_assign(&mut self, rhs: Self)
        requires
            fits_i32(old(self).x + rhs.x),
            fits_i32(old(self).y + rhs.y),
            fits_i32(old(self).z + rhs.z),
            fits_i32(old(self).w + rhs.w),
        ensures
            *final(self) == (Vector4i { x: (old(self).x + rhs.x) as i32, y: (old(self).y + rhs.y) as i32, z: (old(self).z + rhs.z) as i32, w: (old(self).w + rhs.w) as i32 }),
            *final(self) == AddSpec::add_spec(*old(self), rhs),
    {
        *self = *self + rhs;
    }

    /// Subtracts `rhs` from this vector component-wise (the `-=` operator).
    pub fn sub_assign(&mut self, rhs: Self)
        requires
            fits_i32(old(self).x - rhs.x),
            fits_i32(old(self).y - rhs.y),
            fits_i32(old(self).z - rhs.z),
            fits_i32(old(self).w - rhs.w),
        ensures
            *final(self) == (Vector4i { x: (old(self).x - rhs.x) as i32, y: (old(self).y - rhs.y) as i32, z: (old(self).z - rhs.z) as i32, w: (old(self).w - rhs.w) as i32 }),
            *final(self) == SubSpec::sub_spec(*old(self), rhs),
    {
        *self = *self - rhs;
    }

    /// Multiplies this vector by `rhs` component-wise (the `*=` operator).
    pub fn mul_assign(&mut self, rhs: Self)
        requires
            fits_i32(old(self).x * rhs.x),
            fits_i32(old(self).y * rhs.y),
            fits_i32(old(self).z * rhs.z),
            fits_i32(old(self).w * rhs.w),
        ensures
            *final(self) == (Vector4i { x: (old(self).x * rhs.x) as i32, y: (old(self).y * rhs.y) as i32, z: (old(self).z * rhs.z) as i32, w: (old(self).w * rhs.w) as i32 }),
            *final(self) == MulSpec::<Vector4i>::mul_spec(*old(self), rhs),
    {
        *self = *self * rhs;
    }

    /// Multiplies every component of this vector by `rhs` (the `*=` operator with a scalar).
    pub fn mul_assign_scalar(&mut self, rhs: i32)
        requires
            fits_i32(old(self).x * rhs),
            fits_i32(old(self).y * rhs),
            fits_i32(old(self).z * rhs),
            fits_i32(old(self).w * rhs),
        ensures
            *final(self) == (Vector4i { x: (old(self).x * rhs) as i32, y: (old(self).y * rhs) as i32, z: (old(self).z * rhs) as i32, w: (old(self).w * rhs) as i32 }),
            *final(self) == MulSpec::<i32>::mul_spec(*old(self), rhs),
    {
        *self = *self * rhs;
    }

    /// Divides this vector by `rhs` component-wise, rounding toward zero (the `/=` operator).
    pub fn div_assign(&mut self, rhs: Self)
        requires
            div_fits(old(self).x, rhs.x),
            div_fits(old(self).y, rhs.y),
            div_fits(old(self).z, rhs.z),
            div_fits(old(self).w, rhs.w),
        ensures
            *final(self) == (Vector4i { x: trunc_div(old(self).x as int, rhs.x as int) as i32, y: trunc_div(old(self).y as int, rhs.y as int) as i32, z: trunc_div(old(self).z as int, rhs.z as int) as i32, w: trunc_div(old(self).w as int, rhs.w as int) as i32 }),
            *final(self) == DivSpec::<Vector4i>::div_spec(*old(self), rhs),
    {
        *self = *self / rhs;
    }

    /// Divides every component of this vector by `rhs`, rounding toward zero (the `/=` operator with a scalar).
    pub fn div_assign_scalar(&mut self, rhs: i32)
        requires
            div_fits(old(self).x, rhs),
            div_fits(old(self).y, rhs),
            div_fits(old(self).z, rhs),
            div_fits(old(self).w, rhs),
        ensures
            *final(self) == (Vector4i { x: trunc_div(old(self).x as int, rhs as int) as i32, y: trunc_div(old(self).y as int, rhs as int) as i32, z: trunc_div(old(self).z as int, rhs as int) as i32, w: trunc_div(old(self).w as int, rhs as int) as i32 }),
            *final(self) == DivSpec::<i32>::div_spec(*old(self), rhs),
    {
        *self = *self / rhs;
    }
}

/// The sum of the components on `axis` of all vectors in `vectors`.
pub open spec fn component_sum(vectors: Seq<Vector4i>, axis: Vector4Axis) -> int
    decreases vectors.len(),
{
    if vectors.len() == 0 {
        0
    } else {
        component_sum(vectors.drop_last(), axis) + vectors.last().component(axis)
    }
}

/// The product of the components on `axis` of all vectors in `vectors`.
pub open spec fn component_product(vectors: Seq<Vector4i>, axis: Vector4Axis) -> int
    decreases vectors.len(),
{
    if vectors.len() == 0 {
        1
    } else {
        component_product(vectors.drop_last(), axis) * vectors.last().component(axis)
    }
}

impl std::ops::Index<Vector4Axis> for Vector4i {
    type Output = i32;

    fn index(&self, axis: Vector4Axis) -> (r: &i32)
        ensures
            *r == self.component(axis),
    {
        match axis {
            Vector4Axis::X => &self.x,
            Vector4Axis::Y => &self.y,
            Vector4Axis::Z => &self.z,
            Vector4Axis::W => &self.w,
        }
    }
}

impl std::ops::IndexMut<Vector4Axis> for Vector4i {
    fn index_mut(&mut self, axis: Vector4Axis) -> (r: &mut i32)
        ensures
            *r == old(self).component(axis),
            final(self).component(axis) == *final(r),
            forall|other: Vector4Axis| other != axis ==> final(self).component(other) == old(self).component(other),
    {
        match axis {
            Vector4Axis::X => &mut self.x,
            Vector4Axis::Y => &mut self.y,
            Vector4Axis::Z => &mut self.z,
            Vector4Axis::W => &mut self.w,
        }
    }
}

impl vstd::std_specs::core::IndexSpecImpl<Vector4Axis> for Vector4i {
    open spec fn index_req(&self, axis: &Vector4Axis) -> bool {
        true
    }
}

impl std::ops::Neg for Vector4i {
    type Output = Vector4i;

    fn neg(self) -> (r: Vector4i) {
        Vector4i { x: -self.x, y: -self.y, z: -self.z, w: -self.w }
    }
}

impl vstd::std_specs::ops::NegSpecImpl for Vector4i {
    open spec fn obeys_neg_spec() -> bool {
        true
    }

    open spec fn neg_req(self) -> bool {
        self.x != i32::MIN && self.y != i32::MIN && self.z != i32::MIN && self.w != i32::MIN
    }

    open spec fn neg_spec(self) -> Vector4i {
        Vector4i { x: (-self.x) as i32, y: (-self.y) as i32, z: (-self.z) as i32, w: (-self.w) as i32 }
    }
}

impl std::ops::Add for Vector4i {
    type Output = Vector4i;

    fn add(self, rhs: Vector4i) -> (r: Vector4i) {
        Vector4i { x: self.x + rhs.x, y: self.y + rhs.y, z: self.z + rhs.z, w: self.w + rhs.w }
    }
}

impl vstd::std_specs::ops::AddSpecImpl for Vector4i {
    open spec fn obeys_add_spec() -> bool {
        true
    }

    open spec fn add_req(self, rhs: Vector4i) -> bool {
        fits_i32(self.x + rhs.x) && fits_i32(self.y + rhs.y) && fits_i32(self.z + rhs.z) && fits_i32(self.w + rhs.w)
    }

    open spec fn add_spec(self, rhs: Vector4i) -> Vector4i {
        Vector4i { x: (self.x + rhs.x) as i32, y: (self.y + rhs.y) as i32, z: (self.z + rhs.z) as i32, w: (self.w + rhs.w) as i32 }
    }
}

impl std::ops::Sub for Vector4i {
    type Output = Vector4i;

    fn sub(self, rhs: Vector4i) -> (r: Vector4i) {
        Vector4i { x: self.x - rhs.x, y: self.y - rhs.y, z: self.z - rhs.z, w: self.w - rhs.w }
    }
}

impl vstd::std_specs::ops::SubSpecImpl for Vector4i {
    open spec fn obeys_sub_spec() -> bool {
        true
    }

    open spec fn sub_req(self, rhs: Vector4i) -> bool {
        fits_i32(self.x - rhs.x) && fits_i32(self.y - rhs.y) && fits_i32(self.z - rhs.z) && fits_i32(self.w - rhs.w)
    }

    open spec fn sub_spec(self, rhs: Vector4i) -> Vector4i {
        Vector4i { x: (self.x - rhs.x) as i32, y: (self.y - rhs.y) as i32, z: (self.z - rhs.z) as i32, w: (self.w - rhs.w) as i32 }
    }
}

impl std::ops::Mul for Vector4i {
    type Output = Vector4i;

    fn mul(self, rhs: Vector4i) -> (r: Vector4i) {
        Vector4i { x: self.x * rhs.x, y: self.y * rhs.y, z: self.z * rhs.z, w: self.w * rhs.w }
    }
}

impl vstd::std_specs::ops::MulSpecImpl for Vector4i {
    open spec fn obeys_mul_spec() -> bool {
        true
    }

    open spec fn mul_req(self, rhs: Vector4i) -> bool {
        fits_i32(self.x * rhs.x) && fits_i32(self.y * rhs.y) && fits_i32(self.z * rhs.z) && fits_i32(self.w * rhs.w)
    }

    open spec fn mul_spec(self, rhs: Vector4i) -> Vector4i {
        Vector4i { x: (self.x * rhs.x) as i32, y: (self.y * rhs.y) as i32, z: (self.z * rhs.z) as i32, w: (self.w * rhs.w) as i32 }
    }
}

impl std::ops::Mul<i32> for Vector4i {
    type Output = Vector4i;

    fn mul(self, rhs: i32) -> (r: Vector4i) {
        Vector4i { x: self.x * rhs, y: self.y * rhs, z: self.z * rhs, w: self.w * rhs }
    }
}

impl vstd::std_specs::ops::MulSpecImpl<i32> for Vector4i {
    open spec fn obeys_mul_spec() -> bool {
        true
    }

    open spec fn mul_req(self, rhs: i32) -> bool {
        fits_i32(self.x * rhs) && fits_i32(self.y * rhs) && fits_i32(self.z * rhs) && fits_i32(self.w * rhs)
    }

    open spec fn mul_spec(self, rhs: i32) -> Vector4i {
        Vector4i { x: (self.x * rhs) as i32, y: (self.y * rhs) as i32, z: (self.z * rhs) as i32, w: (self.w * rhs) as i32 }
    }
}

impl std::ops::Mul<Vector4i> for i32 {
    type Output = Vector4i;

    fn mul(self, rhs: Vector4i) -> (r: Vector4i) {
        Vector4i { x: rhs.x * self, y: rhs.y * self, z: rhs.z * self, w: rhs.w * self }
    }
}

impl vstd::std_specs::ops::MulSpecImpl<Vector4i> for i32 {
    open spec fn obeys_mul_spec() -> bool {
        true
    }

    open spec fn mul_req(self, rhs: Vector4i) -> bool {
        fits_i32(rhs.x * self) && fits_i32(rhs.y * self) && fits_i32(rhs.z * self) && fits_i32(rhs.w * self)
    }

    open spec fn mul_spec(self, rhs: Vector4i) -> Vector4i {
        Vector4i { x: (rhs.x * self) as i32, y: (rhs.y * self) as i32, z: (rhs.z * self) as i32, w: (rhs.w * self) as i32 }
    }
}

impl std::ops::Div for Vector4i {
    type Output = Vector4i;

    fn div(self, rhs: Vector4i) -> (r: Vector4i) {
        Vector4i { x: div_one(self.x, rhs.x), y: div_one(self.y, rhs.y), z: div_one(self.z, rhs.z), w: div_one(self.w, rhs.w) }
    }
}

impl vstd::std_specs::ops::DivSpecImpl for Vector4i {
    open spec fn obeys_div_spec() -> bool {
        true
    }

    open spec fn div_req(self, rhs: Vector4i) -> bool {
        div_fits(self.x, rhs.x) && div_fits(self.y, rhs.y) && div_fits(self.z, rhs.z) && div_fits(self.w, rhs.w)
    }

    open spec fn div_spec(self, rhs: Vector4i) -> Vector4i {
        Vector4i { x: trunc_div(self.x as int, rhs.x as int) as i32, y: trunc_div(self.y as int, rhs.y as int) as i32, z: trunc_div(self.z as int, rhs.z as int) as i32, w: trunc_div(self.w as int, rhs.w as int) as i32 }
    }
}

impl std::ops::Div<i32> for Vector4i {
    type Output = Vector4i;

    fn div(self, rhs: i32) -> (r: Vector4i) {
        Vector4i { x: div_one(self.x, rhs), y: div_one(self.y, rhs), z: div_one(self.z, rhs), w: div_one(self.w, rhs) }
    }
}

impl vstd::std_specs::ops::DivSpecImpl<i32> for Vector4i {
    open spec fn obeys_div_spec() -> bool {
        true
    }

    open spec fn div_req(self, rhs: i32) -> bool {
        div_fits(self.x, rhs) && div_fits(self.y, rhs) && div_fits(self.z, rhs) && div_fits(self.w, rhs)
    }

    open spec fn div_spec(self, rhs: i32) -> Vector4i {
        Vector4i { x: trunc_div(self.x as int, rhs as int) as i32, y: trunc_div(self.y as int, rhs as int) as i32, z: trunc_div(self.z as int, rhs as int) as i32, w: trunc_div(self.w as int, rhs as int) as i32 }
    }
}

} // verus!
