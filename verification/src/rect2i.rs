//! `Rect2i`: a 2D axis-aligned bounding box with integer coordinates.

use vstd::prelude::*;

use crate::vectors::component::{abs_int, fits_i32, max_i32, min_i32, trunc_div};
use crate::vectors::Vector2i;

verus! {

/// A side of a rectangle.
#[derive(Copy, Clone, Eq, PartialEq, Structural, Debug, Hash)]
pub enum RectSide {
    /// The left side.
    Left,
    /// The top side.
    Top,
    /// The right side.
    Right,
    /// The bottom side.
    Bottom,
}

/// 2D axis-aligned integer bounding box.
///
/// `Rect2i` consists of a position, a size, and several utility functions. It is typically used for
/// fast overlap tests.
#[derive(Default, Copy, Clone, Eq, PartialEq, Structural, Debug)]
pub struct Rect2i {
    /// The position of the rectangle.
    pub position: Vector2i,
    /// The size of the rectangle.
    pub size: Vector2i,
}

/// The vector with components `x` and `y`, cast to `i32`.
pub open spec fn vec2(x: int, y: int) -> Vector2i {
    Vector2i { x: x as i32, y: y as i32 }
}

/// The rectangle from corner `position` to corner `end`.
pub open spec fn rect_from_corners(position: Vector2i, end: Vector2i) -> Rect2i {
    Rect2i { position, size: vec2(end.x - position.x, end.y - position.y) }
}

impl Rect2i {
    /// The X coordinate of the end corner, `position.x + size.x`.
    pub open spec fn end_x(self) -> int {
        self.position.x + self.size.x
    }

    /// The Y coordinate of the end corner, `position.y + size.y`.
    pub open spec fn end_y(self) -> int {
        self.position.y + self.size.y
    }

    /// The end corner lies within `i32`.
    pub open spec fn end_fits(self) -> bool {
        fits_i32(self.end_x()) && fits_i32(self.end_y())
    }

    /// The end corner `position + size`.
    pub open spec fn spec_end(self) -> Vector2i {
        vec2(self.end_x(), self.end_y())
    }

    /// Either component of the size is negative.
    pub open spec fn spec_is_negative(self) -> bool {
        self.size.x < 0 || self.size.y < 0
    }

    /// The rectangle has a positive width and height.
    pub open spec fn spec_has_area(self) -> bool {
        self.size.x > 0 && self.size.y > 0
    }

    /// `point` lies in the rectangle; the right and bottom edges are exclusive.
    pub open spec fn spec_contains_point(self, point: Vector2i) -> bool {
        &&& point.x >= self.position.x
        &&& point.y >= self.position.y
        &&& point.x < self.end_x()
        &&& point.y < self.end_y()
    }

    /// `other` lies within the borders of `self`.
    pub open spec fn spec_encloses(self, other: Rect2i) -> bool {
        &&& other.position.x >= self.position.x
        &&& other.position.y >= self.position.y
        &&& other.end_x() <= self.end_x()
        &&& other.end_y() <= self.end_y()
    }

    /// The rectangle with the same points and a nonnegative size.
    pub open spec fn spec_abs(self) -> Rect2i {
        Rect2i {
            position: vec2(
                self.position.x + min_i32(self.size.x, 0),
                self.position.y + min_i32(self.size.y, 0),
            ),
            size: vec2(abs_int(self.size.x as int), abs_int(self.size.y as int)),
        }
    }

    /// Computing [`Self::spec_abs`] stays within `i32`.
    pub open spec fn abs_fits(self) -> bool {
        &&& self.size.x != i32::MIN
        &&& self.size.y != i32::MIN
        &&& fits_i32(self.position.x + min_i32(self.size.x, 0))
        &&& fits_i32(self.position.y + min_i32(self.size.y, 0))
    }

    /// `self` with its borders moved outward so that `to` lies on or inside them.
    pub open spec fn spec_expand(self, to: Vector2i) -> Rect2i {
        rect_from_corners(
            vec2(min_i32(self.position.x, to.x) as int, min_i32(self.position.y, to.y) as int),
            vec2(max_i32(self.end_x() as i32, to.x) as int, max_i32(self.end_y() as i32, to.y) as int),
        )
    }

    /// Computing [`Self::spec_expand`] stays within `i32`.
    pub open spec fn expand_fits(self, to: Vector2i) -> bool {
        &&& self.end_fits()
        &&& fits_i32(max_i32(self.end_x() as i32, to.x) - min_i32(self.position.x, to.x))
        &&& fits_i32(max_i32(self.end_y() as i32, to.y) - min_i32(self.position.y, to.y))
    }

    /// The area, `size.x * size.y`.
    pub open spec fn spec_area(self) -> int {
        self.size.x * self.size.y
    }

    /// The center, `position + size / 2`, rounded toward `position`.
    pub open spec fn spec_center(self) -> Vector2i {
        vec2(
            self.position.x + trunc_div(self.size.x as int, 2),
            self.position.y + trunc_div(self.size.y as int, 2),
        )
    }

    /// Computing [`Self::spec_center`] stays within `i32`.
    pub open spec fn center_fits(self) -> bool {
        &&& fits_i32(self.position.x + trunc_div(self.size.x as int, 2))
        &&& fits_i32(self.position.y + trunc_div(self.size.y as int, 2))
    }

    /// `self` grown by the given amounts on its left, top, right and bottom sides.
    pub open spec fn spec_grow_individual(self, left: int, top: int, right: int, bottom: int) -> Rect2i {
        Rect2i {
            position: vec2(self.position.x - left, self.position.y - top),
            size: vec2(self.size.x + left + right, self.size.y + top + bottom),
        }
    }

    /// Computing [`Self::spec_grow_individual`] stays within `i32`.
    pub open spec fn grow_fits(self, left: int, top: int, right: int, bottom: int) -> bool {
        &&& self.end_fits()
        &&& fits_i32(self.position.x - left)
        &&& fits_i32(self.position.y - top)
        &&& fits_i32(self.end_x() + right)
        &&& fits_i32(self.end_y() + bottom)
        &&& fits_i32(self.size.x + left + right)
        &&& fits_i32(self.size.y + top + bottom)
    }

    /// The amounts by which [`Self::grow_side`] grows each side, in the order
    /// left, top, right, bottom.
    pub open spec fn side_amounts(side: RectSide, amount: int) -> (int, int, int, int) {
        match side {
            RectSide::Left => (amount, 0, 0, 0),
            RectSide::Top => (0, amount, 0, 0),
            RectSide::Right => (0, 0, amount, 0),
            RectSide::Bottom => (0, 0, 0, amount),
        }
    }

    /// The overlap of `self` and `b`, or `None` if they have no point in common.
    pub open spec fn spec_intersection(self, b: Rect2i) -> Option<Rect2i> {
        if self.position.x >= b.end_x() || self.end_x() <= b.position.x || self.position.y >= b.end_y()
            || self.end_y() <= b.position.y {
            None
        } else {
            Some(
                rect_from_corners(
                    vec2(max_i32(b.position.x, self.position.x) as int, max_i32(b.position.y, self.position.y) as int),
                    vec2(
                        min_i32(b.end_x() as i32, self.end_x() as i32) as int,
                        min_i32(b.end_y() as i32, self.end_y() as i32) as int,
                    ),
                ),
            )
        }
    }

    /// The smallest rectangle that encloses both `self` and `b`.
    pub open spec fn spec_merge(self, b: Rect2i) -> Rect2i {
        rect_from_corners(
            vec2(min_i32(b.position.x, self.position.x) as int, min_i32(b.position.y, self.position.y) as int),
            vec2(
                max_i32(b.end_x() as i32, self.end_x() as i32) as int,
                max_i32(b.end_y() as i32, self.end_y() as i32) as int,
            ),
        )
    }

    /// Computing [`Self::spec_merge`] stays within `i32`.
    pub open spec fn merge_fits(self, b: Rect2i) -> bool {
        &&& self.end_fits()
        &&& b.end_fits()
        &&& fits_i32(
            max_i32(b.end_x() as i32, self.end_x() as i32) - min_i32(b.position.x, self.position.x),
        )
        &&& fits_i32(
            max_i32(b.end_y() as i32, self.end_y() as i32) - min_i32(b.position.y, self.position.y),
        )
    }

    /// Create a new `Rect2i` from a position and a size.
    pub fn new(position: Vector2i, size: Vector2i) -> (r: Self)
        ensures
            r == (Rect2i { position, size }),
    {
        Rect2i { position, size }
    }

    /// Create a new `Rect2i` from four `i32`s representing position `(x, y)` and size
    /// `(width, height)`.
    pub fn from_components(x: i32, y: i32, width: i32, height: i32) -> (r: Self)
        ensures
            r == (Rect2i { position: Vector2i { x, y }, size: Vector2i { x: width, y: height } }),
    {
        Rect2i { position: Vector2i::new(x, y), size: Vector2i::new(width, height) }
    }

    /// Create a new `Rect2i` with the first corner at `position` and the opposite corner at `end`.
    pub fn from_corners(position: Vector2i, end: Vector2i) -> (r: Self)
        requires
            fits_i32(end.x - position.x),
            fits_i32(end.y - position.y),
        ensures
            r == rect_from_corners(position, end),
    {
        Rect2i { position, size: end - position }
    }

    /// The end of the `Rect2i` calculated as `position + size`.
    pub fn end(&self) -> (r: Vector2i)
        requires
            self.end_fits(),
        ensures
            r == self.spec_end(),
    {
        Vector2i::new(self.position.x + self.size.x, self.position.y + self.size.y)
    }

    /// Set size based on desired end-point.
    pub fn set_end(&mut self, end: Vector2i)
        requires
            fits_i32(end.x - old(self).position.x),
            fits_i32(end.y - old(self).position.y),
        ensures
            *final(self) == rect_from_corners(old(self).position, end),
    {
        self.size = end - self.position;
    }

    /// Returns a `Rect2i` with equivalent position and area, modified so that the top-left corner
    /// is the origin and `width` and `height` are positive.
    pub fn abs(self) -> (r: Self)
        requires
            self.abs_fits(),
        ensures
            r == self.spec_abs(),
    {
        let abs_size = self.size.abs();
        let offset = Vector2i::new(self.size.x.min(0), self.size.y.min(0));
        Self::new(self.position + offset, abs_size)
    }

    /// Returns `true` if this `Rect2i` completely encloses another one.
    ///
    /// Any `Rect2i` encloses itself, i.e. an enclosed `Rect2i` is not required to be a proper
    /// sub-rect.
    pub fn encloses(&self, other: Self) -> (r: bool)
        requires
            !self.spec_is_negative(),
            !other.spec_is_negative(),
            self.end_fits(),
            other.end_fits(),
        ensures
            r == self.spec_encloses(other),
    {
        self.assert_nonnegative();
        other.assert_nonnegative();

        let own_end = self.end();
        let other_end = other.end();
        other.position.x >= self.position.x && other.position.y >= self.position.y && other_end.x
            <= own_end.x && other_end.y <= own_end.y
    }

    /// Returns a copy of this `Rect2i` expanded so that the borders align with the given point.
    pub fn expand(self, to: Vector2i) -> (r: Self)
        requires
            !self.spec_is_negative(),
            self.expand_fits(to),
        ensures
            r == self.spec_expand(to),
    {
        self.assert_nonnegative();

        let begin = self.position;
        let end = self.end();
        Self::from_corners(begin.coord_min(to), end.coord_max(to))
    }

    /// Returns the area of the `Rect2i`.
    pub fn area(&self) -> (r: i32)
        requires
            fits_i32(self.spec_area()),
        ensures
            r == self.spec_area(),
    {
        self.size.x * self.size.y
    }

    /// Returns the center of the `Rect2i`, which is equal to `position + (size / 2)`.
    ///
    /// If `size` is an odd number, the returned center value will be rounded towards `position`.
    pub fn center(&self) -> (r: Vector2i)
        requires
            self.center_fits(),
        ensures
            r == self.spec_center(),
    {
        self.position + (self.size / 2)
    }

    /// Returns a copy of the `Rect2i` grown by the specified `amount` on all sides.
    pub fn grow(self, amount: i32) -> (r: Self)
        requires
            self.grow_fits(amount as int, amount as int, amount as int, amount as int),
        ensures
            r == self.spec_grow_individual(amount as int, amount as int, amount as int, amount as int),
    {
        let amount_2d = Vector2i::new(amount, amount);
        Self::from_corners(self.position - amount_2d, self.end() + amount_2d)
    }

    /// Returns a copy of the `Rect2i` grown by the specified amount on each side individually.
    pub fn grow_individual(self, left: i32, top: i32, right: i32, bottom: i32) -> (r: Self)
        requires
            self.grow_fits(left as int, top as int, right as int, bottom as int),
        ensures
            r == self.spec_grow_individual(left as int, top as int, right as int, bottom as int),
    {
        let top_left = Vector2i::new(left, top);
        let bottom_right = Vector2i::new(right, bottom);
        Self::from_corners(self.position - top_left, self.end() + bottom_right)
    }

    /// Returns a copy of the `Rect2i` grown by the specified `amount` on the specified side.
    pub fn grow_side(self, side: RectSide, amount: i32) -> (r: Self)
        requires
            ({
                let (l, t, rt, b) = Self::side_amounts(side, amount as int);
                self.grow_fits(l, t, rt, b)
            }),
        ensures
            ({
                let (l, t, rt, b) = Self::side_amounts(side, amount as int);
                r == self.spec_grow_individual(l, t, rt, b)
            }),
    {
        match side {
            RectSide::Left => self.grow_individual(amount, 0, 0, 0),
            RectSide::Top => self.grow_individual(0, amount, 0, 0),
            RectSide::Right => self.grow_individual(0, 0, amount, 0),
            RectSide::Bottom => self.grow_individual(0, 0, 0, amount),
        }
    }

    /// Returns `true` if the `Rect2i` has area, and `false` if the `Rect2i` is linear, empty, or
    /// has a negative `size`.
    pub fn has_area(&self) -> (r: bool)
        ensures
            r == self.spec_has_area(),
    {
        self.size.x > 0 && self.size.y > 0
    }

    /// Returns `true` if the `Rect2i` contains a point. By convention, the right and bottom edges
    /// of the `Rect2i` are considered exclusive, so points on these edges are not included.
    pub fn contains_point(&self, point: Vector2i) -> (r: bool)
        requires
            !self.spec_is_negative(),
            self.end_fits(),
        ensures
            r == self.spec_contains_point(point),
    {
        self.assert_nonnegative();

        let end = self.end();
        point.x >= self.position.x && point.y >= self.position.y && point.x < end.x && point.y < end.y
    }

    /// Returns the intersection of this `Rect2i` and `b`.
    ///
    /// If the rectangles do not intersect, `None` is returned. Rectangles that only share a
    /// border do not intersect.
    pub fn intersection(self, b: Self) -> (r: Option<Self>)
        requires
            !self.spec_is_negative(),
            !b.spec_is_negative(),
            self.end_fits(),
            b.end_fits(),
        ensures
            r == self.spec_intersection(b),
    {
        self.assert_nonnegative();
        b.assert_nonnegative();

        let own_end = self.end();
        let b_end = b.end();
        if self.position.x >= b_end.x || own_end.x <= b.position.x || self.position.y >= b_end.y
            || own_end.y <= b.position.y {
            return None;
        }
        let new_pos = b.position.coord_max(self.position);
        let new_end = b_end.coord_min(own_end);

        Some(Self::from_corners(new_pos, new_end))
    }

    /// Returns `true` if the `Rect2i` overlaps with `b` (i.e. they have at least one point in
    /// common).
    pub fn intersects(&self, b: Self) -> (r: bool)
        requires
            !self.spec_is_negative(),
            !b.spec_is_negative(),
            self.end_fits(),
            b.end_fits(),
        ensures
            r == self.spec_intersection(b) is Some,
    {
        self.intersection(b).is_some()
    }

    /// Returns a larger `Rect2i` that contains this `Rect2i` and `b`.
    pub fn merge(self, b: Self) -> (r: Self)
        requires
            !self.spec_is_negative(),
            !b.spec_is_negative(),
            self.merge_fits(b),
        ensures
            r == self.spec_merge(b),
    {
        self.assert_nonnegative();
        b.assert_nonnegative();

        let new_pos = b.position.coord_min(self.position);
        let new_end = b.end().coord_max(self.end());

        Self::from_corners(new_pos, new_end)
    }

    /// Returns `true` if either of the coordinates of this `Rect2i`s `size` vector is negative.
    pub fn is_negative(&self) -> (r: bool)
        ensures
            r == self.spec_is_negative(),
    {
        self.size.x < 0 || self.size.y < 0
    }

    /// The text of the rectangle as Godot prints it, such as `[P: (0, 0), S: (1, 1)]`.
    pub open spec fn spec_to_string(self) -> Seq<char> {
        seq!['[', 'P', ':', ' '] + self.position.spec_to_string() + seq![',', ' ', 'S', ':', ' ']
            + self.size.spec_to_string() + seq![']']
    }

    /// Formats the rectangle like Godot: `[P: (x, y), S: (width, height)]`.
    pub fn to_string(&self) -> (r: String)
        ensures
            r@ == self.spec_to_string(),
    {
        proof {
            reveal_strlit("[P: ");
            reveal_strlit(", S: ");
            reveal_strlit("]");
        }
        let mut s = String::new();
        s.append("[P: ");
        s.append(self.position.to_string().as_str());
        s.append(", S: ");
        s.append(self.size.to_string().as_str());
        s.append("]");
        proof {
            assert(s@ =~= self.spec_to_string());
        }
        s
    }

    /// Checks that the size of the `Rect2i` is not negative; certain functions give an incorrect
    /// result for a negative size, and demand this of their callers.
    pub fn assert_nonnegative(&self)
        requires
            !self.spec_is_negative(),
    {
    }
}

} // verus!
