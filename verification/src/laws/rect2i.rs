//! Laws of `Rect2i`.

use vstd::prelude::*;

use crate::rect2i::{rect_from_corners, vec2, Rect2i, RectSide};
use crate::vectors::component::{abs_int, fits_i32, max_i32, min_i32};
use crate::vectors::Vector2i;

verus! {

/// The end of the rectangle built from two corners is the second corner.
pub proof fn lemma_from_corners_end(position: Vector2i, end: Vector2i)
    requires
        fits_i32(end.x - position.x),
        fits_i32(end.y - position.y),
    ensures
        rect_from_corners(position, end).end_fits(),
        rect_from_corners(position, end).spec_end() == end,
{
}

/// Building a rectangle from its position and its end gives back the rectangle.
pub proof fn lemma_corners_of_rect(r: Rect2i)
    requires
        r.end_fits(),
    ensures
        rect_from_corners(r.position, r.spec_end()) == r,
{
}

/// Taking the absolute value of a rectangle twice gives the same as taking it once.
pub proof fn lemma_abs_idempotent(r: Rect2i)
    requires
        r.abs_fits(),
    ensures
        r.spec_abs().abs_fits(),
        r.spec_abs().spec_abs() == r.spec_abs(),
{
}

/// The absolute value of a rectangle has a nonnegative size, keeps a rectangle with a
/// nonnegative size unchanged, and spans the same corners: its position is the smaller and its
/// end the larger of the original position and end.
pub proof fn lemma_abs_spans_corners(r: Rect2i)
    requires
        r.abs_fits(),
        r.end_fits(),
    ensures
        !r.spec_abs().spec_is_negative(),
        !r.spec_is_negative() ==> r.spec_abs() == r,
        r.spec_abs().position == vec2(
            min_i32(r.position.x, r.end_x() as i32) as int,
            min_i32(r.position.y, r.end_y() as i32) as int,
        ),
        r.spec_abs().end_x() == max_i32(r.position.x, r.end_x() as i32),
        r.spec_abs().end_y() == max_i32(r.position.y, r.end_y() as i32),
{
}

/// Any rectangle encloses itself.
pub proof fn lemma_encloses_reflexive(r: Rect2i)
    ensures
        r.spec_encloses(r),
{
}

/// Enclosing is transitive.
pub proof fn lemma_encloses_transitive(a: Rect2i, b: Rect2i, c: Rect2i)
    requires
        a.spec_encloses(b),
        b.spec_encloses(c),
    ensures
        a.spec_encloses(c),
{
}

/// A rectangle with area is enclosed by another one exactly when every point it contains is
/// contained in the other one.
pub proof fn lemma_encloses_iff_contains_all_points(a: Rect2i, b: Rect2i)
    requires
        !a.spec_is_negative(),
        b.spec_has_area(),
        a.end_fits(),
        b.end_fits(),
    ensures
        a.spec_encloses(b) <==> forall|p: Vector2i| #[trigger] b.spec_contains_point(p) ==> a.spec_contains_point(p),
{
    if forall|p: Vector2i| #[trigger] b.spec_contains_point(p) ==> a.spec_contains_point(p) {
        let first = b.position;
        let last = vec2(b.end_x() - 1, b.end_y() - 1);
        assert(b.spec_contains_point(first));
        assert(b.spec_contains_point(last));
    }
}

/// A rectangle has area exactly when it contains some point.
pub proof fn lemma_has_area_iff_contains_a_point(r: Rect2i)
    requires
        r.end_fits(),
    ensures
        r.spec_has_area() <==> exists|p: Vector2i| #[trigger] r.spec_contains_point(p),
{
    if r.spec_has_area() {
        assert(r.spec_contains_point(r.position));
    }
}

/// Two rectangles with nonnegative sizes that have a point in common intersect; two that
/// intersect have a point in common exactly when both have area.
pub proof fn lemma_intersects_iff_common_point(a: Rect2i, b: Rect2i)
    requires
        !a.spec_is_negative(),
        !b.spec_is_negative(),
        a.end_fits(),
        b.end_fits(),
    ensures
        a.spec_intersection(b) is None ==> !exists|p: Vector2i|
            #[trigger] a.spec_contains_point(p) && b.spec_contains_point(p),
        a.spec_intersection(b) is Some ==> ((exists|p: Vector2i|
            #[trigger] a.spec_contains_point(p) && b.spec_contains_point(p)) <==> a.spec_has_area()
            && b.spec_has_area()),
{
    if a.spec_intersection(b) is Some && a.spec_has_area() && b.spec_has_area() {
        let p = Vector2i { x: max_i32(a.position.x, b.position.x), y: max_i32(a.position.y, b.position.y) };
        assert(a.spec_contains_point(p) && b.spec_contains_point(p));
    }
}

/// The intersection of two rectangles contains exactly the points that both contain; it is
/// enclosed by both, and does not depend on the order of the two.
pub proof fn lemma_intersection_is_common_part(a: Rect2i, b: Rect2i)
    requires
        !a.spec_is_negative(),
        !b.spec_is_negative(),
        a.end_fits(),
        b.end_fits(),
    ensures
        a.spec_intersection(b) == b.spec_intersection(a),
        a.spec_intersection(b) matches Some(i) ==> {
            &&& !i.spec_is_negative()
            &&& i.end_fits()
            &&& a.spec_encloses(i)
            &&& b.spec_encloses(i)
            &&& forall|p: Vector2i| #[trigger] i.spec_contains_point(p) <==> a.spec_contains_point(p)
                && b.spec_contains_point(p)
        },
{
}

/// The merge of two rectangles encloses both, and does not depend on their order.
pub proof fn lemma_merge_encloses_both(a: Rect2i, b: Rect2i)
    requires
        !a.spec_is_negative(),
        !b.spec_is_negative(),
        a.merge_fits(b),
    ensures
        b.merge_fits(a),
        a.spec_merge(b) == b.spec_merge(a),
        a.spec_merge(b).end_fits(),
        a.spec_merge(b).spec_encloses(a),
        a.spec_merge(b).spec_encloses(b),
{
}

/// Expanding a rectangle to a point gives a rectangle that encloses the original one and whose
/// borders reach the point; expanding to a point on or within the borders changes nothing.
pub proof fn lemma_expand_reaches_point(r: Rect2i, to: Vector2i)
    requires
        !r.spec_is_negative(),
        r.expand_fits(to),
    ensures
        r.spec_expand(to).end_fits(),
        r.spec_expand(to).spec_encloses(r),
        r.spec_expand(to).position.x <= to.x <= r.spec_expand(to).end_x(),
        r.spec_expand(to).position.y <= to.y <= r.spec_expand(to).end_y(),
        (r.position.x <= to.x <= r.end_x() && r.position.y <= to.y <= r.end_y()) ==> r.spec_expand(to)
            == r,
{
}

/// Growing a rectangle by an amount on each side and then by the opposite amounts gives back
/// the rectangle.
pub proof fn lemma_grow_undone(r: Rect2i, left: int, top: int, right: int, bottom: int)
    requires
        r.grow_fits(left, top, right, bottom),
    ensures
        r.spec_grow_individual(left, top, right, bottom).grow_fits(-left, -top, -right, -bottom),
        r.spec_grow_individual(left, top, right, bottom).spec_grow_individual(-left, -top, -right, -bottom)
            == r,
{
}

/// Growing by one amount and then by another is growing by their sum.
pub proof fn lemma_grow_adds(r: Rect2i, a: int, b: int)
    requires
        r.grow_fits(a, a, a, a),
        r.spec_grow_individual(a, a, a, a).grow_fits(b, b, b, b),
    ensures
        r.spec_grow_individual(a, a, a, a).spec_grow_individual(b, b, b, b) == r.spec_grow_individual(
            a + b,
            a + b,
            a + b,
            a + b,
        ),
{
}

/// A rectangle with area contains its center.
pub proof fn lemma_center_is_contained(r: Rect2i)
    requires
        r.spec_has_area(),
        r.end_fits(),
    ensures
        r.center_fits(),
        r.spec_contains_point(r.spec_center()),
{
    let sx = r.size.x as int;
    let sy = r.size.y as int;
    assert(crate::vectors::component::trunc_div(sx, 2) == sx / 2);
    assert(crate::vectors::component::trunc_div(sy, 2) == sy / 2);
    assert(0 <= sx / 2 < sx);
    assert(0 <= sy / 2 < sy);
}

/// The merge of two rectangles is the smallest rectangle that encloses both: any rectangle that
/// encloses both encloses the merge.
pub proof fn lemma_merge_is_smallest(a: Rect2i, b: Rect2i, c: Rect2i)
    requires
        !a.spec_is_negative(),
        !b.spec_is_negative(),
        a.merge_fits(b),
        c.end_fits(),
        c.spec_encloses(a),
        c.spec_encloses(b),
    ensures
        c.spec_encloses(a.spec_merge(b)),
{
}

/// Expanding a rectangle to a point gives the smallest rectangle that encloses it and has the
/// point on or within its borders.
pub proof fn lemma_expand_is_smallest(r: Rect2i, to: Vector2i, c: Rect2i)
    requires
        !r.spec_is_negative(),
        r.expand_fits(to),
        c.end_fits(),
        c.spec_encloses(r),
        c.position.x <= to.x <= c.end_x(),
        c.position.y <= to.y <= c.end_y(),
    ensures
        c.spec_encloses(r.spec_expand(to)),
{
}

/// The center lies half the size from the position, rounded toward the position: twice its
/// offset falls short of the size by at most one, on the side of zero.
pub proof fn lemma_center_halves_size(r: Rect2i)
    requires
        r.center_fits(),
    ensures
        r.size.x >= 0 ==> 0 <= r.size.x - 2 * (r.spec_center().x - r.position.x) <= 1,
        r.size.x < 0 ==> -1 <= r.size.x - 2 * (r.spec_center().x - r.position.x) <= 0,
        r.size.y >= 0 ==> 0 <= r.size.y - 2 * (r.spec_center().y - r.position.y) <= 1,
        r.size.y < 0 ==> -1 <= r.size.y - 2 * (r.spec_center().y - r.position.y) <= 0,
{
    let sx = r.size.x as int;
    let sy = r.size.y as int;
    assert(0 <= abs_int(sx) - 2 * (abs_int(sx) / 2) <= 1);
    assert(0 <= abs_int(sy) - 2 * (abs_int(sy) / 2) <= 1);
}

/// The area is positive exactly for a rectangle with area, and zero for one with a nonnegative
/// size that has none.
pub proof fn lemma_area_sign(r: Rect2i)
    ensures
        r.spec_has_area() ==> r.spec_area() > 0,
        !r.spec_is_negative() && !r.spec_has_area() ==> r.spec_area() == 0,
{
    let sx = r.size.x as int;
    let sy = r.size.y as int;
    assert(sx > 0 && sy > 0 ==> sx * sy > 0) by (nonlinear_arith);
    assert(sx == 0 || sy == 0 ==> sx * sy == 0) by (nonlinear_arith);
}

/// Growing one side moves only that side's border: the left and top sides move the position
/// (keeping the end), the right and bottom sides move the end (keeping the position), and the
/// other axis is untouched.
pub proof fn lemma_grow_side_moves_one_border(r: Rect2i, side: RectSide, amount: int)
    requires
        ({
            let (l, t, rt, b) = Rect2i::side_amounts(side, amount);
            r.grow_fits(l, t, rt, b)
        }),
    ensures
        ({
            let (l, t, rt, b) = Rect2i::side_amounts(side, amount);
            let g = r.spec_grow_individual(l, t, rt, b);
            match side {
                RectSide::Left => g.position.x == r.position.x - amount && g.end_x() == r.end_x()
                    && g.position.y == r.position.y && g.size.y == r.size.y,
                RectSide::Top => g.position.y == r.position.y - amount && g.end_y() == r.end_y()
                    && g.position.x == r.position.x && g.size.x == r.size.x,
                RectSide::Right => g.position == r.position && g.end_x() == r.end_x() + amount
                    && g.size.y == r.size.y,
                RectSide::Bottom => g.position == r.position && g.end_y() == r.end_y() + amount
                    && g.size.x == r.size.x,
            }
        }),
{
}

} // verus!
