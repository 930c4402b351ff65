use godot_core::rect2i::{Rect2i, RectSide};
use godot_core::vectors::Vector2i;

#[test]
fn end() {
    let rect = Rect2i::from_components(1, 2, 3, 4);
    assert_eq!(rect.end(), Vector2i::new(4, 6));

    let rect = Rect2i::from_components(1, 2, 0, 0);
    assert_eq!(rect.end(), rect.position);
}

#[test]
fn set_end() {
    let mut old = Rect2i::from_components(1, 2, 3, 4);
    let new = Rect2i::from_components(1, 2, 4, 4);

    old.set_end(Vector2i::new(5, 6));
    assert_eq!(old, new);

    old.set_end(old.position);
    assert_eq!(old.end(), old.position);
}

#[test]
fn abs() {
    let rect = Rect2i::from_components(1, 2, -3, -4);
    let abs = rect.abs();
    assert_eq!(abs.position.x, -2);
    assert_eq!(abs.position.y, -2);
    assert_eq!(abs.size.x, 3);
    assert_eq!(abs.size.y, 4);

    let new_abs = abs.abs();
    assert_eq!(abs, new_abs);
}

#[test]
fn encloses() {
    let a = Rect2i::from_components(0, 0, 10, 10);
    let b = Rect2i::from_components(4, 4, 1, 1);
    let c = Rect2i::from_components(8, 8, 2, 2);
    let d = Rect2i::from_components(8, 8, 2, 3);

    assert!(a.encloses(a));
    assert!(a.encloses(b));
    assert!(a.encloses(c));
    assert!(!a.encloses(d));

    assert!(!b.encloses(a));
    assert!(b.encloses(b));
    assert!(!b.encloses(c));
    assert!(!b.encloses(d));

    assert!(!c.encloses(a));
    assert!(!c.encloses(b));
    assert!(c.encloses(c));
    assert!(!c.encloses(d));

    assert!(!d.encloses(a));
    assert!(!d.encloses(b));
    assert!(d.encloses(c));
    assert!(d.encloses(d));
}

#[test]
fn expand_and_contains_point() {
    let rect = Rect2i::from_components(0, 0, 0, 0);
    let a = Vector2i::new(0, 0);
    let b = Vector2i::new(5, 0);
    let c = Vector2i::new(0, 5);
    let d = Vector2i::new(4, 4);

    assert!(!rect.contains_point(a));
    assert!(!rect.contains_point(b));
    assert!(!rect.contains_point(c));
    assert!(!rect.contains_point(d));

    let rect = rect.expand(a);

    // Expanding to a point does not necessarily include containing that point.
    assert!(!rect.contains_point(a));
    assert!(!rect.contains_point(b));
    assert!(!rect.contains_point(c));
    assert!(!rect.contains_point(d));

    let rect = rect.expand(b);
    assert!(!rect.contains_point(a));
    assert!(!rect.contains_point(b));
    assert!(!rect.contains_point(c));
    assert!(!rect.contains_point(d));

    let rect = rect.expand(c);
    assert!(rect.contains_point(a));
    assert!(!rect.contains_point(b));
    assert!(!rect.contains_point(c));
    assert!(rect.contains_point(d));

    let new_rect = rect.expand(d);
    assert_eq!(rect, new_rect);
}

#[test]
fn area_and_has_area() {
    let a = Rect2i::from_components(0, 0, 10, 10);
    let b = Rect2i::from_components(4, 4, 1, 1);
    let c = Rect2i::from_components(8, 8, 2, 0);
    let d = Rect2i::from_components(8, 8, 0, 3);

    assert!(a.has_area());
    assert_eq!(a.area(), 100);
    assert!(b.has_area());
    assert_eq!(b.area(), 1);
    assert!(!c.has_area());
    assert_eq!(c.area(), 0);
    assert!(!d.has_area());
    assert_eq!(d.area(), 0);
}

#[test]
fn center() {
    let a = Rect2i::from_components(0, 0, 10, 10);
    let b = Rect2i::from_components(4, 4, 1, 1);
    let c = Rect2i::from_components(8, 8, 2, 0);
    let d = Rect2i::from_components(8, 8, 0, 3);

    assert_eq!(a.center(), Vector2i::new(5, 5));
    assert_eq!(b.center(), Vector2i::new(4, 4));
    assert_eq!(c.center(), Vector2i::new(9, 8));
    assert_eq!(d.center(), Vector2i::new(8, 9));
}

#[test]
fn grow() {
    let a = Rect2i::from_components(3, 3, 4, 4);
    let b = Rect2i::from_components(0, 0, 10, 10);
    let c = Rect2i::from_components(-3, -3, 16, 16);

    assert_eq!(a.grow(3), b);
    assert_eq!(b.grow(3), c);
    assert_eq!(a.grow(6), c);

    assert_eq!(a.grow(0), a);
    assert_eq!(b.grow(0), b);
    assert_eq!(c.grow(0), c);

    assert_eq!(c.grow(-3), b);
    assert_eq!(b.grow(-3), a);
    assert_eq!(c.grow(-6), a);
}

#[test]
fn grow_individual_and_side() {
    let begin = Rect2i::from_components(3, 3, 4, 4);
    let end = Rect2i::from_components(0, 0, 10, 10);

    assert_ne!(begin, end);
    assert!(end.encloses(begin));

    let now = begin.grow_individual(3, 0, 0, 0);
    let now_side = begin.grow_side(RectSide::Left, 3);
    assert_ne!(now, end);
    assert_eq!(now, now_side);
    assert!(end.encloses(now));

    let now = now.grow_individual(0, 3, 0, 0);
    let now_side = now_side.grow_side(RectSide::Top, 3);
    assert_ne!(now, end);
    assert_eq!(now, now_side);
    assert!(end.encloses(now));

    let now = now.grow_individual(0, 0, 3, 0);
    let now_side = now_side.grow_side(RectSide::Right, 3);
    assert_ne!(now, end);
    assert_eq!(now, now_side);
    assert!(end.encloses(now));

    let now = now.grow_individual(0, 0, 0, 3);
    let now_side = now_side.grow_side(RectSide::Bottom, 3);
    assert_eq!(now, end);
    assert_eq!(now, now_side);
}

#[test]
fn intersects_and_intersection() {
    let a = Rect2i::from_components(0, 0, 10, 10);
    let b = Rect2i::from_components(4, 4, 1, 1);
    let c = Rect2i::from_components(8, 8, 2, 2);
    let d = Rect2i::from_components(8, 8, 2, 3);

    assert!(a.intersects(b));
    assert_eq!(a.intersection(b), Some(b));
    assert!(a.intersects(c));
    assert_eq!(a.intersection(c), Some(c));
    assert!(a.intersects(d));
    assert_eq!(a.intersection(d), Some(c));

    assert!(!b.intersects(c));
    assert_eq!(b.intersection(c), None);
    assert!(!b.intersects(d));
    assert_eq!(b.intersection(d), None);

    assert!(c.intersects(d));
    assert_eq!(c.intersection(d), Some(c));
}

#[test]
fn merge() {
    let a = Rect2i::from_components(0, 0, 10, 10);
    let b = Rect2i::from_components(4, 4, 1, 1);
    let c = Rect2i::from_components(8, 8, 2, 2);
    let d = Rect2i::from_components(8, 8, 2, 3);

    assert_eq!(a.merge(b), a);
    assert_eq!(a.merge(c), a);
    assert_eq!(a.merge(d), Rect2i::from_components(0, 0, 10, 11));

    assert_eq!(b.merge(c), Rect2i::from_components(4, 4, 6, 6));
    assert_eq!(b.merge(d), Rect2i::from_components(4, 4, 6, 7));

    assert_eq!(c.merge(d), d);
}

// ---------------------------------------------------------------------------------------------
// Further cases: constructors, negative sizes and the laws on concrete values.

#[test]
fn constructors_agree() {
    let zero = Rect2i::default();
    let new = Rect2i::new(Vector2i::new(0, 100), Vector2i::new(1280, 720));
    let from_components = Rect2i::from_components(0, 100, 1280, 720);
    let from_corners = Rect2i::from_corners(Vector2i::new(0, 100), Vector2i::new(1280, 820));

    assert_eq!(zero.position, Vector2i::new(0, 0));
    assert_eq!(zero.size, Vector2i::new(0, 0));
    assert_eq!(new, from_components);
    assert_eq!(new, from_corners);
}

#[test]
fn is_negative_sizes() {
    assert!(Rect2i::from_components(0, 0, -1, 1).is_negative());
    assert!(Rect2i::from_components(0, 0, 1, -1).is_negative());
    assert!(!Rect2i::from_components(0, 0, 0, 0).is_negative());
    assert!(!Rect2i::from_components(-5, -5, 2, 3).is_negative());
}

#[test]
fn abs_of_nonnegative_is_identity() {
    let r = Rect2i::from_components(-4, 7, 3, 2);
    assert_eq!(r.abs(), r);
    let flipped = Rect2i::from_components(5, 5, -2, 3);
    assert_eq!(flipped.abs(), Rect2i::from_components(3, 5, 2, 3));
}

#[test]
fn intersection_is_symmetric_and_common() {
    let a = Rect2i::from_components(0, 0, 6, 4);
    let b = Rect2i::from_components(3, 2, 5, 5);
    let i = a.intersection(b).unwrap();
    assert_eq!(Some(i), b.intersection(a));
    assert_eq!(i, Rect2i::from_components(3, 2, 3, 2));
    assert!(a.encloses(i) && b.encloses(i));
    assert!(i.contains_point(Vector2i::new(3, 2)));
    assert!(!i.contains_point(Vector2i::new(6, 2)));
}

#[test]
fn borders_only_do_not_intersect() {
    let a = Rect2i::from_components(0, 0, 5, 5);
    let b = Rect2i::from_components(5, 0, 5, 5);
    assert!(!a.intersects(b));
    assert_eq!(a.intersection(b), None);
}

#[test]
fn empty_rect_inside_other_intersects() {
    // An empty rectangle strictly inside another one intersects it, although the two have no
    // point in common.
    let a = Rect2i::from_components(5, 5, 0, 0);
    let b = Rect2i::from_components(0, 0, 10, 10);
    assert!(a.intersects(b));
    assert_eq!(a.intersection(b), Some(Rect2i::from_components(5, 5, 0, 0)));
}

#[test]
fn merge_is_symmetric() {
    let a = Rect2i::from_components(-3, 2, 4, 1);
    let b = Rect2i::from_components(1, -6, 2, 2);
    assert_eq!(a.merge(b), b.merge(a));
    assert_eq!(a.merge(b), Rect2i::from_components(-3, -6, 6, 9));
    assert!(a.merge(b).encloses(a) && a.merge(b).encloses(b));
}

#[test]
fn grow_then_shrink_and_sum() {
    let r = Rect2i::from_components(2, 3, 5, 7);
    assert_eq!(r.grow_individual(1, 2, 3, 4).grow_individual(-1, -2, -3, -4), r);
    assert_eq!(r.grow(2).grow(3), r.grow(5));
}

#[test]
fn center_rounds_towards_position() {
    let r = Rect2i::from_components(0, 0, -3, 3);
    assert_eq!(r.center(), Vector2i::new(-1, 1));
}

#[test]
fn from_corners_then_end() {
    let p = Vector2i::new(-7, 3);
    let e = Vector2i::new(2, -1);
    assert_eq!(Rect2i::from_corners(p, e).end(), e);
}

#[test]
fn rect2i_display() {
    let rect = Rect2i::new(Vector2i::new(0, 0), Vector2i::new(1, 1));
    assert_eq!(rect.to_string(), "[P: (0, 0), S: (1, 1)]");
    let rect = Rect2i::from_components(-12, 340, i32::MAX, i32::MIN);
    assert_eq!(rect.to_string(), "[P: (-12, 340), S: (2147483647, -2147483648)]");
}
