use godot_core::vectors::{
    SwizzleToVector, Vector2Axis, Vector2i, Vector3Axis, Vector3i, Vector4Axis, Vector4i,
};

#[test]
fn vector2i_coord_min_max() {
    let a = Vector2i::new(1, 3);
    let b = Vector2i::new(0, 5);
    assert_eq!(a.coord_min(b), Vector2i::new(0, 3));
    assert_eq!(a.coord_max(b), Vector2i::new(1, 5));
}

#[test]
fn vector2i_sign() {
    let vector = Vector2i::new(2, -5);
    assert_eq!(vector.sign(), Vector2i::new(1, -1));
    let vector = Vector2i::new(1, 0);
    assert_eq!(vector.sign(), Vector2i::new(1, 0));
}

#[test]
fn vector2i_axis_min_max() {
    assert_eq!(Vector2i::new(10, 5).max_axis(), Some(Vector2Axis::X));
    assert_eq!(Vector2i::new(5, 10).max_axis(), Some(Vector2Axis::Y));

    assert_eq!(Vector2i::new(-5, 5).min_axis(), Some(Vector2Axis::X));
    assert_eq!(Vector2i::new(5, -5).min_axis(), Some(Vector2Axis::Y));

    assert_eq!(Vector2i::new(15, 15).max_axis(), None);
    assert_eq!(Vector2i::new(15, 15).min_axis(), None);
}

#[test]
fn mini_maxi_clampi() {
    let v = Vector2i::new(10, -5);

    assert_eq!(v.mini(3), Vector2i::new(3, -5));
    assert_eq!(v.maxi(-2), Vector2i::new(10, -2));
    assert_eq!(v.clampi(-3, 7), Vector2i::new(7, -3));
}

#[test]
fn snappedi() {
    let v = Vector2i::new(13, -8);

    assert_eq!(v.snappedi(5), Vector2i::new(15, -10));
}

#[test]
fn vector3i_coord_min_max() {
    let a = Vector3i::new(1, 3, 5);
    let b = Vector3i::new(0, 5, 2);
    assert_eq!(a.coord_min(b), Vector3i::new(0, 3, 2));
    assert_eq!(a.coord_max(b), Vector3i::new(1, 5, 5));
}

#[test]
fn vector3i_axis_min_max() {
    assert_eq!(Vector3i::new(10, 5, -5).max_axis(), Some(Vector3Axis::X));
    assert_eq!(Vector3i::new(5, 10, -5).max_axis(), Some(Vector3Axis::Y));
    assert_eq!(Vector3i::new(5, -5, 10).max_axis(), Some(Vector3Axis::Z));

    assert_eq!(Vector3i::new(-5, 5, 10).min_axis(), Some(Vector3Axis::X));
    assert_eq!(Vector3i::new(5, -5, 10).min_axis(), Some(Vector3Axis::Y));
    assert_eq!(Vector3i::new(5, 10, -5).min_axis(), Some(Vector3Axis::Z));

    assert_eq!(Vector3i::new(15, 15, 5).max_axis(), None);
    assert_eq!(Vector3i::new(15, 15, 15).max_axis(), None);
    assert_eq!(Vector3i::new(15, 15, 25).min_axis(), None);
    assert_eq!(Vector3i::new(15, 15, 15).min_axis(), None);

    // Checks for non-max / non-min equality "traps"
    assert_eq!(Vector3i::new(15, 15, 25).max_axis(), Some(Vector3Axis::Z));
    assert_eq!(Vector3i::new(15, 5, 15).min_axis(), Some(Vector3Axis::Y));
}

#[test]
fn vector4i_coord_min_max() {
    let a = Vector4i::new(1, 3, 5, 0);
    let b = Vector4i::new(0, 5, 2, 1);
    assert_eq!(a.coord_min(b), Vector4i::new(0, 3, 2, 0),);
    assert_eq!(a.coord_max(b), Vector4i::new(1, 5, 5, 1));
}

#[test]
fn vector4i_sign() {
    let vector = Vector4i::new(2, -5, 0, 999);
    assert_eq!(vector.sign(), Vector4i::new(1, -1, 0, 1));
}

#[test]
fn vector4i_axis_min_max() {
    assert_eq!(Vector4i::new(10, 5, -5, 0).max_axis(), Some(Vector4Axis::X));
    assert_eq!(Vector4i::new(5, 10, -5, 0).max_axis(), Some(Vector4Axis::Y));
    assert_eq!(Vector4i::new(5, -5, 10, 0).max_axis(), Some(Vector4Axis::Z));
    assert_eq!(Vector4i::new(5, -5, 0, 10).max_axis(), Some(Vector4Axis::W));

    assert_eq!(Vector4i::new(-5, 5, 10, 0).min_axis(), Some(Vector4Axis::X));
    assert_eq!(Vector4i::new(5, -5, 10, 0).min_axis(), Some(Vector4Axis::Y));
    assert_eq!(Vector4i::new(5, 10, -5, 0).min_axis(), Some(Vector4Axis::Z));
    assert_eq!(Vector4i::new(5, 10, 0, -5).min_axis(), Some(Vector4Axis::W));

    assert_eq!(Vector4i::new(15, 15, 5, -5).max_axis(), None);
    assert_eq!(Vector4i::new(15, 15, 15, 5).max_axis(), None);
    assert_eq!(Vector4i::new(15, 15, 15, 15).max_axis(), None);

    assert_eq!(Vector4i::new(15, 15, 25, 35).min_axis(), None);
    assert_eq!(Vector4i::new(15, 15, 15, 25).min_axis(), None);
    assert_eq!(Vector4i::new(15, 15, 15, 15).min_axis(), None);

    // Checks for non-max / non-min equality "traps"
    assert_eq!(Vector4i::new(5, 5, 25, 15).max_axis(), Some(Vector4Axis::Z));
    assert_eq!(
        Vector4i::new(15, 15, 5, -5).min_axis(),
        Some(Vector4Axis::W),
    );
}

#[test]
fn test_iter_elementwise_prod() {
    let vecs = vec![Vector4i::new(1, 2, 3, 4), Vector4i::new(5, 6, 7, 8)];
    let expected = Vector4i::new(5, 12, 21, 32);
    let prod_refs: Vector4i = Vector4i::product(vecs.as_slice());
    let prod: Vector4i = Vector4i::product(&vecs);

    assert_eq!(prod_refs, expected);
    assert_eq!(prod, expected);
}

// ---------------------------------------------------------------------------------------------
// Further cases of the vector functions.

#[test]
fn tuples_and_arrays_roundtrip() {
    let v = Vector3i::new(4, -2, 9);
    assert_eq!(Vector3i::from_tuple(v.to_tuple()), v);
    assert_eq!(Vector3i::from_array(v.to_array()), v);
    assert_eq!(Vector4i::from_array([1, 2, 3, 4]).to_tuple(), (1, 2, 3, 4));
    assert_eq!(Vector2i::splat(-3), Vector2i::new(-3, -3));
}

#[test]
fn abs_clamp_length() {
    assert_eq!(Vector2i::new(-3, 4).abs(), Vector2i::new(3, 4));
    assert_eq!(Vector2i::new(-3, 4).length_squared(), 25);
    assert_eq!(
        Vector3i::new(-10, 5, 20).clamp(Vector3i::new(-2, -2, -2), Vector3i::new(3, 30, 3)),
        Vector3i::new(-2, 5, 3)
    );
    assert_eq!(Vector2i::new(1, 2).distance_squared_to(Vector2i::new(4, 6)), 25);
}

#[test]
fn snapped_components() {
    let v = Vector3i::new(7, -7, 5);
    assert_eq!(v.snapped(Vector3i::new(2, 2, 0)), Vector3i::new(8, -6, 5));
    assert_eq!(v.snapped(Vector3i::new(-4, -4, 10)), Vector3i::new(8, -8, 10));
    // Snapping twice is snapping once.
    let once = v.snappedi(3);
    assert_eq!(once.snappedi(3), once);
}

#[test]
fn operators() {
    let a = Vector2i::new(7, -9);
    let b = Vector2i::new(2, 4);
    assert_eq!(a + b, Vector2i::new(9, -5));
    assert_eq!(a - b, Vector2i::new(5, -13));
    assert_eq!(a * b, Vector2i::new(14, -36));
    assert_eq!(a * 3, Vector2i::new(21, -27));
    assert_eq!(3 * a, Vector2i::new(21, -27));
    assert_eq!(a / b, Vector2i::new(3, -2));
    assert_eq!(a / -2, Vector2i::new(-3, 4));
    assert_eq!(-a, Vector2i::new(-7, 9));
    assert_eq!(a[Vector2Axis::Y], -9);
}

#[test]
fn sum_of_vectors() {
    let vecs = [Vector3i::new(1, 2, 3), Vector3i::new(-4, 5, 6), Vector3i::new(7, 8, -9)];
    assert_eq!(Vector3i::sum(&vecs), Vector3i::new(4, 15, 0));
    assert_eq!(Vector2i::sum(&[]), Vector2i::new(0, 0));
    assert_eq!(Vector2i::product(&[]), Vector2i::new(1, 1));
}

#[test]
fn swizzle_to_vector() {
    let v = Vector3i::new(1, 2, 3);
    assert_eq!((v.y, v.x).swizzle_to_vector(), Vector2i::new(2, 1));
    assert_eq!((v.z, v.x, v.y).swizzle_to_vector(), Vector3i::new(3, 1, 2));
    assert_eq!((v.x, v.y, v.y, v.z).swizzle_to_vector(), Vector4i::new(1, 2, 2, 3));
}

#[test]
fn axis_ordinals_and_names() {
    assert_eq!(Vector3Axis::Z.ord(), 2);
    assert_eq!(Vector4Axis::try_from_ord(3), Some(Vector4Axis::W));
    assert_eq!(Vector2Axis::try_from_ord(2), None);
    assert_eq!(Vector2Axis::try_from_ord(-1), None);
    assert_eq!(Vector3Axis::Y.as_str(), "Y");
    assert_eq!(Vector4Axis::W.godot_name(), "AXIS_W");
    for axis in [Vector4Axis::X, Vector4Axis::Y, Vector4Axis::Z, Vector4Axis::W] {
        assert_eq!(Vector4Axis::try_from_ord(axis.ord()), Some(axis));
    }
}

#[test]
fn vector_display() {
    assert_eq!(Vector2i::new(3, -4).to_string(), "(3, -4)");
    assert_eq!(Vector3i::new(0, 10, -105).to_string(), "(0, 10, -105)");
    assert_eq!(Vector4i::new(1, 2, 3, i32::MIN).to_string(), "(1, 2, 3, -2147483648)");
}

#[test]
fn index_mut_sets_one_component() {
    let mut v = Vector3i::new(1, 2, 3);
    v[Vector3Axis::Y] = 20;
    assert_eq!(v, Vector3i::new(1, 20, 3));
    v[Vector3Axis::Z] += 1;
    assert_eq!(v[Vector3Axis::Z], 4);
    let mut w = Vector4i::splat(0);
    w[Vector4Axis::W] = -1;
    assert_eq!(w, Vector4i::new(0, 0, 0, -1));
}

#[test]
fn compound_assignment() {
    let mut a = Vector2i::new(3, -4);
    a.add_assign(Vector2i::new(1, 2));
    assert_eq!(a, Vector2i::new(4, -2));
    a.sub_assign(Vector2i::new(5, 5));
    assert_eq!(a, Vector2i::new(-1, -7));
    a.mul_assign(Vector2i::new(3, 2));
    assert_eq!(a, Vector2i::new(-3, -14));
    a.mul_assign_scalar(-2);
    assert_eq!(a, Vector2i::new(6, 28));
    a.div_assign(Vector2i::new(4, -5));
    assert_eq!(a, Vector2i::new(1, -5));
    a.div_assign_scalar(2);
    assert_eq!(a, Vector2i::new(0, -2));

    let mut b = Vector3i::new(7, -7, 9);
    b.div_assign_scalar(2);
    assert_eq!(b, Vector3i::new(3, -3, 4));
    b.add_assign(Vector3i::splat(1));
    assert_eq!(b, Vector3i::new(4, -2, 5));

    let mut c = Vector4i::new(1, 2, 3, 4);
    c.mul_assign_scalar(3);
    assert_eq!(c, Vector4i::new(3, 6, 9, 12));
    c.sub_assign(Vector4i::splat(3));
    assert_eq!(c, Vector4i::new(0, 3, 6, 9));
    c.div_assign(Vector4i::new(1, -3, 4, 2));
    assert_eq!(c, Vector4i::new(0, -1, 1, 4));
}
