use linalg::{Vector2, Vector3};

#[test]
fn test_vector3() {
    let vec1 = Vector3::new_from(3, -3, 1);
    let vec2 = Vector3::new_from(4, 9, 2);
    let cross = Vector3::new_from(-15, -2, 39);

    assert_eq!(vec1.cross(vec2), cross);
    assert_eq!(vec1.cross(vec2), vec2.cross(vec1).mul(-1));
    assert_eq!(vec1.cross(vec1), Vector3::new());
}

#[test]
fn vector2_construction_and_array_round_trip() {
    assert_eq!(Vector2::new(), Vector2 { x: 0, y: 0 });
    let v = Vector2::new_from(7, -4);
    assert_eq!(v.get_data(), [7, -4]);
    assert_eq!(Vector2::new_from_array([7, -4]), v);
}

#[test]
fn vector3_construction_and_array_round_trip() {
    assert_eq!(Vector3::new(), Vector3 { x: 0, y: 0, z: 0 });
    let v = Vector3::new_from(1, -2, 3);
    assert_eq!(v.get_data(), [1, -2, 3]);
    assert_eq!(Vector3::new_from_array([1, -2, 3]), v);
}

#[test]
fn vector2_arithmetic() {
    let a = Vector2::new_from(3, 4);
    let b = Vector2::new_from(-1, 2);
    assert_eq!(a.add(b), Vector2::new_from(2, 6));
    assert_eq!(a.add(Vector2::new()), a);
    assert_eq!(a.mul(3), Vector2::new_from(9, 12));
    assert_eq!(a.mul(1), a);
    assert_eq!(a.mul(0), Vector2::new());
    assert_eq!(a.add(a.mul(-1)), Vector2::new());
    assert_eq!(a.magnitude_squared(), 25);
    assert_eq!(a.dot(b), 5);
    assert_eq!(a.cross(b), 10);
}

#[test]
fn vector2_cross_is_anticommutative() {
    let a = Vector2::new_from(5, -7);
    let b = Vector2::new_from(2, 11);
    assert_eq!(a.cross(b), 69);
    assert_eq!(a.cross(b), -b.cross(a));
    assert_eq!(a.cross(a), 0);
}

#[test]
fn dot_is_commutative() {
    let a = Vector2::new_from(5, -7);
    let b = Vector2::new_from(2, 11);
    assert_eq!(a.dot(b), -67);
    assert_eq!(a.dot(b), b.dot(a));
    let c = Vector3::new_from(1, 2, 3);
    let d = Vector3::new_from(-4, 5, 6);
    assert_eq!(c.dot(d), 24);
    assert_eq!(c.dot(d), d.dot(c));
    assert_eq!(c.dot(c), c.magnitude_squared());
}

#[test]
fn vector3_arithmetic() {
    let a = Vector3::new_from(1, 2, 3);
    let b = Vector3::new_from(10, 20, 30);
    assert_eq!(a.add(b), Vector3::new_from(11, 22, 33));
    assert_eq!(a.mul(-2), Vector3::new_from(-2, -4, -6));
    assert_eq!(a.magnitude_squared(), 14);
}

#[test]
fn vector3_cross_of_axes() {
    let x = Vector3::new_from(1, 0, 0);
    let y = Vector3::new_from(0, 1, 0);
    let z = Vector3::new_from(0, 0, 1);
    assert_eq!(x.cross(y), z);
    assert_eq!(y.cross(z), x);
    assert_eq!(z.cross(x), y);
    assert_eq!(y.cross(x), z.mul(-1));
}

#[test]
fn products_whose_terms_exceed_i64() {
    let big = 1i64 << 62;
    let a = Vector2::new_from(big, big);
    let b = Vector2::new_from(2, -2);
    assert_eq!(a.dot(b), 0);
    assert_eq!(a.cross(Vector2::new_from(2, 2)), 0);
    let c = Vector3::new_from(big, big, 1);
    let d = Vector3::new_from(2, -2, 5);
    assert_eq!(c.dot(d), 5);
    assert_eq!(Vector2::new_from(i64::MAX, 0).add(Vector2::new_from(i64::MIN, 1)), Vector2::new_from(-1, 1));
}

#[test]
fn vector3_cross_is_orthogonal_to_operands() {
    let a = Vector3::new_from(3, -3, 1);
    let b = Vector3::new_from(4, 9, 2);
    let c = a.cross(b);
    assert_eq!(c.dot(a), 0);
    assert_eq!(c.dot(b), 0);
    assert_eq!(c.magnitude_squared(), 1750);
}
