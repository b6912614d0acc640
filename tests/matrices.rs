use linalg::{Matrix2, Matrix3, Vector2, Vector3};

#[test]
fn test_matrix2() {
    let mat2 = Matrix2::new_from(2, 1, 1, 2);
    assert_eq!(mat2.determinant(), 3);
    let vec2 = Vector2::new_from(2, 2);
    assert_eq!(mat2.transform_vector2(vec2), Vector2::new_from(6, 6));
}

#[test]
fn test_matrix3() {
    let mat3 = Matrix3::new_from(2, 1, 1, 1, 2, 1, 1, 1, 2);
    assert_eq!(mat3.determinant(), 4);
    let vec3 = Vector3::new_from(2, 2, 2);
    assert_eq!(mat3.transform_vector3(vec3), Vector3::new_from(8, 8, 8));
    assert_eq!(mat3.get_col(0), Vector3::new_from(2, 1, 1));
    assert_eq!(mat3.get_row(0), Vector3::new_from(2, 1, 1));
}

#[test]
fn test_composition_of_matrix3() {
    let mat_a = Matrix3::new_from(1, 2, 3, 4, 5, 6, 7, 8, 9);
    let mat_b = Matrix3::new_from(9, 8, 7, 6, 5, 4, 3, 2, 1);

    let res = Matrix3::new_from(30, 24, 18, 84, 69, 54, 138, 114, 90);

    assert_eq!(mat_a.transform_matrix(mat_b), res);
    assert_eq!(Matrix3::identity().transform_matrix(mat_a), mat_a);
}

#[test]
fn matrix2_rows_columns_and_transpose() {
    let m = Matrix2::new_from(1, 2, 3, 4);
    assert_eq!(m.get_row(0), Vector2::new_from(1, 2));
    assert_eq!(m.get_row(1), Vector2::new_from(3, 4));
    assert_eq!(m.get_col(0), Vector2::new_from(1, 3));
    assert_eq!(m.get_col(1), Vector2::new_from(2, 4));
    assert_eq!(m.transpose(), Matrix2::new_from(1, 3, 2, 4));
    assert_eq!(m.transpose().transpose(), m);
    assert_eq!(Matrix2::identity().transpose(), Matrix2::identity());
    assert_eq!(m.determinant(), -2);
}

#[test]
fn matrix2_from_columns() {
    let m = Matrix2::new_from_columns([Vector2::new_from(1, 3), Vector2::new_from(2, 4)]);
    assert_eq!(m, Matrix2::new_from(1, 2, 3, 4));
    assert_eq!(Matrix2::new(), Matrix2::new_from(0, 0, 0, 0));
}

#[test]
fn matrix2_composition() {
    let a = Matrix2::new_from(1, 2, 3, 4);
    let b = Matrix2::new_from(5, 6, 7, 8);
    assert_eq!(a.transform_matrix(b), Matrix2::new_from(19, 22, 43, 50));
    assert_eq!(b.transform_matrix(a), Matrix2::new_from(23, 34, 31, 46));
    assert_eq!(Matrix2::identity().transform_matrix(a), a);
    let v = Vector2::new_from(-3, 5);
    assert_eq!(a.transform_matrix(b).transform_vector2(v), a.transform_vector2(b.transform_vector2(v)));
    assert_eq!(Matrix2::identity().transform_vector2(v), v);
}

#[test]
fn matrix3_rows_columns_and_transpose() {
    let m = Matrix3::new_from(1, 2, 3, 4, 5, 6, 7, 8, 9);
    assert_eq!(m.get_row(2), Vector3::new_from(7, 8, 9));
    assert_eq!(m.get_col(2), Vector3::new_from(3, 6, 9));
    assert_eq!(m.transpose(), Matrix3::new_from(1, 4, 7, 2, 5, 8, 3, 6, 9));
    assert_eq!(m.transpose().transpose(), m);
    assert_eq!(Matrix3::identity().transpose(), Matrix3::identity());
    assert_eq!(m.determinant(), 0);
    let cols = [m.get_col(0), m.get_col(1), m.get_col(2)];
    assert_eq!(Matrix3::new_from_columns(cols), m);
    assert_eq!(Matrix3::new(), Matrix3::new_from(0, 0, 0, 0, 0, 0, 0, 0, 0));
}

#[test]
fn matrix3_determinant_sign_pattern() {
    let m = Matrix3::new_from(3, 0, 2, 2, 0, -2, 0, 1, 1);
    assert_eq!(m.determinant(), 10);
    assert_eq!(Matrix3::identity().determinant(), 1);
    let big = 1i64 << 40;
    let wide = Matrix3::new_from(big, big, 0, 1, 1, 0, 0, 0, big);
    assert_eq!(wide.determinant(), 0);
}

#[test]
fn matrix3_composition_applies_right_then_left() {
    let a = Matrix3::new_from(1, 2, 3, 4, 5, 6, 7, 8, 9);
    let b = Matrix3::new_from(9, 8, 7, 6, 5, 4, 3, 2, 1);
    let v = Vector3::new_from(1, -1, 2);
    assert_eq!(a.transform_matrix(b).transform_vector3(v), Vector3::new_from(42, 123, 204));
    assert_eq!(a.transform_matrix(b).transform_vector3(v), a.transform_vector3(b.transform_vector3(v)));
    assert_eq!(b.transform_matrix(a), Matrix3::new_from(90, 114, 138, 54, 69, 84, 18, 24, 30));
}

#[test]
fn matrix3_homogeneous_transform_of_vector2() {
    let translate = Matrix3::new_from(1, 0, 5, 0, 1, -3, 0, 0, 1);
    let p = Vector2::new_from(2, 7);
    assert_eq!(translate.transform_vector2(p), Vector2::new_from(7, 4));
    let rotate = Matrix3::new_from(0, -1, 0, 1, 0, 0, 0, 0, 1);
    assert_eq!(rotate.transform_vector2(p), Vector2::new_from(-7, 2));
    let both = translate.transform_matrix(rotate);
    let lifted = both.transform_vector3(Vector3::new_from(p.x, p.y, 1));
    assert_eq!(both.transform_vector2(p), Vector2::new_from(lifted.x, lifted.y));
    let projective = Matrix3::new_from(1, 0, 0, 0, 1, 0, 2, 0, 5);
    assert_eq!(projective.transform_vector2(p), p);
    assert_eq!(projective.transform_vector3(Vector3::new_from(2, 7, 1)), Vector3::new_from(2, 7, 9));
}
