//! 3×3 matrices, and their use as homogeneous transforms of the plane.
use vstd::prelude::*;
use vstd::arithmetic::mul::{
    lemma_mul_is_associative, lemma_mul_is_distributive_add,
    lemma_mul_is_distributive_add_other_way,
};

use crate::bounds::{fits, lemma_product_range};
use crate::matrix2::{det2, Mat2, Matrix2};
use crate::vector2::Vector2;
use crate::vector3::{dot3, fits3, Vector3};

verus! {

/// A 3×3 matrix as its three rows, each a triple.
pub type Mat3 = ((int, int, int), (int, int, int), (int, int, int));

/// The identity matrix.
pub open spec fn identity3() -> Mat3 {
    ((1, 0, 0), (0, 1, 0), (0, 0, 1))
}

/// Row `r` of `m`.
pub open spec fn row3(m: Mat3, r: int) -> (int, int, int) {
    if r == 0 {
        m.0
    } else if r == 1 {
        m.1
    } else {
        m.2
    }
}

/// Component `i` of a triple.
pub open spec fn at3(v: (int, int, int), i: int) -> int {
    if i == 0 {
        v.0
    } else if i == 1 {
        v.1
    } else {
        v.2
    }
}

/// Column `c` of `m`.
pub open spec fn col3(m: Mat3, c: int) -> (int, int, int) {
    (at3(m.0, c), at3(m.1, c), at3(m.2, c))
}

/// The matrix whose columns are `c0`, `c1` and `c2`.
pub open spec fn from_cols3(c0: (int, int, int), c1: (int, int, int), c2: (int, int, int)) -> Mat3 {
    ((c0.0, c1.0, c2.0), (c0.1, c1.1, c2.1), (c0.2, c1.2, c2.2))
}

/// The product of `m` with the column vector `v`: component `i` is the dot
/// product of row `i` with `v`.
pub open spec fn apply3(m: Mat3, v: (int, int, int)) -> (int, int, int) {
    (dot3(m.0, v), dot3(m.1, v), dot3(m.2, v))
}

/// The point `v` of the plane carried through `m` in homogeneous coordinates:
/// `v` lifted to `(x, y, 1)`, transformed, and its third component dropped
/// with no division by it.
pub open spec fn apply_homogeneous3(m: Mat3, v: (int, int)) -> (int, int) {
    (apply3(m, (v.0, v.1, 1)).0, apply3(m, (v.0, v.1, 1)).1)
}

/// The product `a * b`: `a` applied to each column of `b`.
pub open spec fn compose3(a: Mat3, b: Mat3) -> Mat3 {
    from_cols3(apply3(a, col3(b, 0)), apply3(a, col3(b, 1)), apply3(a, col3(b, 2)))
}

/// The 2×2 minor of `m` formed from rows 1 and 2 without column `c`.
pub open spec fn minor3(m: Mat3, c: int) -> Mat2 {
    if c == 0 {
        ((m.1.1, m.1.2), (m.2.1, m.2.2))
    } else if c == 1 {
        ((m.1.0, m.1.2), (m.2.0, m.2.2))
    } else {
        ((m.1.0, m.1.1), (m.2.0, m.2.1))
    }
}

/// The determinant by cofactor expansion along row 0, with signs `+, -, +`.
pub open spec fn det3(m: Mat3) -> int {
    m.0.0 * det2(minor3(m, 0)) - m.0.1 * det2(minor3(m, 1)) + m.0.2 * det2(minor3(m, 2))
}

/// The matrix whose columns are the rows of `m`.
pub open spec fn transpose3(m: Mat3) -> Mat3 {
    from_cols3(m.0, m.1, m.2)
}

/// Whether every entry of `m` can be held in an `i64`.
pub open spec fn fits_mat3(m: Mat3) -> bool {
    fits3(m.0) && fits3(m.1) && fits3(m.2)
}

/// A linear transform of space, or a homogeneous transform of the plane,
/// stored row by row.
#[derive(Clone, Copy, PartialEq, Eq, Debug)]
pub struct Matrix3 {
    data: [[i64; 3]; 3],
}

impl View for Matrix3 {
    type V = Mat3;

    closed spec fn view(&self) -> Mat3 {
        (
            (self.data[0][0] as int, self.data[0][1] as int, self.data[0][2] as int),
            (self.data[1][0] as int, self.data[1][1] as int, self.data[1][2] as int),
            (self.data[2][0] as int, self.data[2][1] as int, self.data[2][2] as int),
        )
    }
}

impl Matrix3 {
    /// The identity matrix.
    pub fn identity() -> (r: Matrix3)
        ensures
            r@ == identity3(),
    {
        Matrix3::new_from(1, 0, 0, 0, 1, 0, 0, 0, 1)
    }

    /// The matrix with every entry zero.
    pub fn new() -> (r: Matrix3)
        ensures
            r@ == ((0int, 0int, 0int), (0int, 0int, 0int), (0int, 0int, 0int)),
    {
        Matrix3 { data: [[0, 0, 0], [0, 0, 0], [0, 0, 0]] }
    }

    /// The matrix `[[a, b, c], [d, e, f], [g, h, i]]`, entries given row by row.
    pub fn new_from(a: i64, b: i64, c: i64, d: i64, e: i64, f: i64, g: i64, h: i64, i: i64) -> (r:
        Matrix3)
        ensures
            r@ == (
                (a as int, b as int, c as int),
                (d as int, e as int, f as int),
                (g as int, h as int, i as int),
            ),
    {
        Matrix3 { data: [[a, b, c], [d, e, f], [g, h, i]] }
    }

    /// The matrix whose column `i` is `columns[i]`.
    pub fn new_from_columns(columns: [Vector3; 3]) -> (r: Matrix3)
        ensures
            r@ == from_cols3(columns[0]@, columns[1]@, columns[2]@),
    {
        let c0 = columns[0];
        let c1 = columns[1];
        let c2 = columns[2];
        Matrix3 { data: [[c0.x, c1.x, c2.x], [c0.y, c1.y, c2.y], [c0.z, c1.z, c2.z]] }
    }

    /// Row `row` as a vector.
    pub fn get_row(&self, row: usize) -> (r: Vector3)
        requires
            row < 3,
        ensures
            r@ == row3(self@, row as int),
    {
        Vector3::new_from_array(self.data[row])
    }

    /// Column `col` as a vector.
    pub fn get_col(&self, col: usize) -> (r: Vector3)
        requires
            col < 3,
        ensures
            r@ == col3(self@, col as int),
    {
        Vector3::new_from(self.data[0][col], self.data[1][col], self.data[2][col])
    }

    /// The point `other` of the plane carried through the matrix in
    /// homogeneous coordinates, without perspective division.
    pub fn transform_vector2(&self, other: Vector2) -> (r: Vector2)
        requires
            fits(apply_homogeneous3(self@, other@).0),
            fits(apply_homogeneous3(self@, other@).1),
        ensures
            r@ == apply_homogeneous3(self@, other@),
    {
        let homogeneous = Vector3::new_from(other.x, other.y, 1);
        Vector2::new_from(self.get_row(0).dot(homogeneous), self.get_row(1).dot(homogeneous))
    }

    /// The matrix applied to the column vector `other`.
    pub fn transform_vector3(&self, other: Vector3) -> (r: Vector3)
        requires
            fits3(apply3(self@, other@)),
        ensures
            r@ == apply3(self@, other@),
    {
        Vector3::new_from(
            self.get_row(0).dot(other),
            self.get_row(1).dot(other),
            self.get_row(2).dot(other),
        )
    }

    /// The product `self * other`: `self` applied to each column of `other`.
    pub fn transform_matrix(&self, other: Matrix3) -> (r: Matrix3)
        requires
            fits_mat3(compose3(self@, other@)),
        ensures
            r@ == compose3(self@, other@),
    {
        Matrix3::new_from_columns(
            [
                self.transform_vector3(other.get_col(0)),
                self.transform_vector3(other.get_col(1)),
                self.transform_vector3(other.get_col(2)),
            ],
        )
    }

    /// The determinant, by cofactor expansion along row 0 into the
    /// determinants of three 2×2 minors.
    pub fn determinant(&self) -> (r: i64)
        requires
            fits(det2(minor3(self@, 0))),
            fits(det2(minor3(self@, 1))),
            fits(det2(minor3(self@, 2))),
            fits(det3(self@)),
        ensures
            r == det3(self@),
    {
        let d = self.data;
        let submat_a = Matrix2::new_from(d[1][1], d[1][2], d[2][1], d[2][2]);
        let minor_a = submat_a.determinant();
        let submat_b = Matrix2::new_from(d[1][0], d[1][2], d[2][0], d[2][2]);
        let minor_b = submat_b.determinant();
        let submat_c = Matrix2::new_from(d[1][0], d[1][1], d[2][0], d[2][1]);
        let minor_c = submat_c.determinant();
        proof {
            lemma_product_range(d[0][0], minor_a);
            lemma_product_range(d[0][1], minor_b);
            lemma_product_range(d[0][2], minor_c);
        }
        let det_a: i128 = d[0][0] as i128 * minor_a as i128;
        let det_b: i128 = d[0][1] as i128 * minor_b as i128;
        let det_c: i128 = d[0][2] as i128 * minor_c as i128;
        (det_a - det_b + det_c) as i64
    }

    /// The transpose: column `i` of the result is row `i` of `self`.
    pub fn transpose(&self) -> (r: Matrix3)
        ensures
            r@ == transpose3(self@),
    {
        Matrix3::new_from_columns([self.get_row(0), self.get_row(1), self.get_row(2)])
    }
}

/// Transposing twice gives back the matrix.
pub proof fn lemma_transpose_involution(m: Matrix3)
    ensures
        transpose3(transpose3(m@)) == m@,
{
}

/// The identity leaves every vector as it is.
proof fn lemma_identity_apply(v: (int, int, int))
    ensures
        apply3(identity3(), v) == v,
{
    assert(dot3((1, 0, 0), v) == v.0);
    assert(dot3((0, 1, 0), v) == v.1);
    assert(dot3((0, 0, 1), v) == v.2);
}

/// The identity composed with a matrix gives back the matrix.
pub proof fn lemma_identity_compose(m: Matrix3)
    ensures
        compose3(identity3(), m@) == m@,
{
    let n = m@;
    lemma_identity_apply(col3(n, 0));
    lemma_identity_apply(col3(n, 1));
    lemma_identity_apply(col3(n, 2));
}

/// One row of a composed transform applied to a vector: the row of `a` applied
/// to `b`'s image of `v`.
proof fn lemma_compose_row(
    r0: int,
    r1: int,
    r2: int,
    b00: int,
    b01: int,
    b02: int,
    b10: int,
    b11: int,
    b12: int,
    b20: int,
    b21: int,
    b22: int,
    v0: int,
    v1: int,
    v2: int,
)
    ensures
        (r0 * b00 + r1 * b10 + r2 * b20) * v0 + (r0 * b01 + r1 * b11 + r2 * b21) * v1 + (r0 * b02
            + r1 * b12 + r2 * b22) * v2 == r0 * (b00 * v0 + b01 * v1 + b02 * v2) + r1 * (b10 * v0
            + b11 * v1 + b12 * v2) + r2 * (b20 * v0 + b21 * v1 + b22 * v2),
{
    lemma_mul_is_distributive_add_other_way(v0, r0 * b00 + r1 * b10, r2 * b20);
    lemma_mul_is_distributive_add_other_way(v0, r0 * b00, r1 * b10);
    lemma_mul_is_distributive_add_other_way(v1, r0 * b01 + r1 * b11, r2 * b21);
    lemma_mul_is_distributive_add_other_way(v1, r0 * b01, r1 * b11);
    lemma_mul_is_distributive_add_other_way(v2, r0 * b02 + r1 * b12, r2 * b22);
    lemma_mul_is_distributive_add_other_way(v2, r0 * b02, r1 * b12);
    lemma_mul_is_distributive_add(r0, b00 * v0 + b01 * v1, b02 * v2);
    lemma_mul_is_distributive_add(r0, b00 * v0, b01 * v1);
    lemma_mul_is_distributive_add(r1, b10 * v0 + b11 * v1, b12 * v2);
    lemma_mul_is_distributive_add(r1, b10 * v0, b11 * v1);
    lemma_mul_is_distributive_add(r2, b20 * v0 + b21 * v1, b22 * v2);
    lemma_mul_is_distributive_add(r2, b20 * v0, b21 * v1);
    lemma_mul_is_associative(r0, b00, v0);
    lemma_mul_is_associative(r0, b01, v1);
    lemma_mul_is_associative(r0, b02, v2);
    lemma_mul_is_associative(r1, b10, v0);
    lemma_mul_is_associative(r1, b11, v1);
    lemma_mul_is_associative(r1, b12, v2);
    lemma_mul_is_associative(r2, b20, v0);
    lemma_mul_is_associative(r2, b21, v1);
    lemma_mul_is_associative(r2, b22, v2);
}

/// Applying the product of two models to a model vector is applying the
/// right one, then the left one.
proof fn lemma_compose_apply_model(m: Mat3, n: Mat3, w: (int, int, int))
    ensures
        apply3(compose3(m, n), w) == apply3(m, apply3(n, w)),
{
    let (b0, b1, b2) = (n.0, n.1, n.2);
    lemma_compose_row(
        m.0.0, m.0.1, m.0.2, b0.0, b0.1, b0.2, b1.0, b1.1, b1.2, b2.0, b2.1, b2.2, w.0, w.1, w.2,
    );
    lemma_compose_row(
        m.1.0, m.1.1, m.1.2, b0.0, b0.1, b0.2, b1.0, b1.1, b1.2, b2.0, b2.1, b2.2, w.0, w.1, w.2,
    );
    lemma_compose_row(
        m.2.0, m.2.1, m.2.2, b0.0, b0.1, b0.2, b1.0, b1.1, b1.2, b2.0, b2.1, b2.2, w.0, w.1, w.2,
    );
}

/// Applying the product `a * b` to a vector is applying `b`, then `a`.
pub proof fn lemma_compose_apply(a: Matrix3, b: Matrix3, v: Vector3)
    ensures
        apply3(compose3(a@, b@), v@) == apply3(a@, apply3(b@, v@)),
{
    lemma_compose_apply_model(a@, b@, v@);
}

/// Composition is associative.
pub proof fn lemma_compose_associative(a: Matrix3, b: Matrix3, c: Matrix3)
    ensures
        compose3(compose3(a@, b@), c@) == compose3(a@, compose3(b@, c@)),
{
    let bc = compose3(b@, c@);
    assert(col3(bc, 0) == apply3(b@, col3(c@, 0)));
    assert(col3(bc, 1) == apply3(b@, col3(c@, 1)));
    assert(col3(bc, 2) == apply3(b@, col3(c@, 2)));
    lemma_compose_apply_model(a@, b@, col3(c@, 0));
    lemma_compose_apply_model(a@, b@, col3(c@, 1));
    lemma_compose_apply_model(a@, b@, col3(c@, 2));
}

/// The transpose of the identity is the identity.
pub proof fn lemma_transpose_identity()
    ensures
        transpose3(identity3()) == identity3(),
{
}

} // verus!
