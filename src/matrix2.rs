//! 2×2 matrices.
use vstd::prelude::*;
use vstd::arithmetic::mul::{
    lemma_mul_is_associative, lemma_mul_is_distributive_add,
    lemma_mul_is_distributive_add_other_way,
};

use crate::bounds::{fits, lemma_product_range};
use crate::vector2::{dot2, fits2, Vector2};

verus! {

/// A 2×2 matrix as its two rows, each a pair.
pub type Mat2 = ((int, int), (int, int));

/// The identity matrix.
pub open spec fn identity2() -> Mat2 {
    ((1, 0), (0, 1))
}

/// Row `r` of `m`.
pub open spec fn row2(m: Mat2, r: int) -> (int, int) {
    if r == 0 {
        m.0
    } else {
        m.1
    }
}

/// Column `c` of `m`.
pub open spec fn col2(m: Mat2, c: int) -> (int, int) {
    if c == 0 {
        (m.0.0, m.1.0)
    } else {
        (m.0.1, m.1.1)
    }
}

/// The matrix whose columns are `c0` and `c1`.
pub open spec fn from_cols2(c0: (int, int), c1: (int, int)) -> Mat2 {
    ((c0.0, c1.0), (c0.1, c1.1))
}

/// The product of `m` with the column vector `v`: component `i` is the dot
/// product of row `i` with `v`.
pub open spec fn apply2(m: Mat2, v: (int, int)) -> (int, int) {
    (dot2(m.0, v), dot2(m.1, v))
}

/// The product `a * b`: `a` applied to each column of `b`.
pub open spec fn compose2(a: Mat2, b: Mat2) -> Mat2 {
    from_cols2(apply2(a, col2(b, 0)), apply2(a, col2(b, 1)))
}

/// The determinant `ad - bc` of `[[a, b], [c, d]]`.
pub open spec fn det2(m: Mat2) -> int {
    m.0.0 * m.1.1 - m.0.1 * m.1.0
}

/// The matrix whose columns are the rows of `m`.
pub open spec fn transpose2(m: Mat2) -> Mat2 {
    from_cols2(m.0, m.1)
}

/// Whether every entry of `m` can be held in an `i64`.
pub open spec fn fits_mat2(m: Mat2) -> bool {
    fits2(m.0) && fits2(m.1)
}

/// A linear transform of the plane, stored row by row.
#[derive(Clone, Copy, PartialEq, Eq, Debug)]
pub struct Matrix2 {
    data: [[i64; 2]; 2],
}

impl View for Matrix2 {
    type V = Mat2;

    closed spec fn view(&self) -> Mat2 {
        (
            (self.data[0][0] as int, self.data[0][1] as int),
            (self.data[1][0] as int, self.data[1][1] as int),
        )
    }
}

impl Matrix2 {
    /// The identity matrix.
    pub fn identity() -> (r: Matrix2)
        ensures
            r@ == identity2(),
    {
        Matrix2::new_from(1, 0, 0, 1)
    }

    /// The matrix with every entry zero.
    pub fn new() -> (r: Matrix2)
        ensures
            r@ == ((0int, 0int), (0int, 0int)),
    {
        Matrix2 { data: [[0, 0], [0, 0]] }
    }

    /// The matrix `[[a, b], [c, d]]`, entries given row by row.
    pub fn new_from(a: i64, b: i64, c: i64, d: i64) -> (r: Matrix2)
        ensures
            r@ == ((a as int, b as int), (c as int, d as int)),
    {
        Matrix2 { data: [[a, b], [c, d]] }
    }

    /// The matrix whose column `i` is `columns[i]`.
    pub fn new_from_columns(columns: [Vector2; 2]) -> (r: Matrix2)
        ensures
            r@ == from_cols2(columns[0]@, columns[1]@),
    {
        let c0 = columns[0];
        let c1 = columns[1];
        Matrix2 { data: [[c0.x, c1.x], [c0.y, c1.y]] }
    }

    /// Row `row` as a vector.
    pub fn get_row(&self, row: usize) -> (r: Vector2)
        requires
            row < 2,
        ensures
            r@ == row2(self@, row as int),
    {
        Vector2::new_from_array(self.data[row])
    }

    /// Column `col` as a vector.
    pub fn get_col(&self, col: usize) -> (r: Vector2)
        requires
            col < 2,
        ensures
            r@ == col2(self@, col as int),
    {
        Vector2::new_from(self.data[0][col], self.data[1][col])
    }

    /// The matrix applied to the column vector `other`.
    pub fn transform_vector2(&self, other: Vector2) -> (r: Vector2)
        requires
            fits2(apply2(self@, other@)),
        ensures
            r@ == apply2(self@, other@),
    {
        Vector2::new_from(self.get_row(0).dot(other), self.get_row(1).dot(other))
    }

    /// The product `self * other`: `self` applied to each column of `other`.
    pub fn transform_matrix(&self, other: Matrix2) -> (r: Matrix2)
        requires
            fits_mat2(compose2(self@, other@)),
        ensures
            r@ == compose2(self@, other@),
    {
        Matrix2::new_from_columns(
            [self.transform_vector2(other.get_col(0)), self.transform_vector2(other.get_col(1))],
        )
    }

    /// The determinant.
    pub fn determinant(&self) -> (r: i64)
        requires
            fits(det2(self@)),
        ensures
            r == det2(self@),
    {
        proof {
            lemma_product_range(self.data[0][0], self.data[1][1]);
            lemma_product_range(self.data[0][1], self.data[1][0]);
        }
        let d: i128 = self.data[0][0] as i128 * self.data[1][1] as i128
            - self.data[0][1] as i128 * self.data[1][0] as i128;
        d as i64
    }

    /// The transpose: column `i` of the result is row `i` of `self`.
    pub fn transpose(&self) -> (r: Matrix2)
        ensures
            r@ == transpose2(self@),
    {
        Matrix2::new_from_columns([self.get_row(0), self.get_row(1)])
    }
}

/// Transposing twice gives back the matrix.
pub proof fn lemma_transpose_involution(m: Matrix2)
    ensures
        transpose2(transpose2(m@)) == m@,
{
}

/// The identity composed with a matrix gives back the matrix.
pub proof fn lemma_identity_compose(m: Matrix2)
    ensures
        compose2(identity2(), m@) == m@,
{
    let n = m@;
    assert(dot2((1, 0), col2(n, 0)) == n.0.0);
    assert(apply2(identity2(), col2(n, 0)) == col2(n, 0));
}

/// One row of a composed transform applied to a vector: the row of `a` applied
/// to `b`'s image of `v`.
proof fn lemma_compose_row(r0: int, r1: int, b00: int, b01: int, b10: int, b11: int, v0: int, v1: int)
    ensures
        (r0 * b00 + r1 * b10) * v0 + (r0 * b01 + r1 * b11) * v1 == r0 * (b00 * v0 + b01 * v1) + r1
            * (b10 * v0 + b11 * v1),
{
    lemma_mul_is_distributive_add_other_way(v0, r0 * b00, r1 * b10);
    lemma_mul_is_distributive_add_other_way(v1, r0 * b01, r1 * b11);
    lemma_mul_is_distributive_add(r0, b00 * v0, b01 * v1);
    lemma_mul_is_distributive_add(r1, b10 * v0, b11 * v1);
    lemma_mul_is_associative(r0, b00, v0);
    lemma_mul_is_associative(r1, b10, v0);
    lemma_mul_is_associative(r0, b01, v1);
    lemma_mul_is_associative(r1, b11, v1);
}

/// Applying the product of two models to a model vector is applying the
/// right one, then the left one.
proof fn lemma_compose_apply_model(m: Mat2, n: Mat2, w: (int, int))
    ensures
        apply2(compose2(m, n), w) == apply2(m, apply2(n, w)),
{
    lemma_compose_row(m.0.0, m.0.1, n.0.0, n.0.1, n.1.0, n.1.1, w.0, w.1);
    lemma_compose_row(m.1.0, m.1.1, n.0.0, n.0.1, n.1.0, n.1.1, w.0, w.1);
}

/// Applying the product `a * b` to a vector is applying `b`, then `a`.
pub proof fn lemma_compose_apply(a: Matrix2, b: Matrix2, v: Vector2)
    ensures
        apply2(compose2(a@, b@), v@) == apply2(a@, apply2(b@, v@)),
{
    lemma_compose_apply_model(a@, b@, v@);
}

/// Composition is associative.
pub proof fn lemma_compose_associative(a: Matrix2, b: Matrix2, c: Matrix2)
    ensures
        compose2(compose2(a@, b@), c@) == compose2(a@, compose2(b@, c@)),
{
    let bc = compose2(b@, c@);
    assert(col2(bc, 0) == apply2(b@, col2(c@, 0)));
    assert(col2(bc, 1) == apply2(b@, col2(c@, 1)));
    lemma_compose_apply_model(a@, b@, col2(c@, 0));
    lemma_compose_apply_model(a@, b@, col2(c@, 1));
}

/// The transpose of the identity is the identity.
pub proof fn lemma_transpose_identity()
    ensures
        transpose2(identity2()) == identity2(),
{
}

} // verus!
