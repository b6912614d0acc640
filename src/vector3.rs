//! Three-component vectors.
use vstd::prelude::*;

use crate::bounds::{fits, lemma_product_range};
use crate::matrix2::{det2, Mat2, Matrix2};

verus! {

/// The sum of two triples, component by component.
pub open spec fn add3(a: (int, int, int), b: (int, int, int)) -> (int, int, int) {
    (a.0 + b.0, a.1 + b.1, a.2 + b.2)
}

/// A triple with each component multiplied by `s`.
pub open spec fn scale3(a: (int, int, int), s: int) -> (int, int, int) {
    (a.0 * s, a.1 * s, a.2 * s)
}

/// The dot product of two triples.
pub open spec fn dot3(a: (int, int, int), b: (int, int, int)) -> int {
    a.0 * b.0 + a.1 * b.1 + a.2 * b.2
}

/// The 2×2 matrix whose rows are the components of `a` and of `b` other
/// than component `k`.
pub open spec fn cross_minor3(a: (int, int, int), b: (int, int, int), k: int) -> Mat2 {
    if k == 0 {
        ((a.1, a.2), (b.1, b.2))
    } else if k == 1 {
        ((a.0, a.2), (b.0, b.2))
    } else {
        ((a.0, a.1), (b.0, b.1))
    }
}

/// The cross product by cofactor expansion: component `k` is the determinant
/// of `cross_minor3(a, b, k)`, with the sign of the middle one negated.
pub open spec fn cross3(a: (int, int, int), b: (int, int, int)) -> (int, int, int) {
    (det2(cross_minor3(a, b, 0)), -det2(cross_minor3(a, b, 1)), det2(cross_minor3(a, b, 2)))
}

/// Whether every component of a triple can be held in an `i64`.
pub open spec fn fits3(a: (int, int, int)) -> bool {
    fits(a.0) && fits(a.1) && fits(a.2)
}

/// A point or direction in space.
#[derive(Clone, Copy, PartialEq, Eq, Debug)]
pub struct Vector3 {
    pub x: i64,
    pub y: i64,
    pub z: i64,
}

impl View for Vector3 {
    type V = (int, int, int);

    open spec fn view(&self) -> (int, int, int) {
        (self.x as int, self.y as int, self.z as int)
    }
}

impl Vector3 {
    /// The zero vector.
    pub fn new() -> (r: Vector3)
        ensures
            r@ == (0int, 0int, 0int),
    {
        Vector3 { x: 0, y: 0, z: 0 }
    }

    /// The vector with the given components.
    pub fn new_from(x: i64, y: i64, z: i64) -> (r: Vector3)
        ensures
            r.x == x,
            r.y == y,
            r.z == z,
    {
        Vector3 { x: x, y: y, z: z }
    }

    /// The vector whose components are the array's, in order.
    pub fn new_from_array(array: [i64; 3]) -> (r: Vector3)
        ensures
            r.x == array[0],
            r.y == array[1],
            r.z == array[2],
    {
        Vector3 { x: array[0], y: array[1], z: array[2] }
    }

    /// The components as an array `[x, y, z]`.
    pub fn get_data(&self) -> (r: [i64; 3])
        ensures
            r@ == seq![self.x, self.y, self.z],
    {
        [self.x, self.y, self.z]
    }

    /// The squared length: the dot product of the vector with itself.
    pub fn magnitude_squared(&self) -> (r: i64)
        requires
            fits(dot3(self@, self@)),
        ensures
            r == dot3(self@, self@),
    {
        self.dot(*self)
    }

    /// The dot product with `other`.
    pub fn dot(&self, other: Vector3) -> (r: i64)
        requires
            fits(dot3(self@, other@)),
        ensures
            r == dot3(self@, other@),
    {
        proof {
            lemma_product_range(self.x, other.x);
            lemma_product_range(self.y, other.y);
            lemma_product_range(self.z, other.z);
        }
        let s: i128 = self.x as i128 * other.x as i128 + self.y as i128 * other.y as i128;
        let s: i128 = s + self.z as i128 * other.z as i128;
        s as i64
    }

    /// The cross product with `other`, orthogonal to both.
    pub fn cross(&self, other: Vector3) -> (r: Vector3)
        requires
            fits3(cross3(self@, other@)),
            fits(det2(cross_minor3(self@, other@, 1))),
        ensures
            r@ == cross3(self@, other@),
    {
        let x_comp = Matrix2::new_from(self.y, self.z, other.y, other.z).determinant();
        let y_comp = Matrix2::new_from(self.x, self.z, other.x, other.z).determinant();
        let z_comp = Matrix2::new_from(self.x, self.y, other.x, other.y).determinant();
        Vector3::new_from(x_comp, -y_comp, z_comp)
    }

    /// The component-wise sum with `other`.
    pub fn add(self, other: Vector3) -> (r: Vector3)
        requires
            fits3(add3(self@, other@)),
        ensures
            r@ == add3(self@, other@),
    {
        Vector3 { x: self.x + other.x, y: self.y + other.y, z: self.z + other.z }
    }

    /// The vector scaled by `other`.
    pub fn mul(self, other: i64) -> (r: Vector3)
        requires
            fits3(scale3(self@, other as int)),
        ensures
            r@ == scale3(self@, other as int),
    {
        Vector3 { x: self.x * other, y: self.y * other, z: self.z * other }
    }
}

/// The cross product is anti-commutative (`a × b` is `b × a` scaled by -1), and
/// a vector's cross product with itself is the zero vector.
pub proof fn lemma_cross_anticommutative(a: Vector3, b: Vector3)
    ensures
        cross3(a@, b@) == scale3(cross3(b@, a@), -1),
        cross3(a@, a@) == (0int, 0int, 0int),
{
    let (ax, ay, az) = (a.x as int, a.y as int, a.z as int);
    let (bx, by, bz) = (b.x as int, b.y as int, b.z as int);
    assert(ay * bz - az * by == (by * az - bz * ay) * -1) by (nonlinear_arith);
    assert(-(ax * bz - az * bx) == -(bx * az - bz * ax) * -1) by (nonlinear_arith);
    assert(ax * by - ay * bx == (bx * ay - by * ax) * -1) by (nonlinear_arith);
    assert(ay * az - az * ay == 0) by (nonlinear_arith);
    assert(ax * az - az * ax == 0) by (nonlinear_arith);
    assert(ax * ay - ay * ax == 0) by (nonlinear_arith);
}

/// The dot product is commutative.
pub proof fn lemma_dot_commutative(a: Vector3, b: Vector3)
    ensures
        dot3(a@, b@) == dot3(b@, a@),
{
    assert(a.x * b.x + a.y * b.y + a.z * b.z == b.x * a.x + b.y * a.y + b.z * a.z)
        by (nonlinear_arith);
}

/// Addition is commutative and associative, with the zero vector as identity.
pub proof fn lemma_add_laws(a: Vector3, b: Vector3, c: Vector3)
    ensures
        add3(a@, b@) == add3(b@, a@),
        add3(add3(a@, b@), c@) == add3(a@, add3(b@, c@)),
        add3(a@, (0int, 0int, 0int)) == a@,
{
}

/// Scaling by 1 keeps a vector, by 0 gives the zero vector, and by -1 gives its
/// additive inverse.
pub proof fn lemma_scale_laws(a: Vector3)
    ensures
        scale3(a@, 1) == a@,
        scale3(a@, 0) == (0int, 0int, 0int),
        add3(a@, scale3(a@, -1)) == (0int, 0int, 0int),
{
}

/// The cross product is orthogonal to both of its operands.
pub proof fn lemma_cross_orthogonal(a: Vector3, b: Vector3)
    ensures
        dot3(cross3(a@, b@), a@) == 0,
        dot3(cross3(a@, b@), b@) == 0,
{
    let (ax, ay, az) = (a.x as int, a.y as int, a.z as int);
    let (bx, by, bz) = (b.x as int, b.y as int, b.z as int);
    assert((ay * bz - az * by) * ax + -(ax * bz - az * bx) * ay + (ax * by - ay * bx) * az == 0)
        by (nonlinear_arith);
    assert((ay * bz - az * by) * bx + -(ax * bz - az * bx) * by + (ax * by - ay * bx) * bz == 0)
        by (nonlinear_arith);
}

} // verus!
