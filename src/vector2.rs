//! Two-component vectors.
use vstd::prelude::*;

use crate::bounds::{fits, lemma_product_range};

verus! {

/// The sum of two pairs, component by component.
pub open spec fn add2(a: (int, int), b: (int, int)) -> (int, int) {
    (a.0 + b.0, a.1 + b.1)
}

/// A pair with each component multiplied by `s`.
pub open spec fn scale2(a: (int, int), s: int) -> (int, int) {
    (a.0 * s, a.1 * s)
}

/// The dot product of two pairs.
pub open spec fn dot2(a: (int, int), b: (int, int)) -> int {
    a.0 * b.0 + a.1 * b.1
}

/// The signed cross product of two pairs: `a.x * b.y - a.y * b.x`.
pub open spec fn cross2(a: (int, int), b: (int, int)) -> int {
    a.0 * b.1 - a.1 * b.0
}

/// Whether both components of a pair can be held in an `i64`.
pub open spec fn fits2(a: (int, int)) -> bool {
    fits(a.0) && fits(a.1)
}

/// A point or direction in the plane.
#[derive(Clone, Copy, PartialEq, Eq, Debug)]
pub struct Vector2 {
    pub x: i64,
    pub y: i64,
}

impl View for Vector2 {
    type V = (int, int);

    open spec fn view(&self) -> (int, int) {
        (self.x as int, self.y as int)
    }
}

impl Vector2 {
    /// The zero vector.
    pub fn new() -> (r: Vector2)
        ensures
            r@ == (0int, 0int),
    {
        Vector2 { x: 0, y: 0 }
    }

    /// The vector with the given components.
    pub fn new_from(x: i64, y: i64) -> (r: Vector2)
        ensures
            r.x == x,
            r.y == y,
    {
        Vector2 { x: x, y: y }
    }

    /// The vector whose components are the array's, in order.
    pub fn new_from_array(array: [i64; 2]) -> (r: Vector2)
        ensures
            r.x == array[0],
            r.y == array[1],
    {
        Vector2 { x: array[0], y: array[1] }
    }

    /// The components as an array `[x, y]`.
    pub fn get_data(&self) -> (r: [i64; 2])
        ensures
            r@ == seq![self.x, self.y],
    {
        [self.x, self.y]
    }

    /// The squared length: the dot product of the vector with itself.
    pub fn magnitude_squared(&self) -> (r: i64)
        requires
            fits(dot2(self@, self@)),
        ensures
            r == dot2(self@, self@),
    {
        self.dot(*self)
    }

    /// The dot product with `other`.
    pub fn dot(&self, other: Vector2) -> (r: i64)
        requires
            fits(dot2(self@, other@)),
        ensures
            r == dot2(self@, other@),
    {
        proof {
            lemma_product_range(self.x, other.x);
            lemma_product_range(self.y, other.y);
        }
        let s: i128 = self.x as i128 * other.x as i128 + self.y as i128 * other.y as i128;
        s as i64
    }

    /// The signed cross product with `other`: `self.x * other.y - self.y * other.x`.
    pub fn cross(&self, other: Vector2) -> (r: i64)
        requires
            fits(cross2(self@, other@)),
        ensures
            r == cross2(self@, other@),
    {
        proof {
            lemma_product_range(self.x, other.y);
            lemma_product_range(self.y, other.x);
        }
        let s: i128 = self.x as i128 * other.y as i128 - self.y as i128 * other.x as i128;
        s as i64
    }

    /// The component-wise sum with `other`.
    pub fn add(self, other: Vector2) -> (r: Vector2)
        requires
            fits2(add2(self@, other@)),
        ensures
            r@ == add2(self@, other@),
    {
        Vector2 { x: self.x + other.x, y: self.y + other.y }
    }

    /// The vector scaled by `other`.
    pub fn mul(self, other: i64) -> (r: Vector2)
        requires
            fits2(scale2(self@, other as int)),
        ensures
            r@ == scale2(self@, other as int),
    {
        Vector2 { x: self.x * other, y: self.y * other }
    }
}

/// The cross product is anti-commutative, and a vector's cross product with
/// itself is zero.
pub proof fn lemma_cross_anticommutative(a: Vector2, b: Vector2)
    ensures
        cross2(a@, b@) == -cross2(b@, a@),
        cross2(a@, a@) == 0,
{
    assert(a.x * b.y - a.y * b.x == -(b.x * a.y - b.y * a.x)) by (nonlinear_arith);
    assert(a.x * a.y - a.y * a.x == 0) by (nonlinear_arith);
}

/// The dot product is commutative.
pub proof fn lemma_dot_commutative(a: Vector2, b: Vector2)
    ensures
        dot2(a@, b@) == dot2(b@, a@),
{
    assert(a.x * b.x + a.y * b.y == b.x * a.x + b.y * a.y) by (nonlinear_arith);
}

/// Addition is commutative and associative, with the zero vector as identity.
pub proof fn lemma_add_laws(a: Vector2, b: Vector2, c: Vector2)
    ensures
        add2(a@, b@) == add2(b@, a@),
        add2(add2(a@, b@), c@) == add2(a@, add2(b@, c@)),
        add2(a@, (0int, 0int)) == a@,
{
}

/// Scaling by 1 keeps a vector, by 0 gives the zero vector, and by -1 gives its
/// additive inverse.
pub proof fn lemma_scale_laws(a: Vector2)
    ensures
        scale2(a@, 1) == a@,
        scale2(a@, 0) == (0int, 0int),
        add2(a@, scale2(a@, -1)) == (0int, 0int),
{
}

} // verus!
