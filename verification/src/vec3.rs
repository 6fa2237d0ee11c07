//! Exact 3D vector algebra.
//!
//! Positions, directions and intermediate light vectors are 3-vectors.
//! The scene evaluates the polynomial part of its geometry — scaling,
//! addition, subtraction and the dot product — exactly over integer
//! components; the bounds below keep every product inside an `i64`.
//! Lengths and normalisation need a square root and are evaluated in
//! floating point by the embedding program.

use vstd::prelude::*;

verus! {

/// Largest magnitude allowed for a scene coordinate component.
pub const COORD_BOUND: i64 = 0x10_0000;

/// Largest component magnitude the dot product and the componentwise
/// operations accept; a difference of two in-bound coordinates fits.
pub const DOT_BOUND: i64 = 0x20_0000;

/// A 3-vector with exact integer components.
#[derive(Clone, Copy, PartialEq, Eq, Structural, Debug)]
pub struct Vec3 {
    pub x: i64,
    pub y: i64,
    pub z: i64,
}

/// Every component of `v` lies in `[-m, m]`.
pub open spec fn bounded(v: Vec3, m: int) -> bool {
    &&& -m <= v.x <= m
    &&& -m <= v.y <= m
    &&& -m <= v.z <= m
}

/// Componentwise sum.
pub open spec fn add_spec(a: Vec3, b: Vec3) -> Vec3 {
    Vec3 { x: (a.x + b.x) as i64, y: (a.y + b.y) as i64, z: (a.z + b.z) as i64 }
}

/// Componentwise difference.
pub open spec fn sub_spec(a: Vec3, b: Vec3) -> Vec3 {
    Vec3 { x: (a.x - b.x) as i64, y: (a.y - b.y) as i64, z: (a.z - b.z) as i64 }
}

/// Componentwise multiple by a scalar.
pub open spec fn scale_spec(v: Vec3, s: int) -> Vec3 {
    Vec3 { x: (v.x * s) as i64, y: (v.y * s) as i64, z: (v.z * s) as i64 }
}

/// The dot product, exactly, as an unbounded integer.
pub open spec fn dot_spec(a: Vec3, b: Vec3) -> int {
    a.x * b.x + a.y * b.y + a.z * b.z
}

/// The product of two values in `[-m, m]` lies in `[-m*m, m*m]`.
pub proof fn lemma_mul_abs_bound(x: int, y: int, m: int)
    by (nonlinear_arith)
    requires
        -m <= x <= m,
        -m <= y <= m,
    ensures
        -(m * m) <= x * y <= m * m,
{
}

/// The dot product of two vectors bounded by `m` lies in
/// `[-3*m*m, 3*m*m]`.
pub proof fn lemma_dot_bound(a: Vec3, b: Vec3, m: int)
    requires
        bounded(a, m),
        bounded(b, m),
    ensures
        -3 * (m * m) <= dot_spec(a, b) <= 3 * (m * m),
{
    lemma_mul_abs_bound(a.x as int, b.x as int, m);
    lemma_mul_abs_bound(a.y as int, b.y as int, m);
    lemma_mul_abs_bound(a.z as int, b.z as int, m);
}

impl Vec3 {
    /// The zero vector.
    pub fn new() -> (v: Vec3)
        ensures
            v == (Vec3 { x: 0i64, y: 0i64, z: 0i64 }),
    {
        Vec3 { x: 0, y: 0, z: 0 }
    }

    /// The vector with the given components.
    pub fn from(x: i64, y: i64, z: i64) -> (v: Vec3)
        ensures
            v == (Vec3 { x: x, y: y, z: z }),
    {
        Vec3 { x, y, z }
    }

    /// Componentwise multiple by the scalar `sc`.
    pub fn sc_mul(&self, sc: i64) -> (r: Vec3)
        requires
            bounded(*self, COORD_BOUND as int),
            -COORD_BOUND <= sc <= COORD_BOUND,
        ensures
            r == scale_spec(*self, sc as int),
            r.x == self.x * sc,
            r.y == self.y * sc,
            r.z == self.z * sc,
    {
        proof {
            lemma_mul_abs_bound(self.x as int, sc as int, COORD_BOUND as int);
            lemma_mul_abs_bound(self.y as int, sc as int, COORD_BOUND as int);
            lemma_mul_abs_bound(self.z as int, sc as int, COORD_BOUND as int);
        }
        Vec3 { x: self.x * sc, y: self.y * sc, z: self.z * sc }
    }

    /// Componentwise sum.
    pub fn add(&self, other: &Vec3) -> (r: Vec3)
        requires
            bounded(*self, DOT_BOUND as int),
            bounded(*other, DOT_BOUND as int),
        ensures
            r == add_spec(*self, *other),
            r.x == self.x + other.x,
            r.y == self.y + other.y,
            r.z == self.z + other.z,
    {
        Vec3 { x: self.x + other.x, y: self.y + other.y, z: self.z + other.z }
    }

    /// Componentwise difference.
    pub fn sub(&self, other: &Vec3) -> (r: Vec3)
        requires
            bounded(*self, DOT_BOUND as int),
            bounded(*other, DOT_BOUND as int),
        ensures
            r == sub_spec(*self, *other),
            r.x == self.x - other.x,
            r.y == self.y - other.y,
            r.z == self.z - other.z,
    {
        Vec3 { x: self.x - other.x, y: self.y - other.y, z: self.z - other.z }
    }

    /// The dot product.
    pub fn dot(&self, other: &Vec3) -> (r: i64)
        requires
            bounded(*self, DOT_BOUND as int),
            bounded(*other, DOT_BOUND as int),
        ensures
            r == dot_spec(*self, *other),
    {
        proof {
            lemma_mul_abs_bound(self.x as int, other.x as int, DOT_BOUND as int);
            lemma_mul_abs_bound(self.y as int, other.y as int, DOT_BOUND as int);
            lemma_mul_abs_bound(self.z as int, other.z as int, DOT_BOUND as int);
        }
        self.x * other.x + self.y * other.y + self.z * other.z
    }
}

/// Law: vector addition is commutative, for all vectors.
pub proof fn lemma_add_comm(a: Vec3, b: Vec3)
    ensures
        add_spec(a, b) == add_spec(b, a),
{
}

/// Law: the dot product is commutative, for all vectors.
pub proof fn lemma_dot_comm(a: Vec3, b: Vec3)
    ensures
        dot_spec(a, b) == dot_spec(b, a),
{
}

/// Law: scaling a vector by `s` scales its squared length by `s * s`,
/// for all in-bound vectors and scalars. This is the exact-arithmetic
/// form of `length(scale(a, s)) == |s| * length(a)`: both sides are
/// squared, which avoids the square root.
pub proof fn lemma_scale_length_sq(a: Vec3, s: int)
    requires
        bounded(a, COORD_BOUND as int),
        -COORD_BOUND <= s <= COORD_BOUND,
    ensures
        dot_spec(scale_spec(a, s), scale_spec(a, s)) == s * s * dot_spec(a, a),
{
    lemma_mul_abs_bound(a.x as int, s, COORD_BOUND as int);
    lemma_mul_abs_bound(a.y as int, s, COORD_BOUND as int);
    lemma_mul_abs_bound(a.z as int, s, COORD_BOUND as int);
    let p: int = a.x * a.x;
    let q: int = a.y * a.y;
    let r: int = a.z * a.z;
    assert((a.x * s) * (a.x * s) == s * s * (a.x * a.x)) by (nonlinear_arith);
    assert((a.y * s) * (a.y * s) == s * s * (a.y * a.y)) by (nonlinear_arith);
    assert((a.z * s) * (a.z * s) == s * s * (a.z * a.z)) by (nonlinear_arith);
    assert(s * s * p + s * s * q + s * s * r == s * s * (p + q + r)) by (nonlinear_arith);
}

} // verus!
