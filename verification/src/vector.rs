//! Three-component vector: a direction or displacement with magnitude.

use vstd::prelude::*;

use crate::model::{
    Triple, add_fits, cross_fits, div_ok, dot_fits, lemma_div_trunc_in_i64, mul_fits, scale_fits, sub_fits, t_add,
    t_cross, t_div, t_dot, t_max, t_min, t_mul, t_neg, t_scale, t_sub, t_zero,
};
use crate::normal::Normal3;
use crate::point::Point3;

verus! {

#[derive(Debug, Clone, Copy, PartialEq, Eq, Structural)]
pub struct Vector3 {
    pub x: i64,
    pub y: i64,
    pub z: i64,
}

impl View for Vector3 {
    type V = Triple;

    open spec fn view(&self) -> Triple {
        Triple { x: self.x as int, y: self.y as int, z: self.z as int }
    }
}

impl Vector3 {
    /// Componentwise sum.
    pub fn add(self, other: Vector3) -> (r: Vector3)
        requires
            add_fits(self@, other@),
        ensures
            r@ == t_add(self@, other@),
    {
        Vector3 { x: self.x + other.x, y: self.y + other.y, z: self.z + other.z }
    }

    /// Componentwise difference.
    pub fn sub(self, other: Vector3) -> (r: Vector3)
        requires
            sub_fits(self@, other@),
        ensures
            r@ == t_sub(self@, other@),
    {
        Vector3 { x: self.x - other.x, y: self.y - other.y, z: self.z - other.z }
    }

    /// Dot (inner) product.
    pub fn dot(self, other: Vector3) -> (r: i64)
        requires
            dot_fits(self@, other@),
        ensures
            r == t_dot(self@, other@),
    {
        self.x * other.x + self.y * other.y + self.z * other.z
    }

    /// Right-handed cross product.
    pub fn cross(self, other: Vector3) -> (r: Vector3)
        requires
            cross_fits(self@, other@),
        ensures
            r@ == t_cross(self@, other@),
    {
        Vector3 {
            x: self.y * other.z - self.z * other.y,
            y: self.z * other.x - self.x * other.z,
            z: self.x * other.y - self.y * other.x,
        }
    }

    /// In-place componentwise sum.
    pub fn add_assign(&mut self, other: Vector3)
        requires
            add_fits(old(self)@, other@),
        ensures
            final(self)@ == t_add(old(self)@, other@),
    {
        *self = self.add(other);
    }

    /// In-place componentwise difference.
    pub fn sub_assign(&mut self, other: Vector3)
        requires
            sub_fits(old(self)@, other@),
        ensures
            final(self)@ == t_sub(old(self)@, other@),
    {
        *self = self.sub(other);
    }

    /// Scaling by a scalar.
    pub fn mul(self, rhs: i64) -> (r: Vector3)
        requires
            scale_fits(self@, rhs as int),
        ensures
            r@ == t_scale(self@, rhs as int),
    {
        Vector3 { x: self.x * rhs, y: self.y * rhs, z: self.z * rhs }
    }

    /// In-place scaling by a scalar.
    pub fn mul_assign(&mut self, rhs: i64)
        requires
            scale_fits(old(self)@, rhs as int),
        ensures
            final(self)@ == t_scale(old(self)@, rhs as int),
    {
        *self = self.mul(rhs);
    }

    /// Componentwise (Hadamard) product with another vector.
    pub fn mul_vec(self, other: Vector3) -> (r: Vector3)
        requires
            mul_fits(self@, other@),
        ensures
            r@ == t_mul(self@, other@),
    {
        Vector3 { x: self.x * other.x, y: self.y * other.y, z: self.z * other.z }
    }

    /// Componentwise truncating division by a scalar.
    pub fn div(self, rhs: i64) -> (r: Vector3)
        requires
            div_ok(self@, rhs as int),
        ensures
            r@ == t_div(self@, rhs as int),
    {
        proof {
            lemma_div_trunc_in_i64(self@.x, rhs as int);
            lemma_div_trunc_in_i64(self@.y, rhs as int);
            lemma_div_trunc_in_i64(self@.z, rhs as int);
        }
        Vector3 { x: self.x / rhs, y: self.y / rhs, z: self.z / rhs }
    }

    /// In-place componentwise truncating division by a scalar.
    pub fn div_assign(&mut self, rhs: i64)
        requires
            div_ok(old(self)@, rhs as int),
        ensures
            final(self)@ == t_div(old(self)@, rhs as int),
    {
        *self = self.div(rhs);
    }

    /// Squared Euclidean length: the dot product of the vector with itself.
    pub fn length_squared(self) -> (r: i64)
        requires
            dot_fits(self@, self@),
        ensures
            r == t_dot(self@, self@),
    {
        self.x * self.x + self.y * self.y + self.z * self.z
    }

    /// Componentwise minimum.
    pub fn min(self, other: Vector3) -> (r: Vector3)
        ensures
            r@ == t_min(self@, other@),
    {
        Vector3 {
            x: if self.x <= other.x { self.x } else { other.x },
            y: if self.y <= other.y { self.y } else { other.y },
            z: if self.z <= other.z { self.z } else { other.z },
        }
    }

    /// Componentwise maximum.
    pub fn max(self, other: Vector3) -> (r: Vector3)
        ensures
            r@ == t_max(self@, other@),
    {
        Vector3 {
            x: if self.x >= other.x { self.x } else { other.x },
            y: if self.y >= other.y { self.y } else { other.y },
            z: if self.z >= other.z { self.z } else { other.z },
        }
    }

    /// Component access: 0 is x, 1 is y, and any other index aliases z.
    pub fn index(&self, i: u32) -> (r: i64)
        ensures
            r == (if i == 0 { self@.x } else if i == 1 { self@.y } else { self@.z }),
    {
        match i {
            0 => self.x,
            1 => self.y,
            _ => self.z,
        }
    }
}

/// The vector with the same components as the point `p`.
pub open spec fn vector_of_point(p: Point3) -> Vector3 {
    Vector3 { x: p.x, y: p.y, z: p.z }
}

/// The vector with the same components as the normal `n`.
pub open spec fn vector_of_normal(n: Normal3) -> Vector3 {
    Vector3 { x: n.x, y: n.y, z: n.z }
}

impl From<Point3> for Vector3 {
    /// Reinterprets a location as the displacement from the origin to it.
    fn from(p: Point3) -> (r: Vector3)
        ensures
            r == vector_of_point(p),
    {
        Vector3 { x: p.x, y: p.y, z: p.z }
    }
}

impl vstd::std_specs::convert::FromSpecImpl<Point3> for Vector3 {
    open spec fn obeys_from_spec() -> bool {
        true
    }

    open spec fn from_spec(p: Point3) -> Vector3 {
        vector_of_point(p)
    }
}

impl From<Normal3> for Vector3 {
    /// Reinterprets a surface normal as a plain direction vector.
    fn from(n: Normal3) -> (r: Vector3)
        ensures
            r == vector_of_normal(n),
    {
        Vector3 { x: n.x, y: n.y, z: n.z }
    }
}

impl vstd::std_specs::convert::FromSpecImpl<Normal3> for Vector3 {
    open spec fn obeys_from_spec() -> bool {
        true
    }

    open spec fn from_spec(n: Normal3) -> Vector3 {
        vector_of_normal(n)
    }
}

/// The cross product is anti-commutative: swapping its operands negates it.
pub proof fn lemma_cross_anticommutative(a: Triple, b: Triple)
    ensures
        t_cross(a, b) == t_neg(t_cross(b, a)),
{
    assert(t_cross(a, b) == t_neg(t_cross(b, a))) by (nonlinear_arith);
}

/// The cross product of a vector with itself is the zero vector.
pub proof fn lemma_cross_self_zero(a: Triple)
    ensures
        t_cross(a, a) == t_zero(),
{
    assert(t_cross(a, a) == t_zero()) by (nonlinear_arith);
}

/// The dot product distributes over vector addition.
pub proof fn lemma_dot_distributes_over_add(a: Triple, b: Triple, c: Triple)
    ensures
        t_dot(a, t_add(b, c)) == t_dot(a, b) + t_dot(a, c),
{
    assert(t_dot(a, t_add(b, c)) == t_dot(a, b) + t_dot(a, c)) by (nonlinear_arith);
}

} // verus!
