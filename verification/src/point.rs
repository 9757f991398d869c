//! Three-component point: a location in space. Point minus point is a
//! displacement vector; point plus or minus a vector is a translated point.

use vstd::prelude::*;

use crate::model::{
    Triple, add_fits, div_ok, lemma_div_trunc_in_i64, scale_fits, sub_fits, t_add, t_div, t_scale, t_sub,
};
use crate::vector::Vector3;

verus! {

#[derive(Debug, Clone, Copy, PartialEq, Eq, Structural)]
pub struct Point3 {
    pub x: i64,
    pub y: i64,
    pub z: i64,
}

impl View for Point3 {
    type V = Triple;

    open spec fn view(&self) -> Triple {
        Triple { x: self.x as int, y: self.y as int, z: self.z as int }
    }
}

impl Point3 {
    /// Componentwise sum of two points, used internally for midpoint and
    /// centroid arithmetic; not a geometric translation.
    pub fn add(self, other: Point3) -> (r: Point3)
        requires
            add_fits(self@, other@),
        ensures
            r@ == t_add(self@, other@),
    {
        Point3 { x: self.x + other.x, y: self.y + other.y, z: self.z + other.z }
    }

    /// Translation of the point by a displacement vector.
    pub fn add_vector(self, v: Vector3) -> (r: Point3)
        requires
            add_fits(self@, v@),
        ensures
            r@ == t_add(self@, v@),
    {
        Point3 { x: self.x + v.x, y: self.y + v.y, z: self.z + v.z }
    }

    /// In-place componentwise sum with another point.
    pub fn add_assign(&mut self, other: Point3)
        requires
            add_fits(old(self)@, other@),
        ensures
            final(self)@ == t_add(old(self)@, other@),
    {
        *self = self.add(other);
    }

    /// Displacement from `other` to `self`.
    pub fn sub(self, other: Point3) -> (r: Vector3)
        requires
            sub_fits(self@, other@),
        ensures
            r@ == t_sub(self@, other@),
    {
        Vector3 { x: self.x - other.x, y: self.y - other.y, z: self.z - other.z }
    }

    /// Translation of the point backwards along a displacement vector.
    pub fn sub_vector(self, v: Vector3) -> (r: Point3)
        requires
            sub_fits(self@, v@),
        ensures
            r@ == t_sub(self@, v@),
    {
        Point3 { x: self.x - v.x, y: self.y - v.y, z: self.z - v.z }
    }

    /// In-place translation backwards along a displacement vector.
    pub fn sub_assign(&mut self, v: Vector3)
        requires
            sub_fits(old(self)@, v@),
        ensures
            final(self)@ == t_sub(old(self)@, v@),
    {
        *self = self.sub_vector(v);
    }

    /// Componentwise scaling by a scalar.
    pub fn mul(self, rhs: i64) -> (r: Point3)
        requires
            scale_fits(self@, rhs as int),
        ensures
            r@ == t_scale(self@, rhs as int),
    {
        Point3 { x: self.x * rhs, y: self.y * rhs, z: self.z * rhs }
    }

    /// In-place componentwise scaling by a scalar.
    pub fn mul_assign(&mut self, rhs: i64)
        requires
            scale_fits(old(self)@, rhs as int),
        ensures
            final(self)@ == t_scale(old(self)@, rhs as int),
    {
        *self = self.mul(rhs);
    }

    /// Componentwise truncating division by a scalar.
    pub fn div(self, rhs: i64) -> (r: Point3)
        requires
            div_ok(self@, rhs as int),
        ensures
            r@ == t_div(self@, rhs as int),
    {
        proof {
            lemma_div_trunc_in_i64(self@.x, rhs as int);
            lemma_div_trunc_in_i64(self@.y, rhs as int);
            lemma_div_trunc_in_i64(self@.z, rhs as int);
        }
        Point3 { x: self.x / rhs, y: self.y / rhs, z: self.z / rhs }
    }

    /// In-place componentwise truncating division by a scalar.
    pub fn div_assign(&mut self, rhs: i64)
        requires
            div_ok(old(self)@, rhs as int),
        ensures
            final(self)@ == t_div(old(self)@, rhs as int),
    {
        *self = self.div(rhs);
    }

    /// Component access: 0 is x, 1 is y, and any other index aliases z.
    pub fn index(&self, i: u32) -> (r: i64)
        ensures
            r == (if i == 0 { self@.x } else if i == 1 { self@.y } else { self@.z }),
    {
        match i {
            0 => self.x,
            1 => self.y,
            _ => self.z,
        }
    }
}

} // verus!
