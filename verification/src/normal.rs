//! Three-component surface normal. Kept distinct from `Vector3` at the type
//! level: normals transform differently under general linear maps, so mixing
//! the two would be unsound for future extension even though no transform is
//! applied here.

use vstd::prelude::*;

use crate::model::{
    Triple, add_fits, div_ok, dot_fits, lemma_div_trunc_in_i64, scale_fits, sub_fits, t_add, t_div, t_dot, t_scale,
    t_sub,
};
use crate::vector::Vector3;

verus! {

#[derive(Debug, Clone, Copy, PartialEq, Eq, Structural)]
pub struct Normal3 {
    pub x: i64,
    pub y: i64,
    pub z: i64,
}

impl View for Normal3 {
    type V = Triple;

    open spec fn view(&self) -> Triple {
        Triple { x: self.x as int, y: self.y as int, z: self.z as int }
    }
}

impl Normal3 {
    /// Componentwise sum.
    pub fn add(self, other: Normal3) -> (r: Normal3)
        requires
            add_fits(self@, other@),
        ensures
            r@ == t_add(self@, other@),
    {
        Normal3 { x: self.x + other.x, y: self.y + other.y, z: self.z + other.z }
    }

    /// In-place componentwise sum.
    pub fn add_assign(&mut self, other: Normal3)
        requires
            add_fits(old(self)@, other@),
        ensures
            final(self)@ == t_add(old(self)@, other@),
    {
        *self = self.add(other);
    }

    /// Componentwise difference.
    pub fn sub(self, other: Normal3) -> (r: Normal3)
        requires
            sub_fits(self@, other@),
        ensures
            r@ == t_sub(self@, other@),
    {
        Normal3 { x: self.x - other.x, y: self.y - other.y, z: self.z - other.z }
    }

    /// In-place componentwise difference.
    pub fn sub_assign(&mut self, other: Normal3)
        requires
            sub_fits(old(self)@, other@),
        ensures
            final(self)@ == t_sub(old(self)@, other@),
    {
        *self = self.sub(other);
    }

    /// Componentwise scaling by a scalar.
    pub fn mul(self, rhs: i64) -> (r: Normal3)
        requires
            scale_fits(self@, rhs as int),
        ensures
            r@ == t_scale(self@, rhs as int),
    {
        Normal3 { x: self.x * rhs, y: self.y * rhs, z: self.z * rhs }
    }

    /// In-place componentwise scaling by a scalar.
    pub fn mul_assign(&mut self, rhs: i64)
        requires
            scale_fits(old(self)@, rhs as int),
        ensures
            final(self)@ == t_scale(old(self)@, rhs as int),
    {
        *self = self.mul(rhs);
    }

    /// Componentwise truncating division by a scalar.
    pub fn div(self, rhs: i64) -> (r: Normal3)
        requires
            div_ok(self@, rhs as int),
        ensures
            r@ == t_div(self@, rhs as int),
    {
        proof {
            lemma_div_trunc_in_i64(self@.x, rhs as int);
            lemma_div_trunc_in_i64(self@.y, rhs as int);
            lemma_div_trunc_in_i64(self@.z, rhs as int);
        }
        Normal3 { x: self.x / rhs, y: self.y / rhs, z: self.z / rhs }
    }

    /// In-place componentwise truncating division by a scalar.
    pub fn div_assign(&mut self, rhs: i64)
        requires
            div_ok(old(self)@, rhs as int),
        ensures
            final(self)@ == t_div(old(self)@, rhs as int),
    {
        *self = self.div(rhs);
    }

    /// Squared Euclidean length: the dot product of the normal with itself.
    pub fn length_squared(self) -> (r: i64)
        requires
            dot_fits(self@, self@),
        ensures
            r == t_dot(self@, self@),
    {
        self.x * self.x + self.y * self.y + self.z * self.z
    }

    /// Dot product of the normal with a vector, the cosine term of shading.
    pub fn dot(self, v: Vector3) -> (r: i64)
        requires
            dot_fits(self@, v@),
        ensures
            r == t_dot(self@, v@),
    {
        self.x * v.x + self.y * v.y + self.z * v.z
    }

    /// Component access: 0 is x, 1 is y, and any other index aliases z.
    pub fn index(&self, i: u32) -> (r: i64)
        ensures
            r == (if i == 0 { self@.x } else if i == 1 { self@.y } else { self@.z }),
    {
        match i {
            0 => self.x,
            1 => self.y,
            _ => self.z,
        }
    }
}

/// The normal with the same components as the vector `v`.
pub open spec fn normal_of_vector(v: Vector3) -> Normal3 {
    Normal3 { x: v.x, y: v.y, z: v.z }
}

impl From<Vector3> for Normal3 {
    /// Reinterprets a direction vector as a surface normal.
    fn from(v: Vector3) -> (r: Normal3)
        ensures
            r == normal_of_vector(v),
    {
        Normal3 { x: v.x, y: v.y, z: v.z }
    }
}

impl vstd::std_specs::convert::FromSpecImpl<Vector3> for Normal3 {
    open spec fn obeys_from_spec() -> bool {
        true
    }

    open spec fn from_spec(v: Vector3) -> Normal3 {
        normal_of_vector(v)
    }
}

/// Converting a normal to a vector and back is lossless: the round trip
/// hands back the starting normal unchanged, for every component value.
pub proof fn lemma_normal_vector_round_trip(n: Normal3)
    ensures
        normal_of_vector(crate::vector::vector_of_normal(n)) == n,
{
}

} // verus!
