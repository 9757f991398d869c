//! Axis-aligned bounding box over two corner points, with corner
//! enumeration, diagonal, surface area, volume, dominant-axis query,
//! box-relative offset and containment tests.

use vstd::prelude::*;

use crate::model::{
    Triple, div_trunc, in_i64, lemma_div_trunc_in_i64, sub_fits, t_sub,
};
use crate::point::Point3;
use crate::vector::Vector3;

verus! {

/// A valid (non-default) box keeps `p_min` at most `p_max` on every axis;
/// the default box instead spans all space (see `Default`).
#[derive(Debug, Clone, Copy, PartialEq, Eq, Structural)]
pub struct Bounds3 {
    pub p_min: Point3,
    pub p_max: Point3,
}

/// Construction from one point (zero-volume box) or from a pair of
/// already-ordered corner points; the constructor does not sort them.
pub trait New<T> {
    type Output;

    fn new(p: T) -> Self::Output;
}

/// The diagonal of the box: its maximum corner minus its minimum corner.
pub open spec fn b_diagonal(b: Bounds3) -> Triple {
    t_sub(b.p_max@, b.p_min@)
}

/// Product of the three diagonal components.
pub open spec fn t_volume(d: Triple) -> int {
    d.x * d.y * d.z
}

/// Twice the sum of the three pairwise face products of the diagonal.
pub open spec fn t_surface_area(d: Triple) -> int {
    2 * (d.x * d.y + d.x * d.z + d.y * d.z)
}

/// The axis (0 is x, 1 is y, 2 is z) whose raw signed diagonal component is
/// largest; x wins a tie with y, and y wins a tie with z.
pub open spec fn dominant_axis(d: Triple) -> i32 {
    if d.x >= d.y && d.x >= d.z {
        0
    } else if d.y >= d.z {
        1
    } else {
        2
    }
}

/// `p` lies within `[lo, hi]` inclusive on all three axes.
pub open spec fn t_inside(p: Triple, lo: Triple, hi: Triple) -> bool {
    lo.x <= p.x <= hi.x && lo.y <= p.y <= hi.y && lo.z <= p.z <= hi.z
}

/// Box-relative position of one coordinate: rescaled by the axis width where
/// the axis has positive width, and the raw difference from the minimum on a
/// degenerate axis.
pub open spec fn offset_coord(p: int, lo: int, hi: int) -> int {
    if hi > lo {
        div_trunc(p - lo, hi - lo)
    } else {
        p - lo
    }
}

/// Every intermediate value of the surface area stays within `i64`.
pub open spec fn surface_area_fits(d: Triple) -> bool {
    in_i64(d.x * d.y) && in_i64(d.x * d.z) && in_i64(d.y * d.z)
        && in_i64(d.x * d.y + d.x * d.z) && in_i64(d.x * d.y + d.x * d.z + d.y * d.z)
        && in_i64(t_surface_area(d))
}

/// Every intermediate value of the volume stays within `i64`.
pub open spec fn volume_fits(d: Triple) -> bool {
    in_i64(d.x * d.y) && in_i64(t_volume(d))
}

impl Bounds3 {
    /// Corner selection: bit 0 of `corner` picks the x coordinate, bit 1 the
    /// y coordinate and bit 2 the z coordinate, each from `p_min` when the
    /// bit is clear and from `p_max` when it is set.
    pub fn corner(&self, corner: u32) -> (r: Point3)
        ensures
            r@.x == (if corner & 1 == 0 { self.p_min@.x } else { self.p_max@.x }),
            r@.y == (if corner & 2 == 0 { self.p_min@.y } else { self.p_max@.y }),
            r@.z == (if corner & 4 == 0 { self.p_min@.z } else { self.p_max@.z }),
    {
        proof {
            assert((corner & 1 == 0) || (corner & 1 == 1)) by (bit_vector);
            assert(((corner & 2) >> 1 == 0 && corner & 2 == 0) || ((corner & 2) >> 1 == 1
                && corner & 2 != 0)) by (bit_vector);
            assert(((corner & 4) >> 2 == 0 && corner & 4 == 0) || ((corner & 4) >> 2 == 1
                && corner & 4 != 0)) by (bit_vector);
        }
        Point3 {
            x: self.index(corner & 1).x,
            y: self.index((corner & 2) >> 1).y,
            z: self.index((corner & 4) >> 2).z,
        }
    }

    /// The vector from the minimum corner to the maximum corner.
    pub fn diagonal(&self) -> (r: Vector3)
        requires
            sub_fits(self.p_max@, self.p_min@),
        ensures
            r@ == b_diagonal(*self),
    {
        self.p_max.sub(self.p_min)
    }

    /// Total area of the six faces.
    pub fn surface_area(&self) -> (r: i64)
        requires
            sub_fits(self.p_max@, self.p_min@),
            surface_area_fits(b_diagonal(*self)),
        ensures
            r == t_surface_area(b_diagonal(*self)),
    {
        let d = self.diagonal();
        (d.x * d.y + d.x * d.z + d.y * d.z) * 2
    }

    /// Volume enclosed by the box.
    pub fn volume(&self) -> (r: i64)
        requires
            sub_fits(self.p_max@, self.p_min@),
            volume_fits(b_diagonal(*self)),
        ensures
            r == t_volume(b_diagonal(*self)),
    {
        let d = self.diagonal();
        d.x * d.y * d.z
    }

    /// The axis with the largest signed diagonal component, with ties broken
    /// in favour of x over y and y over z.
    pub fn maximum_extent(&self) -> (r: i32)
        requires
            sub_fits(self.p_max@, self.p_min@),
        ensures
            r == dominant_axis(b_diagonal(*self)),
    {
        let d = self.diagonal();
        if d.x >= d.y && d.x >= d.z {
            0
        } else if d.y >= d.z {
            1
        } else {
            2
        }
    }

    /// Position of `p` relative to the box, rescaled to the box width on
    /// every axis of positive width and left as the raw difference from the
    /// minimum corner on a degenerate axis.
    pub fn offset(&self, p: &Point3) -> (r: Vector3)
        requires
            sub_fits(p@, self.p_min@),
            sub_fits(self.p_max@, self.p_min@),
        ensures
            r@.x == offset_coord(p@.x, self.p_min@.x, self.p_max@.x),
            r@.y == offset_coord(p@.y, self.p_min@.y, self.p_max@.y),
            r@.z == offset_coord(p@.z, self.p_min@.z, self.p_max@.z),
    {
        let mut o = p.sub(self.p_min);
        if self.p_max.x > self.p_min.x {
            proof {
                lemma_div_trunc_in_i64(o@.x, self.p_max@.x - self.p_min@.x);
            }
            o.x = o.x / (self.p_max.x - self.p_min.x);
        }
        if self.p_max.y > self.p_min.y {
            proof {
                lemma_div_trunc_in_i64(o@.y, self.p_max@.y - self.p_min@.y);
            }
            o.y = o.y / (self.p_max.y - self.p_min.y);
        }
        if self.p_max.z > self.p_min.z {
            proof {
                lemma_div_trunc_in_i64(o@.z, self.p_max@.z - self.p_min@.z);
            }
            o.z = o.z / (self.p_max.z - self.p_min.z);
        }
        o
    }

    /// `p` lies within `b`, with all six faces inclusive.
    pub fn inside(p: &Point3, b: &Bounds3) -> (r: bool)
        ensures
            r == t_inside(p@, b.p_min@, b.p_max@),
    {
        p.x >= b.p_min.x && p.x <= b.p_max.x && p.y >= b.p_min.y && p.y <= b.p_max.y
            && p.z >= b.p_min.z && p.z <= b.p_max.z
    }

    /// Corner-point access: 1 is `p_max`, and any other index aliases
    /// `p_min`.
    pub fn index(&self, i: u32) -> (r: Point3)
        ensures
            r == (if i == 1 { self.p_max } else { self.p_min }),
    {
        match i {
            0 => self.p_min,
            1 => self.p_max,
            _ => self.p_min,
        }
    }
}

impl<'a> New<&'a Point3> for Bounds3 {
    type Output = Bounds3;

    /// A zero-volume box holding exactly the given point.
    fn new(p: &Point3) -> (r: Bounds3)
        ensures
            r.p_min == *p,
            r.p_max == *p,
    {
        Bounds3 { p_min: *p, p_max: *p }
    }
}

impl<'a, 'b> New<(&'a Point3, &'b Point3)> for Bounds3 {
    type Output = Bounds3;

    /// The box spanning two corner points, which the caller passes already
    /// ordered as minimum and maximum; the constructor does not sort them.
    fn new(p: (&Point3, &Point3)) -> (r: Bounds3)
        ensures
            r.p_min == *p.0,
            r.p_max == *p.1,
    {
        Bounds3 { p_min: *p.0, p_max: *p.1 }
    }
}

impl Default for Bounds3 {
    /// The sentinel box stored by default: minimum corner at the scalar
    /// type's lowest value and maximum corner at its greatest, so the box
    /// deliberately covers all representable space rather than none.
    fn default() -> (r: Bounds3)
        ensures
            r.p_min@.x == i64::MIN,
            r.p_min@.y == i64::MIN,
            r.p_min@.z == i64::MIN,
            r.p_max@.x == i64::MAX,
            r.p_max@.y == i64::MAX,
            r.p_max@.z == i64::MAX,
    {
        let min_num = i64::MIN;
        let max_num = i64::MAX;
        Bounds3 {
            p_min: Point3 { x: min_num, y: min_num, z: min_num },
            p_max: Point3 { x: max_num, y: max_num, z: max_num },
        }
    }
}

} // verus!
