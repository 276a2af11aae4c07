//! Rays and the record of where one met a surface.

use vstd::prelude::*;
use std::ops::Range;
use crate::scalar::Scalar;
use crate::vector::{Point3, Vector3};

verus! {

/// A half-line: the points `origin + t * direction`, cast at a moment `time`.
#[derive(Clone, Copy, Debug, PartialEq, Eq, Structural)]
pub struct Ray {
    pub origin: Point3,
    pub direction: Vector3,
    pub time: Scalar,
}

/// Where a ray met a surface. Position and normal are in the frame of the
/// ray that was asked about.
#[derive(Clone, Copy, Debug, PartialEq, Eq, Structural)]
pub struct HitRecord {
    /// Parameter along the ray.
    pub t: Scalar,
    pub position: Point3,
    pub normal: Vector3,
    /// Identifier of the material of the surface.
    pub material: usize,
}

/// Whether `t` lies in the half-open range.
pub open spec fn within(range: Range<Scalar>, t: Scalar) -> bool {
    range.start.raw <= t.raw && t.raw < range.end.raw
}

/// Whether `t` lies in the half-open range.
pub fn is_within(range: &Range<Scalar>, t: Scalar) -> (b: bool)
    ensures
        b == within(*range, t),
{
    range.start.raw <= t.raw && t.raw < range.end.raw
}

impl Ray {
    /// The point of the ray at parameter `t`.
    pub open spec fn spec_point_at(self, t: Scalar) -> Point3 {
        self.origin.spec_plus(self.direction.spec_scaled(t))
    }

    /// A ray cast at time zero.
    pub fn new_ray(origin: Point3, direction: Vector3) -> (r: Ray)
        ensures
            r == (Ray { origin, direction, time: Scalar { raw: 0 } }),
    {
        Ray { origin, direction, time: Scalar::zero() }
    }

    /// A ray with a new origin and direction that keeps every other
    /// attribute of `ray`.
    pub fn new_ray_with_attributes(origin: Point3, direction: Vector3, ray: &Ray) -> (r: Ray)
        ensures
            r == (Ray { origin, direction, time: ray.time }),
    {
        Ray { origin, direction, time: ray.time }
    }

    /// The point of the ray at parameter `t`.
    pub fn point_at(&self, t: Scalar) -> (p: Point3)
        ensures
            p == self.spec_point_at(t),
    {
        self.origin.plus(self.direction.scaled(t))
    }
}

} // verus!
