//! Axis-aligned bounding boxes.

use vstd::prelude::*;
use crate::vector::{Point3, Vector3};

verus! {

/// An axis-aligned box, given by its two extreme corners.
#[derive(Clone, Copy, Debug, PartialEq, Eq, Structural)]
pub struct AABB {
    pub min: Point3,
    pub max: Point3,
}

impl AABB {
    /// Whether `min` lies at or below `max` on every axis.
    pub open spec fn well_formed(self) -> bool {
        self.min.le(self.max)
    }

    /// Whether the point lies inside the box or on its border.
    pub open spec fn contains(self, p: Point3) -> bool {
        self.min.le(p) && p.le(self.max)
    }

    /// The box with the two given points as corners, whichever way round.
    pub open spec fn spanning(a: Point3, b: Point3) -> AABB {
        AABB { min: a.spec_min(b), max: a.spec_max(b) }
    }

    /// Union: the smallest box that holds both.
    pub open spec fn spec_merge(self, other: AABB) -> AABB {
        AABB { min: self.min.spec_min(other.min), max: self.max.spec_max(other.max) }
    }

    /// The box stretched on each axis as far as needed to hold `p`.
    pub open spec fn spec_or_vector(self, p: Point3) -> AABB {
        AABB { min: self.min.spec_min(p), max: self.max.spec_max(p) }
    }

    /// Union of two boxes either of which may be absent: an absent operand
    /// yields the other.
    pub open spec fn spec_merge_optional(a: Option<AABB>, b: Option<AABB>) -> Option<AABB> {
        match (a, b) {
            (Some(x), Some(y)) => Some(x.spec_merge(y)),
            (Some(x), None) => Some(x),
            (None, y) => y,
        }
    }

    /// The box with the given corners, as they stand.
    pub fn new(min: Point3, max: Point3) -> (b: AABB)
        ensures
            b == (AABB { min, max }),
    {
        AABB { min, max }
    }

    /// The box with the two given points as corners, whichever way round.
    pub fn between(a: Point3, b: Point3) -> (r: AABB)
        ensures
            r == AABB::spanning(a, b),
            r.well_formed(),
            r.contains(a),
            r.contains(b),
    {
        AABB { min: a.min(b), max: a.max(b) }
    }

    /// The smallest box that holds both boxes.
    pub fn merge(self, other: AABB) -> (b: AABB)
        ensures
            b == self.spec_merge(other),
    {
        AABB { min: self.min.min(other.min), max: self.max.max(other.max) }
    }

    /// The box stretched on each axis as far as needed to hold `p`.
    pub fn or_vector(self, p: Point3) -> (b: AABB)
        ensures
            b == self.spec_or_vector(p),
    {
        AABB { min: self.min.min(p), max: self.max.max(p) }
    }

    /// The union of two boxes either of which may be absent.
    pub fn merge_optional(a: Option<AABB>, b: Option<AABB>) -> (r: Option<AABB>)
        ensures
            r == AABB::spec_merge_optional(a, b),
    {
        match (a, b) {
            (Some(x), Some(y)) => Some(x.merge(y)),
            (Some(x), None) => Some(x),
            (None, y) => y,
        }
    }

    /// Merging a box into a union that already holds it changes nothing.
    pub proof fn lemma_merge_idempotent(a: AABB, b: AABB)
        ensures
            a.spec_merge(a.spec_merge(b)) == a.spec_merge(b),
            a.spec_merge(a) == a,
    {
    }

    /// The union does not depend on the order of its operands.
    pub proof fn lemma_merge_commutative(a: AABB, b: AABB)
        ensures
            a.spec_merge(b) == b.spec_merge(a),
    {
    }

    /// The union of three boxes does not depend on how they are grouped.
    pub proof fn lemma_merge_associative(a: AABB, b: AABB, c: AABB)
        ensures
            a.spec_merge(b).spec_merge(c) == a.spec_merge(b.spec_merge(c)),
    {
    }

    /// The union of well-formed boxes is well-formed and holds every point
    /// of both.
    pub proof fn lemma_merge_covers(a: AABB, b: AABB, p: Point3)
        requires
            a.well_formed() || b.well_formed(),
        ensures
            a.spec_merge(b).well_formed(),
            a.contains(p) || b.contains(p) ==> a.spec_merge(b).contains(p),
    {
    }

    /// A stretched box holds the point it was stretched to and every point
    /// it held before; stretching a well-formed box leaves it well-formed.
    pub proof fn lemma_or_vector_covers(a: AABB, p: Point3, q: Point3)
        ensures
            a.well_formed() ==> a.spec_or_vector(p).well_formed(),
            a.well_formed() ==> a.spec_or_vector(p).contains(p),
            a.contains(q) ==> a.spec_or_vector(p).contains(q),
    {
    }

    /// The laws of the union hold as well when either operand may be
    /// absent.
    pub proof fn lemma_merge_optional_laws(a: Option<AABB>, b: Option<AABB>, c: Option<AABB>)
        ensures
            AABB::spec_merge_optional(a, AABB::spec_merge_optional(a, b))
                == AABB::spec_merge_optional(a, b),
            AABB::spec_merge_optional(a, b) == AABB::spec_merge_optional(b, a),
            AABB::spec_merge_optional(AABB::spec_merge_optional(a, b), c)
                == AABB::spec_merge_optional(a, AABB::spec_merge_optional(b, c)),
    {
    }
}

} // verus!
