//! The axis-aligned cuboid.

use vstd::prelude::*;
use std::ops::Range;
use std::sync::Arc;
use crate::aabb::AABB;
use crate::hit_able::model::{Node, NodeView};
use crate::hit_able::visitor::Visitor;
use crate::serialization::error::SceneError;
use crate::material::Material;
use crate::object::IdCounter;
use crate::ray::{is_within, within, HitRecord, Ray};
use crate::scalar::Scalar;
use crate::vector::{Point3, Vector3};

verus! {

/// A solid box with faces across the axes, from `min` to `max`.
#[derive(Clone, Debug, PartialEq, Eq)]
pub struct Cuboid {
    pub id: usize,
    pub min: Point3,
    pub max: Point3,
    pub material: Arc<Material>,
}

/// The part of a ray that lies between two parallel planes across one axis.
pub enum Slab {
    /// The ray runs beside the planes and never between them.
    Outside,
    /// The ray runs along the planes, between them for ever.
    Along,
    /// The ray crosses: it is between the planes from `near` to `far`.
    Across { near: Scalar, far: Scalar },
}

/// How a ray with origin `o` and direction `d` on one axis passes the
/// planes at `lo` and `hi` of that axis.
pub open spec fn slab(lo: Scalar, hi: Scalar, o: Scalar, d: Scalar) -> Slab {
    if d.raw == 0 {
        if lo.raw <= o.raw <= hi.raw {
            Slab::Along
        } else {
            Slab::Outside
        }
    } else {
        let a = lo.spec_minus(o).spec_divided_by(d);
        let b = hi.spec_minus(o).spec_divided_by(d);
        Slab::Across { near: a.spec_min(b), far: a.spec_max(b) }
    }
}

/// Where a ray enters and leaves a body, with the outward normal at each.
pub struct Crossing {
    pub enter: Scalar,
    pub enter_normal: Vector3,
    pub leave: Scalar,
    pub leave_normal: Vector3,
}

/// The unit vector along `axis` (0, 1 or 2), against the direction `d` of
/// travel if `against`, else with it.
pub open spec fn face_normal(axis: int, d: Scalar, against: bool) -> Vector3 {
    let one = Scalar { raw: 1_000_000 };
    let minus_one = Scalar { raw: (-1_000_000int) as i64 };
    let zero = Scalar { raw: 0 };
    let s = if (d.raw > 0) == against { minus_one } else { one };
    if axis == 0 {
        Vector3 { x: s, y: zero, z: zero }
    } else if axis == 1 {
        Vector3 { x: zero, y: s, z: zero }
    } else {
        Vector3 { x: zero, y: zero, z: s }
    }
}

/// The crossing `c` narrowed by the slab of one more axis; `None` once the
/// ray misses.
pub open spec fn narrowed(c: Option<Crossing>, s: Slab, axis: int, d: Scalar) -> Option<Crossing> {
    match (c, s) {
        (None, _) => None,
        (_, Slab::Outside) => None,
        (Some(c), Slab::Along) => Some(c),
        (Some(c), Slab::Across { near, far }) => {
            let c1 = if near.raw > c.enter.raw {
                Crossing { enter: near, enter_normal: face_normal(axis, d, true), ..c }
            } else {
                c
            };
            let c2 = if far.raw < c1.leave.raw {
                Crossing { leave: far, leave_normal: face_normal(axis, d, false), ..c1 }
            } else {
                c1
            };
            if c2.enter.raw > c2.leave.raw {
                None
            } else {
                Some(c2)
            }
        },
    }
}

/// The crossing of the whole line, before any axis has narrowed it.
pub open spec fn whole_line() -> Crossing {
    let zero = Scalar { raw: 0 };
    Crossing {
        enter: Scalar { raw: i64::MIN },
        enter_normal: Vector3 { x: zero, y: zero, z: zero },
        leave: Scalar { raw: i64::MAX },
        leave_normal: Vector3 { x: zero, y: zero, z: zero },
    }
}

/// Where the ray enters and leaves the box, if it passes through it.
pub open spec fn cuboid_crossing(min: Point3, max: Point3, ray: Ray) -> Option<Crossing> {
    let cx = narrowed(
        Some(whole_line()),
        slab(min.x, max.x, ray.origin.x, ray.direction.x),
        0,
        ray.direction.x,
    );
    let cy = narrowed(cx, slab(min.y, max.y, ray.origin.y, ray.direction.y), 1, ray.direction.y);
    narrowed(cy, slab(min.z, max.z, ray.origin.z, ray.direction.z), 2, ray.direction.z)
}

/// Where a ray meets the box: where it enters, if that lies in the range,
/// else where it leaves, if that does.
pub open spec fn cuboid_hit(
    min: Point3,
    max: Point3,
    material: usize,
    ray: Ray,
    range: Range<Scalar>,
) -> Option<HitRecord> {
    match cuboid_crossing(min, max, ray) {
        None => None,
        Some(c) => {
            if within(range, c.enter) {
                Some(
                    HitRecord {
                        t: c.enter,
                        position: ray.spec_point_at(c.enter),
                        normal: c.enter_normal,
                        material,
                    },
                )
            } else if within(range, c.leave) {
                Some(
                    HitRecord {
                        t: c.leave,
                        position: ray.spec_point_at(c.leave),
                        normal: c.leave_normal,
                        material,
                    },
                )
            } else {
                None
            }
        },
    }
}

/// How the ray passes the planes of one axis.
fn pass(lo: Scalar, hi: Scalar, o: Scalar, d: Scalar) -> (s: Slab)
    ensures
        s == slab(lo, hi, o, d),
{
    if d.raw == 0 {
        if lo.raw <= o.raw && o.raw <= hi.raw {
            Slab::Along
        } else {
            Slab::Outside
        }
    } else {
        let a = lo.minus(o).divided_by(d);
        let b = hi.minus(o).divided_by(d);
        Slab::Across { near: a.min(b), far: a.max(b) }
    }
}

/// The unit vector along `axis`, against the direction of travel or with it.
fn normal_of(axis: u8, d: Scalar, against: bool) -> (n: Vector3)
    ensures
        n == face_normal(axis as int, d, against),
{
    let s = if (d.raw > 0) == against { Scalar::one().negated() } else { Scalar::one() };
    if axis == 0 {
        Vector3::new(s, Scalar::zero(), Scalar::zero())
    } else if axis == 1 {
        Vector3::new(Scalar::zero(), s, Scalar::zero())
    } else {
        Vector3::new(Scalar::zero(), Scalar::zero(), s)
    }
}

/// The crossing narrowed by the slab of one more axis.
fn narrow(c: Option<Crossing>, s: Slab, axis: u8, d: Scalar) -> (r: Option<Crossing>)
    ensures
        r == narrowed(c, s, axis as int, d),
{
    match c {
        None => None,
        Some(c) => match s {
            Slab::Outside => None,
            Slab::Along => Some(c),
            Slab::Across { near, far } => {
                let mut c = c;
                if near.raw > c.enter.raw {
                    c.enter = near;
                    c.enter_normal = normal_of(axis, d, true);
                }
                if far.raw < c.leave.raw {
                    c.leave = far;
                    c.leave_normal = normal_of(axis, d, false);
                }
                if c.enter.raw > c.leave.raw {
                    None
                } else {
                    Some(c)
                }
            },
        },
    }
}

impl View for Cuboid {
    type V = NodeView;

    open spec fn view(&self) -> NodeView {
        Node::Cuboid(*self)@
    }
}

impl Cuboid {
    /// A cuboid between the two corners with a fresh identifier.
    pub fn new(ids: &mut IdCounter, range: Range<Point3>, material: Arc<Material>) -> (c: Cuboid)
        requires
            old(ids).has_next(),
        ensures
            c.id == old(ids).next,
            c.min == range.start,
            c.max == range.end,
            c.material == material,
            final(ids).next == old(ids).next + 1,
    {
        Cuboid { id: ids.new_id(), min: range.start, max: range.end, material }
    }

    /// A cuboid between the two corners with the given identifier.
    pub fn new_id(id: usize, range: Range<Point3>, material: Arc<Material>) -> (c: Cuboid)
        ensures
            c.id == id,
            c.min == range.start,
            c.max == range.end,
            c.material == material,
    {
        Cuboid { id, min: range.start, max: range.end, material }
    }

    /// The identifier of the cuboid.
    pub fn get_id(&self) -> (id: usize)
        ensures
            id == self@.id(),
    {
        self.id
    }

    /// The box between the two corners.
    pub fn bounding_box(&self, t_range: Range<Scalar>) -> (b: Option<AABB>)
        ensures
            b == self@.bounding_box(),
    {
        Some(AABB::new(self.min, self.max))
    }

    /// Where the ray enters and leaves the cuboid, if it passes through it.
    fn crossing(&self, ray: &Ray) -> (c: Option<Crossing>)
        ensures
            c == cuboid_crossing(self.min, self.max, *ray),
    {
        let zero = Vector3::new(Scalar::zero(), Scalar::zero(), Scalar::zero());
        let whole = Crossing {
            enter: Scalar::from_raw(i64::MIN),
            enter_normal: zero,
            leave: Scalar::from_raw(i64::MAX),
            leave_normal: zero,
        };
        let cx = narrow(
            Some(whole),
            pass(self.min.x, self.max.x, ray.origin.x, ray.direction.x),
            0,
            ray.direction.x,
        );
        let cy = narrow(
            cx,
            pass(self.min.y, self.max.y, ray.origin.y, ray.direction.y),
            1,
            ray.direction.y,
        );
        narrow(cy, pass(self.min.z, self.max.z, ray.origin.z, ray.direction.z), 2, ray.direction.z)
    }

    /// Where the ray enters the cuboid, if that lies within the range, else
    /// where it leaves it, if that does.
    pub fn hit(&self, ray: &Ray, t_range: Range<Scalar>) -> (h: Option<HitRecord>)
        ensures
            h == self@.hit(*ray, t_range),
    {
        match self.crossing(ray) {
            None => None,
            Some(c) => {
                if is_within(&t_range, c.enter) {
                    Some(
                        HitRecord {
                            t: c.enter,
                            position: ray.point_at(c.enter),
                            normal: c.enter_normal,
                            material: self.material.get_id(),
                        },
                    )
                } else if is_within(&t_range, c.leave) {
                    Some(
                        HitRecord {
                            t: c.leave,
                            position: ray.point_at(c.leave),
                            normal: c.leave_normal,
                            material: self.material.get_id(),
                        },
                    )
                } else {
                    None
                }
            },
        }
    }

    /// Zero: a cuboid is no target of sampling.
    pub fn pdf_value(&self, o: &Vector3, v: &Vector3) -> (p: Scalar)
        ensures
            p == self@.pdf_value(*o, *v),
    {
        Scalar::zero()
    }

    /// The default direction.
    pub fn random(&self, o: &Vector3) -> (d: Vector3)
        ensures
            d == self@.random(*o),
    {
        Vector3::new(Scalar::one(), Scalar::zero(), Scalar::zero())
    }

    /// Hands the shape to the visitor's method for cuboids.
    pub fn accept<V: Visitor>(&self, visitor: &mut V) -> (r: Result<(), SceneError>)
        ensures
            V::cuboid_visited(*old(visitor), *final(visitor), self@, r),
    {
        visitor.visit_shape_cuboid(self)
    }
}

} // verus!
