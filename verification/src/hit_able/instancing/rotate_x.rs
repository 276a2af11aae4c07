//! A node turned about the x axis.

use vstd::prelude::*;
use std::ops::Range;
use std::sync::Arc;
use crate::aabb::AABB;
use crate::hit_able::model::{Node, NodeView};
use crate::hit_able::visitor::Visitor;
use crate::object::IdCounter;
use crate::ray::{HitRecord, Ray};
use crate::scalar::Scalar;
use crate::serialization::error::SceneError;
use crate::trig::{cosine, cosine_of, sine, sine_of};
use crate::vector::{Point3, Vector3};

verus! {

/// Shows its child turned about the x axis. Rays are taken into the frame
/// of the child; the child itself is never moved. The box that bounds the
/// turned child is worked out once, when the wrapper is made.
#[derive(Clone, Debug, PartialEq, Eq)]
pub struct RotateX {
    pub id: usize,
    pub sin_theta: Scalar,
    pub cos_theta: Scalar,
    pub node: Arc<Node>,
    /// The box that was worked out when the wrapper was made.
    pub aabb: Option<AABB>,
}

/// The point turned forward: from the frame of the child to that of the
/// wrapper.
pub open spec fn rotated(sin: Scalar, cos: Scalar, p: Vector3) -> Vector3 {
    Vector3 {
        x: p.x,
        y: Scalar::spec_mul_add(cos, p.y, sin, p.z),
        z: Scalar::spec_mul_sub(cos, p.z, sin, p.y),
    }
}

/// The point turned back: from the frame of the wrapper to that of the
/// child.
pub open spec fn rotated_back(sin: Scalar, cos: Scalar, p: Vector3) -> Vector3 {
    Vector3 {
        x: p.x,
        y: Scalar::spec_mul_sub(cos, p.y, sin, p.z),
        z: Scalar::spec_mul_add(sin, p.y, cos, p.z),
    }
}

/// The ray in the frame of the child. Its time is kept.
pub open spec fn inverse_ray(sin: Scalar, cos: Scalar, ray: Ray) -> Ray {
    Ray {
        origin: rotated_back(sin, cos, ray.origin),
        direction: rotated_back(sin, cos, ray.direction),
        time: ray.time,
    }
}

/// A hit of the child, with position and normal in the frame of the wrapper.
pub open spec fn rotated_record(sin: Scalar, cos: Scalar, h: Option<HitRecord>) -> Option<
    HitRecord,
> {
    match h {
        Some(h) => Some(
            HitRecord {
                position: rotated(sin, cos, h.position),
                normal: rotated(sin, cos, h.normal),
                ..h
            },
        ),
        None => None,
    }
}

/// The box around the turned images of four corners of `b`: its two extreme
/// corners and the two that take `z` from the other extreme. A turn about
/// the x axis mixes only `y` and `z`, so these four stand for all eight.
pub open spec fn rotated_box(sin: Scalar, cos: Scalar, b: Option<AABB>) -> Option<AABB> {
    match b {
        Some(b) => Some(
            AABB::spanning(rotated(sin, cos, b.min), rotated(sin, cos, b.max)).spec_or_vector(
                rotated(sin, cos, Vector3 { x: b.min.x, y: b.min.y, z: b.max.z }),
            ).spec_or_vector(rotated(sin, cos, Vector3 { x: b.max.x, y: b.max.y, z: b.min.z })),
        ),
        None => None,
    }
}

/// Whether `p` is one of the eight corners of `b`.
pub open spec fn is_corner(b: AABB, p: Point3) -> bool {
    &&& p.x == b.min.x || p.x == b.max.x
    &&& p.y == b.min.y || p.y == b.max.y
    &&& p.z == b.min.z || p.z == b.max.z
}

/// The box of a turned child holds the turned image of every corner of the
/// child's box.
pub proof fn lemma_rotated_box_holds_corners(sin: Scalar, cos: Scalar, b: AABB, corner: Point3)
    requires
        is_corner(b, corner),
    ensures
        rotated_box(sin, cos, Some(b)) matches Some(r) && r.well_formed() && r.contains(
            rotated(sin, cos, corner),
        ),
{
}

/// A product with a number of a range lies between its products with the ends
/// of the range.
proof fn lemma_extreme(c: int, lo: int, hi: int, v: int) -> (e: (int, int))
    requires
        lo <= v <= hi,
    ensures
        e.0 == lo || e.0 == hi,
        e.1 == lo || e.1 == hi,
        c * e.0 <= c * v <= c * e.1,
{
    if c >= 0 {
        assert(c * lo <= c * v <= c * hi) by (nonlinear_arith)
            requires
                c >= 0,
                lo <= v <= hi,
        {
        }
        (lo, hi)
    } else {
        assert(c * hi <= c * v <= c * lo) by (nonlinear_arith)
            requires
                c < 0,
                lo <= v <= hi,
        {
        }
        (hi, lo)
    }
}

/// Rounding down and saturating keep the order of numbers.
proof fn lemma_saturated_ordered(a: int, b: int)
    requires
        a <= b,
    ensures
        crate::scalar::saturated(a / crate::scalar::SCALE as int).raw <= crate::scalar::saturated(
            b / crate::scalar::SCALE as int,
        ).raw,
{
    vstd::arithmetic::div_mod::lemma_div_is_ordered(a, b, crate::scalar::SCALE as int);
}

/// The box of a turned child holds the turned image of every point of the
/// child's box.
pub proof fn lemma_rotated_box_holds_points(sin: Scalar, cos: Scalar, b: AABB, p: Point3)
    requires
        b.contains(p),
    ensures
        rotated_box(sin, cos, Some(b)) matches Some(r) && r.contains(rotated(sin, cos, p)),
{
    let r = rotated_box(sin, cos, Some(b))->Some_0;
    let q = rotated(sin, cos, p);
    let (c, s) = (cos.raw as int, sin.raw as int);
    let cy = lemma_extreme(c, b.min.y.raw as int, b.max.y.raw as int, p.y.raw as int);
    let sz = lemma_extreme(s, b.min.z.raw as int, b.max.z.raw as int, p.z.raw as int);
    let cz = lemma_extreme(c, b.min.z.raw as int, b.max.z.raw as int, p.z.raw as int);
    let sy = lemma_extreme(s, b.min.y.raw as int, b.max.y.raw as int, p.y.raw as int);
    // y' = (c * y + s * z) / SCALE lies between its values at two corners
    lemma_saturated_ordered(c * cy.0 + s * sz.0, c * p.y.raw + s * p.z.raw);
    lemma_saturated_ordered(c * p.y.raw + s * p.z.raw, c * cy.1 + s * sz.1);
    // z' = (c * z - s * y) / SCALE likewise
    lemma_saturated_ordered(c * cz.0 - s * sy.1, c * p.z.raw - s * p.y.raw);
    lemma_saturated_ordered(c * p.z.raw - s * p.y.raw, c * cz.1 - s * sy.0);
    let corner_low_y = Vector3 { x: b.min.x, y: Scalar { raw: cy.0 as i64 }, z: Scalar { raw: sz.0 as i64 } };
    let corner_high_y = Vector3 { x: b.min.x, y: Scalar { raw: cy.1 as i64 }, z: Scalar { raw: sz.1 as i64 } };
    let corner_low_z = Vector3 { x: b.min.x, y: Scalar { raw: sy.1 as i64 }, z: Scalar { raw: cz.0 as i64 } };
    let corner_high_z = Vector3 { x: b.min.x, y: Scalar { raw: sy.0 as i64 }, z: Scalar { raw: cz.1 as i64 } };
    lemma_rotated_box_holds_corners(sin, cos, b, corner_low_y);
    lemma_rotated_box_holds_corners(sin, cos, b, corner_high_y);
    lemma_rotated_box_holds_corners(sin, cos, b, corner_low_z);
    lemma_rotated_box_holds_corners(sin, cos, b, corner_high_z);
    assert(rotated(sin, cos, corner_low_y).y.raw <= q.y.raw <= rotated(sin, cos, corner_high_y).y.raw);
    assert(rotated(sin, cos, corner_low_z).z.raw <= q.z.raw <= rotated(sin, cos, corner_high_z).z.raw);
    lemma_rotated_box_holds_corners(sin, cos, b, Vector3 { x: b.min.x, y: b.min.y, z: b.min.z });
    lemma_rotated_box_holds_corners(sin, cos, b, Vector3 { x: b.max.x, y: b.min.y, z: b.min.z });
}

/// The box of a well-formed wrapper holds the turned image of every point
/// of the box of its child.
pub proof fn lemma_bounding_box_holds_turned_child(r: RotateX, p: Point3)
    requires
        r.well_formed(),
        r.node@.bounding_box() matches Some(b) && b.contains(p),
    ensures
        r@.bounding_box() matches Some(a) && a.contains(rotated(r.sin_theta, r.cos_theta, p)),
{
    lemma_rotated_box_holds_points(
        r.sin_theta,
        r.cos_theta,
        r.node@.bounding_box()->Some_0,
        p,
    );
}

impl View for RotateX {
    type V = NodeView;

    open spec fn view(&self) -> NodeView {
        Node::RotateX(*self)@
    }
}

impl RotateX {
    /// Whether the cached box is the one that belongs to the child and the
    /// angle. Every wrapper that this library makes is well-formed.
    pub open spec fn well_formed(&self) -> bool {
        self.aabb == rotated_box(self.sin_theta, self.cos_theta, self.node@.bounding_box())
    }

    /// A wrapper with a fresh identifier that shows `node` turned by
    /// `angle_radians`.
    pub fn new(ids: &mut IdCounter, angle_radians: Scalar, node: Arc<Node>) -> (r: RotateX)
        requires
            old(ids).has_next(),
        ensures
            r.id == old(ids).next,
            final(ids).next == old(ids).next + 1,
            r.sin_theta.raw == sine_of(angle_radians.raw as int),
            r.cos_theta.raw == cosine_of(angle_radians.raw as int),
            r.node == node,
            r.well_formed(),
    {
        RotateX::new_id(ids.new_id(), angle_radians, node)
    }

    /// A wrapper with the given identifier that shows `node` turned by
    /// `angle_radians`.
    pub fn new_id(id: usize, angle_radians: Scalar, node: Arc<Node>) -> (r: RotateX)
        ensures
            r.id == id,
            r.sin_theta.raw == sine_of(angle_radians.raw as int),
            r.cos_theta.raw == cosine_of(angle_radians.raw as int),
            r.node == node,
            r.well_formed(),
    {
        RotateX::from_sin_cos(id, sine(angle_radians), cosine(angle_radians), node)
    }

    /// A wrapper with the given identifier, for an angle given by its sine
    /// and cosine.
    pub fn from_sin_cos(id: usize, sin_theta: Scalar, cos_theta: Scalar, node: Arc<Node>) -> (r:
        RotateX)
        ensures
            r.id == id,
            r.sin_theta == sin_theta,
            r.cos_theta == cos_theta,
            r.node == node,
            r.well_formed(),
    {
        let child_box = node.bounding_box(Scalar::zero()..Scalar::one());
        let mut r = RotateX { id, sin_theta, cos_theta, node, aabb: None };
        r.aabb =
        match child_box {
            Some(b) => Some(
                AABB::between(r.rotate(b.min), r.rotate(b.max)).or_vector(
                    r.rotate(Point3::new(b.min.x, b.min.y, b.max.z)),
                ).or_vector(r.rotate(Point3::new(b.max.x, b.max.y, b.min.z))),
            ),
            None => None,
        };
        r
    }

    /// The point turned forward.
    pub fn rotate(&self, p: Point3) -> (q: Point3)
        ensures
            q == rotated(self.sin_theta, self.cos_theta, p),
    {
        Point3::new(
            p.x,
            Scalar::mul_add(self.cos_theta, p.y, self.sin_theta, p.z),
            Scalar::mul_sub(self.cos_theta, p.z, self.sin_theta, p.y),
        )
    }

    /// The point turned back.
    pub fn rotate_inverse(&self, p: Point3) -> (q: Point3)
        ensures
            q == rotated_back(self.sin_theta, self.cos_theta, p),
    {
        Point3::new(
            p.x,
            Scalar::mul_sub(self.cos_theta, p.y, self.sin_theta, p.z),
            Scalar::mul_add(self.sin_theta, p.y, self.cos_theta, p.z),
        )
    }

    /// The identifier of the wrapper.
    pub fn get_id(&self) -> (id: usize)
        ensures
            id == self@.id(),
    {
        self.id
    }

    /// The cached box, whatever the range of time: the wrapper takes its
    /// child to stand still.
    pub fn bounding_box(&self, t_range: Range<Scalar>) -> (b: Option<AABB>)
        ensures
            b == self@.bounding_box(),
            b == self.aabb,
    {
        self.aabb
    }

    /// Where the ray meets the turned child: the ray is turned back into the
    /// frame of the child, keeping its time, and position and normal of the
    /// child's answer are turned forward.
    pub fn hit(&self, ray: &Ray, t_range: Range<Scalar>) -> (h: Option<HitRecord>)
        ensures
            h == self@.hit(*ray, t_range),
            h == rotated_record(
                self.sin_theta,
                self.cos_theta,
                self.node@.hit(inverse_ray(self.sin_theta, self.cos_theta, *ray), t_range),
            ),
        decreases self,
    {
        match self.node.hit(
            &Ray::new_ray_with_attributes(
                self.rotate_inverse(ray.origin),
                self.rotate_inverse(ray.direction),
                ray,
            ),
            t_range,
        ) {
            Some(mut hit_record) => {
                hit_record.position = self.rotate(hit_record.position);
                hit_record.normal = self.rotate(hit_record.normal);
                Some(hit_record)
            },
            None => None,
        }
    }

    /// The density that the child gives to the direction turned back into
    /// its frame.
    ///
    /// In both sampling queries directions cross between the frames and
    /// origins do not: `pdf_value` turns the direction it is asked about
    /// back into the frame of the child, `random` turns the direction that
    /// the child offers forward, and either hands the origin to the child as
    /// it stands.
    pub fn pdf_value(&self, o: &Vector3, v: &Vector3) -> (p: Scalar)
        ensures
            p == self@.pdf_value(*o, *v),
            p == self.node@.pdf_value(*o, rotated_back(self.sin_theta, self.cos_theta, *v)),
        decreases self,
    {
        self.node.pdf_value(o, &self.rotate_inverse(*v))
    }

    /// The direction that the child offers, turned forward. See
    /// `pdf_value` for the rule that both queries follow.
    pub fn random(&self, o: &Vector3) -> (d: Vector3)
        ensures
            d == self@.random(*o),
            d == rotated(self.sin_theta, self.cos_theta, self.node@.random(*o)),
        decreases self,
    {
        self.rotate(self.node.random(o))
    }

    /// Hands the wrapper to the visitor's method for turns about the x axis.
    pub fn accept<V: Visitor>(&self, visitor: &mut V) -> (r: Result<(), SceneError>)
        ensures
            V::rotate_x_visited(*old(visitor), *final(visitor), self@, r),
    {
        visitor.visit_instancing_rotate_x(self)
    }
}

} // verus!
