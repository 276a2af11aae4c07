//! The sphere.

use vstd::prelude::*;
use std::ops::Range;
use std::sync::Arc;
use crate::aabb::AABB;
use crate::hit_able::model::{Node, NodeView};
use crate::hit_able::visitor::Visitor;
use crate::serialization::error::SceneError;
use crate::material::Material;
use crate::object::IdCounter;
use crate::ray::{is_within, within, HitRecord, Ray};
use crate::scalar::Scalar;
use crate::vector::{Point3, Vector3};

verus! {

/// A sphere.
#[derive(Clone, Debug, PartialEq, Eq)]
pub struct Sphere {
    pub id: usize,
    pub center: Point3,
    pub radius: Scalar,
    pub material: Arc<Material>,
}

/// The box from `center - radius` to `center + radius` on every axis.
pub open spec fn sphere_box(center: Point3, radius: Scalar) -> AABB {
    let r = Vector3 { x: radius, y: radius, z: radius };
    AABB { min: center.spec_minus(r), max: center.spec_plus(r) }
}

/// The record of the ray meeting the sphere at parameter `t`.
pub open spec fn sphere_record(
    center: Point3,
    radius: Scalar,
    material: usize,
    ray: Ray,
    t: Scalar,
) -> HitRecord {
    let position = ray.spec_point_at(t);
    HitRecord { t, position, normal: position.spec_minus(center).spec_divided_by(radius), material }
}

/// Where a ray meets a sphere: the nearer root of the quadratic in the ray
/// parameter if it lies in the range, else the farther one if that does.
/// A ray without direction and a sphere without radius meet nowhere.
pub open spec fn sphere_hit(
    center: Point3,
    radius: Scalar,
    material: usize,
    ray: Ray,
    range: Range<Scalar>,
) -> Option<HitRecord> {
    let oc = ray.origin.spec_minus(center);
    let a = ray.direction.spec_dot(ray.direction);
    let half_b = oc.spec_dot(ray.direction);
    let c = oc.spec_dot(oc).spec_minus(radius.spec_times(radius));
    let discriminant = half_b.spec_times(half_b).spec_minus(a.spec_times(c));
    if a.raw <= 0 || radius.raw == 0 || discriminant.raw < 0 {
        None
    } else {
        let root = discriminant.spec_sqrt();
        let near = half_b.spec_negated().spec_minus(root).spec_divided_by(a);
        let far = half_b.spec_negated().spec_plus(root).spec_divided_by(a);
        if within(range, near) {
            Some(sphere_record(center, radius, material, ray, near))
        } else if within(range, far) {
            Some(sphere_record(center, radius, material, ray, far))
        } else {
            None
        }
    }
}

impl View for Sphere {
    type V = NodeView;

    open spec fn view(&self) -> NodeView {
        Node::Sphere(*self)@
    }
}

impl Sphere {
    /// A sphere with a fresh identifier.
    pub fn new(ids: &mut IdCounter, center: Point3, radius: Scalar, material: Arc<Material>) -> (s:
        Sphere)
        requires
            old(ids).has_next(),
        ensures
            s.id == old(ids).next,
            s.center == center,
            s.radius == radius,
            s.material == material,
            final(ids).next == old(ids).next + 1,
    {
        Sphere { id: ids.new_id(), center, radius, material }
    }

    /// A sphere with the given identifier.
    pub fn new_id(id: usize, center: Point3, radius: Scalar, material: Arc<Material>) -> (s: Sphere)
        ensures
            s.id == id,
            s.center == center,
            s.radius == radius,
            s.material == material,
    {
        Sphere { id, center, radius, material }
    }

    /// The identifier of the sphere.
    pub fn get_id(&self) -> (id: usize)
        ensures
            id == self@.id(),
    {
        self.id
    }

    /// The box from the centre less the radius to the centre plus the radius.
    pub fn bounding_box(&self, t_range: Range<Scalar>) -> (b: Option<AABB>)
        ensures
            b == self@.bounding_box(),
    {
        let r = Vector3::new(self.radius, self.radius, self.radius);
        Some(AABB::new(self.center.minus(r), self.center.plus(r)))
    }

    /// The record of the ray meeting the sphere at parameter `t`.
    fn record(&self, ray: &Ray, t: Scalar) -> (h: HitRecord)
        ensures
            h == sphere_record(self.center, self.radius, self.material@.id(), *ray, t),
    {
        let position = ray.point_at(t);
        HitRecord {
            t,
            position,
            normal: position.minus(self.center).divided_by(self.radius),
            material: self.material.get_id(),
        }
    }

    /// Where the ray meets the sphere: at the nearer root of the quadratic, if
    /// that lies within the range, else at the farther one, if that does.
    pub fn hit(&self, ray: &Ray, t_range: Range<Scalar>) -> (h: Option<HitRecord>)
        ensures
            h == self@.hit(*ray, t_range),
    {
        let oc = ray.origin.minus(self.center);
        let a = ray.direction.dot(ray.direction);
        let half_b = oc.dot(ray.direction);
        let c = oc.dot(oc).minus(self.radius.times(self.radius));
        let discriminant = half_b.times(half_b).minus(a.times(c));
        if a.raw <= 0 || self.radius.raw == 0 || discriminant.raw < 0 {
            return None;
        }
        let root = discriminant.sqrt();
        let near = half_b.negated().minus(root).divided_by(a);
        if is_within(&t_range, near) {
            return Some(self.record(ray, near));
        }
        let far = half_b.negated().plus(root).divided_by(a);
        if is_within(&t_range, far) {
            return Some(self.record(ray, far));
        }
        None
    }

    /// Zero: a sphere is no target of sampling.
    pub fn pdf_value(&self, o: &Vector3, v: &Vector3) -> (p: Scalar)
        ensures
            p == self@.pdf_value(*o, *v),
    {
        Scalar::zero()
    }

    /// The default direction.
    pub fn random(&self, o: &Vector3) -> (d: Vector3)
        ensures
            d == self@.random(*o),
    {
        Vector3::new(Scalar::one(), Scalar::zero(), Scalar::zero())
    }

    /// Hands the shape to the visitor's method for spheres.
    pub fn accept<V: Visitor>(&self, visitor: &mut V) -> (r: Result<(), SceneError>)
        ensures
            V::sphere_visited(*old(visitor), *final(visitor), self@, r),
    {
        visitor.visit_shape_sphere(self)
    }
}

} // verus!
