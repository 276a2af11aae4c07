//! What every kind of node can do.

use vstd::prelude::*;
use std::ops::Range;
use crate::aabb::AABB;
use crate::hit_able::collection::Collection;
use crate::hit_able::instancing::flip_normals::FlipNormals;
use crate::hit_able::instancing::rotate_x::RotateX;
use crate::hit_able::model::{Node, NodeView};
use crate::hit_able::shape::cuboid::Cuboid;
use crate::hit_able::shape::sphere::Sphere;
use crate::hit_able::visitor::{visited, Visitor};
use crate::ray::{HitRecord, Ray};
use crate::scalar::Scalar;
use crate::serialization::error::SceneError;
use crate::vector::Vector3;

verus! {

/// Anything that answers for its bounding box, for the place where a ray
/// meets it, and for importance sampling, and that hands itself to a
/// visitor. Each answer is the one that the view of the node gives.
pub trait HitAble {
    /// What the node is.
    spec fn model(&self) -> NodeView;

    /// The identifier of the node.
    fn get_id(&self) -> (id: usize)
        ensures
            id == self.model().id(),
    ;

    /// A box that holds the node, or `None` for one without bounds.
    fn bounding_box(&self, t_range: Range<Scalar>) -> (b: Option<AABB>)
        ensures
            b == self.model().bounding_box(),
    ;

    /// Where the ray meets the node at a parameter within the range.
    fn hit(&self, ray: &Ray, t_range: Range<Scalar>) -> (h: Option<HitRecord>)
        ensures
            h == self.model().hit(*ray, t_range),
    ;

    /// The density with which a sampler at `o` picks the direction `v` towards
    /// the node.
    fn pdf_value(&self, o: &Vector3, v: &Vector3) -> (p: Scalar)
        ensures
            p == self.model().pdf_value(*o, *v),
    ;

    /// A direction from `o` towards the node, for a sampler.
    fn random(&self, o: &Vector3) -> (d: Vector3)
        ensures
            d == self.model().random(*o),
    ;

    /// Hands the node to the method of the visitor that is meant for its kind.
    fn accept<V: Visitor>(&self, visitor: &mut V) -> (r: Result<(), SceneError>)
        ensures
            visited::<V>(*old(visitor), *final(visitor), self.model(), r),
    ;
}

impl HitAble for Sphere {
    open spec fn model(&self) -> NodeView {
        self@
    }

    fn get_id(&self) -> (id: usize) {
        Sphere::get_id(self)
    }

    fn bounding_box(&self, t_range: Range<Scalar>) -> (b: Option<AABB>) {
        Sphere::bounding_box(self, t_range)
    }

    fn hit(&self, ray: &Ray, t_range: Range<Scalar>) -> (h: Option<HitRecord>) {
        Sphere::hit(self, ray, t_range)
    }

    fn pdf_value(&self, o: &Vector3, v: &Vector3) -> (p: Scalar) {
        Sphere::pdf_value(self, o, v)
    }

    fn random(&self, o: &Vector3) -> (d: Vector3) {
        Sphere::random(self, o)
    }

    fn accept<V: Visitor>(&self, visitor: &mut V) -> (r: Result<(), SceneError>) {
        Sphere::accept(self, visitor)
    }
}

impl HitAble for Cuboid {
    open spec fn model(&self) -> NodeView {
        self@
    }

    fn get_id(&self) -> (id: usize) {
        Cuboid::get_id(self)
    }

    fn bounding_box(&self, t_range: Range<Scalar>) -> (b: Option<AABB>) {
        Cuboid::bounding_box(self, t_range)
    }

    fn hit(&self, ray: &Ray, t_range: Range<Scalar>) -> (h: Option<HitRecord>) {
        Cuboid::hit(self, ray, t_range)
    }

    fn pdf_value(&self, o: &Vector3, v: &Vector3) -> (p: Scalar) {
        Cuboid::pdf_value(self, o, v)
    }

    fn random(&self, o: &Vector3) -> (d: Vector3) {
        Cuboid::random(self, o)
    }

    fn accept<V: Visitor>(&self, visitor: &mut V) -> (r: Result<(), SceneError>) {
        Cuboid::accept(self, visitor)
    }
}

impl HitAble for Collection {
    open spec fn model(&self) -> NodeView {
        self@
    }

    fn get_id(&self) -> (id: usize) {
        Collection::get_id(self)
    }

    fn bounding_box(&self, t_range: Range<Scalar>) -> (b: Option<AABB>) {
        Collection::bounding_box(self, t_range)
    }

    fn hit(&self, ray: &Ray, t_range: Range<Scalar>) -> (h: Option<HitRecord>) {
        Collection::hit(self, ray, t_range)
    }

    fn pdf_value(&self, o: &Vector3, v: &Vector3) -> (p: Scalar) {
        Collection::pdf_value(self, o, v)
    }

    fn random(&self, o: &Vector3) -> (d: Vector3) {
        Collection::random(self, o)
    }

    fn accept<V: Visitor>(&self, visitor: &mut V) -> (r: Result<(), SceneError>) {
        Collection::accept(self, visitor)
    }
}

impl HitAble for RotateX {
    open spec fn model(&self) -> NodeView {
        self@
    }

    fn get_id(&self) -> (id: usize) {
        RotateX::get_id(self)
    }

    fn bounding_box(&self, t_range: Range<Scalar>) -> (b: Option<AABB>) {
        RotateX::bounding_box(self, t_range)
    }

    fn hit(&self, ray: &Ray, t_range: Range<Scalar>) -> (h: Option<HitRecord>) {
        RotateX::hit(self, ray, t_range)
    }

    fn pdf_value(&self, o: &Vector3, v: &Vector3) -> (p: Scalar) {
        RotateX::pdf_value(self, o, v)
    }

    fn random(&self, o: &Vector3) -> (d: Vector3) {
        RotateX::random(self, o)
    }

    fn accept<V: Visitor>(&self, visitor: &mut V) -> (r: Result<(), SceneError>) {
        RotateX::accept(self, visitor)
    }
}

impl HitAble for FlipNormals {
    open spec fn model(&self) -> NodeView {
        self@
    }

    fn get_id(&self) -> (id: usize) {
        FlipNormals::get_id(self)
    }

    fn bounding_box(&self, t_range: Range<Scalar>) -> (b: Option<AABB>) {
        FlipNormals::bounding_box(self, t_range)
    }

    fn hit(&self, ray: &Ray, t_range: Range<Scalar>) -> (h: Option<HitRecord>) {
        FlipNormals::hit(self, ray, t_range)
    }

    fn pdf_value(&self, o: &Vector3, v: &Vector3) -> (p: Scalar) {
        FlipNormals::pdf_value(self, o, v)
    }

    fn random(&self, o: &Vector3) -> (d: Vector3) {
        FlipNormals::random(self, o)
    }

    fn accept<V: Visitor>(&self, visitor: &mut V) -> (r: Result<(), SceneError>) {
        FlipNormals::accept(self, visitor)
    }
}

impl HitAble for Node {
    open spec fn model(&self) -> NodeView {
        self@
    }

    fn get_id(&self) -> (id: usize) {
        Node::get_id(self)
    }

    fn bounding_box(&self, t_range: Range<Scalar>) -> (b: Option<AABB>) {
        Node::bounding_box(self, t_range)
    }

    fn hit(&self, ray: &Ray, t_range: Range<Scalar>) -> (h: Option<HitRecord>) {
        Node::hit(self, ray, t_range)
    }

    fn pdf_value(&self, o: &Vector3, v: &Vector3) -> (p: Scalar) {
        Node::pdf_value(self, o, v)
    }

    fn random(&self, o: &Vector3) -> (d: Vector3) {
        Node::random(self, o)
    }

    fn accept<V: Visitor>(&self, visitor: &mut V) -> (r: Result<(), SceneError>) {
        Node::accept(self, visitor)
    }
}

} // verus!
