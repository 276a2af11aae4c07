//! A node seen inside out.

use vstd::prelude::*;
use std::ops::Range;
use std::sync::Arc;
use crate::aabb::AABB;
use crate::hit_able::model::{Node, NodeView};
use crate::hit_able::visitor::Visitor;
use crate::object::IdCounter;
use crate::ray::{HitRecord, Ray};
use crate::scalar::Scalar;
use crate::serialization::error::SceneError;
use crate::vector::Vector3;

verus! {

/// Answers every query as its child does, but for the normal of a hit,
/// which it turns round.
#[derive(Clone, Debug, PartialEq, Eq)]
pub struct FlipNormals {
    pub id: usize,
    pub node: Arc<Node>,
}

/// The record with its normal turned round.
pub open spec fn flipped(h: Option<HitRecord>) -> Option<HitRecord> {
    match h {
        Some(h) => Some(HitRecord { normal: h.normal.spec_negated(), ..h }),
        None => None,
    }
}

impl View for FlipNormals {
    type V = NodeView;

    open spec fn view(&self) -> NodeView {
        Node::FlipNormals(*self)@
    }
}

impl FlipNormals {
    /// A flip of `node` with a fresh identifier.
    pub fn new(ids: &mut IdCounter, node: Arc<Node>) -> (f: FlipNormals)
        requires
            old(ids).has_next(),
        ensures
            f.id == old(ids).next,
            f.node == node,
            final(ids).next == old(ids).next + 1,
    {
        FlipNormals { id: ids.new_id(), node }
    }

    /// A flip of `node` with the given identifier.
    pub fn new_id(id: usize, node: Arc<Node>) -> (f: FlipNormals)
        ensures
            f.id == id,
            f.node == node,
    {
        FlipNormals { id, node }
    }

    /// The identifier of the wrapper.
    pub fn get_id(&self) -> (id: usize)
        ensures
            id == self@.id(),
    {
        self.id
    }

    /// The box of the child.
    pub fn bounding_box(&self, t_range: Range<Scalar>) -> (b: Option<AABB>)
        ensures
            b == self@.bounding_box(),
        decreases self,
    {
        self.node.bounding_box(t_range)
    }

    /// The answer of the child, its normal turned round.
    pub fn hit(&self, ray: &Ray, t_range: Range<Scalar>) -> (h: Option<HitRecord>)
        ensures
            h == self@.hit(*ray, t_range),
            h == flipped(self.node@.hit(*ray, t_range)),
        decreases self,
    {
        match self.node.hit(ray, t_range) {
            Some(mut hit_record) => {
                hit_record.normal = hit_record.normal.negated();
                Some(hit_record)
            },
            None => None,
        }
    }

    /// The density that the child gives.
    pub fn pdf_value(&self, o: &Vector3, v: &Vector3) -> (p: Scalar)
        ensures
            p == self@.pdf_value(*o, *v),
        decreases self,
    {
        self.node.pdf_value(o, v)
    }

    /// The direction that the child offers.
    pub fn random(&self, o: &Vector3) -> (d: Vector3)
        ensures
            d == self@.random(*o),
        decreases self,
    {
        self.node.random(o)
    }

    /// Hands the wrapper to the visitor's method for flips.
    pub fn accept<V: Visitor>(&self, visitor: &mut V) -> (r: Result<(), SceneError>)
        ensures
            V::flip_normals_visited(*old(visitor), *final(visitor), self@, r),
    {
        visitor.visit_instancing_flip_normals(self)
    }
}

} // verus!
