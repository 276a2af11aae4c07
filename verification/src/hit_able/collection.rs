//! A collection of nodes that answers for all its members.

use vstd::prelude::*;
use std::ops::Range;
use std::sync::Arc;
use crate::aabb::AABB;
use crate::hit_able::model::{Node, NodeView};
use crate::hit_able::visitor::Visitor;
use crate::object::IdCounter;
use crate::ray::{HitRecord, Ray};
use crate::scalar::Scalar;
use crate::serialization::error::SceneError;
use crate::vector::Vector3;

verus! {

/// A list of nodes, each of which may be shared with other owners.
#[derive(Clone, Debug, PartialEq, Eq)]
pub struct Collection {
    pub id: usize,
    pub object_list: Vec<Arc<Node>>,
}

impl View for Collection {
    type V = NodeView;

    open spec fn view(&self) -> NodeView {
        Node::Collection(*self)@
    }
}

/// The mean of `n` numbers that a scalar can hold is one that a scalar can
/// hold.
proof fn lemma_mean_in_range(sum: int, n: int)
    requires
        n > 0,
        n * (i64::MIN as int) <= sum <= n * (i64::MAX as int),
    ensures
        i64::MIN <= sum / n <= i64::MAX,
{
    vstd::arithmetic::div_mod::lemma_div_is_ordered(n * (i64::MIN as int), sum, n);
    vstd::arithmetic::div_mod::lemma_div_is_ordered(sum, n * (i64::MAX as int), n);
    vstd::arithmetic::div_mod::lemma_div_multiples_vanish(i64::MIN as int, n);
    vstd::arithmetic::div_mod::lemma_div_multiples_vanish(i64::MAX as int, n);
}

impl Collection {
    /// A collection of the given nodes with a fresh identifier.
    pub fn new(ids: &mut IdCounter, object_list: Vec<Arc<Node>>) -> (c: Collection)
        requires
            old(ids).has_next(),
        ensures
            c.id == old(ids).next,
            c.object_list == object_list,
            final(ids).next == old(ids).next + 1,
    {
        Collection { id: ids.new_id(), object_list }
    }

    /// A collection of the given nodes with the given identifier.
    pub fn new_id(id: usize, object_list: Vec<Arc<Node>>) -> (c: Collection)
        ensures
            c.id == id,
            c.object_list == object_list,
    {
        Collection { id, object_list }
    }

    /// The identifier of the collection.
    pub fn get_id(&self) -> (id: usize)
        ensures
            id == self@.id(),
    {
        self.id
    }

    /// The union of the boxes of the members; `None` for a collection none of
    /// whose members has bounds.
    pub fn bounding_box(&self, t_range: Range<Scalar>) -> (b: Option<AABB>)
        ensures
            b == self@.bounding_box(),
        decreases self,
    {
        let mut b: Option<AABB> = None;
        let mut i: usize = 0;
        while i < self.object_list.len()
            invariant
                i <= self.object_list.len(),
                b == self@.box_of_first(i as nat),
            decreases self.object_list.len() - i,
        {
            let member = self.object_list[i].bounding_box(t_range.start..t_range.end);
            b = AABB::merge_optional(b, member);
            i = i + 1;
        }
        b
    }

    /// The nearest hit among the members: each member in turn is asked for a
    /// hit nearer than the nearest so far.
    pub fn hit(&self, ray: &Ray, t_range: Range<Scalar>) -> (h: Option<HitRecord>)
        ensures
            h == self@.hit(*ray, t_range),
        decreases self,
    {
        let mut nearest: Option<HitRecord> = None;
        let mut end: Scalar = t_range.end;
        let mut i: usize = 0;
        while i < self.object_list.len()
            invariant
                i <= self.object_list.len(),
                nearest == self@.hit_of_first(i as nat, *ray, t_range),
                end == match nearest {
                    Some(h) => h.t,
                    None => t_range.end,
                },
            decreases self.object_list.len() - i,
        {
            match self.object_list[i].hit(ray, t_range.start..end) {
                Some(h) => {
                    end = h.t;
                    nearest = Some(h);
                },
                None => {},
            }
            i = i + 1;
        }
        nearest
    }

    /// The mean of the densities of the members, rounded down; zero for the
    /// empty collection.
    pub fn pdf_value(&self, o: &Vector3, v: &Vector3) -> (p: Scalar)
        ensures
            p == self@.pdf_value(*o, *v),
        decreases self,
    {
        let n = self.object_list.len();
        if n == 0 {
            return Scalar::zero();
        }
        let mut sum: i128 = 0;
        let mut i: usize = 0;
        while i < n
            invariant
                n == self.object_list.len(),
                i <= n,
                sum == self@.pdf_sum_of_first(i as nat, *o, *v),
                i * (i64::MIN as int) <= sum <= i * (i64::MAX as int),
            decreases n - i,
        {
            let member = self.object_list[i].pdf_value(o, v);
            sum = sum + member.raw as i128;
            i = i + 1;
        }
        proof {
            lemma_mean_in_range(sum as int, n as int);
        }
        match sum.checked_div_euclid(n as i128) {
            Some(q) => Scalar { raw: q as i64 },
            None => Scalar::zero(),
        }
    }

    /// The direction that the first member offers; the default direction for
    /// the empty collection.
    pub fn random(&self, o: &Vector3) -> (d: Vector3)
        ensures
            d == self@.random(*o),
        decreases self,
    {
        if self.object_list.len() == 0 {
            Vector3::new(Scalar::one(), Scalar::zero(), Scalar::zero())
        } else {
            self.object_list[0].random(o)
        }
    }

    /// Hands the collection to the visitor's method for collections.
    pub fn accept<V: Visitor>(&self, visitor: &mut V) -> (r: Result<(), SceneError>)
        ensures
            V::collection_visited(*old(visitor), *final(visitor), self@, r),
    {
        visitor.visit_collection(self)
    }
}

} // verus!
