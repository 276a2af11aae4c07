//! Nodes, their views, and the meaning of the queries on a view.

use vstd::prelude::*;
use std::ops::Range;
use crate::aabb::AABB;
use crate::hit_able::collection::Collection;
use crate::hit_able::instancing::flip_normals::{flipped, FlipNormals};
use crate::hit_able::instancing::rotate_x::{
    inverse_ray, rotated, rotated_back, rotated_record, RotateX,
};
use crate::hit_able::shape::cuboid::{cuboid_hit, Cuboid};
use crate::hit_able::shape::sphere::{sphere_box, sphere_hit, Sphere};
use crate::hit_able::visitor::{visited, Visitor};
use crate::material::MaterialView;
use crate::ray::{within, HitRecord, Ray};
use crate::scalar::{Scalar, SCALE};
use crate::serialization::error::SceneError;
use crate::vector::{Point3, Vector3};

verus! {

/// A node of the object graph.
#[derive(Clone, Debug, PartialEq, Eq)]
pub enum Node {
    Sphere(Sphere),
    Cuboid(Cuboid),
    Collection(Collection),
    RotateX(RotateX),
    FlipNormals(FlipNormals),
}

/// What a node is: the tree below it, with every shared part written out.
pub enum NodeView {
    Sphere { id: usize, center: Point3, radius: Scalar, material: MaterialView },
    Cuboid { id: usize, min: Point3, max: Point3, material: MaterialView },
    Collection { id: usize, object_list: Seq<NodeView> },
    RotateX {
        id: usize,
        sin_theta: Scalar,
        cos_theta: Scalar,
        node: Box<NodeView>,
        aabb: Option<AABB>,
    },
    FlipNormals { id: usize, node: Box<NodeView> },
}

/// The view of a node.
pub open spec fn node_view(n: Node) -> NodeView
    decreases n,
{
    match n {
        Node::Sphere(s) => NodeView::Sphere {
            id: s.id,
            center: s.center,
            radius: s.radius,
            material: s.material@,
        },
        Node::Cuboid(c) => NodeView::Cuboid { id: c.id, min: c.min, max: c.max, material: c.material@ },
        Node::Collection(c) => NodeView::Collection {
            id: c.id,
            object_list: Seq::new(
                c.object_list@.len(),
                |k: int|
                    if 0 <= k < c.object_list@.len() {
                        node_view(*c.object_list@[k])
                    } else {
                        NodeView::Collection { id: 0, object_list: Seq::empty() }
                    },
            ),
        },
        Node::RotateX(r) => NodeView::RotateX {
            id: r.id,
            sin_theta: r.sin_theta,
            cos_theta: r.cos_theta,
            node: Box::new(node_view(*r.node)),
            aabb: r.aabb,
        },
        Node::FlipNormals(f) => NodeView::FlipNormals { id: f.id, node: Box::new(node_view(*f.node)) },
    }
}

impl View for Node {
    type V = NodeView;

    open spec fn view(&self) -> NodeView {
        node_view(*self)
    }
}

/// The direction that a node without a preferred one offers to a sampler.
pub open spec fn default_direction() -> Vector3 {
    Vector3 { x: Scalar { raw: SCALE }, y: Scalar { raw: 0 }, z: Scalar { raw: 0 } }
}

impl NodeView {
    /// The identifier of the node.
    pub open spec fn id(self) -> usize {
        match self {
            NodeView::Sphere { id, .. } => id,
            NodeView::Cuboid { id, .. } => id,
            NodeView::Collection { id, .. } => id,
            NodeView::RotateX { id, .. } => id,
            NodeView::FlipNormals { id, .. } => id,
        }
    }

    /// Number of members of a collection; zero for any other node.
    pub open spec fn fan(self) -> nat {
        match self {
            NodeView::Collection { object_list, .. } => object_list.len(),
            _ => 0,
        }
    }

    /// A box that holds the node, or `None` for a node without bounds. A
    /// collection has the union of the boxes of its members.
    pub open spec fn bounding_box(self) -> Option<AABB>
        decreases self, self.fan() + 1,
    {
        match self {
            NodeView::Sphere { center, radius, .. } => Some(sphere_box(center, radius)),
            NodeView::Cuboid { min, max, .. } => Some(AABB { min, max }),
            NodeView::Collection { object_list, .. } => self.box_of_first(object_list.len()),
            NodeView::RotateX { aabb, .. } => aabb,
            NodeView::FlipNormals { node, .. } => node.bounding_box(),
        }
    }

    /// Union of the boxes of the first `k` members of a collection.
    pub open spec fn box_of_first(self, k: nat) -> Option<AABB>
        decreases self, k,
    {
        match self {
            NodeView::Collection { object_list, .. } => {
                if 0 < k <= object_list.len() {
                    AABB::spec_merge_optional(
                        self.box_of_first((k - 1) as nat),
                        object_list[k - 1].bounding_box(),
                    )
                } else {
                    None
                }
            },
            _ => None,
        }
    }

    /// Where the ray meets the node at a parameter within `range`, in the
    /// frame of the ray.
    ///
    /// A rotation takes the ray into the frame of its child by the inverse
    /// rotation, asks the child, and takes position and normal of the answer
    /// back by the forward rotation. A flip asks its child and turns the
    /// normal round. A collection asks its members in order, each for a hit
    /// nearer than the nearest so far.
    pub open spec fn hit(self, ray: Ray, range: Range<Scalar>) -> Option<HitRecord>
        decreases self, self.fan() + 1,
    {
        match self {
            NodeView::Sphere { center, radius, material, .. } => sphere_hit(
                center,
                radius,
                material.id(),
                ray,
                range,
            ),
            NodeView::Cuboid { min, max, material, .. } => cuboid_hit(
                min,
                max,
                material.id(),
                ray,
                range,
            ),
            NodeView::Collection { object_list, .. } => self.hit_of_first(
                object_list.len(),
                ray,
                range,
            ),
            NodeView::RotateX { sin_theta, cos_theta, node, .. } => rotated_record(
                sin_theta,
                cos_theta,
                node.hit(inverse_ray(sin_theta, cos_theta, ray), range),
            ),
            NodeView::FlipNormals { node, .. } => flipped(node.hit(ray, range)),
        }
    }

    /// The nearest hit among the first `k` members of a collection.
    pub open spec fn hit_of_first(self, k: nat, ray: Ray, range: Range<Scalar>) -> Option<HitRecord>
        decreases self, k,
    {
        match self {
            NodeView::Collection { object_list, .. } => {
                if 0 < k <= object_list.len() {
                    let so_far = self.hit_of_first((k - 1) as nat, ray, range);
                    let end = match so_far {
                        Some(h) => h.t,
                        None => range.end,
                    };
                    match object_list[k - 1].hit(ray, Range { start: range.start, end }) {
                        Some(h) => Some(h),
                        None => so_far,
                    }
                } else {
                    None
                }
            },
            _ => None,
        }
    }

    /// Density with which a sampler at `o` picks the direction `v` towards
    /// the node. A rotation asks its child about the direction turned back
    /// into the child's frame, from the origin as it stands. A collection
    /// answers with the mean over its members. Base shapes answer zero.
    pub open spec fn pdf_value(self, o: Vector3, v: Vector3) -> Scalar
        decreases self, self.fan() + 1,
    {
        match self {
            NodeView::Sphere { .. } => Scalar { raw: 0 },
            NodeView::Cuboid { .. } => Scalar { raw: 0 },
            NodeView::Collection { object_list, .. } => {
                if object_list.len() == 0 {
                    Scalar { raw: 0 }
                } else {
                    Scalar {
                        raw: (self.pdf_sum_of_first(object_list.len(), o, v) / (
                        object_list.len() as int)) as i64,
                    }
                }
            },
            NodeView::RotateX { sin_theta, cos_theta, node, .. } => node.pdf_value(
                o,
                rotated_back(sin_theta, cos_theta, v),
            ),
            NodeView::FlipNormals { node, .. } => node.pdf_value(o, v),
        }
    }

    /// Sum of the densities of the first `k` members of a collection, in
    /// raw steps.
    pub open spec fn pdf_sum_of_first(self, k: nat, o: Vector3, v: Vector3) -> int
        decreases self, k,
    {
        match self {
            NodeView::Collection { object_list, .. } => {
                if 0 < k <= object_list.len() {
                    self.pdf_sum_of_first((k - 1) as nat, o, v) + object_list[k - 1].pdf_value(
                        o,
                        v,
                    ).raw
                } else {
                    0
                }
            },
            _ => 0,
        }
    }

    /// A direction from `o` towards the node, for a sampler. A rotation
    /// hands the origin to its child as it stands and turns the child's
    /// answer forward; a flip answers as its child does; a collection
    /// answers for its first member; base shapes and the empty collection
    /// offer the default direction.
    pub open spec fn random(self, o: Vector3) -> Vector3
        decreases self,
    {
        match self {
            NodeView::Sphere { .. } => default_direction(),
            NodeView::Cuboid { .. } => default_direction(),
            NodeView::Collection { object_list, .. } => {
                if object_list.len() == 0 {
                    default_direction()
                } else {
                    object_list[0].random(o)
                }
            },
            NodeView::RotateX { sin_theta, cos_theta, node, .. } => rotated(
                sin_theta,
                cos_theta,
                node.random(o),
            ),
            NodeView::FlipNormals { node, .. } => node.random(o),
        }
    }
}

/// Whatever the node and the ray, a hit lies within the range asked for.
pub proof fn lemma_hit_within_range(n: NodeView, ray: Ray, range: Range<Scalar>)
    ensures
        n.hit(ray, range) matches Some(h) ==> within(range, h.t),
    decreases n, n.fan() + 1,
{
    match n {
        NodeView::Collection { object_list, .. } => {
            lemma_nearest_within_range(n, object_list.len(), ray, range);
        },
        NodeView::RotateX { sin_theta, cos_theta, node, .. } => {
            lemma_hit_within_range(*node, inverse_ray(sin_theta, cos_theta, ray), range);
        },
        NodeView::FlipNormals { node, .. } => {
            lemma_hit_within_range(*node, ray, range);
        },
        _ => {},
    }
}

/// The same for the nearest hit among the first `k` members of a
/// collection.
pub proof fn lemma_nearest_within_range(n: NodeView, k: nat, ray: Ray, range: Range<Scalar>)
    requires
        n is Collection,
        k <= n->object_list.len(),
    ensures
        n.hit_of_first(k, ray, range) matches Some(h) ==> within(range, h.t),
    decreases n, k,
{
    if k > 0 {
        lemma_nearest_within_range(n, (k - 1) as nat, ray, range);
        let so_far = n.hit_of_first((k - 1) as nat, ray, range);
        let end = match so_far {
            Some(h) => h.t,
            None => range.end,
        };
        lemma_hit_within_range(n->object_list[k - 1], ray, Range { start: range.start, end });
    }
}

impl Node {
    /// The identifier of the node.
    pub fn get_id(&self) -> (id: usize)
        ensures
            id == self@.id(),
    {
        match self {
            Node::Sphere(s) => s.get_id(),
            Node::Cuboid(c) => c.get_id(),
            Node::Collection(c) => c.get_id(),
            Node::RotateX(r) => r.get_id(),
            Node::FlipNormals(f) => f.get_id(),
        }
    }

    /// A box that holds the node, or `None` for one without bounds.
    pub fn bounding_box(&self, t_range: Range<Scalar>) -> (b: Option<AABB>)
        ensures
            b == self@.bounding_box(),
        decreases self,
    {
        match self {
            Node::Sphere(s) => s.bounding_box(t_range),
            Node::Cuboid(c) => c.bounding_box(t_range),
            Node::Collection(c) => c.bounding_box(t_range),
            Node::RotateX(r) => r.bounding_box(t_range),
            Node::FlipNormals(f) => f.bounding_box(t_range),
        }
    }

    /// Where the ray meets the node at a parameter within the range.
    pub fn hit(&self, ray: &Ray, t_range: Range<Scalar>) -> (h: Option<HitRecord>)
        ensures
            h == self@.hit(*ray, t_range),
        decreases self,
    {
        match self {
            Node::Sphere(s) => s.hit(ray, t_range),
            Node::Cuboid(c) => c.hit(ray, t_range),
            Node::Collection(c) => c.hit(ray, t_range),
            Node::RotateX(r) => r.hit(ray, t_range),
            Node::FlipNormals(f) => f.hit(ray, t_range),
        }
    }

    /// The density with which a sampler at `o` picks the direction `v` towards
    /// the node.
    pub fn pdf_value(&self, o: &Vector3, v: &Vector3) -> (p: Scalar)
        ensures
            p == self@.pdf_value(*o, *v),
        decreases self,
    {
        match self {
            Node::Sphere(s) => s.pdf_value(o, v),
            Node::Cuboid(c) => c.pdf_value(o, v),
            Node::Collection(c) => c.pdf_value(o, v),
            Node::RotateX(r) => r.pdf_value(o, v),
            Node::FlipNormals(f) => f.pdf_value(o, v),
        }
    }

    /// A direction from `o` towards the node, for a sampler.
    pub fn random(&self, o: &Vector3) -> (d: Vector3)
        ensures
            d == self@.random(*o),
        decreases self,
    {
        match self {
            Node::Sphere(s) => s.random(o),
            Node::Cuboid(c) => c.random(o),
            Node::Collection(c) => c.random(o),
            Node::RotateX(r) => r.random(o),
            Node::FlipNormals(f) => f.random(o),
        }
    }

    /// Hands the node to the one method of the visitor that is meant for
    /// its kind.
    pub fn accept<V: Visitor>(&self, visitor: &mut V) -> (r: Result<(), SceneError>)
        ensures
            visited::<V>(*old(visitor), *final(visitor), self@, r),
    {
        match self {
            Node::Sphere(s) => s.accept(visitor),
            Node::Cuboid(c) => c.accept(visitor),
            Node::Collection(c) => c.accept(visitor),
            Node::RotateX(r) => r.accept(visitor),
            Node::FlipNormals(f) => f.accept(visitor),
        }
    }
}

} // verus!
