//! Operations over the whole graph, one method for each kind of node.

use vstd::prelude::*;
use crate::hit_able::collection::Collection;
use crate::hit_able::instancing::flip_normals::FlipNormals;
use crate::hit_able::instancing::rotate_x::RotateX;
use crate::hit_able::model::NodeView;
use crate::hit_able::shape::cuboid::Cuboid;
use crate::hit_able::shape::sphere::Sphere;
use crate::serialization::error::SceneError;

verus! {

/// An operation that treats every kind of node in a way of its own. A node
/// hands itself to the method for its kind; what that method does to the
/// visitor is told by the relation of the same kind, between the visitor
/// before, the visitor after, the node and the outcome.
pub trait Visitor: Sized {
    /// What the visit of a sphere does.
    spec fn sphere_visited(
        before: Self,
        after: Self,
        node: NodeView,
        outcome: Result<(), SceneError>,
    ) -> bool;

    /// What the visit of a cuboid does.
    spec fn cuboid_visited(
        before: Self,
        after: Self,
        node: NodeView,
        outcome: Result<(), SceneError>,
    ) -> bool;

    /// What the visit of a collection does.
    spec fn collection_visited(
        before: Self,
        after: Self,
        node: NodeView,
        outcome: Result<(), SceneError>,
    ) -> bool;

    /// What the visit of a turn about the x axis does.
    spec fn rotate_x_visited(
        before: Self,
        after: Self,
        node: NodeView,
        outcome: Result<(), SceneError>,
    ) -> bool;

    /// What the visit of a flip does.
    spec fn flip_normals_visited(
        before: Self,
        after: Self,
        node: NodeView,
        outcome: Result<(), SceneError>,
    ) -> bool;

    /// Visits a sphere.
    fn visit_shape_sphere(&mut self, node: &Sphere) -> (r: Result<(), SceneError>)
        ensures
            Self::sphere_visited(*old(self), *final(self), node@, r),
    ;

    /// Visits a cuboid.
    fn visit_shape_cuboid(&mut self, node: &Cuboid) -> (r: Result<(), SceneError>)
        ensures
            Self::cuboid_visited(*old(self), *final(self), node@, r),
    ;

    /// Visits a collection.
    fn visit_collection(&mut self, node: &Collection) -> (r: Result<(), SceneError>)
        ensures
            Self::collection_visited(*old(self), *final(self), node@, r),
    ;

    /// Visits a turn about the x axis.
    fn visit_instancing_rotate_x(&mut self, node: &RotateX) -> (r: Result<(), SceneError>)
        ensures
            Self::rotate_x_visited(*old(self), *final(self), node@, r),
    ;

    /// Visits a flip.
    fn visit_instancing_flip_normals(&mut self, node: &FlipNormals) -> (r: Result<(), SceneError>)
        ensures
            Self::flip_normals_visited(*old(self), *final(self), node@, r),
    ;
}

/// What handing `node` to a visitor does: the visit that is meant for the
/// kind of the node, and no other.
pub open spec fn visited<V: Visitor>(
    before: V,
    after: V,
    node: NodeView,
    outcome: Result<(), SceneError>,
) -> bool {
    match node {
        NodeView::Sphere { .. } => V::sphere_visited(before, after, node, outcome),
        NodeView::Cuboid { .. } => V::cuboid_visited(before, after, node, outcome),
        NodeView::Collection { .. } => V::collection_visited(before, after, node, outcome),
        NodeView::RotateX { .. } => V::rotate_x_visited(before, after, node, outcome),
        NodeView::FlipNormals { .. } => V::flip_normals_visited(before, after, node, outcome),
    }
}

} // verus!
