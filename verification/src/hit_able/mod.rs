//! What a ray can hit: base shapes, collections of objects, and wrappers
//! that place another object in a frame of their own.
//!
//! A node is one of a fixed set of kinds. What a node is, whoever shares
//! it, is its view, a plain tree; how a node answers the queries for its
//! bounding box, for the place where a ray meets it and for importance
//! sampling is defined on that tree.

pub mod capability;
pub mod collection;
pub mod instancing;
pub mod model;
pub mod shape;
pub mod visitor;

pub use self::capability::HitAble;
pub use self::collection::Collection;
pub use self::model::{node_view, Node, NodeView};
pub use self::visitor::Visitor;
