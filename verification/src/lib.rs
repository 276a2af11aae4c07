//! Intersectable objects of a ray tracer over fixed-point arithmetic, and
//! the identifier-linked records that persist a scene.

pub mod aabb;
pub mod hit_able;
pub mod material;
pub mod object;
pub mod ray;
pub mod scalar;
pub mod scene;
pub mod serialization;
pub mod trig;
pub mod vector;
