//! Base shapes.

pub mod cuboid;
pub mod sphere;

pub use self::cuboid::Cuboid;
pub use self::sphere::Sphere;
