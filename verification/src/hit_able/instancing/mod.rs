//! Wrappers that show another node turned about an axis or inside out.

pub mod flip_normals;
pub mod rotate_x;

pub use self::flip_normals::FlipNormals;
pub use self::rotate_x::RotateX;
