//! What one identifier stands for, once the record that declares it has
//! been read for that identifier alone.

use vstd::prelude::*;
use crate::scalar::Scalar;
use crate::serialization::error::Kind;
use crate::vector::{ColorRGB, Point3, Vector3};

verus! {

/// The description of one object: its own values, and the identifiers of
/// the objects it owns.
pub enum Entry {
    ConstantTexture { color: ColorRGB },
    NoMaterial,
    Lambertian { albedo: usize },
    Sphere { center: Point3, radius: Scalar, material: usize },
    Cuboid { min: Point3, max: Point3, material: usize },
    Collection { object_id_list: Seq<usize> },
    RotateX { sin_theta: Scalar, cos_theta: Scalar, node: usize },
    FlipNormals { node: usize },
    Camera {
        lower_left_corner: Point3,
        horizontal: Vector3,
        vertical: Vector3,
        origin: Point3,
        lense_radius: Scalar,
        time_from: Scalar,
        time_to: Scalar,
    },
    Sky { nadir_color: ColorRGB, zenith_color: ColorRGB },
    Configuration { maximum_depth: usize },
}

impl Entry {
    /// The kind of object described.
    pub open spec fn kind(self) -> Kind {
        match self {
            Entry::ConstantTexture { .. } => Kind::ConstantTexture,
            Entry::NoMaterial => Kind::NoMaterial,
            Entry::Lambertian { .. } => Kind::Lambertian,
            Entry::Sphere { .. } => Kind::Sphere,
            Entry::Cuboid { .. } => Kind::Cuboid,
            Entry::Collection { .. } => Kind::Collection,
            Entry::RotateX { .. } => Kind::RotateX,
            Entry::FlipNormals { .. } => Kind::FlipNormals,
            Entry::Camera { .. } => Kind::Camera,
            Entry::Sky { .. } => Kind::Sky,
            Entry::Configuration { .. } => Kind::Configuration,
        }
    }

    /// The nodes that the object owns, in the order of its fields.
    pub open spec fn nodes(self) -> Seq<usize> {
        match self {
            Entry::Collection { object_id_list } => object_id_list,
            Entry::RotateX { node, .. } => seq![node],
            Entry::FlipNormals { node } => seq![node],
            _ => Seq::empty(),
        }
    }
}

} // verus!
