//! What can go wrong when a scene is written out or read back.

use vstd::prelude::*;

verus! {

/// The part that a referenced object has to play.
#[derive(Clone, Copy, Debug, PartialEq, Eq, Structural)]
pub enum Role {
    Node,
    Material,
    Texture,
    Camera,
    Sky,
    Configuration,
}

/// The kinds of object that a record can describe.
#[derive(Clone, Copy, Debug, PartialEq, Eq, Structural)]
pub enum Kind {
    ConstantTexture,
    NoMaterial,
    Lambertian,
    Sphere,
    Cuboid,
    Collection,
    RotateX,
    FlipNormals,
    Camera,
    Sky,
    Configuration,
}

/// Why a record, or the text that should hold records, is unusable.
#[derive(Clone, Copy, Debug, PartialEq, Eq, Structural)]
pub enum Malformation {
    /// The text is not a JSON document.
    Syntax,
    /// The document, or one of its records, lacks a field or holds a value
    /// of the wrong shape.
    Shape,
    /// Two records declare the same identifier.
    DuplicateId { id: usize },
    /// A record declares more identifiers than one of its reference lists
    /// has entries.
    ShortReferenceList { id: usize },
    /// A record is reachable from no entry point, and the options ask for
    /// such a record to be refused.
    Unreferenced { id: usize },
}

/// Failure of a load or of an export. Each one is final: no partial scene
/// comes with it.
#[derive(Clone, Copy, Debug, PartialEq, Eq, Structural)]
pub enum SceneError {
    /// No record declares `id`. `referenced_by` is the record that refers
    /// to it, or `None` where an entry point does.
    UnresolvedReference { id: usize, referenced_by: Option<usize> },
    /// The object `id` would own itself, directly or through others.
    CyclicReference { id: usize },
    /// The record of `id` is of a kind that cannot play the part asked of it.
    TypeMismatch { id: usize, expected: Role, actual: Kind },
    /// The input is not a well-formed list of records.
    MalformedRecord { reason: Malformation },
    /// The records could not be put into text.
    EncodingFailure,
}

impl Kind {
    /// The part that an object of this kind can play.
    pub open spec fn role(self) -> Role {
        match self {
            Kind::ConstantTexture => Role::Texture,
            Kind::NoMaterial => Role::Material,
            Kind::Lambertian => Role::Material,
            Kind::Sphere => Role::Node,
            Kind::Cuboid => Role::Node,
            Kind::Collection => Role::Node,
            Kind::RotateX => Role::Node,
            Kind::FlipNormals => Role::Node,
            Kind::Camera => Role::Camera,
            Kind::Sky => Role::Sky,
            Kind::Configuration => Role::Configuration,
        }
    }
}

} // verus!
