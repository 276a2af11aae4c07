//! Textures and materials, as far as the object graph holds them: what a
//! surface is made of is carried along, not evaluated.

use vstd::prelude::*;
use std::sync::Arc;
use crate::object::IdCounter;
use crate::vector::ColorRGB;

verus! {

/// A texture of one colour.
#[derive(Clone, Copy, Debug, PartialEq, Eq, Structural)]
pub struct ConstantTexture {
    pub id: usize,
    pub color: ColorRGB,
}

/// A texture of any kind.
#[derive(Clone, Copy, Debug, PartialEq, Eq, Structural)]
pub enum Texture {
    Constant(ConstantTexture),
}

/// The material of a body that is only there to be hit.
#[derive(Clone, Copy, Debug, PartialEq, Eq, Structural)]
pub struct NoMaterial {
    pub id: usize,
}

/// A diffuse material whose colour comes from a texture.
#[derive(Clone, Debug, PartialEq, Eq)]
pub struct Lambertian {
    pub id: usize,
    pub albedo: Arc<Texture>,
}

/// A material of any kind.
#[derive(Clone, Debug, PartialEq, Eq)]
pub enum Material {
    NoMaterial(NoMaterial),
    Lambertian(Lambertian),
}

/// What a material is, whoever shares it.
pub enum MaterialView {
    NoMaterial { id: usize },
    Lambertian { id: usize, albedo: Texture },
}

impl ConstantTexture {
    /// A texture of the colour with a fresh identifier.
    pub fn new(ids: &mut IdCounter, color: ColorRGB) -> (t: ConstantTexture)
        requires
            old(ids).has_next(),
        ensures
            t == (ConstantTexture { id: old(ids).next, color }),
            final(ids).next == old(ids).next + 1,
    {
        ConstantTexture { id: ids.new_id(), color }
    }

    /// A texture of the colour with the given identifier.
    pub fn new_id(id: usize, color: ColorRGB) -> (t: ConstantTexture)
        ensures
            t == (ConstantTexture { id, color }),
    {
        ConstantTexture { id, color }
    }
}

impl Texture {
    /// The identifier.
    pub open spec fn id(self) -> usize {
        match self {
            Texture::Constant(t) => t.id,
        }
    }

    /// The identifier.
    pub fn get_id(&self) -> (id: usize)
        ensures
            id == self.id(),
    {
        match self {
            Texture::Constant(t) => t.id,
        }
    }
}

impl NoMaterial {
    /// No material, with a fresh identifier.
    pub fn new(ids: &mut IdCounter) -> (m: NoMaterial)
        requires
            old(ids).has_next(),
        ensures
            m.id == old(ids).next,
            final(ids).next == old(ids).next + 1,
    {
        NoMaterial { id: ids.new_id() }
    }

    /// No material, with the given identifier.
    pub fn new_id(id: usize) -> (m: NoMaterial)
        ensures
            m.id == id,
    {
        NoMaterial { id }
    }
}

impl Lambertian {
    /// A diffuse material of the texture with a fresh identifier.
    pub fn new(ids: &mut IdCounter, albedo: Arc<Texture>) -> (m: Lambertian)
        requires
            old(ids).has_next(),
        ensures
            m.id == old(ids).next,
            m.albedo == albedo,
            final(ids).next == old(ids).next + 1,
    {
        Lambertian { id: ids.new_id(), albedo }
    }

    /// A diffuse material of the texture with the given identifier.
    pub fn new_id(id: usize, albedo: Arc<Texture>) -> (m: Lambertian)
        ensures
            m.id == id,
            m.albedo == albedo,
    {
        Lambertian { id, albedo }
    }
}

impl MaterialView {
    /// The identifier.
    pub open spec fn id(self) -> usize {
        match self {
            MaterialView::NoMaterial { id } => id,
            MaterialView::Lambertian { id, .. } => id,
        }
    }
}

impl View for Material {
    type V = MaterialView;

    open spec fn view(&self) -> MaterialView {
        match self {
            Material::NoMaterial(m) => MaterialView::NoMaterial { id: m.id },
            Material::Lambertian(m) => MaterialView::Lambertian { id: m.id, albedo: *m.albedo },
        }
    }
}

impl Material {
    /// The identifier.
    pub fn get_id(&self) -> (id: usize)
        ensures
            id == self@.id(),
    {
        match self {
            Material::NoMaterial(m) => m.id,
            Material::Lambertian(m) => m.id,
        }
    }
}

} // verus!
