//! Records of textures and materials.

use vstd::prelude::*;
use std::sync::Arc;
use crate::material;
use crate::serialization::entry::Entry;
use crate::serialization::error::{Malformation, SceneError};
use crate::serialization::hit_able::no_such_object;
use crate::serialization::id::{IdConstructor, IdReference, Ids};
use crate::vector::ColorRGB;

verus! {

/// Record of textures of one colour.
#[derive(Clone, Debug, PartialEq, Eq)]
pub struct ConstantTexture {
    pub id: IdConstructor,
    pub color: ColorRGB,
}

/// Record of materials that are no material.
#[derive(Clone, Debug, PartialEq, Eq)]
pub struct NoMaterial {
    pub id: IdConstructor,
}

/// Record of diffuse materials.
#[derive(Clone, Debug, PartialEq, Eq)]
pub struct Lambertian {
    pub id: IdConstructor,
    pub albedo: IdReference,
}

/// What a record of textures of one colour holds.
pub struct ConstantTextureView {
    pub id: Ids,
    pub color: ColorRGB,
}

/// What a record of materials that are none holds.
pub struct NoMaterialView {
    pub id: Ids,
}

/// What a record of diffuse materials holds.
pub struct LambertianView {
    pub id: Ids,
    pub albedo: Ids,
}

impl View for ConstantTexture {
    type V = ConstantTextureView;

    open spec fn view(&self) -> ConstantTextureView {
        ConstantTextureView { id: self.id@, color: self.color }
    }
}

impl View for NoMaterial {
    type V = NoMaterialView;

    open spec fn view(&self) -> NoMaterialView {
        NoMaterialView { id: self.id@ }
    }
}

impl View for Lambertian {
    type V = LambertianView;

    open spec fn view(&self) -> LambertianView {
        LambertianView { id: self.id@, albedo: self.albedo@ }
    }
}

impl ConstantTextureView {
    /// What the object of the given index is.
    pub open spec fn entry(self, index: int) -> Option<Entry> {
        Some(Entry::ConstantTexture { color: self.color })
    }
}

impl NoMaterialView {
    /// What the object of the given index is.
    pub open spec fn entry(self, index: int) -> Option<Entry> {
        Some(Entry::NoMaterial)
    }
}

impl LambertianView {
    /// What the object of the given index is; `None` where the reference
    /// list holds nothing for it.
    pub open spec fn entry(self, index: int) -> Option<Entry> {
        match self.albedo.target(index) {
            Some(albedo) => Some(Entry::Lambertian { albedo }),
            None => None,
        }
    }
}

impl ConstantTexture {
    /// The record that declares the texture alone.
    pub fn from_texture(t: &material::ConstantTexture) -> (r: Result<ConstantTexture, SceneError>)
        ensures
            r matches Ok(rec) && rec@ == (ConstantTextureView {
                id: Ids::Single(t.id),
                color: t.color,
            }),
    {
        Ok(ConstantTexture { id: IdConstructor::Single(t.id), color: t.color })
    }

    /// The texture that the record declares at `index`.
    pub fn to_texture(&self, index: usize) -> (r: Result<material::ConstantTexture, SceneError>)
        ensures
            match r {
                Ok(t) => {
                    &&& index < self@.id.declared().len()
                    &&& t == (material::ConstantTexture {
                        id: self@.id.declared()[index as int],
                        color: self.color,
                    })
                },
                Err(e) => index >= self@.id.declared().len() && e == no_such_object(),
            },
    {
        match self.id.get_id(index) {
            Some(id) => Ok(material::ConstantTexture::new_id(id, self.color)),
            None => Err(SceneError::MalformedRecord { reason: Malformation::Shape }),
        }
    }
}

impl NoMaterial {
    /// The record that declares the material alone.
    pub fn from_material(m: &material::NoMaterial) -> (r: Result<NoMaterial, SceneError>)
        ensures
            r matches Ok(rec) && rec@ == (NoMaterialView { id: Ids::Single(m.id) }),
    {
        Ok(NoMaterial { id: IdConstructor::Single(m.id) })
    }

    /// The material that the record declares at `index`.
    pub fn to_material(&self, index: usize) -> (r: Result<material::NoMaterial, SceneError>)
        ensures
            match r {
                Ok(m) => {
                    &&& index < self@.id.declared().len()
                    &&& m.id == self@.id.declared()[index as int]
                },
                Err(e) => index >= self@.id.declared().len() && e == no_such_object(),
            },
    {
        match self.id.get_id(index) {
            Some(id) => Ok(material::NoMaterial::new_id(id)),
            None => Err(SceneError::MalformedRecord { reason: Malformation::Shape }),
        }
    }
}

impl Lambertian {
    /// The record that declares the material alone.
    pub fn from_material(m: &material::Lambertian) -> (r: Result<Lambertian, SceneError>)
        ensures
            r matches Ok(rec) && rec@ == (LambertianView {
                id: Ids::Single(m.id),
                albedo: Ids::Single(m.albedo.id()),
            }),
    {
        Ok(
            Lambertian {
                id: IdConstructor::Single(m.id),
                albedo: IdReference::Single(m.albedo.get_id()),
            },
        )
    }

    /// The material that the record declares at `index`, with the given
    /// texture.
    pub fn to_material(&self, index: usize, albedo: Arc<material::Texture>) -> (r: Result<
        material::Lambertian,
        SceneError,
    >)
        ensures
            match r {
                Ok(m) => {
                    &&& index < self@.id.declared().len()
                    &&& m.id == self@.id.declared()[index as int]
                    &&& m.albedo == albedo
                },
                Err(e) => index >= self@.id.declared().len() && e == no_such_object(),
            },
    {
        match self.id.get_id(index) {
            Some(id) => Ok(material::Lambertian::new_id(id, albedo)),
            None => Err(SceneError::MalformedRecord { reason: Malformation::Shape }),
        }
    }
}

} // verus!
