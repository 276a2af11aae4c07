//! Records of nodes.

use vstd::prelude::*;
use std::sync::Arc;
use crate::hit_able::collection;
use crate::hit_able::instancing;
use crate::hit_able::model::Node;
use crate::hit_able::shape;
use crate::material::Material;
use crate::scalar::Scalar;
use crate::serialization::entry::Entry;
use crate::serialization::error::{Malformation, SceneError};
use crate::serialization::id::{IdConstructor, IdReference, Ids};
use crate::vector::Point3;

verus! {

/// The error of a request for an object that a record does not declare.
pub open spec fn no_such_object() -> SceneError {
    SceneError::MalformedRecord { reason: Malformation::Shape }
}

/// Record of spheres.
#[derive(Clone, Debug, PartialEq, Eq)]
pub struct Sphere {
    pub id: IdConstructor,
    pub center: Point3,
    pub radius: Scalar,
    pub material: IdReference,
}

/// Record of cuboids.
#[derive(Clone, Debug, PartialEq, Eq)]
pub struct Cuboid {
    pub id: IdConstructor,
    pub min: Point3,
    pub max: Point3,
    pub material: IdReference,
}

/// Record of collections. Every collection that the record declares has
/// the same members.
#[derive(Clone, Debug, PartialEq, Eq)]
pub struct Collection {
    pub id: IdConstructor,
    pub object_id_list: Vec<usize>,
}

/// Record of turns about the x axis, the angle given by its sine and cosine.
#[derive(Clone, Debug, PartialEq, Eq)]
pub struct RotateX {
    pub id: IdConstructor,
    pub sin_theta: Scalar,
    pub cos_theta: Scalar,
    pub node: IdReference,
}

/// Record of flips.
#[derive(Clone, Debug, PartialEq, Eq)]
pub struct FlipNormals {
    pub id: IdConstructor,
    pub node: IdReference,
}

/// What a record of spheres holds.
pub struct SphereView {
    pub id: Ids,
    pub center: Point3,
    pub radius: Scalar,
    pub material: Ids,
}

/// What a record of cuboids holds.
pub struct CuboidView {
    pub id: Ids,
    pub min: Point3,
    pub max: Point3,
    pub material: Ids,
}

/// What a record of collections holds.
pub struct CollectionView {
    pub id: Ids,
    pub object_id_list: Seq<usize>,
}

/// What a record of turns about the x axis holds.
pub struct RotateXView {
    pub id: Ids,
    pub sin_theta: Scalar,
    pub cos_theta: Scalar,
    pub node: Ids,
}

/// What a record of flips holds.
pub struct FlipNormalsView {
    pub id: Ids,
    pub node: Ids,
}

impl View for Sphere {
    type V = SphereView;

    open spec fn view(&self) -> SphereView {
        SphereView {
            id: self.id@,
            center: self.center,
            radius: self.radius,
            material: self.material@,
        }
    }
}

impl View for Cuboid {
    type V = CuboidView;

    open spec fn view(&self) -> CuboidView {
        CuboidView { id: self.id@, min: self.min, max: self.max, material: self.material@ }
    }
}

impl View for Collection {
    type V = CollectionView;

    open spec fn view(&self) -> CollectionView {
        CollectionView { id: self.id@, object_id_list: self.object_id_list@ }
    }
}

impl View for RotateX {
    type V = RotateXView;

    open spec fn view(&self) -> RotateXView {
        RotateXView {
            id: self.id@,
            sin_theta: self.sin_theta,
            cos_theta: self.cos_theta,
            node: self.node@,
        }
    }
}

impl View for FlipNormals {
    type V = FlipNormalsView;

    open spec fn view(&self) -> FlipNormalsView {
        FlipNormalsView { id: self.id@, node: self.node@ }
    }
}

impl SphereView {
    /// What the object of the given index is; `None` where the reference
    /// list holds nothing for it.
    pub open spec fn entry(self, index: int) -> Option<Entry> {
        match self.material.target(index) {
            Some(material) => Some(Entry::Sphere { center: self.center, radius: self.radius, material }),
            None => None,
        }
    }
}

impl CuboidView {
    /// What the object of the given index is; `None` where the reference
    /// list holds nothing for it.
    pub open spec fn entry(self, index: int) -> Option<Entry> {
        match self.material.target(index) {
            Some(material) => Some(Entry::Cuboid { min: self.min, max: self.max, material }),
            None => None,
        }
    }
}

impl CollectionView {
    /// What the object of the given index is.
    pub open spec fn entry(self, index: int) -> Option<Entry> {
        Some(Entry::Collection { object_id_list: self.object_id_list })
    }
}

impl RotateXView {
    /// What the object of the given index is; `None` where the reference
    /// list holds nothing for it.
    pub open spec fn entry(self, index: int) -> Option<Entry> {
        match self.node.target(index) {
            Some(node) => Some(
                Entry::RotateX { sin_theta: self.sin_theta, cos_theta: self.cos_theta, node },
            ),
            None => None,
        }
    }
}

impl FlipNormalsView {
    /// What the object of the given index is; `None` where the reference
    /// list holds nothing for it.
    pub open spec fn entry(self, index: int) -> Option<Entry> {
        match self.node.target(index) {
            Some(node) => Some(Entry::FlipNormals { node }),
            None => None,
        }
    }
}

impl Sphere {
    /// The record that declares the sphere alone.
    pub fn from_hit_able(s: &shape::Sphere) -> (r: Result<Sphere, SceneError>)
        ensures
            r matches Ok(rec) && rec@ == (SphereView {
                id: Ids::Single(s.id),
                center: s.center,
                radius: s.radius,
                material: Ids::Single(s.material@.id()),
            }),
    {
        Ok(
            Sphere {
                id: IdConstructor::Single(s.id),
                center: s.center,
                radius: s.radius,
                material: IdReference::Single(s.material.get_id()),
            },
        )
    }

    /// The sphere that the record declares at `index`, of the given material.
    pub fn to_hit_able(&self, index: usize, material: Arc<Material>) -> (r: Result<
        shape::Sphere,
        SceneError,
    >)
        ensures
            match r {
                Ok(s) => {
                    &&& index < self@.id.declared().len()
                    &&& s.id == self@.id.declared()[index as int]
                    &&& s.center == self.center
                    &&& s.radius == self.radius
                    &&& s.material == material
                },
                Err(e) => index >= self@.id.declared().len() && e == no_such_object(),
            },
    {
        match self.id.get_id(index) {
            Some(id) => Ok(shape::Sphere::new_id(id, self.center, self.radius, material)),
            None => Err(SceneError::MalformedRecord { reason: Malformation::Shape }),
        }
    }
}

impl Cuboid {
    /// The record that declares the cuboid alone.
    pub fn from_hit_able(c: &shape::Cuboid) -> (r: Result<Cuboid, SceneError>)
        ensures
            r matches Ok(rec) && rec@ == (CuboidView {
                id: Ids::Single(c.id),
                min: c.min,
                max: c.max,
                material: Ids::Single(c.material@.id()),
            }),
    {
        Ok(
            Cuboid {
                id: IdConstructor::Single(c.id),
                min: c.min,
                max: c.max,
                material: IdReference::Single(c.material.get_id()),
            },
        )
    }

    /// The cuboid that the record declares at `index`, of the given material.
    pub fn to_hit_able(&self, index: usize, material: Arc<Material>) -> (r: Result<
        shape::Cuboid,
        SceneError,
    >)
        ensures
            match r {
                Ok(c) => {
                    &&& index < self@.id.declared().len()
                    &&& c.id == self@.id.declared()[index as int]
                    &&& c.min == self.min
                    &&& c.max == self.max
                    &&& c.material == material
                },
                Err(e) => index >= self@.id.declared().len() && e == no_such_object(),
            },
    {
        match self.id.get_id(index) {
            Some(id) => Ok(shape::Cuboid::new_id(id, self.min..self.max, material)),
            None => Err(SceneError::MalformedRecord { reason: Malformation::Shape }),
        }
    }
}

impl Collection {
    /// The record that declares the collection alone, its members named in
    /// their order.
    pub fn from_hit_able(c: &collection::Collection) -> (r: Result<Collection, SceneError>)
        ensures
            r matches Ok(rec) && rec@ == (CollectionView {
                id: Ids::Single(c.id),
                object_id_list: Seq::new(
                    c.object_list@.len(),
                    |k: int| c.object_list@[k]@.id(),
                ),
            }),
    {
        let mut ids: Vec<usize> = Vec::new();
        let mut i: usize = 0;
        while i < c.object_list.len()
            invariant
                i <= c.object_list.len(),
                ids@.len() == i,
                forall|k: int| 0 <= k < i ==> ids@[k] == c.object_list@[k]@.id(),
            decreases c.object_list.len() - i,
        {
            ids.push(c.object_list[i].get_id());
            i = i + 1;
        }
        let rec = Collection { id: IdConstructor::Single(c.id), object_id_list: ids };
        assert(rec@.object_id_list =~= Seq::new(
            c.object_list@.len(),
            |k: int| c.object_list@[k]@.id(),
        ));
        Ok(rec)
    }

    /// The collection that the record declares at `index`, with the given
    /// members.
    pub fn to_hit_able(&self, index: usize, object_list: Vec<Arc<Node>>) -> (r: Result<
        collection::Collection,
        SceneError,
    >)
        ensures
            match r {
                Ok(c) => {
                    &&& index < self@.id.declared().len()
                    &&& c.id == self@.id.declared()[index as int]
                    &&& c.object_list == object_list
                },
                Err(e) => index >= self@.id.declared().len() && e == no_such_object(),
            },
    {
        match self.id.get_id(index) {
            Some(id) => Ok(collection::Collection::new_id(id, object_list)),
            None => Err(SceneError::MalformedRecord { reason: Malformation::Shape }),
        }
    }
}

impl RotateX {
    /// The record that declares the wrapper alone.
    pub fn from_hit_able(i: &instancing::RotateX) -> (r: Result<RotateX, SceneError>)
        ensures
            r matches Ok(rec) && rec@ == (RotateXView {
                id: Ids::Single(i.id),
                sin_theta: i.sin_theta,
                cos_theta: i.cos_theta,
                node: Ids::Single(i.node@.id()),
            }),
    {
        Ok(
            RotateX {
                id: IdConstructor::Single(i.id),
                sin_theta: i.sin_theta,
                cos_theta: i.cos_theta,
                node: IdReference::Single(i.node.get_id()),
            },
        )
    }

    /// The wrapper that the record declares at `index`, round the given
    /// child; its box is worked out afresh.
    pub fn to_hit_able(&self, index: usize, node: Arc<Node>) -> (r: Result<
        instancing::RotateX,
        SceneError,
    >)
        ensures
            match r {
                Ok(i) => {
                    &&& index < self@.id.declared().len()
                    &&& i.id == self@.id.declared()[index as int]
                    &&& i.sin_theta == self.sin_theta
                    &&& i.cos_theta == self.cos_theta
                    &&& i.node == node
                    &&& i.well_formed()
                },
                Err(e) => index >= self@.id.declared().len() && e == no_such_object(),
            },
    {
        match self.id.get_id(index) {
            Some(id) => Ok(instancing::RotateX::from_sin_cos(id, self.sin_theta, self.cos_theta, node)),
            None => Err(SceneError::MalformedRecord { reason: Malformation::Shape }),
        }
    }
}

impl FlipNormals {
    /// The record that declares the wrapper alone.
    pub fn from_hit_able(i: &instancing::FlipNormals) -> (r: Result<FlipNormals, SceneError>)
        ensures
            r matches Ok(rec) && rec@ == (FlipNormalsView {
                id: Ids::Single(i.id),
                node: Ids::Single(i.node@.id()),
            }),
    {
        Ok(
            FlipNormals {
                id: IdConstructor::Single(i.id),
                node: IdReference::Single(i.node.get_id()),
            },
        )
    }

    /// The wrapper that the record declares at `index`, round the given child.
    pub fn to_hit_able(&self, index: usize, node: Arc<Node>) -> (r: Result<
        instancing::FlipNormals,
        SceneError,
    >)
        ensures
            match r {
                Ok(i) => {
                    &&& index < self@.id.declared().len()
                    &&& i.id == self@.id.declared()[index as int]
                    &&& i.node == node
                },
                Err(e) => index >= self@.id.declared().len() && e == no_such_object(),
            },
    {
        match self.id.get_id(index) {
            Some(id) => Ok(instancing::FlipNormals { id, node }),
            None => Err(SceneError::MalformedRecord { reason: Malformation::Shape }),
        }
    }
}

} // verus!
