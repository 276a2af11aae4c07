//! Writing a live scene out as records.
//!
//! The graph is walked from the root node. Every object is written once,
//! when it is first met, after the objects it owns; the camera, the sky and
//! the configuration follow. Links become the identifiers of the objects
//! they lead to.

use vstd::prelude::*;
use std::collections::HashSet;
use crate::hit_able::collection::Collection;
use crate::hit_able::instancing::flip_normals::FlipNormals;
use crate::hit_able::instancing::rotate_x::RotateX;
use crate::hit_able::model::{Node, NodeView};
use crate::hit_able::shape::cuboid::Cuboid;
use crate::hit_able::shape::sphere::Sphere;
use crate::hit_able::visitor::Visitor;
use crate::material::{Material, MaterialView, Texture};
use crate::scene;
use crate::scene::SceneView;
use crate::serialization::error::SceneError;
use crate::serialization::hit_able::{
    CollectionView, CuboidView, FlipNormalsView, RotateXView, SphereView,
};
use crate::serialization::id::Ids;
use crate::serialization::material::{ConstantTextureView, LambertianView, NoMaterialView};
use crate::serialization::scene::{
    records_view, CameraView, ConfigurationView, RayTracingObject, Record, SceneRecords, SkyView,
};

verus! {

/// The record of a texture.
pub open spec fn texture_record(t: Texture) -> Record {
    match t {
        Texture::Constant(c) => Record::ConstantTexture(
            ConstantTextureView { id: Ids::Single(c.id), color: c.color },
        ),
    }
}

/// The record of a material.
pub open spec fn material_record(m: MaterialView) -> Record {
    match m {
        MaterialView::NoMaterial { id } => Record::NoMaterial(NoMaterialView { id: Ids::Single(id) }),
        MaterialView::Lambertian { id, albedo } => Record::Lambertian(
            LambertianView { id: Ids::Single(id), albedo: Ids::Single(albedo.id()) },
        ),
    }
}

/// The record of a node.
pub open spec fn node_record(n: NodeView) -> Record {
    match n {
        NodeView::Sphere { id, center, radius, material } => Record::Sphere(
            SphereView { id: Ids::Single(id), center, radius, material: Ids::Single(material.id()) },
        ),
        NodeView::Cuboid { id, min, max, material } => Record::Cuboid(
            CuboidView { id: Ids::Single(id), min, max, material: Ids::Single(material.id()) },
        ),
        NodeView::Collection { id, object_list } => Record::Collection(
            CollectionView {
                id: Ids::Single(id),
                object_id_list: Seq::new(object_list.len(), |k: int| object_list[k].id()),
            },
        ),
        NodeView::RotateX { id, sin_theta, cos_theta, node, .. } => Record::RotateX(
            RotateXView { id: Ids::Single(id), sin_theta, cos_theta, node: Ids::Single(node.id()) },
        ),
        NodeView::FlipNormals { id, node } => Record::FlipNormals(
            FlipNormalsView { id: Ids::Single(id), node: Ids::Single(node.id()) },
        ),
    }
}

/// The record of a camera.
pub open spec fn camera_record(c: scene::Camera) -> Record {
    Record::Camera(
        CameraView {
            id: Ids::Single(c.id),
            lower_left_corner: c.lower_left_corner,
            horizontal: c.horizontal,
            vertical: c.vertical,
            origin: c.origin,
            lense_radius: c.lense_radius,
            time_from: c.time_from,
            time_to: c.time_to,
        },
    )
}

/// The record of a sky.
pub open spec fn sky_record(s: scene::Sky) -> Record {
    Record::Sky(
        SkyView { id: Ids::Single(s.id), nadir_color: s.nadir_color, zenith_color: s.zenith_color },
    )
}

/// The record of a configuration.
pub open spec fn configuration_record(c: scene::Configuration) -> Record {
    Record::Configuration(
        ConfigurationView { id: Ids::Single(c.id), maximum_depth: c.maximum_depth },
    )
}

/// What has been written: the records, and the identifiers they declare.
pub struct Emitted {
    pub objects: Seq<Record>,
    pub seen: Set<usize>,
}

impl Emitted {
    /// Nothing written.
    pub open spec fn nothing() -> Emitted {
        Emitted { objects: Seq::empty(), seen: Set::empty() }
    }

    /// One more record, which declares `id`, unless `id` is declared
    /// already.
    pub open spec fn with(self, id: usize, record: Record) -> Emitted {
        if self.seen.contains(id) {
            self
        } else {
            Emitted { objects: self.objects.push(record), seen: self.seen.insert(id) }
        }
    }

    /// With the texture written, unless it is already.
    pub open spec fn with_texture(self, t: Texture) -> Emitted {
        self.with(t.id(), texture_record(t))
    }

    /// With the material written after its texture, unless it is already.
    pub open spec fn with_material(self, m: MaterialView) -> Emitted {
        if self.seen.contains(m.id()) {
            self
        } else {
            match m {
                MaterialView::NoMaterial { id } => self.with(id, material_record(m)),
                MaterialView::Lambertian { id, albedo } => self.with_texture(albedo).with(
                    id,
                    material_record(m),
                ),
            }
        }
    }

    /// With the node written after all that it owns, unless it is already.
    pub open spec fn with_node(self, n: NodeView) -> Emitted
        decreases n, n.fan() + 1,
    {
        if self.seen.contains(n.id()) {
            self
        } else {
            let owned = match n {
                NodeView::Sphere { material, .. } => self.with_material(material),
                NodeView::Cuboid { material, .. } => self.with_material(material),
                NodeView::Collection { object_list, .. } => self.with_members(n, object_list.len()),
                NodeView::RotateX { node, .. } => self.with_node(*node),
                NodeView::FlipNormals { node, .. } => self.with_node(*node),
            };
            owned.with(n.id(), node_record(n))
        }
    }

    /// With the first `k` members of the collection `n` written.
    pub open spec fn with_members(self, n: NodeView, k: nat) -> Emitted
        decreases n, k,
    {
        match n {
            NodeView::Collection { object_list, .. } => {
                if 0 < k <= object_list.len() {
                    self.with_members(n, (k - 1) as nat).with_node(object_list[k - 1])
                } else {
                    self
                }
            },
            _ => self,
        }
    }
}

/// The records of a scene: those of all that the root node owns and of the
/// root node, then those of the camera, the sky and the configuration.
pub open spec fn exported(s: SceneView) -> SceneRecords {
    SceneRecords {
        configuration_id: s.configuration.id,
        camera_id: s.camera.id,
        sky_id: s.sky.id,
        root_node_id: s.root_node.id(),
        objects: Emitted::nothing().with_node(s.root_node).with(
            s.camera.id,
            camera_record(s.camera),
        ).with(s.sky.id, sky_record(s.sky)).with(
            s.configuration.id,
            configuration_record(s.configuration),
        ).objects,
    }
}

/// The writer of records: a visitor that writes the record of each node it
/// is handed.
pub struct Exporter {
    pub objects: Vec<RayTracingObject>,
    pub seen: HashSet<usize>,
}

impl View for Exporter {
    type V = Emitted;

    open spec fn view(&self) -> Emitted {
        Emitted { objects: records_view(self.objects@), seen: self.seen@ }
    }
}

/// What a visit of the exporter does: it writes the record of the node.
pub open spec fn written(before: Exporter, after: Exporter, node: NodeView, outcome: Result<
    (),
    SceneError,
>) -> bool {
    &&& outcome is Ok
    &&& after@.objects == before@.objects.push(node_record(node))
    &&& after@.seen == before@.seen.insert(node.id())
}

impl Exporter {
    /// A writer that has written nothing.
    pub fn new() -> (e: Exporter)
        ensures
            e@ == Emitted::nothing(),
    {
        let e = Exporter { objects: Vec::new(), seen: HashSet::new() };
        assert(e@.objects =~= Seq::<Record>::empty());
        e
    }

    /// Writes a record that declares `id`.
    fn push(&mut self, id: usize, record: RayTracingObject)
        ensures
            final(self)@.objects == old(self)@.objects.push(record@),
            final(self)@.seen == old(self)@.seen.insert(id),
    {
        self.objects.push(record);
        self.seen.insert(id);
        assert(self@.objects =~= old(self)@.objects.push(record@));
    }

    /// Writes a record that declares `id`, unless `id` is declared.
    pub fn entry(&mut self, id: usize, record: RayTracingObject)
        ensures
            final(self)@ == old(self)@.with(id, record@),
    {
        if !self.seen.contains(&id) {
            self.push(id, record);
        }
    }

    /// Writes the texture, unless it is written.
    pub fn texture(&mut self, t: &Texture)
        ensures
            final(self)@ == old(self)@.with_texture(*t),
    {
        if self.seen.contains(&t.get_id()) {
            return ;
        }
        match t {
            Texture::Constant(c) => {
                match crate::serialization::material::ConstantTexture::from_texture(c) {
                    Ok(record) => self.push(c.id, RayTracingObject::ConstantTexture(record)),
                    Err(_) => {},
                }
            },
        }
    }

    /// Writes the material after its texture, unless it is written.
    pub fn material(&mut self, m: &Material)
        ensures
            final(self)@ == old(self)@.with_material(m@),
    {
        if self.seen.contains(&m.get_id()) {
            return ;
        }
        match m {
            Material::NoMaterial(n) => {
                match crate::serialization::material::NoMaterial::from_material(n) {
                    Ok(record) => self.push(n.id, RayTracingObject::NoMaterial(record)),
                    Err(_) => {},
                }
            },
            Material::Lambertian(l) => {
                self.texture(&l.albedo);
                if !self.seen.contains(&l.id) {
                    match crate::serialization::material::Lambertian::from_material(l) {
                        Ok(record) => self.push(l.id, RayTracingObject::Lambertian(record)),
                        Err(_) => {},
                    }
                }
            },
        }
    }

    /// Writes the node after all that it owns, unless it is written.
    pub fn node(&mut self, n: &Node) -> (r: Result<(), SceneError>)
        ensures
            r is Ok,
            final(self)@ == old(self)@.with_node(n@),
        decreases n, 1nat,
    {
        if self.seen.contains(&n.get_id()) {
            return Ok(());
        }
        match n {
            Node::Sphere(s) => {
                self.material(&s.material);
            },
            Node::Cuboid(c) => {
                self.material(&c.material);
            },
            Node::Collection(c) => {
                self.members(c);
            },
            Node::RotateX(r) => {
                let _ = self.node(&r.node);
            },
            Node::FlipNormals(f) => {
                let _ = self.node(&f.node);
            },
        }
        if self.seen.contains(&n.get_id()) {
            return Ok(());
        }
        n.accept(self)
    }

    /// Writes the members of the collection, in order.
    pub fn members(&mut self, c: &Collection)
        ensures
            final(self)@ == old(self)@.with_members(c@, c.object_list@.len() as nat),
        decreases c, 0nat,
    {
        let mut k: usize = 0;
        while k < c.object_list.len()
            invariant
                k <= c.object_list.len(),
                self@ == old(self)@.with_members(c@, k as nat),
            decreases c.object_list.len() - k,
        {
            let _ = self.node(&c.object_list[k]);
            k = k + 1;
        }
    }
}

impl Visitor for Exporter {
    open spec fn sphere_visited(
        before: Self,
        after: Self,
        node: NodeView,
        outcome: Result<(), SceneError>,
    ) -> bool {
        written(before, after, node, outcome)
    }

    open spec fn cuboid_visited(
        before: Self,
        after: Self,
        node: NodeView,
        outcome: Result<(), SceneError>,
    ) -> bool {
        written(before, after, node, outcome)
    }

    open spec fn collection_visited(
        before: Self,
        after: Self,
        node: NodeView,
        outcome: Result<(), SceneError>,
    ) -> bool {
        written(before, after, node, outcome)
    }

    open spec fn rotate_x_visited(
        before: Self,
        after: Self,
        node: NodeView,
        outcome: Result<(), SceneError>,
    ) -> bool {
        written(before, after, node, outcome)
    }

    open spec fn flip_normals_visited(
        before: Self,
        after: Self,
        node: NodeView,
        outcome: Result<(), SceneError>,
    ) -> bool {
        written(before, after, node, outcome)
    }

    fn visit_shape_sphere(&mut self, node: &Sphere) -> (r: Result<(), SceneError>) {
        match crate::serialization::hit_able::Sphere::from_hit_able(node) {
            Ok(record) => {
                self.push(node.id, RayTracingObject::Sphere(record));
                Ok(())
            },
            Err(e) => Err(e),
        }
    }

    fn visit_shape_cuboid(&mut self, node: &Cuboid) -> (r: Result<(), SceneError>) {
        match crate::serialization::hit_able::Cuboid::from_hit_able(node) {
            Ok(record) => {
                self.push(node.id, RayTracingObject::Cuboid(record));
                Ok(())
            },
            Err(e) => Err(e),
        }
    }

    fn visit_collection(&mut self, node: &Collection) -> (r: Result<(), SceneError>) {
        match crate::serialization::hit_able::Collection::from_hit_able(node) {
            Ok(record) => {
                proof {
                    let members = node@->object_list;
                    assert(record@.object_id_list =~= Seq::new(
                        members.len(),
                        |k: int| members[k].id(),
                    ));
                }
                self.push(node.id, RayTracingObject::Collection(record));
                Ok(())
            },
            Err(e) => Err(e),
        }
    }

    fn visit_instancing_rotate_x(&mut self, node: &RotateX) -> (r: Result<(), SceneError>) {
        match crate::serialization::hit_able::RotateX::from_hit_able(node) {
            Ok(record) => {
                self.push(node.id, RayTracingObject::RotateX(record));
                Ok(())
            },
            Err(e) => Err(e),
        }
    }

    fn visit_instancing_flip_normals(&mut self, node: &FlipNormals) -> (r: Result<(), SceneError>) {
        match crate::serialization::hit_able::FlipNormals::from_hit_able(node) {
            Ok(record) => {
                self.push(node.id, RayTracingObject::FlipNormals(record));
                Ok(())
            },
            Err(e) => Err(e),
        }
    }
}

} // verus!
