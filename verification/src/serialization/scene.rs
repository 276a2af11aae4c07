//! Records of the camera, the sky and the configuration; the record of any
//! kind; and the scene as a list of records.

use vstd::prelude::*;
use crate::scalar::Scalar;
use crate::scene;
use crate::serialization::entry::Entry;
use crate::serialization::error::{Kind, Malformation, SceneError};
use crate::serialization::export::{exported, Exporter};
use crate::serialization::loader::Loader;
use crate::serialization::resolve::{loaded, loaded_with, scene_ids};
use crate::serialization::hit_able::{
    no_such_object, Collection, CollectionView, Cuboid, CuboidView, FlipNormals, FlipNormalsView,
    RotateX, RotateXView, Sphere, SphereView,
};
use crate::serialization::id::{IdConstructor, Ids};
use crate::serialization::material::{
    ConstantTexture, ConstantTextureView, Lambertian, LambertianView, NoMaterial, NoMaterialView,
};
use crate::vector::{ColorRGB, Point3, Vector3};

verus! {

/// Record of cameras.
#[derive(Clone, Debug, PartialEq, Eq)]
pub struct Camera {
    pub id: IdConstructor,
    pub lower_left_corner: Point3,
    pub horizontal: Vector3,
    pub vertical: Vector3,
    pub origin: Point3,
    pub lense_radius: Scalar,
    pub time_from: Scalar,
    pub time_to: Scalar,
}

/// Record of skies.
#[derive(Clone, Debug, PartialEq, Eq)]
pub struct Sky {
    pub id: IdConstructor,
    pub nadir_color: ColorRGB,
    pub zenith_color: ColorRGB,
}

/// Record of configurations.
#[derive(Clone, Debug, PartialEq, Eq)]
pub struct Configuration {
    pub id: IdConstructor,
    pub maximum_depth: usize,
}

/// What a record of cameras holds.
pub struct CameraView {
    pub id: Ids,
    pub lower_left_corner: Point3,
    pub horizontal: Vector3,
    pub vertical: Vector3,
    pub origin: Point3,
    pub lense_radius: Scalar,
    pub time_from: Scalar,
    pub time_to: Scalar,
}

/// What a record of skies holds.
pub struct SkyView {
    pub id: Ids,
    pub nadir_color: ColorRGB,
    pub zenith_color: ColorRGB,
}

/// What a record of configurations holds.
pub struct ConfigurationView {
    pub id: Ids,
    pub maximum_depth: usize,
}

impl View for Camera {
    type V = CameraView;

    open spec fn view(&self) -> CameraView {
        CameraView {
            id: self.id@,
            lower_left_corner: self.lower_left_corner,
            horizontal: self.horizontal,
            vertical: self.vertical,
            origin: self.origin,
            lense_radius: self.lense_radius,
            time_from: self.time_from,
            time_to: self.time_to,
        }
    }
}

impl View for Sky {
    type V = SkyView;

    open spec fn view(&self) -> SkyView {
        SkyView { id: self.id@, nadir_color: self.nadir_color, zenith_color: self.zenith_color }
    }
}

impl View for Configuration {
    type V = ConfigurationView;

    open spec fn view(&self) -> ConfigurationView {
        ConfigurationView { id: self.id@, maximum_depth: self.maximum_depth }
    }
}

impl CameraView {
    /// What the object of the given index is.
    pub open spec fn entry(self, index: int) -> Option<Entry> {
        Some(
            Entry::Camera {
                lower_left_corner: self.lower_left_corner,
                horizontal: self.horizontal,
                vertical: self.vertical,
                origin: self.origin,
                lense_radius: self.lense_radius,
                time_from: self.time_from,
                time_to: self.time_to,
            },
        )
    }
}

impl SkyView {
    /// What the object of the given index is.
    pub open spec fn entry(self, index: int) -> Option<Entry> {
        Some(Entry::Sky { nadir_color: self.nadir_color, zenith_color: self.zenith_color })
    }
}

impl ConfigurationView {
    /// What the object of the given index is.
    pub open spec fn entry(self, index: int) -> Option<Entry> {
        Some(Entry::Configuration { maximum_depth: self.maximum_depth })
    }
}

impl Camera {
    /// The record that declares the camera alone.
    pub fn from_camera(c: &scene::Camera) -> (r: Result<Camera, SceneError>)
        ensures
            r matches Ok(rec) && rec@ == (CameraView {
                id: Ids::Single(c.id),
                lower_left_corner: c.lower_left_corner,
                horizontal: c.horizontal,
                vertical: c.vertical,
                origin: c.origin,
                lense_radius: c.lense_radius,
                time_from: c.time_from,
                time_to: c.time_to,
            }),
    {
        Ok(
            Camera {
                id: IdConstructor::Single(c.id),
                lower_left_corner: c.lower_left_corner,
                horizontal: c.horizontal,
                vertical: c.vertical,
                origin: c.origin,
                lense_radius: c.lense_radius,
                time_from: c.time_from,
                time_to: c.time_to,
            },
        )
    }

    /// The camera that the record declares at `index`.
    pub fn to_camera(&self, index: usize) -> (r: Result<scene::Camera, SceneError>)
        ensures
            match r {
                Ok(c) => {
                    &&& index < self@.id.declared().len()
                    &&& c == (scene::Camera {
                        id: self@.id.declared()[index as int],
                        lower_left_corner: self.lower_left_corner,
                        horizontal: self.horizontal,
                        vertical: self.vertical,
                        origin: self.origin,
                        lense_radius: self.lense_radius,
                        time_from: self.time_from,
                        time_to: self.time_to,
                    })
                },
                Err(e) => index >= self@.id.declared().len() && e == no_such_object(),
            },
    {
        match self.id.get_id(index) {
            Some(id) => Ok(
                scene::Camera {
                    id,
                    lower_left_corner: self.lower_left_corner,
                    horizontal: self.horizontal,
                    vertical: self.vertical,
                    origin: self.origin,
                    lense_radius: self.lense_radius,
                    time_from: self.time_from,
                    time_to: self.time_to,
                },
            ),
            None => Err(SceneError::MalformedRecord { reason: Malformation::Shape }),
        }
    }
}

impl Sky {
    /// The record that declares the sky alone.
    pub fn from_sky(s: &scene::Sky) -> (r: Result<Sky, SceneError>)
        ensures
            r matches Ok(rec) && rec@ == (SkyView {
                id: Ids::Single(s.id),
                nadir_color: s.nadir_color,
                zenith_color: s.zenith_color,
            }),
    {
        Ok(
            Sky {
                id: IdConstructor::Single(s.id),
                nadir_color: s.nadir_color,
                zenith_color: s.zenith_color,
            },
        )
    }

    /// The sky that the record declares at `index`.
    pub fn to_sky(&self, index: usize) -> (r: Result<scene::Sky, SceneError>)
        ensures
            match r {
                Ok(s) => {
                    &&& index < self@.id.declared().len()
                    &&& s == (scene::Sky {
                        id: self@.id.declared()[index as int],
                        nadir_color: self.nadir_color,
                        zenith_color: self.zenith_color,
                    })
                },
                Err(e) => index >= self@.id.declared().len() && e == no_such_object(),
            },
    {
        match self.id.get_id(index) {
            Some(id) => Ok(
                scene::Sky { id, nadir_color: self.nadir_color, zenith_color: self.zenith_color },
            ),
            None => Err(SceneError::MalformedRecord { reason: Malformation::Shape }),
        }
    }
}

impl Configuration {
    /// The record that declares the configuration alone.
    pub fn from_configuration(c: &scene::Configuration) -> (r: Result<Configuration, SceneError>)
        ensures
            r matches Ok(rec) && rec@ == (ConfigurationView {
                id: Ids::Single(c.id),
                maximum_depth: c.maximum_depth,
            }),
    {
        Ok(Configuration { id: IdConstructor::Single(c.id), maximum_depth: c.maximum_depth })
    }

    /// The configuration that the record declares at `index`.
    pub fn to_configuration(&self, index: usize) -> (r: Result<scene::Configuration, SceneError>)
        ensures
            match r {
                Ok(c) => {
                    &&& index < self@.id.declared().len()
                    &&& c == (scene::Configuration {
                        id: self@.id.declared()[index as int],
                        maximum_depth: self.maximum_depth,
                    })
                },
                Err(e) => index >= self@.id.declared().len() && e == no_such_object(),
            },
    {
        match self.id.get_id(index) {
            Some(id) => Ok(scene::Configuration { id, maximum_depth: self.maximum_depth }),
            None => Err(SceneError::MalformedRecord { reason: Malformation::Shape }),
        }
    }
}

/// A record of any kind.
#[derive(Clone, Debug, PartialEq, Eq)]
pub enum RayTracingObject {
    ConstantTexture(ConstantTexture),
    NoMaterial(NoMaterial),
    Lambertian(Lambertian),
    Sphere(Sphere),
    Cuboid(Cuboid),
    Collection(Collection),
    RotateX(RotateX),
    FlipNormals(FlipNormals),
    Camera(Camera),
    Sky(Sky),
    Configuration(Configuration),
}

/// What a record holds.
pub enum Record {
    ConstantTexture(ConstantTextureView),
    NoMaterial(NoMaterialView),
    Lambertian(LambertianView),
    Sphere(SphereView),
    Cuboid(CuboidView),
    Collection(CollectionView),
    RotateX(RotateXView),
    FlipNormals(FlipNormalsView),
    Camera(CameraView),
    Sky(SkyView),
    Configuration(ConfigurationView),
}

impl View for RayTracingObject {
    type V = Record;

    open spec fn view(&self) -> Record {
        match self {
            RayTracingObject::ConstantTexture(r) => Record::ConstantTexture(r@),
            RayTracingObject::NoMaterial(r) => Record::NoMaterial(r@),
            RayTracingObject::Lambertian(r) => Record::Lambertian(r@),
            RayTracingObject::Sphere(r) => Record::Sphere(r@),
            RayTracingObject::Cuboid(r) => Record::Cuboid(r@),
            RayTracingObject::Collection(r) => Record::Collection(r@),
            RayTracingObject::RotateX(r) => Record::RotateX(r@),
            RayTracingObject::FlipNormals(r) => Record::FlipNormals(r@),
            RayTracingObject::Camera(r) => Record::Camera(r@),
            RayTracingObject::Sky(r) => Record::Sky(r@),
            RayTracingObject::Configuration(r) => Record::Configuration(r@),
        }
    }
}

impl Record {
    /// The identifier field of the record.
    pub open spec fn id(self) -> Ids {
        match self {
            Record::ConstantTexture(r) => r.id,
            Record::NoMaterial(r) => r.id,
            Record::Lambertian(r) => r.id,
            Record::Sphere(r) => r.id,
            Record::Cuboid(r) => r.id,
            Record::Collection(r) => r.id,
            Record::RotateX(r) => r.id,
            Record::FlipNormals(r) => r.id,
            Record::Camera(r) => r.id,
            Record::Sky(r) => r.id,
            Record::Configuration(r) => r.id,
        }
    }

    /// The identifiers that the record declares, in order.
    pub open spec fn ids(self) -> Seq<usize> {
        self.id().declared()
    }

    /// The kind of the objects that the record declares.
    pub open spec fn kind(self) -> Kind {
        match self {
            Record::ConstantTexture(_) => Kind::ConstantTexture,
            Record::NoMaterial(_) => Kind::NoMaterial,
            Record::Lambertian(_) => Kind::Lambertian,
            Record::Sphere(_) => Kind::Sphere,
            Record::Cuboid(_) => Kind::Cuboid,
            Record::Collection(_) => Kind::Collection,
            Record::RotateX(_) => Kind::RotateX,
            Record::FlipNormals(_) => Kind::FlipNormals,
            Record::Camera(_) => Kind::Camera,
            Record::Sky(_) => Kind::Sky,
            Record::Configuration(_) => Kind::Configuration,
        }
    }

    /// What the object of the given index is; `None` where a reference list
    /// of the record holds nothing for it.
    pub open spec fn entry(self, index: int) -> Option<Entry> {
        match self {
            Record::ConstantTexture(r) => r.entry(index),
            Record::NoMaterial(r) => r.entry(index),
            Record::Lambertian(r) => r.entry(index),
            Record::Sphere(r) => r.entry(index),
            Record::Cuboid(r) => r.entry(index),
            Record::Collection(r) => r.entry(index),
            Record::RotateX(r) => r.entry(index),
            Record::FlipNormals(r) => r.entry(index),
            Record::Camera(r) => r.entry(index),
            Record::Sky(r) => r.entry(index),
            Record::Configuration(r) => r.entry(index),
        }
    }
}

impl RayTracingObject {
    /// The identifier field of the record.
    pub fn id(&self) -> (id: &IdConstructor)
        ensures
            id@ == self@.id(),
    {
        match self {
            RayTracingObject::ConstantTexture(r) => &r.id,
            RayTracingObject::NoMaterial(r) => &r.id,
            RayTracingObject::Lambertian(r) => &r.id,
            RayTracingObject::Sphere(r) => &r.id,
            RayTracingObject::Cuboid(r) => &r.id,
            RayTracingObject::Collection(r) => &r.id,
            RayTracingObject::RotateX(r) => &r.id,
            RayTracingObject::FlipNormals(r) => &r.id,
            RayTracingObject::Camera(r) => &r.id,
            RayTracingObject::Sky(r) => &r.id,
            RayTracingObject::Configuration(r) => &r.id,
        }
    }

    /// The kind of the objects that the record declares.
    pub fn kind(&self) -> (k: Kind)
        ensures
            k == self@.kind(),
    {
        match self {
            RayTracingObject::ConstantTexture(_) => Kind::ConstantTexture,
            RayTracingObject::NoMaterial(_) => Kind::NoMaterial,
            RayTracingObject::Lambertian(_) => Kind::Lambertian,
            RayTracingObject::Sphere(_) => Kind::Sphere,
            RayTracingObject::Cuboid(_) => Kind::Cuboid,
            RayTracingObject::Collection(_) => Kind::Collection,
            RayTracingObject::RotateX(_) => Kind::RotateX,
            RayTracingObject::FlipNormals(_) => Kind::FlipNormals,
            RayTracingObject::Camera(_) => Kind::Camera,
            RayTracingObject::Sky(_) => Kind::Sky,
            RayTracingObject::Configuration(_) => Kind::Configuration,
        }
    }
}

/// A scene as records: the identifiers of its four entry points and the
/// records of all its objects. The order of the records carries no meaning.
#[derive(Clone, Debug, PartialEq, Eq)]
pub struct Scene {
    pub configuration_id: usize,
    pub camera_id: usize,
    pub sky_id: usize,
    pub root_node_id: usize,
    pub objects: Vec<RayTracingObject>,
}

/// What a scene of records holds.
pub struct SceneRecords {
    pub configuration_id: usize,
    pub camera_id: usize,
    pub sky_id: usize,
    pub root_node_id: usize,
    pub objects: Seq<Record>,
}

/// The views of a list of records.
pub open spec fn records_view(objects: Seq<RayTracingObject>) -> Seq<Record> {
    Seq::new(objects.len(), |i: int| objects[i]@)
}

impl View for Scene {
    type V = SceneRecords;

    open spec fn view(&self) -> SceneRecords {
        SceneRecords {
            configuration_id: self.configuration_id,
            camera_id: self.camera_id,
            sky_id: self.sky_id,
            root_node_id: self.root_node_id,
            objects: records_view(self.objects@),
        }
    }
}

impl Scene {
    /// The records of a live scene: one for each object, whoever shares
    /// it, in the order in which the objects are first met from the root
    /// node, owned objects before their owners.
    pub fn from_scene(scene: &scene::Scene) -> (r: Result<Scene, SceneError>)
        ensures
            r matches Ok(x) && x@ == exported(scene@),
    {
        let mut exporter = Exporter::new();
        match exporter.node(&scene.root_node) {
            Ok(()) => {},
            Err(e) => {
                return Err(e);
            },
        }
        match Camera::from_camera(&scene.camera) {
            Ok(record) => exporter.entry(scene.camera.id, RayTracingObject::Camera(record)),
            Err(e) => {
                return Err(e);
            },
        }
        match Sky::from_sky(&scene.sky) {
            Ok(record) => exporter.entry(scene.sky.id, RayTracingObject::Sky(record)),
            Err(e) => {
                return Err(e);
            },
        }
        match Configuration::from_configuration(&scene.configuration) {
            Ok(record) => exporter.entry(
                scene.configuration.id,
                RayTracingObject::Configuration(record),
            ),
            Err(e) => {
                return Err(e);
            },
        }
        Ok(
            Scene {
                configuration_id: scene.configuration.id,
                camera_id: scene.camera.id,
                sky_id: scene.sky.id,
                root_node_id: scene.root_node.get_id(),
                objects: exporter.objects,
            },
        )
    }

    /// The live scene that the records stand for: every object built once,
    /// and shared by all that refer to it.
    pub fn to_scene(&self) -> (r: Result<scene::Scene, SceneError>)
        ensures
            match loaded(self@) {
                Ok(s) => r matches Ok(x) && x@ == s,
                Err(e) => r matches Err(f) && f == e,
            },
    {
        self.to_scene_with_options(&DeserializeOptions { unreferenced: Unreferenced::Tolerate })
    }

    /// The live scene that the records stand for, read as strictly as the
    /// options ask.
    pub fn to_scene_with_options(&self, options: &DeserializeOptions) -> (r: Result<
        scene::Scene,
        SceneError,
    >)
        ensures
            match loaded_with(self@, *options) {
                Ok(s) => r matches Ok(x) && x@ == s,
                Err(e) => r matches Err(f) && f == e,
            },
    {
        let mut loader = match Loader::new(&self.objects) {
            Ok(l) => l,
            Err(e) => {
                return Err(e);
            },
        };
        let configuration = match loader.configuration(self.configuration_id) {
            Ok(c) => c,
            Err(e) => {
                return Err(e);
            },
        };
        let camera = match loader.camera(self.camera_id) {
            Ok(c) => c,
            Err(e) => {
                return Err(e);
            },
        };
        let sky = match loader.sky(self.sky_id) {
            Ok(s) => s,
            Err(e) => {
                return Err(e);
            },
        };
        let root_node = match loader.node(self.root_node_id, None) {
            Ok(n) => n,
            Err(e) => {
                return Err(e);
            },
        };
        let scene = scene::Scene::new(configuration, camera, sky, root_node);
        match options.unreferenced {
            Unreferenced::Tolerate => Ok(scene),
            Unreferenced::Reject => {
                proof {
                    assert(loader.built().insert(configuration.id).insert(camera.id).insert(
                        sky.id,
                    ) =~= scene_ids(scene@));
                }
                match loader.first_unreferenced(configuration.id, camera.id, sky.id) {
                    Some(id) => Err(
                        SceneError::MalformedRecord { reason: Malformation::Unreferenced { id } },
                    ),
                    None => Ok(scene),
                }
            },
        }
    }
}

/// What to do with a record that no entry point reaches.
#[derive(Clone, Copy, Debug, PartialEq, Eq, Structural)]
pub enum Unreferenced {
    /// Leave it aside.
    Tolerate,
    /// Refuse the whole scene.
    Reject,
}

/// How strictly a scene is read.
#[derive(Clone, Copy, Debug, PartialEq, Eq, Structural)]
pub struct DeserializeOptions {
    pub unreferenced: Unreferenced,
}

impl Default for DeserializeOptions {
    /// The options that tolerate what can be tolerated.
    fn default() -> (o: DeserializeOptions)
        ensures
            o == (DeserializeOptions { unreferenced: Unreferenced::Tolerate }),
    {
        DeserializeOptions { unreferenced: Unreferenced::Tolerate }
    }
}

} // verus!
