//! Reading a scene of records out of a JSON value.
//!
//! The document is an object with the four entry identifiers and, under
//! `objects`, an array of records. A record is an object with the name of
//! its kind as a key and its fields under it. Identifiers are numbers of
//! digits alone; scalars are decimals; vectors and colours are arrays of
//! three scalars. A member that a record has no use for is passed over.

use vstd::prelude::*;
use crate::scalar::Scalar;
use crate::serialization::decimal::{index_of_text, parse_index, parse_scalar, scalar_of_text};
use crate::serialization::hit_able::{
    Collection, CollectionView, Cuboid, CuboidView, FlipNormals, FlipNormalsView, RotateX,
    RotateXView, Sphere, SphereView,
};
use crate::serialization::id::{IdConstructor, IdReference, Ids};
use crate::serialization::material::{
    ConstantTexture, ConstantTextureView, Lambertian, LambertianView, NoMaterial, NoMaterialView,
};
use crate::serialization::scene::{
    records_view, Camera, CameraView, Configuration, ConfigurationView, RayTracingObject, Record,
    Scene, SceneRecords, Sky, SkyView,
};
use crate::serialization::value::{array_len, item, member, number_text, value_tree, JsonTree};
use crate::vector::Vector3;

verus! {

/// The member of an object under a key.
pub open spec fn field(t: JsonTree, key: Seq<char>) -> Option<JsonTree> {
    match t {
        JsonTree::Object(m) => if m.contains_key(key) {
            Some(m[key])
        } else {
            None
        },
        _ => None,
    }
}

/// The identifier that the tree holds.
pub open spec fn index_in(t: JsonTree) -> Option<usize> {
    match t {
        JsonTree::Number(text) => index_of_text(text),
        _ => None,
    }
}

/// The scalar that the tree holds.
pub open spec fn scalar_in(t: JsonTree) -> Option<Scalar> {
    match t {
        JsonTree::Number(text) => scalar_of_text(text),
        _ => None,
    }
}

/// The vector that the tree holds: an array of three scalars.
pub open spec fn vector_in(t: JsonTree) -> Option<Vector3> {
    match t {
        JsonTree::Array(a) => if a.len() == 3 {
            match (scalar_in(a[0]), scalar_in(a[1]), scalar_in(a[2])) {
                (Some(x), Some(y), Some(z)) => Some(Vector3 { x, y, z }),
                _ => None,
            }
        } else {
            None
        },
        _ => None,
    }
}

/// The identifiers that the first `n` items hold.
pub open spec fn indices_in(a: Seq<JsonTree>, n: nat) -> Option<Seq<usize>>
    decreases n,
{
    if n == 0 {
        Some(Seq::empty())
    } else {
        match (indices_in(a, (n - 1) as nat), index_in(a[n - 1])) {
            (Some(l), Some(x)) => Some(l.push(x)),
            _ => None,
        }
    }
}

/// The list of identifiers that the tree holds: an array of identifiers.
pub open spec fn list_in(t: JsonTree) -> Option<Seq<usize>> {
    match t {
        JsonTree::Array(a) => indices_in(a, a.len()),
        _ => None,
    }
}

/// The identifier field that the tree holds: one identifier, or an array
/// of them.
pub open spec fn ids_in(t: JsonTree) -> Option<Ids> {
    match t {
        JsonTree::Number(text) => match index_of_text(text) {
            Some(n) => Some(Ids::Single(n)),
            None => None,
        },
        JsonTree::Array(a) => match indices_in(a, a.len()) {
            Some(l) => Some(Ids::List(l)),
            None => None,
        },
        _ => None,
    }
}

/// The identifier under a key.
pub open spec fn index_at(t: JsonTree, key: Seq<char>) -> Option<usize> {
    match field(t, key) {
        Some(x) => index_in(x),
        None => None,
    }
}

/// The scalar under a key.
pub open spec fn scalar_at(t: JsonTree, key: Seq<char>) -> Option<Scalar> {
    match field(t, key) {
        Some(x) => scalar_in(x),
        None => None,
    }
}

/// The vector under a key.
pub open spec fn vector_at(t: JsonTree, key: Seq<char>) -> Option<Vector3> {
    match field(t, key) {
        Some(x) => vector_in(x),
        None => None,
    }
}

/// The list of identifiers under a key.
pub open spec fn list_at(t: JsonTree, key: Seq<char>) -> Option<Seq<usize>> {
    match field(t, key) {
        Some(x) => list_in(x),
        None => None,
    }
}

/// The identifier field under a key.
pub open spec fn ids_at(t: JsonTree, key: Seq<char>) -> Option<Ids> {
    match field(t, key) {
        Some(x) => ids_in(x),
        None => None,
    }
}

/// The record of a texture of one colour that the tree holds.
pub open spec fn constant_texture_in(t: JsonTree) -> Option<ConstantTextureView> {
    match (
        ids_at(t, "id"@),
        vector_at(t, "color"@),
    ) {
        (Some(id), Some(color)) => Some(ConstantTextureView { id, color }),
        _ => None,
    }
}

/// The record of a material that is none that the tree holds.
pub open spec fn no_material_in(t: JsonTree) -> Option<NoMaterialView> {
    match ids_at(t, "id"@) {
        Some(id) => Some(NoMaterialView { id }),
        None => None,
    }
}

/// The record of a diffuse material that the tree holds.
pub open spec fn lambertian_in(t: JsonTree) -> Option<LambertianView> {
    match (
        ids_at(t, "id"@),
        ids_at(t, "albedo"@),
    ) {
        (Some(id), Some(albedo)) => Some(LambertianView { id, albedo }),
        _ => None,
    }
}

/// The record of a sphere that the tree holds.
pub open spec fn sphere_in(t: JsonTree) -> Option<SphereView> {
    match (
        ids_at(t, "id"@),
        vector_at(t, "center"@),
        scalar_at(t, "radius"@),
        ids_at(t, "material"@),
    ) {
        (Some(id), Some(center), Some(radius), Some(material)) => Some(SphereView { id, center, radius, material }),
        _ => None,
    }
}

/// The record of a cuboid that the tree holds.
pub open spec fn cuboid_in(t: JsonTree) -> Option<CuboidView> {
    match (
        ids_at(t, "id"@),
        vector_at(t, "min"@),
        vector_at(t, "max"@),
        ids_at(t, "material"@),
    ) {
        (Some(id), Some(min), Some(max), Some(material)) => Some(CuboidView { id, min, max, material }),
        _ => None,
    }
}

/// The record of a collection that the tree holds.
pub open spec fn collection_in(t: JsonTree) -> Option<CollectionView> {
    match (
        ids_at(t, "id"@),
        list_at(t, "object_id_list"@),
    ) {
        (Some(id), Some(object_id_list)) => Some(CollectionView { id, object_id_list }),
        _ => None,
    }
}

/// The record of a turn about the x axis that the tree holds.
pub open spec fn rotate_x_in(t: JsonTree) -> Option<RotateXView> {
    match (
        ids_at(t, "id"@),
        scalar_at(t, "sin_theta"@),
        scalar_at(t, "cos_theta"@),
        ids_at(t, "node"@),
    ) {
        (Some(id), Some(sin_theta), Some(cos_theta), Some(node)) => Some(RotateXView { id, sin_theta, cos_theta, node }),
        _ => None,
    }
}

/// The record of a flip that the tree holds.
pub open spec fn flip_normals_in(t: JsonTree) -> Option<FlipNormalsView> {
    match (
        ids_at(t, "id"@),
        ids_at(t, "node"@),
    ) {
        (Some(id), Some(node)) => Some(FlipNormalsView { id, node }),
        _ => None,
    }
}

/// The record of a camera that the tree holds.
pub open spec fn camera_in(t: JsonTree) -> Option<CameraView> {
    match (
        ids_at(t, "id"@),
        vector_at(t, "lower_left_corner"@),
        vector_at(t, "horizontal"@),
        vector_at(t, "vertical"@),
        vector_at(t, "origin"@),
        scalar_at(t, "lense_radius"@),
        scalar_at(t, "time_from"@),
        scalar_at(t, "time_to"@),
    ) {
        (Some(id), Some(lower_left_corner), Some(horizontal), Some(vertical), Some(origin), Some(lense_radius), Some(time_from), Some(time_to)) => Some(CameraView { id, lower_left_corner, horizontal, vertical, origin, lense_radius, time_from, time_to }),
        _ => None,
    }
}

/// The record of a sky that the tree holds.
pub open spec fn sky_in(t: JsonTree) -> Option<SkyView> {
    match (
        ids_at(t, "id"@),
        vector_at(t, "nadir_color"@),
        vector_at(t, "zenith_color"@),
    ) {
        (Some(id), Some(nadir_color), Some(zenith_color)) => Some(SkyView { id, nadir_color, zenith_color }),
        _ => None,
    }
}

/// The record of a configuration that the tree holds.
pub open spec fn configuration_in(t: JsonTree) -> Option<ConfigurationView> {
    match (
        ids_at(t, "id"@),
        index_at(t, "maximum_depth"@),
    ) {
        (Some(id), Some(maximum_depth)) => Some(ConfigurationView { id, maximum_depth }),
        _ => None,
    }
}

/// The record that the tree holds: an object with the name of a kind as a
/// key, and under it the fields of a record of that kind. Where the object
/// has the names of several kinds as keys, the first of them in the order of
/// this definition counts.
pub open spec fn record_in(t: JsonTree) -> Option<Record> {
    if field(t, "ConstantTexture"@) is Some {
        match constant_texture_in(field(t, "ConstantTexture"@)->Some_0) {
            Some(r) => Some(Record::ConstantTexture(r)),
            None => None,
        }
    }     else if field(t, "NoMaterial"@) is Some {
        match no_material_in(field(t, "NoMaterial"@)->Some_0) {
            Some(r) => Some(Record::NoMaterial(r)),
            None => None,
        }
    }     else if field(t, "Lambertian"@) is Some {
        match lambertian_in(field(t, "Lambertian"@)->Some_0) {
            Some(r) => Some(Record::Lambertian(r)),
            None => None,
        }
    }     else if field(t, "Sphere"@) is Some {
        match sphere_in(field(t, "Sphere"@)->Some_0) {
            Some(r) => Some(Record::Sphere(r)),
            None => None,
        }
    }     else if field(t, "Cuboid"@) is Some {
        match cuboid_in(field(t, "Cuboid"@)->Some_0) {
            Some(r) => Some(Record::Cuboid(r)),
            None => None,
        }
    }     else if field(t, "Collection"@) is Some {
        match collection_in(field(t, "Collection"@)->Some_0) {
            Some(r) => Some(Record::Collection(r)),
            None => None,
        }
    }     else if field(t, "RotateX"@) is Some {
        match rotate_x_in(field(t, "RotateX"@)->Some_0) {
            Some(r) => Some(Record::RotateX(r)),
            None => None,
        }
    }     else if field(t, "FlipNormals"@) is Some {
        match flip_normals_in(field(t, "FlipNormals"@)->Some_0) {
            Some(r) => Some(Record::FlipNormals(r)),
            None => None,
        }
    }     else if field(t, "Camera"@) is Some {
        match camera_in(field(t, "Camera"@)->Some_0) {
            Some(r) => Some(Record::Camera(r)),
            None => None,
        }
    }     else if field(t, "Sky"@) is Some {
        match sky_in(field(t, "Sky"@)->Some_0) {
            Some(r) => Some(Record::Sky(r)),
            None => None,
        }
    }     else if field(t, "Configuration"@) is Some {
        match configuration_in(field(t, "Configuration"@)->Some_0) {
            Some(r) => Some(Record::Configuration(r)),
            None => None,
        }
    } else {
        None
    }
}

/// The records that the first `n` items hold.
pub open spec fn records_in(a: Seq<JsonTree>, n: nat) -> Option<Seq<Record>>
    decreases n,
{
    if n == 0 {
        Some(Seq::empty())
    } else {
        match (records_in(a, (n - 1) as nat), record_in(a[n - 1])) {
            (Some(l), Some(x)) => Some(l.push(x)),
            _ => None,
        }
    }
}

/// The records under a key: an array of records.
pub open spec fn records_at(t: JsonTree, key: Seq<char>) -> Option<Seq<Record>> {
    match field(t, key) {
        Some(JsonTree::Array(a)) => records_in(a, a.len()),
        _ => None,
    }
}

/// The scene of records that the tree holds.
pub open spec fn scene_in(t: JsonTree) -> Option<SceneRecords> {
    match (
        index_at(t, "configuration_id"@),
        index_at(t, "camera_id"@),
        index_at(t, "sky_id"@),
        index_at(t, "root_node_id"@),
        records_at(t, "objects"@),
    ) {
        (Some(configuration_id), Some(camera_id), Some(sky_id), Some(root_node_id), Some(objects)) => Some(
            SceneRecords { configuration_id, camera_id, sky_id, root_node_id, objects },
        ),
        _ => None,
    }
}

/// The identifier that the value holds.
pub fn decode_index(v: &serde_json::Value) -> (r: Option<usize>)
    ensures
        r == index_in(value_tree(*v)),
{
    match number_text(v) {
        Some(text) => parse_index(text.as_str()),
        None => None,
    }
}

/// The scalar that the value holds.
pub fn decode_scalar(v: &serde_json::Value) -> (r: Option<Scalar>)
    ensures
        r == scalar_in(value_tree(*v)),
{
    match number_text(v) {
        Some(text) => parse_scalar(text.as_str()),
        None => None,
    }
}

/// The vector that the value holds.
pub fn decode_vector(v: &serde_json::Value) -> (r: Option<Vector3>)
    ensures
        r == vector_in(value_tree(*v)),
{
    match array_len(v) {
        Some(n) => {
            if n != 3 {
                return None;
            }
        },
        None => {
            return None;
        },
    }
    let x = match item(v, 0) {
        Some(i) => match decode_scalar(i) {
            Some(x) => x,
            None => {
                return None;
            },
        },
        None => {
            return None;
        },
    };
    let y = match item(v, 1) {
        Some(i) => match decode_scalar(i) {
            Some(y) => y,
            None => {
                return None;
            },
        },
        None => {
            return None;
        },
    };
    let z = match item(v, 2) {
        Some(i) => match decode_scalar(i) {
            Some(z) => z,
            None => {
                return None;
            },
        },
        None => {
            return None;
        },
    };
    Some(Vector3::new(x, y, z))
}

/// An error among the first items is an error of the whole array.
proof fn lemma_indices_stay_none(a: Seq<JsonTree>, k: nat, n: nat)
    requires
        k <= n,
        indices_in(a, k) is None,
    ensures
        indices_in(a, n) is None,
    decreases n,
{
    if k < n {
        lemma_indices_stay_none(a, k, (n - 1) as nat);
    }
}

/// An error among the first records is an error of the whole array.
proof fn lemma_records_stay_none(a: Seq<JsonTree>, k: nat, n: nat)
    requires
        k <= n,
        records_in(a, k) is None,
    ensures
        records_in(a, n) is None,
    decreases n,
{
    if k < n {
        lemma_records_stay_none(a, k, (n - 1) as nat);
    }
}

/// The list of identifiers that the value holds.
pub fn decode_list(v: &serde_json::Value) -> (r: Option<Vec<usize>>)
    ensures
        match r {
            Some(l) => list_in(value_tree(*v)) == Some(l@),
            None => list_in(value_tree(*v)) is None,
        },
{
    let n = match array_len(v) {
        Some(n) => n,
        None => {
            return None;
        },
    };
    let ghost a = value_tree(*v)->Array_0;
    let mut out: Vec<usize> = Vec::new();
    let mut i: usize = 0;
    while i < n
        invariant
            value_tree(*v) == JsonTree::Array(a),
            n == a.len(),
            i <= n,
            indices_in(a, i as nat) == Some(out@),
        decreases n - i,
    {
        let x = match item(v, i) {
            Some(x) => x,
            None => {
                return None;
            },
        };
        match decode_index(x) {
            Some(id) => {
                out.push(id);
            },
            None => {
                proof {
                    assert(indices_in(a, (i + 1) as nat) is None);
                    lemma_indices_stay_none(a, (i + 1) as nat, n as nat);
                }
                return None;
            },
        }
        i = i + 1;
    }
    Some(out)
}

/// The identifiers that the value declares.
pub fn decode_ids(v: &serde_json::Value) -> (r: Option<IdConstructor>)
    ensures
        match r {
            Some(x) => ids_in(value_tree(*v)) == Some(x@),
            None => ids_in(value_tree(*v)) is None,
        },
{
    match number_text(v) {
        Some(text) => match parse_index(text.as_str()) {
            Some(id) => Some(IdConstructor::Single(id)),
            None => None,
        },
        None => match decode_list(v) {
            Some(l) => Some(IdConstructor::List(l)),
            None => None,
        },
    }
}

/// The identifier under the key.
pub fn index_field(v: &serde_json::Value, key: &str) -> (r: Option<usize>)
    ensures
        r == index_at(value_tree(*v), key@),
{
    match member(v, key) {
        Some(x) => decode_index(x),
        None => None,
    }
}

/// The scalar under the key.
pub fn scalar_field(v: &serde_json::Value, key: &str) -> (r: Option<Scalar>)
    ensures
        r == scalar_at(value_tree(*v), key@),
{
    match member(v, key) {
        Some(x) => decode_scalar(x),
        None => None,
    }
}

/// The vector under the key.
pub fn vector_field(v: &serde_json::Value, key: &str) -> (r: Option<Vector3>)
    ensures
        r == vector_at(value_tree(*v), key@),
{
    match member(v, key) {
        Some(x) => decode_vector(x),
        None => None,
    }
}

/// The list of identifiers under the key.
pub fn list_field(v: &serde_json::Value, key: &str) -> (r: Option<Vec<usize>>)
    ensures
        match r {
            Some(l) => list_at(value_tree(*v), key@) == Some(l@),
            None => list_at(value_tree(*v), key@) is None,
        },
{
    match member(v, key) {
        Some(x) => decode_list(x),
        None => None,
    }
}

/// The identifiers declared under the key.
pub fn ids_field(v: &serde_json::Value, key: &str) -> (r: Option<IdConstructor>)
    ensures
        match r {
            Some(x) => ids_at(value_tree(*v), key@) == Some(x@),
            None => ids_at(value_tree(*v), key@) is None,
        },
{
    match member(v, key) {
        Some(x) => decode_ids(x),
        None => None,
    }
}

/// The identifiers referred to under the key.
pub fn reference_field(v: &serde_json::Value, key: &str) -> (r: Option<IdReference>)
    ensures
        match r {
            Some(x) => ids_at(value_tree(*v), key@) == Some(x@),
            None => ids_at(value_tree(*v), key@) is None,
        },
{
    match ids_field(v, key) {
        Some(IdConstructor::Single(id)) => Some(IdReference::Single(id)),
        Some(IdConstructor::List(l)) => Some(IdReference::List(l)),
        None => None,
    }
}

/// The record of a texture of one colour that the value holds.
pub fn decode_constant_texture(v: &serde_json::Value) -> (r: Option<ConstantTexture>)
    ensures
        match r {
            Some(x) => constant_texture_in(value_tree(*v)) == Some(x@),
            None => constant_texture_in(value_tree(*v)) is None,
        },
{
    let id = match ids_field(v, "id") {
        Some(x) => x,
        None => {
            return None;
        },
    };
    let color = match vector_field(v, "color") {
        Some(x) => x,
        None => {
            return None;
        },
    };
    Some(ConstantTexture { id, color })
}

/// The record of a material that is none that the value holds.
pub fn decode_no_material(v: &serde_json::Value) -> (r: Option<NoMaterial>)
    ensures
        match r {
            Some(x) => no_material_in(value_tree(*v)) == Some(x@),
            None => no_material_in(value_tree(*v)) is None,
        },
{
    let id = match ids_field(v, "id") {
        Some(x) => x,
        None => {
            return None;
        },
    };
    Some(NoMaterial { id })
}

/// The record of a diffuse material that the value holds.
pub fn decode_lambertian(v: &serde_json::Value) -> (r: Option<Lambertian>)
    ensures
        match r {
            Some(x) => lambertian_in(value_tree(*v)) == Some(x@),
            None => lambertian_in(value_tree(*v)) is None,
        },
{
    let id = match ids_field(v, "id") {
        Some(x) => x,
        None => {
            return None;
        },
    };
    let albedo = match reference_field(v, "albedo") {
        Some(x) => x,
        None => {
            return None;
        },
    };
    Some(Lambertian { id, albedo })
}

/// The record of a sphere that the value holds.
pub fn decode_sphere(v: &serde_json::Value) -> (r: Option<Sphere>)
    ensures
        match r {
            Some(x) => sphere_in(value_tree(*v)) == Some(x@),
            None => sphere_in(value_tree(*v)) is None,
        },
{
    let id = match ids_field(v, "id") {
        Some(x) => x,
        None => {
            return None;
        },
    };
    let center = match vector_field(v, "center") {
        Some(x) => x,
        None => {
            return None;
        },
    };
    let radius = match scalar_field(v, "radius") {
        Some(x) => x,
        None => {
            return None;
        },
    };
    let material = match reference_field(v, "material") {
        Some(x) => x,
        None => {
            return None;
        },
    };
    Some(Sphere { id, center, radius, material })
}

/// The record of a cuboid that the value holds.
pub fn decode_cuboid(v: &serde_json::Value) -> (r: Option<Cuboid>)
    ensures
        match r {
            Some(x) => cuboid_in(value_tree(*v)) == Some(x@),
            None => cuboid_in(value_tree(*v)) is None,
        },
{
    let id = match ids_field(v, "id") {
        Some(x) => x,
        None => {
            return None;
        },
    };
    let min = match vector_field(v, "min") {
        Some(x) => x,
        None => {
            return None;
        },
    };
    let max = match vector_field(v, "max") {
        Some(x) => x,
        None => {
            return None;
        },
    };
    let material = match reference_field(v, "material") {
        Some(x) => x,
        None => {
            return None;
        },
    };
    Some(Cuboid { id, min, max, material })
}

/// The record of a collection that the value holds.
pub fn decode_collection(v: &serde_json::Value) -> (r: Option<Collection>)
    ensures
        match r {
            Some(x) => collection_in(value_tree(*v)) == Some(x@),
            None => collection_in(value_tree(*v)) is None,
        },
{
    let id = match ids_field(v, "id") {
        Some(x) => x,
        None => {
            return None;
        },
    };
    let object_id_list = match list_field(v, "object_id_list") {
        Some(x) => x,
        None => {
            return None;
        },
    };
    Some(Collection { id, object_id_list })
}

/// The record of a turn about the x axis that the value holds.
pub fn decode_rotate_x(v: &serde_json::Value) -> (r: Option<RotateX>)
    ensures
        match r {
            Some(x) => rotate_x_in(value_tree(*v)) == Some(x@),
            None => rotate_x_in(value_tree(*v)) is None,
        },
{
    let id = match ids_field(v, "id") {
        Some(x) => x,
        None => {
            return None;
        },
    };
    let sin_theta = match scalar_field(v, "sin_theta") {
        Some(x) => x,
        None => {
            return None;
        },
    };
    let cos_theta = match scalar_field(v, "cos_theta") {
        Some(x) => x,
        None => {
            return None;
        },
    };
    let node = match reference_field(v, "node") {
        Some(x) => x,
        None => {
            return None;
        },
    };
    Some(RotateX { id, sin_theta, cos_theta, node })
}

/// The record of a flip that the value holds.
pub fn decode_flip_normals(v: &serde_json::Value) -> (r: Option<FlipNormals>)
    ensures
        match r {
            Some(x) => flip_normals_in(value_tree(*v)) == Some(x@),
            None => flip_normals_in(value_tree(*v)) is None,
        },
{
    let id = match ids_field(v, "id") {
        Some(x) => x,
        None => {
            return None;
        },
    };
    let node = match reference_field(v, "node") {
        Some(x) => x,
        None => {
            return None;
        },
    };
    Some(FlipNormals { id, node })
}

/// The record of a camera that the value holds.
pub fn decode_camera(v: &serde_json::Value) -> (r: Option<Camera>)
    ensures
        match r {
            Some(x) => camera_in(value_tree(*v)) == Some(x@),
            None => camera_in(value_tree(*v)) is None,
        },
{
    let id = match ids_field(v, "id") {
        Some(x) => x,
        None => {
            return None;
        },
    };
    let lower_left_corner = match vector_field(v, "lower_left_corner") {
        Some(x) => x,
        None => {
            return None;
        },
    };
    let horizontal = match vector_field(v, "horizontal") {
        Some(x) => x,
        None => {
            return None;
        },
    };
    let vertical = match vector_field(v, "vertical") {
        Some(x) => x,
        None => {
            return None;
        },
    };
    let origin = match vector_field(v, "origin") {
        Some(x) => x,
        None => {
            return None;
        },
    };
    let lense_radius = match scalar_field(v, "lense_radius") {
        Some(x) => x,
        None => {
            return None;
        },
    };
    let time_from = match scalar_field(v, "time_from") {
        Some(x) => x,
        None => {
            return None;
        },
    };
    let time_to = match scalar_field(v, "time_to") {
        Some(x) => x,
        None => {
            return None;
        },
    };
    Some(Camera { id, lower_left_corner, horizontal, vertical, origin, lense_radius, time_from, time_to })
}

/// The record of a sky that the value holds.
pub fn decode_sky(v: &serde_json::Value) -> (r: Option<Sky>)
    ensures
        match r {
            Some(x) => sky_in(value_tree(*v)) == Some(x@),
            None => sky_in(value_tree(*v)) is None,
        },
{
    let id = match ids_field(v, "id") {
        Some(x) => x,
        None => {
            return None;
        },
    };
    let nadir_color = match vector_field(v, "nadir_color") {
        Some(x) => x,
        None => {
            return None;
        },
    };
    let zenith_color = match vector_field(v, "zenith_color") {
        Some(x) => x,
        None => {
            return None;
        },
    };
    Some(Sky { id, nadir_color, zenith_color })
}

/// The record of a configuration that the value holds.
pub fn decode_configuration(v: &serde_json::Value) -> (r: Option<Configuration>)
    ensures
        match r {
            Some(x) => configuration_in(value_tree(*v)) == Some(x@),
            None => configuration_in(value_tree(*v)) is None,
        },
{
    let id = match ids_field(v, "id") {
        Some(x) => x,
        None => {
            return None;
        },
    };
    let maximum_depth = match index_field(v, "maximum_depth") {
        Some(x) => x,
        None => {
            return None;
        },
    };
    Some(Configuration { id, maximum_depth })
}

/// The record that the value holds.
pub fn decode_record(v: &serde_json::Value) -> (r: Option<RayTracingObject>)
    ensures
        match r {
            Some(x) => record_in(value_tree(*v)) == Some(x@),
            None => record_in(value_tree(*v)) is None,
        },
{
    match member(v, "ConstantTexture") {
        Some(body) => {
            return match decode_constant_texture(body) {
                Some(r) => Some(RayTracingObject::ConstantTexture(r)),
                None => None,
            };
        },
        None => {},
    }
    match member(v, "NoMaterial") {
        Some(body) => {
            return match decode_no_material(body) {
                Some(r) => Some(RayTracingObject::NoMaterial(r)),
                None => None,
            };
        },
        None => {},
    }
    match member(v, "Lambertian") {
        Some(body) => {
            return match decode_lambertian(body) {
                Some(r) => Some(RayTracingObject::Lambertian(r)),
                None => None,
            };
        },
        None => {},
    }
    match member(v, "Sphere") {
        Some(body) => {
            return match decode_sphere(body) {
                Some(r) => Some(RayTracingObject::Sphere(r)),
                None => None,
            };
        },
        None => {},
    }
    match member(v, "Cuboid") {
        Some(body) => {
            return match decode_cuboid(body) {
                Some(r) => Some(RayTracingObject::Cuboid(r)),
                None => None,
            };
        },
        None => {},
    }
    match member(v, "Collection") {
        Some(body) => {
            return match decode_collection(body) {
                Some(r) => Some(RayTracingObject::Collection(r)),
                None => None,
            };
        },
        None => {},
    }
    match member(v, "RotateX") {
        Some(body) => {
            return match decode_rotate_x(body) {
                Some(r) => Some(RayTracingObject::RotateX(r)),
                None => None,
            };
        },
        None => {},
    }
    match member(v, "FlipNormals") {
        Some(body) => {
            return match decode_flip_normals(body) {
                Some(r) => Some(RayTracingObject::FlipNormals(r)),
                None => None,
            };
        },
        None => {},
    }
    match member(v, "Camera") {
        Some(body) => {
            return match decode_camera(body) {
                Some(r) => Some(RayTracingObject::Camera(r)),
                None => None,
            };
        },
        None => {},
    }
    match member(v, "Sky") {
        Some(body) => {
            return match decode_sky(body) {
                Some(r) => Some(RayTracingObject::Sky(r)),
                None => None,
            };
        },
        None => {},
    }
    match member(v, "Configuration") {
        Some(body) => {
            return match decode_configuration(body) {
                Some(r) => Some(RayTracingObject::Configuration(r)),
                None => None,
            };
        },
        None => {},
    }
    None
}

/// The scene of records that the value holds.
pub fn decode_scene(v: &serde_json::Value) -> (r: Option<Scene>)
    ensures
        match r {
            Some(x) => scene_in(value_tree(*v)) == Some(x@),
            None => scene_in(value_tree(*v)) is None,
        },
{
    let configuration_id = match index_field(v, "configuration_id") {
        Some(x) => x,
        None => {
            return None;
        },
    };
    let camera_id = match index_field(v, "camera_id") {
        Some(x) => x,
        None => {
            return None;
        },
    };
    let sky_id = match index_field(v, "sky_id") {
        Some(x) => x,
        None => {
            return None;
        },
    };
    let root_node_id = match index_field(v, "root_node_id") {
        Some(x) => x,
        None => {
            return None;
        },
    };
    let list = match member(v, "objects") {
        Some(x) => x,
        None => {
            return None;
        },
    };
    let n = match array_len(list) {
        Some(n) => n,
        None => {
            return None;
        },
    };
    let ghost a = value_tree(*list)->Array_0;
    let mut objects: Vec<RayTracingObject> = Vec::new();
    let mut i: usize = 0;
    while i < n
        invariant
            value_tree(*list) == JsonTree::Array(a),
            field(value_tree(*v), "objects"@) == Some(value_tree(*list)),
            n == a.len(),
            i <= n,
            objects@.len() == i,
            records_in(a, i as nat) is Some,
            records_in(a, i as nat)->Some_0.len() == i,
            forall|j: int| 0 <= j < i ==> records_in(a, i as nat)->Some_0[j] == (#[trigger] objects@[j])@,
        decreases n - i,
    {
        let x = match item(list, i) {
            Some(x) => x,
            None => {
                return None;
            },
        };
        match decode_record(x) {
            Some(record) => {
                objects.push(record);
            },
            None => {
                proof {
                    assert(records_in(a, (i + 1) as nat) is None);
                    lemma_records_stay_none(a, (i + 1) as nat, n as nat);
                    assert(field(value_tree(*v), "objects"@) == Some(JsonTree::Array(a)));
                    assert(records_at(value_tree(*v), "objects"@) is None);
                }
                return None;
            },
        }
        i = i + 1;
    }
    let scene = Scene { configuration_id, camera_id, sky_id, root_node_id, objects };
    assert(scene@.objects =~= records_in(a, n as nat)->Some_0);
    Some(scene)
}

} // verus!
