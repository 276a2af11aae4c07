//! Building the JSON value that holds a scene of records.
//!
//! The value is the one that reading gives the same scene back from:
//! identifiers as digits, scalars as decimals with six places, vectors and
//! colours as arrays of three scalars, a record as an object with the name
//! of its kind as its one key.

use vstd::prelude::*;
use crate::scalar::Scalar;
use crate::serialization::decimal::{
    all_digits, decimal_text, index_text, is_digit, lemma_natural_text, lemma_natural_text_leads,
    lemma_scalar_round_trip, natural_text, scalar_text, six_digits,
};
use crate::serialization::hit_able::{
    Collection, CollectionView, Cuboid, CuboidView, FlipNormals, FlipNormalsView, RotateX,
    RotateXView, Sphere, SphereView,
};
use crate::serialization::id::{IdConstructor, IdReference, Ids};
use crate::serialization::material::{
    ConstantTexture, ConstantTextureView, Lambertian, LambertianView, NoMaterial, NoMaterialView,
};
use crate::serialization::scene::{
    Camera, CameraView, Configuration, ConfigurationView, RayTracingObject, Record, Scene,
    SceneRecords, Sky, SkyView,
};
use crate::serialization::value::{
    array_value, has_exponent, map_insert, new_map, no_members, number_value, object_value,
    plain_number, plain_number_at, value_tree, JsonTree,
};
use crate::vector::Vector3;

verus! {

/// The tree of an identifier: a number, its digits.
pub open spec fn index_tree(n: usize) -> JsonTree {
    JsonTree::Number(natural_text(n as nat))
}

/// The tree of a scalar: a number, its decimal text.
pub open spec fn scalar_tree(s: Scalar) -> JsonTree {
    JsonTree::Number(decimal_text(s.raw as int))
}

/// The tree of a vector: the array of its three scalars.
pub open spec fn vector_tree(v: Vector3) -> JsonTree {
    JsonTree::Array(seq![scalar_tree(v.x), scalar_tree(v.y), scalar_tree(v.z)])
}

/// The tree of a list of identifiers: the array of them.
pub open spec fn list_tree(l: Seq<usize>) -> JsonTree {
    JsonTree::Array(Seq::new(l.len(), |i: int| index_tree(l[i])))
}

/// The tree of an identifier field: one identifier, or the array of them.
pub open spec fn ids_tree(ids: Ids) -> JsonTree {
    match ids {
        Ids::Single(n) => index_tree(n),
        Ids::List(l) => list_tree(l),
    }
}

/// The members of the object that holds the record of a texture of one colour.
pub open spec fn constant_texture_members(r: ConstantTextureView) -> Map<Seq<char>, JsonTree> {
    no_members().insert(
        "id"@,
        ids_tree(r.id),
    ).insert(
        "color"@,
        vector_tree(r.color),
    )
}

/// The members of the object that holds the record of a material that is none.
pub open spec fn no_material_members(r: NoMaterialView) -> Map<Seq<char>, JsonTree> {
    no_members().insert(
        "id"@,
        ids_tree(r.id),
    )
}

/// The members of the object that holds the record of a diffuse material.
pub open spec fn lambertian_members(r: LambertianView) -> Map<Seq<char>, JsonTree> {
    no_members().insert(
        "id"@,
        ids_tree(r.id),
    ).insert(
        "albedo"@,
        ids_tree(r.albedo),
    )
}

/// The members of the object that holds the record of a sphere.
pub open spec fn sphere_members(r: SphereView) -> Map<Seq<char>, JsonTree> {
    no_members().insert(
        "id"@,
        ids_tree(r.id),
    ).insert(
        "center"@,
        vector_tree(r.center),
    ).insert(
        "radius"@,
        scalar_tree(r.radius),
    ).insert(
        "material"@,
        ids_tree(r.material),
    )
}

/// The members of the object that holds the record of a cuboid.
pub open spec fn cuboid_members(r: CuboidView) -> Map<Seq<char>, JsonTree> {
    no_members().insert(
        "id"@,
        ids_tree(r.id),
    ).insert(
        "min"@,
        vector_tree(r.min),
    ).insert(
        "max"@,
        vector_tree(r.max),
    ).insert(
        "material"@,
        ids_tree(r.material),
    )
}

/// The members of the object that holds the record of a collection.
pub open spec fn collection_members(r: CollectionView) -> Map<Seq<char>, JsonTree> {
    no_members().insert(
        "id"@,
        ids_tree(r.id),
    ).insert(
        "object_id_list"@,
        list_tree(r.object_id_list),
    )
}

/// The members of the object that holds the record of a turn about the x axis.
pub open spec fn rotate_x_members(r: RotateXView) -> Map<Seq<char>, JsonTree> {
    no_members().insert(
        "id"@,
        ids_tree(r.id),
    ).insert(
        "sin_theta"@,
        scalar_tree(r.sin_theta),
    ).insert(
        "cos_theta"@,
        scalar_tree(r.cos_theta),
    ).insert(
        "node"@,
        ids_tree(r.node),
    )
}

/// The members of the object that holds the record of a flip.
pub open spec fn flip_normals_members(r: FlipNormalsView) -> Map<Seq<char>, JsonTree> {
    no_members().insert(
        "id"@,
        ids_tree(r.id),
    ).insert(
        "node"@,
        ids_tree(r.node),
    )
}

/// The members of the object that holds the record of a camera.
pub open spec fn camera_members(r: CameraView) -> Map<Seq<char>, JsonTree> {
    no_members().insert(
        "id"@,
        ids_tree(r.id),
    ).insert(
        "lower_left_corner"@,
        vector_tree(r.lower_left_corner),
    ).insert(
        "horizontal"@,
        vector_tree(r.horizontal),
    ).insert(
        "vertical"@,
        vector_tree(r.vertical),
    ).insert(
        "origin"@,
        vector_tree(r.origin),
    ).insert(
        "lense_radius"@,
        scalar_tree(r.lense_radius),
    ).insert(
        "time_from"@,
        scalar_tree(r.time_from),
    ).insert(
        "time_to"@,
        scalar_tree(r.time_to),
    )
}

/// The members of the object that holds the record of a sky.
pub open spec fn sky_members(r: SkyView) -> Map<Seq<char>, JsonTree> {
    no_members().insert(
        "id"@,
        ids_tree(r.id),
    ).insert(
        "nadir_color"@,
        vector_tree(r.nadir_color),
    ).insert(
        "zenith_color"@,
        vector_tree(r.zenith_color),
    )
}

/// The members of the object that holds the record of a configuration.
pub open spec fn configuration_members(r: ConfigurationView) -> Map<Seq<char>, JsonTree> {
    no_members().insert(
        "id"@,
        ids_tree(r.id),
    ).insert(
        "maximum_depth"@,
        index_tree(r.maximum_depth),
    )
}

/// The tree that holds the record: an object with the name of the kind of
/// the record as its one key, and under it the fields of the record.
pub open spec fn record_tree(r: Record) -> JsonTree {
    match r {
        Record::ConstantTexture(x) => JsonTree::Object(
            no_members().insert("ConstantTexture"@, JsonTree::Object(constant_texture_members(x))),
        ),
        Record::NoMaterial(x) => JsonTree::Object(
            no_members().insert("NoMaterial"@, JsonTree::Object(no_material_members(x))),
        ),
        Record::Lambertian(x) => JsonTree::Object(
            no_members().insert("Lambertian"@, JsonTree::Object(lambertian_members(x))),
        ),
        Record::Sphere(x) => JsonTree::Object(
            no_members().insert("Sphere"@, JsonTree::Object(sphere_members(x))),
        ),
        Record::Cuboid(x) => JsonTree::Object(
            no_members().insert("Cuboid"@, JsonTree::Object(cuboid_members(x))),
        ),
        Record::Collection(x) => JsonTree::Object(
            no_members().insert("Collection"@, JsonTree::Object(collection_members(x))),
        ),
        Record::RotateX(x) => JsonTree::Object(
            no_members().insert("RotateX"@, JsonTree::Object(rotate_x_members(x))),
        ),
        Record::FlipNormals(x) => JsonTree::Object(
            no_members().insert("FlipNormals"@, JsonTree::Object(flip_normals_members(x))),
        ),
        Record::Camera(x) => JsonTree::Object(
            no_members().insert("Camera"@, JsonTree::Object(camera_members(x))),
        ),
        Record::Sky(x) => JsonTree::Object(
            no_members().insert("Sky"@, JsonTree::Object(sky_members(x))),
        ),
        Record::Configuration(x) => JsonTree::Object(
            no_members().insert("Configuration"@, JsonTree::Object(configuration_members(x))),
        ),
    }
}

/// The tree that holds the scene of records.
pub open spec fn scene_tree(s: SceneRecords) -> JsonTree {
    JsonTree::Object(
        no_members().insert("configuration_id"@, index_tree(s.configuration_id)).insert(
            "camera_id"@,
            index_tree(s.camera_id),
        ).insert("sky_id"@, index_tree(s.sky_id)).insert(
            "root_node_id"@,
            index_tree(s.root_node_id),
        ).insert(
            "objects"@,
            JsonTree::Array(Seq::new(s.objects.len(), |i: int| record_tree(s.objects[i]))),
        ),
    )
}

/// Digits hold no exponent mark.
proof fn lemma_digits_without_exponent(s: Seq<char>)
    requires
        all_digits(s),
    ensures
        !has_exponent(s),
{
    if s.contains('e') {
        let i = choose|i: int| 0 <= i < s.len() && s[i] == 'e';
        assert(is_digit(s[i]));
    }
    if s.contains('E') {
        let i = choose|i: int| 0 <= i < s.len() && s[i] == 'E';
        assert(is_digit(s[i]));
    }
}

/// The digits of an identifier are a number in plain notation.
proof fn lemma_index_is_plain(n: usize)
    ensures
        plain_number(natural_text(n as nat)),
{
    let text = natural_text(n as nat);
    lemma_natural_text(n as nat);
    assert(is_digit(text[0]));
    if n >= 1 {
        lemma_natural_text_leads(n as nat);
    }
    assert(plain_number_at(text, 0, text.len() as int));
}

/// The decimal text of a scalar is a number in plain notation.
proof fn lemma_scalar_is_plain(s: Scalar)
    ensures
        plain_number(decimal_text(s.raw as int)),
{
    let raw = s.raw as int;
    let text = decimal_text(raw);
    let m = (if raw < 0 { -raw } else { raw }) as nat;
    let whole = natural_text(m / 1_000_000);
    let six = six_digits(m % 1_000_000);
    lemma_natural_text(m / 1_000_000);
    let start: int = if raw < 0 { 1 } else { 0 };
    let point = start + whole.len();
    assert(text.len() == point + 7);
    assert forall|i: int| start <= i < point implies is_digit(#[trigger] text[i]) by {
        assert(text[i] == whole[i - start]);
    }
    assert forall|i: int| point + 1 <= i < text.len() implies is_digit(#[trigger] text[i]) by {
        assert(text[i] == six[i - point - 1]);
    }
    assert(text[start] == whole[0]);
    assert(is_digit(whole[0]));
    if m / 1_000_000 >= 1 {
        lemma_natural_text_leads(m / 1_000_000);
    }
    assert(text[point] == '.');
    assert(plain_number_at(text, start, point));
}

/// The value of an identifier: the number of its digits.
pub fn encode_index(n: usize) -> (v: Option<serde_json::Value>)
    ensures
        v matches Some(x) && value_tree(x) == index_tree(n),
{
    let text = index_text(n);
    proof {
        lemma_natural_text(n as nat);
        lemma_digits_without_exponent(text@);
        lemma_index_is_plain(n);
    }
    match number_value(text.as_str()) {
        Ok(v) => Some(v),
        Err(_) => None,
    }
}

/// The value of a scalar: the number of its decimal text.
pub fn encode_scalar(s: Scalar) -> (v: Option<serde_json::Value>)
    ensures
        v matches Some(x) && value_tree(x) == scalar_tree(s),
{
    let text = scalar_text(s);
    proof {
        lemma_scalar_round_trip(s);
        lemma_scalar_is_plain(s);
    }
    match number_value(text.as_str()) {
        Ok(v) => Some(v),
        Err(_) => None,
    }
}

/// The value of a vector.
pub fn encode_vector(v: Vector3) -> (r: Option<serde_json::Value>)
    ensures
        r matches Some(x) && value_tree(x) == vector_tree(v),
{
    let mut items: Vec<serde_json::Value> = Vec::new();
    match encode_scalar(v.x) {
        Some(x) => items.push(x),
        None => {
            return None;
        },
    }
    match encode_scalar(v.y) {
        Some(y) => items.push(y),
        None => {
            return None;
        },
    }
    match encode_scalar(v.z) {
        Some(z) => items.push(z),
        None => {
            return None;
        },
    }
    let r = array_value(items);
    assert(value_tree(r)->Array_0 =~= seq![scalar_tree(v.x), scalar_tree(v.y), scalar_tree(v.z)]);
    Some(r)
}

/// The value of a list of identifiers.
pub fn encode_list(l: &Vec<usize>) -> (r: Option<serde_json::Value>)
    ensures
        r matches Some(x) && value_tree(x) == list_tree(l@),
{
    let mut items: Vec<serde_json::Value> = Vec::new();
    let mut i: usize = 0;
    while i < l.len()
        invariant
            i <= l.len(),
            items@.len() == i,
            forall|j: int| 0 <= j < i ==> value_tree(#[trigger] items@[j]) == index_tree(l@[j]),
        decreases l.len() - i,
    {
        match encode_index(l[i]) {
            Some(x) => items.push(x),
            None => {
                return None;
            },
        }
        i = i + 1;
    }
    let r = array_value(items);
    assert(value_tree(r)->Array_0 =~= Seq::new(l@.len(), |i: int| index_tree(l@[i])));
    Some(r)
}

/// The value of the identifiers that a record declares.
pub fn encode_constructor(ids: &IdConstructor) -> (r: Option<serde_json::Value>)
    ensures
        r matches Some(x) && value_tree(x) == ids_tree(ids@),
{
    match ids {
        IdConstructor::Single(n) => encode_index(*n),
        IdConstructor::List(l) => encode_list(l),
    }
}

/// The value of the identifiers that a record refers to.
pub fn encode_reference(ids: &IdReference) -> (r: Option<serde_json::Value>)
    ensures
        r matches Some(x) && value_tree(x) == ids_tree(ids@),
{
    match ids {
        IdReference::Single(n) => encode_index(*n),
        IdReference::List(l) => encode_list(l),
    }
}

/// The object that holds the record of a texture of one colour.
pub fn encode_constant_texture(r: &ConstantTexture) -> (v: Option<serde_json::Value>)
    ensures
        v matches Some(x) && value_tree(x) == JsonTree::Object(constant_texture_members(r@)),
{
    let mut map = new_map();
    match encode_constructor(&r.id) {
        Some(x) => map_insert(&mut map, "id", x),
        None => {
            return None;
        },
    }
    match encode_vector(r.color) {
        Some(x) => map_insert(&mut map, "color", x),
        None => {
            return None;
        },
    }
    Some(object_value(map))
}

/// The object that holds the record of a material that is none.
pub fn encode_no_material(r: &NoMaterial) -> (v: Option<serde_json::Value>)
    ensures
        v matches Some(x) && value_tree(x) == JsonTree::Object(no_material_members(r@)),
{
    let mut map = new_map();
    match encode_constructor(&r.id) {
        Some(x) => map_insert(&mut map, "id", x),
        None => {
            return None;
        },
    }
    Some(object_value(map))
}

/// The object that holds the record of a diffuse material.
pub fn encode_lambertian(r: &Lambertian) -> (v: Option<serde_json::Value>)
    ensures
        v matches Some(x) && value_tree(x) == JsonTree::Object(lambertian_members(r@)),
{
    let mut map = new_map();
    match encode_constructor(&r.id) {
        Some(x) => map_insert(&mut map, "id", x),
        None => {
            return None;
        },
    }
    match encode_reference(&r.albedo) {
        Some(x) => map_insert(&mut map, "albedo", x),
        None => {
            return None;
        },
    }
    Some(object_value(map))
}

/// The object that holds the record of a sphere.
pub fn encode_sphere(r: &Sphere) -> (v: Option<serde_json::Value>)
    ensures
        v matches Some(x) && value_tree(x) == JsonTree::Object(sphere_members(r@)),
{
    let mut map = new_map();
    match encode_constructor(&r.id) {
        Some(x) => map_insert(&mut map, "id", x),
        None => {
            return None;
        },
    }
    match encode_vector(r.center) {
        Some(x) => map_insert(&mut map, "center", x),
        None => {
            return None;
        },
    }
    match encode_scalar(r.radius) {
        Some(x) => map_insert(&mut map, "radius", x),
        None => {
            return None;
        },
    }
    match encode_reference(&r.material) {
        Some(x) => map_insert(&mut map, "material", x),
        None => {
            return None;
        },
    }
    Some(object_value(map))
}

/// The object that holds the record of a cuboid.
pub fn encode_cuboid(r: &Cuboid) -> (v: Option<serde_json::Value>)
    ensures
        v matches Some(x) && value_tree(x) == JsonTree::Object(cuboid_members(r@)),
{
    let mut map = new_map();
    match encode_constructor(&r.id) {
        Some(x) => map_insert(&mut map, "id", x),
        None => {
            return None;
        },
    }
    match encode_vector(r.min) {
        Some(x) => map_insert(&mut map, "min", x),
        None => {
            return None;
        },
    }
    match encode_vector(r.max) {
        Some(x) => map_insert(&mut map, "max", x),
        None => {
            return None;
        },
    }
    match encode_reference(&r.material) {
        Some(x) => map_insert(&mut map, "material", x),
        None => {
            return None;
        },
    }
    Some(object_value(map))
}

/// The object that holds the record of a collection.
pub fn encode_collection(r: &Collection) -> (v: Option<serde_json::Value>)
    ensures
        v matches Some(x) && value_tree(x) == JsonTree::Object(collection_members(r@)),
{
    let mut map = new_map();
    match encode_constructor(&r.id) {
        Some(x) => map_insert(&mut map, "id", x),
        None => {
            return None;
        },
    }
    match encode_list(&r.object_id_list) {
        Some(x) => map_insert(&mut map, "object_id_list", x),
        None => {
            return None;
        },
    }
    Some(object_value(map))
}

/// The object that holds the record of a turn about the x axis.
pub fn encode_rotate_x(r: &RotateX) -> (v: Option<serde_json::Value>)
    ensures
        v matches Some(x) && value_tree(x) == JsonTree::Object(rotate_x_members(r@)),
{
    let mut map = new_map();
    match encode_constructor(&r.id) {
        Some(x) => map_insert(&mut map, "id", x),
        None => {
            return None;
        },
    }
    match encode_scalar(r.sin_theta) {
        Some(x) => map_insert(&mut map, "sin_theta", x),
        None => {
            return None;
        },
    }
    match encode_scalar(r.cos_theta) {
        Some(x) => map_insert(&mut map, "cos_theta", x),
        None => {
            return None;
        },
    }
    match encode_reference(&r.node) {
        Some(x) => map_insert(&mut map, "node", x),
        None => {
            return None;
        },
    }
    Some(object_value(map))
}

/// The object that holds the record of a flip.
pub fn encode_flip_normals(r: &FlipNormals) -> (v: Option<serde_json::Value>)
    ensures
        v matches Some(x) && value_tree(x) == JsonTree::Object(flip_normals_members(r@)),
{
    let mut map = new_map();
    match encode_constructor(&r.id) {
        Some(x) => map_insert(&mut map, "id", x),
        None => {
            return None;
        },
    }
    match encode_reference(&r.node) {
        Some(x) => map_insert(&mut map, "node", x),
        None => {
            return None;
        },
    }
    Some(object_value(map))
}

/// The object that holds the record of a camera.
pub fn encode_camera(r: &Camera) -> (v: Option<serde_json::Value>)
    ensures
        v matches Some(x) && value_tree(x) == JsonTree::Object(camera_members(r@)),
{
    let mut map = new_map();
    match encode_constructor(&r.id) {
        Some(x) => map_insert(&mut map, "id", x),
        None => {
            return None;
        },
    }
    match encode_vector(r.lower_left_corner) {
        Some(x) => map_insert(&mut map, "lower_left_corner", x),
        None => {
            return None;
        },
    }
    match encode_vector(r.horizontal) {
        Some(x) => map_insert(&mut map, "horizontal", x),
        None => {
            return None;
        },
    }
    match encode_vector(r.vertical) {
        Some(x) => map_insert(&mut map, "vertical", x),
        None => {
            return None;
        },
    }
    match encode_vector(r.origin) {
        Some(x) => map_insert(&mut map, "origin", x),
        None => {
            return None;
        },
    }
    match encode_scalar(r.lense_radius) {
        Some(x) => map_insert(&mut map, "lense_radius", x),
        None => {
            return None;
        },
    }
    match encode_scalar(r.time_from) {
        Some(x) => map_insert(&mut map, "time_from", x),
        None => {
            return None;
        },
    }
    match encode_scalar(r.time_to) {
        Some(x) => map_insert(&mut map, "time_to", x),
        None => {
            return None;
        },
    }
    Some(object_value(map))
}

/// The object that holds the record of a sky.
pub fn encode_sky(r: &Sky) -> (v: Option<serde_json::Value>)
    ensures
        v matches Some(x) && value_tree(x) == JsonTree::Object(sky_members(r@)),
{
    let mut map = new_map();
    match encode_constructor(&r.id) {
        Some(x) => map_insert(&mut map, "id", x),
        None => {
            return None;
        },
    }
    match encode_vector(r.nadir_color) {
        Some(x) => map_insert(&mut map, "nadir_color", x),
        None => {
            return None;
        },
    }
    match encode_vector(r.zenith_color) {
        Some(x) => map_insert(&mut map, "zenith_color", x),
        None => {
            return None;
        },
    }
    Some(object_value(map))
}

/// The object that holds the record of a configuration.
pub fn encode_configuration(r: &Configuration) -> (v: Option<serde_json::Value>)
    ensures
        v matches Some(x) && value_tree(x) == JsonTree::Object(configuration_members(r@)),
{
    let mut map = new_map();
    match encode_constructor(&r.id) {
        Some(x) => map_insert(&mut map, "id", x),
        None => {
            return None;
        },
    }
    match encode_index(r.maximum_depth) {
        Some(x) => map_insert(&mut map, "maximum_depth", x),
        None => {
            return None;
        },
    }
    Some(object_value(map))
}

/// The value that holds the record.
pub fn encode_record(r: &RayTracingObject) -> (v: Option<serde_json::Value>)
    ensures
        v matches Some(x) && value_tree(x) == record_tree(r@),
{
    let mut map = new_map();
    match r {
        RayTracingObject::ConstantTexture(x) => match encode_constant_texture(x) {
            Some(body) => map_insert(&mut map, "ConstantTexture", body),
            None => {
                return None;
            },
        },
        RayTracingObject::NoMaterial(x) => match encode_no_material(x) {
            Some(body) => map_insert(&mut map, "NoMaterial", body),
            None => {
                return None;
            },
        },
        RayTracingObject::Lambertian(x) => match encode_lambertian(x) {
            Some(body) => map_insert(&mut map, "Lambertian", body),
            None => {
                return None;
            },
        },
        RayTracingObject::Sphere(x) => match encode_sphere(x) {
            Some(body) => map_insert(&mut map, "Sphere", body),
            None => {
                return None;
            },
        },
        RayTracingObject::Cuboid(x) => match encode_cuboid(x) {
            Some(body) => map_insert(&mut map, "Cuboid", body),
            None => {
                return None;
            },
        },
        RayTracingObject::Collection(x) => match encode_collection(x) {
            Some(body) => map_insert(&mut map, "Collection", body),
            None => {
                return None;
            },
        },
        RayTracingObject::RotateX(x) => match encode_rotate_x(x) {
            Some(body) => map_insert(&mut map, "RotateX", body),
            None => {
                return None;
            },
        },
        RayTracingObject::FlipNormals(x) => match encode_flip_normals(x) {
            Some(body) => map_insert(&mut map, "FlipNormals", body),
            None => {
                return None;
            },
        },
        RayTracingObject::Camera(x) => match encode_camera(x) {
            Some(body) => map_insert(&mut map, "Camera", body),
            None => {
                return None;
            },
        },
        RayTracingObject::Sky(x) => match encode_sky(x) {
            Some(body) => map_insert(&mut map, "Sky", body),
            None => {
                return None;
            },
        },
        RayTracingObject::Configuration(x) => match encode_configuration(x) {
            Some(body) => map_insert(&mut map, "Configuration", body),
            None => {
                return None;
            },
        },
    }
    Some(object_value(map))
}

/// The value that holds the scene of records.
pub fn encode_scene(s: &Scene) -> (v: Option<serde_json::Value>)
    ensures
        v matches Some(x) && value_tree(x) == scene_tree(s@),
{
    let mut items: Vec<serde_json::Value> = Vec::new();
    let mut i: usize = 0;
    while i < s.objects.len()
        invariant
            i <= s.objects.len(),
            items@.len() == i,
            forall|j: int| 0 <= j < i ==> value_tree(#[trigger] items@[j]) == record_tree(s.objects@[j]@),
        decreases s.objects.len() - i,
    {
        match encode_record(&s.objects[i]) {
            Some(x) => items.push(x),
            None => {
                return None;
            },
        }
        i = i + 1;
    }
    let objects = array_value(items);
    assert(value_tree(objects)->Array_0 =~= Seq::new(
        s@.objects.len(),
        |i: int| record_tree(s@.objects[i]),
    ));
    let mut map = new_map();
    match encode_index(s.configuration_id) {
        Some(x) => map_insert(&mut map, "configuration_id", x),
        None => {
            return None;
        },
    }
    match encode_index(s.camera_id) {
        Some(x) => map_insert(&mut map, "camera_id", x),
        None => {
            return None;
        },
    }
    match encode_index(s.sky_id) {
        Some(x) => map_insert(&mut map, "sky_id", x),
        None => {
            return None;
        },
    }
    match encode_index(s.root_node_id) {
        Some(x) => map_insert(&mut map, "root_node_id", x),
        None => {
            return None;
        },
    }
    map_insert(&mut map, "objects", objects);
    Some(object_value(map))
}

} // verus!
