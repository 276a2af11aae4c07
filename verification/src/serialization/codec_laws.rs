//! Reading the JSON value built for a scene of records gives the
//! records, and so the scene, back.

use vstd::prelude::*;
use crate::scalar::Scalar;
use crate::scene::SceneView;
use crate::serialization::decimal::{lemma_index_round_trip, lemma_scalar_round_trip};
use crate::serialization::decode::{
    camera_in, collection_in, configuration_in, constant_texture_in, cuboid_in, field,
    flip_normals_in, ids_in, index_in, indices_in, lambertian_in, list_in, no_material_in,
    record_in, records_in, rotate_x_in, scalar_in, scene_in, sky_in, sphere_in, vector_in,
};
use crate::serialization::encode::{
    camera_members, collection_members, configuration_members, constant_texture_members,
    cuboid_members, flip_normals_members, ids_tree, index_tree, lambertian_members, list_tree,
    no_material_members, record_tree, rotate_x_members, scalar_tree, scene_tree, sky_members,
    sphere_members, vector_tree,
};
use crate::serialization::error::SceneError;
use crate::serialization::export::exported;
use crate::serialization::hit_able::{
    CollectionView, CuboidView, FlipNormalsView, RotateXView, SphereView,
};
use crate::serialization::id::Ids;
use crate::serialization::json::{lenient, scene_of_tree};
use crate::serialization::material::{ConstantTextureView, LambertianView, NoMaterialView};
use crate::serialization::resolve::Index;
use crate::serialization::round_trip::{lemma_round_trip, scene_told};
use crate::serialization::scene::{
    CameraView, ConfigurationView, Record, SceneRecords, SkyView,
};
use crate::serialization::value::JsonTree;
use crate::vector::Vector3;

verus! {

/// The vector that the tree of a vector holds is that vector.
pub proof fn lemma_vector_round_trip(v: Vector3)
    ensures
        vector_in(vector_tree(v)) == Some(v),
{
    lemma_scalar_round_trip(v.x);
    lemma_scalar_round_trip(v.y);
    lemma_scalar_round_trip(v.z);
}

/// The identifiers that the first items of the tree of a list hold are the
/// first of the list.
proof fn lemma_indices_round_trip(l: Seq<usize>, k: nat)
    requires
        k <= l.len(),
    ensures
        indices_in(Seq::new(l.len(), |i: int| index_tree(l[i])), k) == Some(l.take(k as int)),
    decreases k,
{
    if k == 0 {
        assert(l.take(0) =~= Seq::<usize>::empty());
    } else {
        lemma_indices_round_trip(l, (k - 1) as nat);
        lemma_index_round_trip(l[k - 1]);
        assert(l.take(k as int) =~= l.take(k - 1).push(l[k - 1]));
    }
}

/// The list that the tree of a list of identifiers holds is that list.
pub proof fn lemma_list_round_trip(l: Seq<usize>)
    ensures
        list_in(list_tree(l)) == Some(l),
{
    lemma_indices_round_trip(l, l.len());
    assert(l.take(l.len() as int) =~= l);
}

/// The identifier field that the tree of one holds is that field.
pub proof fn lemma_ids_round_trip(ids: Ids)
    ensures
        ids_in(ids_tree(ids)) == Some(ids),
{
    match ids {
        Ids::Single(n) => {
            lemma_index_round_trip(n);
        },
        Ids::List(l) => {
            lemma_list_round_trip(l);
        },
    }
}

/// The members of the object built for a record of a texture of one colour lie under their
/// keys.
proof fn lemma_constant_texture_fields(r: ConstantTextureView)
    ensures
        field(JsonTree::Object(constant_texture_members(r)), "id"@) == Some(ids_tree(r.id)),
        field(JsonTree::Object(constant_texture_members(r)), "color"@) == Some(vector_tree(r.color)),
{
    reveal_strlit("id");
    reveal_strlit("color");
    assert("id"@.len() == 2);
    assert("color"@.len() == 5);
}

/// The record of a texture of one colour that the object built for one holds is that record.
pub proof fn lemma_constant_texture_round_trip(r: ConstantTextureView)
    ensures
        constant_texture_in(JsonTree::Object(constant_texture_members(r))) == Some(r),
{
    lemma_constant_texture_fields(r);
    lemma_ids_round_trip(r.id);
    lemma_vector_round_trip(r.color);
}

/// The members of the object built for a record of a material that is none lie under their
/// keys.
proof fn lemma_no_material_fields(r: NoMaterialView)
    ensures
        field(JsonTree::Object(no_material_members(r)), "id"@) == Some(ids_tree(r.id)),
{
    reveal_strlit("id");
    assert("id"@.len() == 2);
}

/// The record of a material that is none that the object built for one holds is that record.
pub proof fn lemma_no_material_round_trip(r: NoMaterialView)
    ensures
        no_material_in(JsonTree::Object(no_material_members(r))) == Some(r),
{
    lemma_no_material_fields(r);
    lemma_ids_round_trip(r.id);
}

/// The members of the object built for a record of a diffuse material lie under their
/// keys.
proof fn lemma_lambertian_fields(r: LambertianView)
    ensures
        field(JsonTree::Object(lambertian_members(r)), "id"@) == Some(ids_tree(r.id)),
        field(JsonTree::Object(lambertian_members(r)), "albedo"@) == Some(ids_tree(r.albedo)),
{
    reveal_strlit("id");
    reveal_strlit("albedo");
    assert("id"@.len() == 2);
    assert("albedo"@.len() == 6);
}

/// The record of a diffuse material that the object built for one holds is that record.
pub proof fn lemma_lambertian_round_trip(r: LambertianView)
    ensures
        lambertian_in(JsonTree::Object(lambertian_members(r))) == Some(r),
{
    lemma_lambertian_fields(r);
    lemma_ids_round_trip(r.id);
    lemma_ids_round_trip(r.albedo);
}

/// The members of the object built for a record of a sphere lie under their
/// keys.
proof fn lemma_sphere_fields(r: SphereView)
    ensures
        field(JsonTree::Object(sphere_members(r)), "id"@) == Some(ids_tree(r.id)),
        field(JsonTree::Object(sphere_members(r)), "center"@) == Some(vector_tree(r.center)),
        field(JsonTree::Object(sphere_members(r)), "radius"@) == Some(scalar_tree(r.radius)),
        field(JsonTree::Object(sphere_members(r)), "material"@) == Some(ids_tree(r.material)),
{
    reveal_strlit("id");
    reveal_strlit("center");
    reveal_strlit("radius");
    reveal_strlit("material");
    assert("id"@.len() == 2);
    assert("center"@.len() == 6);
    assert("radius"@.len() == 6);
    assert("material"@.len() == 8);
    assert("center"@[0] != "radius"@[0]);
}

/// The record of a sphere that the object built for one holds is that record.
pub proof fn lemma_sphere_round_trip(r: SphereView)
    ensures
        sphere_in(JsonTree::Object(sphere_members(r))) == Some(r),
{
    lemma_sphere_fields(r);
    lemma_ids_round_trip(r.id);
    lemma_vector_round_trip(r.center);
    lemma_scalar_round_trip(r.radius);
    lemma_ids_round_trip(r.material);
}

/// The members of the object built for a record of a cuboid lie under their
/// keys.
proof fn lemma_cuboid_fields(r: CuboidView)
    ensures
        field(JsonTree::Object(cuboid_members(r)), "id"@) == Some(ids_tree(r.id)),
        field(JsonTree::Object(cuboid_members(r)), "min"@) == Some(vector_tree(r.min)),
        field(JsonTree::Object(cuboid_members(r)), "max"@) == Some(vector_tree(r.max)),
        field(JsonTree::Object(cuboid_members(r)), "material"@) == Some(ids_tree(r.material)),
{
    reveal_strlit("id");
    reveal_strlit("min");
    reveal_strlit("max");
    reveal_strlit("material");
    assert("id"@.len() == 2);
    assert("min"@.len() == 3);
    assert("max"@.len() == 3);
    assert("material"@.len() == 8);
    assert("min"@[1] != "max"@[1]);
}

/// The record of a cuboid that the object built for one holds is that record.
pub proof fn lemma_cuboid_round_trip(r: CuboidView)
    ensures
        cuboid_in(JsonTree::Object(cuboid_members(r))) == Some(r),
{
    lemma_cuboid_fields(r);
    lemma_ids_round_trip(r.id);
    lemma_vector_round_trip(r.min);
    lemma_vector_round_trip(r.max);
    lemma_ids_round_trip(r.material);
}

/// The members of the object built for a record of a collection lie under their
/// keys.
proof fn lemma_collection_fields(r: CollectionView)
    ensures
        field(JsonTree::Object(collection_members(r)), "id"@) == Some(ids_tree(r.id)),
        field(JsonTree::Object(collection_members(r)), "object_id_list"@) == Some(list_tree(r.object_id_list)),
{
    reveal_strlit("id");
    reveal_strlit("object_id_list");
    assert("id"@.len() == 2);
    assert("object_id_list"@.len() == 14);
}

/// The record of a collection that the object built for one holds is that record.
pub proof fn lemma_collection_round_trip(r: CollectionView)
    ensures
        collection_in(JsonTree::Object(collection_members(r))) == Some(r),
{
    lemma_collection_fields(r);
    lemma_ids_round_trip(r.id);
    lemma_list_round_trip(r.object_id_list);
}

/// The members of the object built for a record of a turn about the x axis lie under their
/// keys.
proof fn lemma_rotate_x_fields(r: RotateXView)
    ensures
        field(JsonTree::Object(rotate_x_members(r)), "id"@) == Some(ids_tree(r.id)),
        field(JsonTree::Object(rotate_x_members(r)), "sin_theta"@) == Some(scalar_tree(r.sin_theta)),
        field(JsonTree::Object(rotate_x_members(r)), "cos_theta"@) == Some(scalar_tree(r.cos_theta)),
        field(JsonTree::Object(rotate_x_members(r)), "node"@) == Some(ids_tree(r.node)),
{
    reveal_strlit("id");
    reveal_strlit("sin_theta");
    reveal_strlit("cos_theta");
    reveal_strlit("node");
    assert("id"@.len() == 2);
    assert("sin_theta"@.len() == 9);
    assert("cos_theta"@.len() == 9);
    assert("node"@.len() == 4);
    assert("sin_theta"@[0] != "cos_theta"@[0]);
}

/// The record of a turn about the x axis that the object built for one holds is that record.
pub proof fn lemma_rotate_x_round_trip(r: RotateXView)
    ensures
        rotate_x_in(JsonTree::Object(rotate_x_members(r))) == Some(r),
{
    lemma_rotate_x_fields(r);
    lemma_ids_round_trip(r.id);
    lemma_scalar_round_trip(r.sin_theta);
    lemma_scalar_round_trip(r.cos_theta);
    lemma_ids_round_trip(r.node);
}

/// The members of the object built for a record of a flip lie under their
/// keys.
proof fn lemma_flip_normals_fields(r: FlipNormalsView)
    ensures
        field(JsonTree::Object(flip_normals_members(r)), "id"@) == Some(ids_tree(r.id)),
        field(JsonTree::Object(flip_normals_members(r)), "node"@) == Some(ids_tree(r.node)),
{
    reveal_strlit("id");
    reveal_strlit("node");
    assert("id"@.len() == 2);
    assert("node"@.len() == 4);
}

/// The record of a flip that the object built for one holds is that record.
pub proof fn lemma_flip_normals_round_trip(r: FlipNormalsView)
    ensures
        flip_normals_in(JsonTree::Object(flip_normals_members(r))) == Some(r),
{
    lemma_flip_normals_fields(r);
    lemma_ids_round_trip(r.id);
    lemma_ids_round_trip(r.node);
}

/// The members of the object built for a record of a camera lie under their
/// keys.
proof fn lemma_camera_fields(r: CameraView)
    ensures
        field(JsonTree::Object(camera_members(r)), "id"@) == Some(ids_tree(r.id)),
        field(JsonTree::Object(camera_members(r)), "lower_left_corner"@) == Some(vector_tree(r.lower_left_corner)),
        field(JsonTree::Object(camera_members(r)), "horizontal"@) == Some(vector_tree(r.horizontal)),
        field(JsonTree::Object(camera_members(r)), "vertical"@) == Some(vector_tree(r.vertical)),
        field(JsonTree::Object(camera_members(r)), "origin"@) == Some(vector_tree(r.origin)),
        field(JsonTree::Object(camera_members(r)), "lense_radius"@) == Some(scalar_tree(r.lense_radius)),
        field(JsonTree::Object(camera_members(r)), "time_from"@) == Some(scalar_tree(r.time_from)),
        field(JsonTree::Object(camera_members(r)), "time_to"@) == Some(scalar_tree(r.time_to)),
{
    reveal_strlit("id");
    reveal_strlit("lower_left_corner");
    reveal_strlit("horizontal");
    reveal_strlit("vertical");
    reveal_strlit("origin");
    reveal_strlit("lense_radius");
    reveal_strlit("time_from");
    reveal_strlit("time_to");
    assert("id"@.len() == 2);
    assert("lower_left_corner"@.len() == 17);
    assert("horizontal"@.len() == 10);
    assert("vertical"@.len() == 8);
    assert("origin"@.len() == 6);
    assert("lense_radius"@.len() == 12);
    assert("time_from"@.len() == 9);
    assert("time_to"@.len() == 7);
}

/// The record of a camera that the object built for one holds is that record.
pub proof fn lemma_camera_round_trip(r: CameraView)
    ensures
        camera_in(JsonTree::Object(camera_members(r))) == Some(r),
{
    lemma_camera_fields(r);
    lemma_ids_round_trip(r.id);
    lemma_vector_round_trip(r.lower_left_corner);
    lemma_vector_round_trip(r.horizontal);
    lemma_vector_round_trip(r.vertical);
    lemma_vector_round_trip(r.origin);
    lemma_scalar_round_trip(r.lense_radius);
    lemma_scalar_round_trip(r.time_from);
    lemma_scalar_round_trip(r.time_to);
}

/// The members of the object built for a record of a sky lie under their
/// keys.
proof fn lemma_sky_fields(r: SkyView)
    ensures
        field(JsonTree::Object(sky_members(r)), "id"@) == Some(ids_tree(r.id)),
        field(JsonTree::Object(sky_members(r)), "nadir_color"@) == Some(vector_tree(r.nadir_color)),
        field(JsonTree::Object(sky_members(r)), "zenith_color"@) == Some(vector_tree(r.zenith_color)),
{
    reveal_strlit("id");
    reveal_strlit("nadir_color");
    reveal_strlit("zenith_color");
    assert("id"@.len() == 2);
    assert("nadir_color"@.len() == 11);
    assert("zenith_color"@.len() == 12);
}

/// The record of a sky that the object built for one holds is that record.
pub proof fn lemma_sky_round_trip(r: SkyView)
    ensures
        sky_in(JsonTree::Object(sky_members(r))) == Some(r),
{
    lemma_sky_fields(r);
    lemma_ids_round_trip(r.id);
    lemma_vector_round_trip(r.nadir_color);
    lemma_vector_round_trip(r.zenith_color);
}

/// The members of the object built for a record of a configuration lie under their
/// keys.
proof fn lemma_configuration_fields(r: ConfigurationView)
    ensures
        field(JsonTree::Object(configuration_members(r)), "id"@) == Some(ids_tree(r.id)),
        field(JsonTree::Object(configuration_members(r)), "maximum_depth"@) == Some(index_tree(r.maximum_depth)),
{
    reveal_strlit("id");
    reveal_strlit("maximum_depth");
    assert("id"@.len() == 2);
    assert("maximum_depth"@.len() == 13);
}

/// The record of a configuration that the object built for one holds is that record.
pub proof fn lemma_configuration_round_trip(r: ConfigurationView)
    ensures
        configuration_in(JsonTree::Object(configuration_members(r))) == Some(r),
{
    lemma_configuration_fields(r);
    lemma_ids_round_trip(r.id);
    lemma_index_round_trip(r.maximum_depth);
}

/// The object built for a record has the name of the kind of the record
/// as its one key.
proof fn lemma_record_fields(r: Record)
    ensures
        field(record_tree(r), "ConstantTexture"@) == (if r is ConstantTexture {
            Some(JsonTree::Object(constant_texture_members(r->ConstantTexture_0)))
        } else {
            None
        }),
        field(record_tree(r), "NoMaterial"@) == (if r is NoMaterial {
            Some(JsonTree::Object(no_material_members(r->NoMaterial_0)))
        } else {
            None
        }),
        field(record_tree(r), "Lambertian"@) == (if r is Lambertian {
            Some(JsonTree::Object(lambertian_members(r->Lambertian_0)))
        } else {
            None
        }),
        field(record_tree(r), "Sphere"@) == (if r is Sphere {
            Some(JsonTree::Object(sphere_members(r->Sphere_0)))
        } else {
            None
        }),
        field(record_tree(r), "Cuboid"@) == (if r is Cuboid {
            Some(JsonTree::Object(cuboid_members(r->Cuboid_0)))
        } else {
            None
        }),
        field(record_tree(r), "Collection"@) == (if r is Collection {
            Some(JsonTree::Object(collection_members(r->Collection_0)))
        } else {
            None
        }),
        field(record_tree(r), "RotateX"@) == (if r is RotateX {
            Some(JsonTree::Object(rotate_x_members(r->RotateX_0)))
        } else {
            None
        }),
        field(record_tree(r), "FlipNormals"@) == (if r is FlipNormals {
            Some(JsonTree::Object(flip_normals_members(r->FlipNormals_0)))
        } else {
            None
        }),
        field(record_tree(r), "Camera"@) == (if r is Camera {
            Some(JsonTree::Object(camera_members(r->Camera_0)))
        } else {
            None
        }),
        field(record_tree(r), "Sky"@) == (if r is Sky {
            Some(JsonTree::Object(sky_members(r->Sky_0)))
        } else {
            None
        }),
        field(record_tree(r), "Configuration"@) == (if r is Configuration {
            Some(JsonTree::Object(configuration_members(r->Configuration_0)))
        } else {
            None
        }),
{
    reveal_strlit("ConstantTexture");
    reveal_strlit("NoMaterial");
    reveal_strlit("Lambertian");
    reveal_strlit("Sphere");
    reveal_strlit("Cuboid");
    reveal_strlit("Collection");
    reveal_strlit("RotateX");
    reveal_strlit("FlipNormals");
    reveal_strlit("Camera");
    reveal_strlit("Sky");
    reveal_strlit("Configuration");
    assert("ConstantTexture"@.len() == 15);
    assert("NoMaterial"@.len() == 10);
    assert("Lambertian"@.len() == 10);
    assert("Sphere"@.len() == 6);
    assert("Cuboid"@.len() == 6);
    assert("Collection"@.len() == 10);
    assert("RotateX"@.len() == 7);
    assert("FlipNormals"@.len() == 11);
    assert("Camera"@.len() == 6);
    assert("Sky"@.len() == 3);
    assert("Configuration"@.len() == 13);
    assert("NoMaterial"@[0] != "Lambertian"@[0]);
    assert("NoMaterial"@[0] != "Collection"@[0]);
    assert("Lambertian"@[0] != "Collection"@[0]);
    assert("Sphere"@[0] != "Cuboid"@[0]);
    assert("Sphere"@[0] != "Camera"@[0]);
    assert("Cuboid"@[1] != "Camera"@[1]);
}

/// The record that the tree of a record holds is that record.
pub proof fn lemma_record_round_trip(r: Record)
    ensures
        record_in(record_tree(r)) == Some(r),
{
    lemma_record_fields(r);
    match r {
        Record::ConstantTexture(x) => {
            lemma_constant_texture_round_trip(x);
        },
        Record::NoMaterial(x) => {
            lemma_no_material_round_trip(x);
        },
        Record::Lambertian(x) => {
            lemma_lambertian_round_trip(x);
        },
        Record::Sphere(x) => {
            lemma_sphere_round_trip(x);
        },
        Record::Cuboid(x) => {
            lemma_cuboid_round_trip(x);
        },
        Record::Collection(x) => {
            lemma_collection_round_trip(x);
        },
        Record::RotateX(x) => {
            lemma_rotate_x_round_trip(x);
        },
        Record::FlipNormals(x) => {
            lemma_flip_normals_round_trip(x);
        },
        Record::Camera(x) => {
            lemma_camera_round_trip(x);
        },
        Record::Sky(x) => {
            lemma_sky_round_trip(x);
        },
        Record::Configuration(x) => {
            lemma_configuration_round_trip(x);
        },
    }
}

/// The records that the first items of the array built for a list of
/// records hold are the first of the list.
proof fn lemma_records_round_trip(l: Seq<Record>, k: nat)
    requires
        k <= l.len(),
    ensures
        records_in(Seq::new(l.len(), |i: int| record_tree(l[i])), k) == Some(l.take(k as int)),
    decreases k,
{
    if k == 0 {
        assert(l.take(0) =~= Seq::<Record>::empty());
    } else {
        lemma_records_round_trip(l, (k - 1) as nat);
        lemma_record_round_trip(l[k - 1]);
        assert(l.take(k as int) =~= l.take(k - 1).push(l[k - 1]));
    }
}

/// The members of the object built for a scene of records lie under their
/// keys.
proof fn lemma_scene_fields(s: SceneRecords)
    ensures
        field(scene_tree(s), "configuration_id"@) == Some(index_tree(s.configuration_id)),
        field(scene_tree(s), "camera_id"@) == Some(index_tree(s.camera_id)),
        field(scene_tree(s), "sky_id"@) == Some(index_tree(s.sky_id)),
        field(scene_tree(s), "root_node_id"@) == Some(index_tree(s.root_node_id)),
        field(scene_tree(s), "objects"@) == Some(
            JsonTree::Array(Seq::new(s.objects.len(), |i: int| record_tree(s.objects[i]))),
        ),
{
    reveal_strlit("configuration_id");
    reveal_strlit("camera_id");
    reveal_strlit("sky_id");
    reveal_strlit("root_node_id");
    reveal_strlit("objects");
    assert("configuration_id"@.len() == 16);
    assert("camera_id"@.len() == 9);
    assert("sky_id"@.len() == 6);
    assert("root_node_id"@.len() == 12);
    assert("objects"@.len() == 7);
}

/// The scene of records that the tree of one holds is that scene of
/// records.
pub proof fn lemma_scene_records_round_trip(s: SceneRecords)
    ensures
        scene_in(scene_tree(s)) == Some(s),
{
    lemma_scene_fields(s);
    lemma_index_round_trip(s.configuration_id);
    lemma_index_round_trip(s.camera_id);
    lemma_index_round_trip(s.sky_id);
    lemma_index_round_trip(s.root_node_id);
    lemma_records_round_trip(s.objects, s.objects.len());
    assert(s.objects.take(s.objects.len() as int) =~= s.objects);
}

/// The JSON value built for the records of a scene that a table tells
/// stands for that scene.
pub proof fn lemma_tree_round_trip(s: SceneView, t: Index)
    requires
        scene_told(t, s),
    ensures
        scene_of_tree(scene_tree(exported(s)), lenient()) == Ok::<SceneView, SceneError>(s),
{
    lemma_scene_records_round_trip(exported(s));
    lemma_round_trip(s, t);
}

} // verus!
