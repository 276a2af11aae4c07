use ray_tracing::hit_able::collection::Collection;
use ray_tracing::hit_able::instancing::{FlipNormals, RotateX};
use ray_tracing::hit_able::shape::{Cuboid, Sphere};
use ray_tracing::hit_able::Node;
use ray_tracing::material::{ConstantTexture, Lambertian, Material, NoMaterial, Texture};
use ray_tracing::object::IdCounter;
use ray_tracing::scalar::Scalar;
use ray_tracing::scene::{Camera, Configuration, Scene, Sky};
use ray_tracing::serialization::json::{deserialize_scene, serialize_scene};
use ray_tracing::serialization::scene::Scene as SceneRecords;
use ray_tracing::serialization::{Kind, Malformation, Role, SceneError};
use ray_tracing::vector::Vector3;
use std::sync::Arc;

fn scalar(x: f64) -> Scalar {
    Scalar::from_raw((x * 1_000_000.0).round() as i64)
}

fn vector(x: f64, y: f64, z: f64) -> Vector3 {
    Vector3::new(scalar(x), scalar(y), scalar(z))
}

fn camera(id: usize) -> Camera {
    Camera {
        id,
        lower_left_corner: vector(-2.0, -1.0, -1.0),
        horizontal: vector(4.0, 0.0, 0.0),
        vertical: vector(0.0, 2.0, 0.0),
        origin: vector(0.0, 0.0, 0.0),
        lense_radius: scalar(0.0),
        time_from: scalar(0.0),
        time_to: scalar(0.0),
    }
}

fn sky(id: usize) -> Sky {
    Sky { id, nadir_color: vector(1.0, 1.0, 1.0), zenith_color: vector(0.5, 0.7, 1.0) }
}

/// Two spheres over one ground, as in the simple scene of the examples.
fn simple_scene() -> Scene {
    let mut ids = IdCounter::starting_at(1);
    let t1 = Arc::new(Texture::Constant(ConstantTexture::new(&mut ids, vector(0.5, 0.1, 0.1))));
    let m1 = Arc::new(Material::Lambertian(Lambertian::new(&mut ids, t1)));
    let s1 = Sphere::new(&mut ids, vector(0.0, 0.0, -1.0), scalar(0.5), m1);
    let t2 = Arc::new(Texture::Constant(ConstantTexture::new(&mut ids, vector(0.1, 0.1, 0.1))));
    let m2 = Arc::new(Material::Lambertian(Lambertian::new(&mut ids, t2)));
    let s2 = Sphere::new(&mut ids, vector(0.0, -100.5, -1.0), scalar(100.0), m2);
    let root = Collection::new(
        &mut ids,
        vec![Arc::new(Node::Sphere(s2)), Arc::new(Node::Sphere(s1))],
    );
    Scene::new(
        Configuration { id: 14, maximum_depth: 50 },
        camera(12),
        sky(13),
        Arc::new(Node::Collection(root)),
    )
}

fn wrap(objects: &str, root: usize) -> String {
    format!(
        r#"{{ "configuration_id": 100, "camera_id": 101, "sky_id": 102, "root_node_id": {},
            "objects": [ {}
              {{ "Configuration": {{ "id": 100, "maximum_depth": 4 }} }},
              {{ "Camera": {{ "id": 101, "lower_left_corner": [0, 0, 0], "horizontal": [1, 0, 0],
                  "vertical": [0, 1, 0], "origin": [0, 0, 0], "lense_radius": 0, "time_from": 0,
                  "time_to": 1 }} }},
              {{ "Sky": {{ "id": 102, "nadir_color": [1, 1, 1], "zenith_color": [0, 0, 1] }} }}
            ] }}"#,
        root, objects
    )
}

#[test]
fn serialize_test() {
    let scene = simple_scene();
    let json_string = serialize_scene(&scene).unwrap();
    println!("{}", json_string);
    assert!(json_string.contains("\"Collection\""));
    assert!(json_string.contains("\"object_id_list\""));
    assert!(json_string.contains("-100.500000"));
}

#[test]
fn round_trip_gives_back_an_equal_scene() {
    let scene = simple_scene();
    let text = serialize_scene(&scene).unwrap();
    let back = deserialize_scene(&text).unwrap();
    assert_eq!(back, scene);
    assert_eq!(serialize_scene(&back).unwrap(), text);
}

#[test]
fn round_trip_through_wrappers_keeps_the_cached_box() {
    let mut ids = IdCounter::new();
    let material = Arc::new(Material::NoMaterial(NoMaterial::new(&mut ids)));
    let cube = Arc::new(Node::Cuboid(Cuboid::new(
        &mut ids,
        vector(-1.0, -1.0, -1.0)..vector(1.0, 1.0, 1.0),
        material,
    )));
    let turned = Arc::new(Node::RotateX(RotateX::new(&mut ids, scalar(0.5), cube.clone())));
    let flipped = Arc::new(Node::FlipNormals(FlipNormals::new(&mut ids, turned.clone())));
    let root = Collection::new(&mut ids, vec![flipped, turned, cube]);
    let scene = Scene::new(
        Configuration { id: 20, maximum_depth: 8 },
        camera(21),
        sky(22),
        Arc::new(Node::Collection(root)),
    );
    let records = SceneRecords::from_scene(&scene).unwrap();
    // cube and its material once, the turn once, the flip, the collection,
    // then camera, sky and configuration
    assert_eq!(records.objects.len(), 8);
    let back = deserialize_scene(&serialize_scene(&scene).unwrap()).unwrap();
    assert_eq!(back, scene);
}

#[test]
fn shared_child_is_built_once() {
    let text = wrap(
        r#"{ "NoMaterial": { "id": 1 } },
           { "Sphere": { "id": 2, "center": [0, 0, 0], "radius": 1, "material": 1 } },
           { "FlipNormals": { "id": 3, "node": 2 } },
           { "RotateX": { "id": 4, "sin_theta": 0, "cos_theta": 1, "node": 2 } },
           { "Collection": { "id": 5, "object_id_list": [3, 4, 2] } },"#,
        5,
    );
    let scene = deserialize_scene(&text).unwrap();
    let members = match &*scene.root_node {
        Node::Collection(c) => c.object_list.clone(),
        _ => panic!("the root is no collection"),
    };
    let under_flip = match &*members[0] {
        Node::FlipNormals(f) => f.node.clone(),
        _ => panic!("the first member is no flip"),
    };
    let under_turn = match &*members[1] {
        Node::RotateX(r) => r.node.clone(),
        _ => panic!("the second member is no turn"),
    };
    assert!(Arc::ptr_eq(&under_flip, &under_turn));
    assert!(Arc::ptr_eq(&under_flip, &members[2]));
    // the collection, the flip and the turn hold the sphere, and so do the
    // three copies of the links taken here
    assert_eq!(Arc::strong_count(&members[2]), 6);
}

#[test]
fn cycle_is_refused() {
    let text = wrap(
        r#"{ "FlipNormals": { "id": 1, "node": 2 } },
           { "Collection": { "id": 2, "object_id_list": [1] } },"#,
        1,
    );
    assert_eq!(deserialize_scene(&text), Err(SceneError::CyclicReference { id: 1 }));
}

#[test]
fn self_reference_is_refused() {
    let text = wrap(r#"{ "FlipNormals": { "id": 1, "node": 1 } },"#, 1);
    assert_eq!(deserialize_scene(&text), Err(SceneError::CyclicReference { id: 1 }));
}

#[test]
fn unresolved_reference_names_the_identifier() {
    let text = wrap(r#"{ "FlipNormals": { "id": 1, "node": 9 } },"#, 1);
    assert_eq!(
        deserialize_scene(&text),
        Err(SceneError::UnresolvedReference { id: 9, referenced_by: Some(1) })
    );
    let text = wrap("", 7);
    assert_eq!(
        deserialize_scene(&text),
        Err(SceneError::UnresolvedReference { id: 7, referenced_by: None })
    );
}

#[test]
fn reference_to_the_wrong_kind_is_refused() {
    let text = wrap(
        r#"{ "ConstantTexture": { "id": 1, "color": [1, 1, 1] } },
           { "Sphere": { "id": 2, "center": [0, 0, 0], "radius": 1, "material": 1 } },"#,
        2,
    );
    assert_eq!(
        deserialize_scene(&text),
        Err(SceneError::TypeMismatch {
            id: 1,
            expected: Role::Material,
            actual: Kind::ConstantTexture
        })
    );
    let text = wrap(r#"{ "NoMaterial": { "id": 1 } },"#, 1);
    assert_eq!(
        deserialize_scene(&text),
        Err(SceneError::TypeMismatch { id: 1, expected: Role::Node, actual: Kind::NoMaterial })
    );
}

#[test]
fn malformed_input_is_refused() {
    assert_eq!(
        deserialize_scene("{ not json"),
        Err(SceneError::MalformedRecord { reason: Malformation::Syntax })
    );
    assert_eq!(
        deserialize_scene(r#"{ "camera_id": 1 }"#),
        Err(SceneError::MalformedRecord { reason: Malformation::Shape })
    );
    let text = wrap(r#"{ "Pyramid": { "id": 1 } },"#, 1);
    assert_eq!(
        deserialize_scene(&text),
        Err(SceneError::MalformedRecord { reason: Malformation::Shape })
    );
    let text = wrap(r#"{ "NoMaterial": { "id": 1 } }, { "NoMaterial": { "id": 1 } },"#, 1);
    assert_eq!(
        deserialize_scene(&text),
        Err(SceneError::MalformedRecord { reason: Malformation::DuplicateId { id: 1 } })
    );
    let text = wrap(r#"{ "FlipNormals": { "id": [1, 2], "node": [3] } },"#, 1);
    assert_eq!(
        deserialize_scene(&text),
        Err(SceneError::MalformedRecord { reason: Malformation::ShortReferenceList { id: 2 } })
    );
}

#[test]
fn one_record_declares_several_objects() {
    let text = wrap(
        r#"{ "NoMaterial": { "id": [1, 2] } },
           { "Sphere": { "id": [3, 4], "center": [0, 0, 0], "radius": 1, "material": [1, 2] } },
           { "Collection": { "id": 5, "object_id_list": [3, 4] } },"#,
        5,
    );
    let scene = deserialize_scene(&text).unwrap();
    match &*scene.root_node {
        Node::Collection(c) => {
            let ids: Vec<(usize, usize)> = c
                .object_list
                .iter()
                .map(|n| match &**n {
                    Node::Sphere(s) => (s.id, s.material.get_id()),
                    _ => panic!("a member is no sphere"),
                })
                .collect();
            assert_eq!(ids, vec![(3, 1), (4, 2)]);
        }
        _ => panic!("the root is no collection"),
    }
}
