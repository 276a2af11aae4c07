use ray_tracing::hit_able::shape::Sphere;
use ray_tracing::hit_able::Node;
use ray_tracing::material::{Material, NoMaterial};
use ray_tracing::scalar::Scalar;
use ray_tracing::serialization::hit_able::FlipNormals;
use ray_tracing::serialization::json::{
    deserialize_scene, deserialize_scene_with_options, printed, scene_from_value,
};
use ray_tracing::serialization::scene::{
    Configuration, DeserializeOptions, RayTracingObject, Scene, Unreferenced,
};
use ray_tracing::serialization::{IdConstructor, IdReference, Malformation, SceneError};
use ray_tracing::vector::Vector3;
use std::sync::Arc;

static WITH_A_SPARE: &str = r#"{
    "configuration_id": 1, "camera_id": 2, "sky_id": 3, "root_node_id": 5,
    "objects": [
      { "Configuration": { "id": 1, "maximum_depth": 2 } },
      { "Camera": { "id": 2, "lower_left_corner": [0, 0, 0], "horizontal": [1, 0, 0],
          "vertical": [0, 1, 0], "origin": [0, 0, 0], "lense_radius": 0, "time_from": 0,
          "time_to": 1, "note": "a member of no use is passed over" } },
      { "Sky": { "id": 3, "nadir_color": [1, 1, 1], "zenith_color": [0, 0, 1] } },
      { "NoMaterial": { "id": 4 } },
      { "Sphere": { "id": 5, "center": [0, 0, 0], "radius": 1, "material": 4 } },
      { "ConstantTexture": { "id": [6, 7], "color": [1, 0, 0] } }
    ] }"#;

#[test]
fn unreferenced_record_is_tolerated_by_default() {
    assert_eq!(
        DeserializeOptions::default(),
        DeserializeOptions { unreferenced: Unreferenced::Tolerate }
    );
    let scene = deserialize_scene(WITH_A_SPARE).unwrap();
    assert_eq!(scene.root_node.get_id(), 5);
    let lenient = deserialize_scene_with_options(WITH_A_SPARE, &DeserializeOptions::default());
    assert_eq!(lenient, Ok(scene));
}

#[test]
fn unreferenced_record_is_refused_on_request() {
    let strict = DeserializeOptions { unreferenced: Unreferenced::Reject };
    assert_eq!(
        deserialize_scene_with_options(WITH_A_SPARE, &strict),
        Err(SceneError::MalformedRecord { reason: Malformation::Unreferenced { id: 6 } })
    );
    let without = WITH_A_SPARE.replace(
        r#",
      { "ConstantTexture": { "id": [6, 7], "color": [1, 0, 0] } }"#,
        "",
    );
    assert!(deserialize_scene_with_options(&without, &strict).is_ok());
}

#[test]
fn value_is_read_as_the_text_is() {
    let value: serde_json::Value = serde_json::from_str(WITH_A_SPARE).unwrap();
    assert_eq!(
        scene_from_value(&value, &DeserializeOptions::default()),
        deserialize_scene(WITH_A_SPARE)
    );
    let number: serde_json::Value = serde_json::from_str("5").unwrap();
    assert_eq!(
        scene_from_value(&number, &DeserializeOptions::default()),
        Err(SceneError::MalformedRecord { reason: Malformation::Shape })
    );
}

#[test]
fn failure_of_the_printer_is_a_failure_of_the_encoding() {
    let failure = serde_json::from_str::<serde_json::Value>("{").unwrap_err();
    assert_eq!(printed(Err(failure)), Err(SceneError::EncodingFailure));
    assert_eq!(printed(Ok(String::from("{}"))), Ok(String::from("{}")));
}

#[test]
fn records_stand_for_a_scene_without_any_text() {
    let records = Scene {
        configuration_id: 1,
        camera_id: 2,
        sky_id: 3,
        root_node_id: 9,
        objects: vec![RayTracingObject::Configuration(Configuration {
            id: IdConstructor::Single(1),
            maximum_depth: 3,
        })],
    };
    assert_eq!(
        records.to_scene(),
        Err(SceneError::UnresolvedReference { id: 2, referenced_by: None })
    );
}

#[test]
fn record_declares_no_more_objects_than_identifiers() {
    let zero = Scalar::from_raw(0);
    let child = || {
        Arc::new(Node::Sphere(Sphere::new_id(
            1,
            Vector3::new(zero, zero, zero),
            Scalar::from_units(1),
            Arc::new(Material::NoMaterial(NoMaterial::new_id(0))),
        )))
    };
    let single = FlipNormals { id: IdConstructor::Single(4), node: IdReference::Single(1) };
    assert_eq!(single.to_hit_able(0, child()).unwrap().id, 4);
    assert_eq!(
        single.to_hit_able(1, child()),
        Err(SceneError::MalformedRecord { reason: Malformation::Shape })
    );
    let several =
        FlipNormals { id: IdConstructor::List(vec![4, 5, 6]), node: IdReference::Single(1) };
    assert_eq!(several.to_hit_able(2, child()).unwrap().id, 6);
    assert!(several.to_hit_able(3, child()).is_err());
    assert_eq!(several.id.get_id(1), Some(5));
    assert_eq!(several.id.get_id(3), None);
    assert_eq!(several.id.len(), 3);
    assert_eq!(several.node.get_id(17), Some(1));
    assert_eq!(IdReference::List(vec![8, 9]).get_id(1), Some(9));
    assert_eq!(IdReference::List(vec![8, 9]).get_id(2), None);
}
