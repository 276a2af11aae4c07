use ray_tracing::hit_able::instancing;
use ray_tracing::hit_able::shape;
use ray_tracing::hit_able::Node;
use ray_tracing::material::{Material, NoMaterial};
use ray_tracing::object::IdCounter;
use ray_tracing::scalar::Scalar;
use ray_tracing::serialization::{FlipNormals, IdConstructor, IdReference};
use ray_tracing::vector::Point3;
use std::sync::Arc;

fn scalar(x: f64) -> Scalar {
    Scalar::from_raw((x * 1_000_000.0).round() as i64)
}

#[test]
fn flip_normal_test_from_flip_normal() {
    let mut ids = IdCounter::new();
    let material = Material::NoMaterial(NoMaterial::new(&mut ids));
    let s = shape::Sphere::new(
        &mut ids,
        Point3::new(scalar(0.0), scalar(0.0), scalar(0.0)),
        scalar(1.0),
        Arc::new(material),
    );
    let s_id = s.id;
    let i = instancing::FlipNormals::new(&mut ids, Arc::new(Node::Sphere(s)));
    let n = FlipNormals::from_hit_able(&i).unwrap();
    assert_eq!(n.node, IdReference::Single(s_id));
}

#[test]
fn flip_normal_test_to_flip_normal() {
    let mut ids = IdCounter::new();
    let f = FlipNormals { id: IdConstructor::Single(0), node: IdReference::Single(1) };
    let material = Material::NoMaterial(NoMaterial::new(&mut ids));
    let _i = f
        .to_hit_able(
            0,
            Arc::new(Node::Sphere(shape::Sphere::new(
                &mut ids,
                Point3::new(scalar(0.0), scalar(0.0), scalar(0.0)),
                scalar(1.0),
                Arc::new(material),
            ))),
        )
        .unwrap();
}
