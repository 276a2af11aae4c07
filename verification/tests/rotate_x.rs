use ray_tracing::hit_able::instancing::RotateX;
use ray_tracing::hit_able::shape::Cuboid;
use ray_tracing::hit_able::Node;
use ray_tracing::material::{ConstantTexture, Lambertian, Material, NoMaterial, Texture};
use ray_tracing::object::IdCounter;
use ray_tracing::ray::Ray;
use ray_tracing::scalar::Scalar;
use ray_tracing::vector::{Point3, Vector3};
use std::sync::Arc;

fn scalar(x: f64) -> Scalar {
    Scalar::from_raw((x * 1_000_000.0).round() as i64)
}

fn vector(x: f64, y: f64, z: f64) -> Vector3 {
    Vector3::new(scalar(x), scalar(y), scalar(z))
}

fn assert_eq_vector3(a: &Vector3, b: &Vector3, epsilon: f64) {
    let eps = scalar(epsilon).raw;
    assert!((a.x.raw - b.x.raw).abs() <= eps, "{:?} != {:?}", a, b);
    assert!((a.y.raw - b.y.raw).abs() <= eps, "{:?} != {:?}", a, b);
    assert!((a.z.raw - b.z.raw).abs() <= eps, "{:?} != {:?}", a, b);
}

#[test]
fn bounding_box_test() {
    let mut ids = IdCounter::new();
    let material = Material::NoMaterial(NoMaterial::new(&mut ids));
    let c = Cuboid::new(
        &mut ids,
        Point3::new(scalar(-1.0), scalar(-1.0), scalar(-1.0))
            ..Point3::new(scalar(1.0), scalar(1.0), scalar(1.0)),
        Arc::new(material),
    );
    let i = RotateX::new(&mut ids, scalar(f64::to_radians(30.0)), Arc::new(Node::Cuboid(c)));
    let b = i.bounding_box(scalar(0.0)..scalar(0.0));
    match b {
        Some(b) => {
            assert_eq_vector3(&b.min, &vector(-1.0, -1.366, -1.366), 0.01);
            assert_eq_vector3(&b.max, &vector(1.0, 1.366, 1.366), 0.01);
        }
        _ => assert!(false),
    }
}

#[test]
fn hit_test() {
    let mut ids = IdCounter::new();
    let texture = ConstantTexture::new(&mut ids, vector(1.0, 1.0, 1.0));
    let material = Lambertian::new(&mut ids, Arc::new(Texture::Constant(texture)));
    let c = Cuboid::new(
        &mut ids,
        Point3::new(scalar(-1.0), scalar(-1.0), scalar(-1.0))
            ..Point3::new(scalar(1.0), scalar(1.0), scalar(1.0)),
        Arc::new(Material::Lambertian(material)),
    );
    let i = RotateX::new(&mut ids, scalar(f64::to_radians(30.0)), Arc::new(Node::Cuboid(c)));
    let ray1 = Ray::new_ray(vector(0.0, -5.0, 0.0), vector(0.0, 1.0, 0.0));
    let ray2 = Ray::new_ray(vector(2.0, 0.0, 0.0), vector(0.0, 1.0, 0.0));
    match i.hit(&ray1, scalar(0.0)..scalar(10.0)) {
        Some(_) => (),
        None => panic!("no result"),
    }
    match i.hit(&ray1, scalar(10.0)..scalar(20.0)) {
        Some(_) => panic!("unexpected hit"),
        None => (),
    }
    match i.hit(&ray2, scalar(0.0)..scalar(10.0)) {
        Some(_) => panic!("unexpected hit"),
        None => (),
    }
}

#[test]
fn rotation_by_thirty_degrees_has_exact_sine_and_cosine() {
    let mut ids = IdCounter::new();
    let material = Material::NoMaterial(NoMaterial::new(&mut ids));
    let c = Cuboid::new(
        &mut ids,
        vector(-1.0, -1.0, -1.0)..vector(1.0, 1.0, 1.0),
        Arc::new(material),
    );
    let i = RotateX::new_id(7, Scalar::from_raw(523_599), Arc::new(Node::Cuboid(c)));
    assert_eq!(i.id, 7);
    assert!((i.sin_theta.raw - 500_000).abs() <= 2, "{:?}", i.sin_theta);
    assert!((i.cos_theta.raw - 866_025).abs() <= 2, "{:?}", i.cos_theta);
}

#[test]
fn rotate_then_rotate_inverse_returns_near_the_start() {
    let mut ids = IdCounter::new();
    let material = Material::NoMaterial(NoMaterial::new(&mut ids));
    let c = Cuboid::new(
        &mut ids,
        vector(-1.0, -1.0, -1.0)..vector(1.0, 1.0, 1.0),
        Arc::new(material),
    );
    let i = RotateX::new(&mut ids, scalar(1.0), Arc::new(Node::Cuboid(c)));
    let p = vector(0.25, -3.0, 2.0);
    let q = i.rotate_inverse(i.rotate(p));
    assert_eq_vector3(&q, &p, 0.00001);
    assert_eq!(i.rotate(p).x, p.x);
}

#[test]
fn hit_record_is_in_the_frame_of_the_ray() {
    let mut ids = IdCounter::new();
    let c = Cuboid::new(
        &mut ids,
        vector(-1.0, -1.0, -1.0)..vector(1.0, 1.0, 1.0),
        Arc::new(Material::NoMaterial(NoMaterial::new_id(99))),
    );
    let i = RotateX::new(&mut ids, scalar(f64::to_radians(30.0)), Arc::new(Node::Cuboid(c)));
    let ray = Ray::new_ray(vector(0.0, -5.0, 0.0), vector(0.0, 1.0, 0.0));
    let h = i.hit(&ray, scalar(0.0)..scalar(10.0)).unwrap();
    // the ray enters the turned cube at t = 5 - 1 / cos(30 deg)
    assert!((h.t.raw - 3_845_299).abs() <= 20, "{:?}", h.t);
    assert_eq_vector3(&h.position, &vector(0.0, -1.154701, 0.0), 0.0001);
    assert_eq_vector3(&h.normal, &vector(0.0, -0.866025, 0.5), 0.0001);
    assert_eq!(h.material, 99);
}
