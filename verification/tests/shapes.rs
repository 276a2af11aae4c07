use ray_tracing::aabb::AABB;
use ray_tracing::hit_able::collection::Collection;
use ray_tracing::hit_able::instancing::{FlipNormals, RotateX};
use ray_tracing::hit_able::shape::{Cuboid, Sphere};
use ray_tracing::hit_able::Node;
use ray_tracing::material::{Material, NoMaterial};
use ray_tracing::object::IdCounter;
use ray_tracing::ray::{HitRecord, Ray};
use ray_tracing::scalar::Scalar;
use ray_tracing::serialization::export::Exporter;
use ray_tracing::serialization::RayTracingObject;
use ray_tracing::vector::Vector3;
use std::sync::Arc;

fn units(x: i64) -> Scalar {
    Scalar::from_units(x)
}

fn vector(x: i64, y: i64, z: i64) -> Vector3 {
    Vector3::new(units(x), units(y), units(z))
}

fn no_material(id: usize) -> Arc<Material> {
    Arc::new(Material::NoMaterial(NoMaterial::new_id(id)))
}

fn unit_sphere(id: usize, center: Vector3) -> Arc<Node> {
    Arc::new(Node::Sphere(Sphere::new_id(id, center, units(1), no_material(90))))
}

#[test]
fn identifiers_are_handed_out_in_turn() {
    let mut ids = IdCounter::starting_at(5);
    let a = NoMaterial::new(&mut ids);
    let b = NoMaterial::new(&mut ids);
    assert_eq!((a.id, b.id, ids.next), (5, 6, 7));
    assert_eq!(IdCounter::new().next, 0);
}

#[test]
fn sphere_is_hit_at_its_nearer_side() {
    let s = Sphere::new_id(1, vector(0, 0, 0), units(1), no_material(9));
    let ray = Ray::new_ray(vector(0, 0, -3), vector(0, 0, 1));
    assert_eq!(
        s.hit(&ray, units(0)..units(10)),
        Some(HitRecord {
            t: units(2),
            position: vector(0, 0, -1),
            normal: vector(0, 0, -1),
            material: 9,
        })
    );
    // from within the range of the far side only
    assert_eq!(s.hit(&ray, units(3)..units(10)).map(|h| h.t), Some(units(4)));
    assert_eq!(s.hit(&ray, units(5)..units(10)), None);
    assert_eq!(s.hit(&Ray::new_ray(vector(0, 5, -3), vector(0, 0, 1)), units(0)..units(10)), None);
    assert_eq!(s.hit(&Ray::new_ray(vector(0, 0, -3), vector(0, 0, 0)), units(0)..units(10)), None);
    assert_eq!(
        s.bounding_box(units(0)..units(1)),
        Some(AABB::new(vector(-1, -1, -1), vector(1, 1, 1)))
    );
    assert_eq!(s.pdf_value(&vector(0, 0, 0), &vector(1, 0, 0)), units(0));
    assert_eq!(s.random(&vector(0, 0, 0)), vector(1, 0, 0));
}

#[test]
fn cuboid_is_hit_where_the_ray_enters() {
    let c = Cuboid::new_id(1, vector(-1, -1, -1)..vector(1, 1, 1), no_material(9));
    let ray = Ray::new_ray(vector(-5, 0, 0), vector(1, 0, 0));
    assert_eq!(
        c.hit(&ray, units(0)..units(10)),
        Some(HitRecord {
            t: units(4),
            position: vector(-1, 0, 0),
            normal: vector(-1, 0, 0),
            material: 9,
        })
    );
    // a ray that starts inside leaves through the far face
    let inside = Ray::new_ray(vector(0, 0, 0), vector(0, 0, -1));
    assert_eq!(
        c.hit(&inside, units(0)..units(10)),
        Some(HitRecord {
            t: units(1),
            position: vector(0, 0, -1),
            normal: vector(0, 0, -1),
            material: 9,
        })
    );
    assert_eq!(c.hit(&ray, units(7)..units(10)), None);
    assert_eq!(c.hit(&Ray::new_ray(vector(-5, 2, 0), vector(1, 0, 0)), units(0)..units(10)), None);
    assert_eq!(
        c.bounding_box(units(0)..units(1)),
        Some(AABB::new(vector(-1, -1, -1), vector(1, 1, 1)))
    );
}

#[test]
fn flip_turns_the_normal_round() {
    let f = FlipNormals::new_id(2, unit_sphere(1, vector(0, 0, 0)));
    let ray = Ray::new_ray(vector(0, 0, -3), vector(0, 0, 1));
    let h = f.hit(&ray, units(0)..units(10)).unwrap();
    assert_eq!(h.normal, vector(0, 0, 1));
    assert_eq!(h.position, vector(0, 0, -1));
    assert_eq!(h.t, units(2));
    assert_eq!(f.get_id(), 2);
    assert_eq!(f.bounding_box(units(0)..units(1)), f.node.bounding_box(units(0)..units(1)));
    assert_eq!(f.hit(&ray, units(5)..units(10)), None);
}

#[test]
fn rotation_by_a_quarter_turn_swaps_the_axes() {
    // sine one, cosine zero
    let cube = Arc::new(Node::Cuboid(Cuboid::new_id(
        1,
        vector(-1, -2, -3)..vector(1, 2, 3),
        no_material(9),
    )));
    let r = RotateX::from_sin_cos(2, units(1), units(0), cube);
    assert_eq!(r.rotate(vector(5, 1, 2)), vector(5, 2, -1));
    assert_eq!(r.rotate_inverse(vector(5, 2, -1)), vector(5, 1, 2));
    assert_eq!(
        r.bounding_box(units(0)..units(0)),
        Some(AABB::new(vector(-1, -3, -2), vector(1, 3, 2)))
    );
    // the cube reaches to y = 3 now: a ray down the y axis meets it there
    let ray = Ray::new_ray(vector(0, 10, 0), vector(0, -1, 0));
    let h = r.hit(&ray, units(0)..units(20)).unwrap();
    assert_eq!((h.t, h.position, h.normal), (units(7), vector(0, 3, 0), vector(0, 1, 0)));
    assert_eq!(r.pdf_value(&vector(0, 0, 0), &vector(0, 1, 0)), units(0));
    assert_eq!(r.random(&vector(0, 0, 0)), vector(1, 0, 0));
    assert_eq!(r.get_id(), 2);
}

#[test]
fn box_of_a_turned_cube_holds_every_turned_corner() {
    let cube = Arc::new(Node::Cuboid(Cuboid::new_id(
        1,
        vector(-1, -2, -3)..vector(4, 5, 6),
        no_material(9),
    )));
    for angle in [0, 300_000, 1_234_567, -2_000_000, 3_141_593, 5_000_000] {
        let r = RotateX::new_id(2, Scalar::from_raw(angle), cube.clone());
        let b = r.bounding_box(units(0)..units(1)).unwrap();
        for x in [-1, 4] {
            for y in [-2, 5] {
                for z in [-3, 6] {
                    let p = r.rotate(vector(x, y, z));
                    assert!(b.min.x.raw <= p.x.raw && p.x.raw <= b.max.x.raw);
                    assert!(b.min.y.raw <= p.y.raw && p.y.raw <= b.max.y.raw);
                    assert!(b.min.z.raw <= p.z.raw && p.z.raw <= b.max.z.raw);
                }
            }
        }
        let inner = r.rotate(vector(0, 1, -1));
        assert!(b.min.y.raw <= inner.y.raw && inner.y.raw <= b.max.y.raw);
        assert!(b.min.z.raw <= inner.z.raw && inner.z.raw <= b.max.z.raw);
    }
}

#[test]
fn box_of_a_cube_turned_by_thirty_degrees() {
    let cube = Arc::new(Node::Cuboid(Cuboid::new_id(
        1,
        vector(-1, -1, -1)..vector(1, 1, 1),
        no_material(9),
    )));
    let r = RotateX::new_id(2, Scalar::from_raw(523_599), cube);
    let raw = |x: i64, y: i64, z: i64| {
        Vector3::new(Scalar::from_raw(x), Scalar::from_raw(y), Scalar::from_raw(z))
    };
    assert_eq!(
        r.bounding_box(units(0)..units(1)),
        Some(AABB::new(
            raw(-1_000_000, -1_366_026, -1_366_026),
            raw(1_000_000, 1_366_026, 1_366_026)
        ))
    );
}

#[test]
fn rotation_round_an_unbounded_child_has_no_box() {
    let empty = Arc::new(Node::Collection(Collection::new_id(1, vec![])));
    let r = RotateX::new_id(2, Scalar::from_raw(523_599), empty);
    assert_eq!(r.bounding_box(units(0)..units(1)), None);
    assert_eq!(r.hit(&Ray::new_ray(vector(0, 0, 0), vector(1, 0, 0)), units(0)..units(9)), None);
}

#[test]
fn collection_answers_with_its_nearest_member() {
    let near = unit_sphere(1, vector(0, 0, 0));
    let far = unit_sphere(2, vector(0, 0, 5));
    let c = Collection::new_id(3, vec![far.clone(), near.clone()]);
    let ray = Ray::new_ray(vector(0, 0, -3), vector(0, 0, 1));
    assert_eq!(c.hit(&ray, units(0)..units(20)).map(|h| h.t), Some(units(2)));
    assert_eq!(c.hit(&ray, units(5)..units(20)).map(|h| h.t), Some(units(7)));
    assert_eq!(c.hit(&ray, units(10)..units(20)), None);
    assert_eq!(
        c.bounding_box(units(0)..units(1)),
        Some(AABB::new(vector(-1, -1, -1), vector(1, 1, 6)))
    );
    assert_eq!(c.pdf_value(&vector(0, 0, 0), &vector(0, 0, 1)), units(0));
    assert_eq!(c.random(&vector(0, 0, 0)), vector(1, 0, 0));
    assert_eq!(Collection::new_id(4, vec![]).bounding_box(units(0)..units(1)), None);
    let node = Node::Collection(c);
    assert_eq!(node.get_id(), 3);
    assert_eq!(node.hit(&ray, units(0)..units(20)).map(|h| h.t), Some(units(2)));
}

#[test]
fn node_hands_itself_to_the_visit_of_its_kind() {
    let sphere = unit_sphere(1, vector(0, 0, 0));
    let flip = Node::FlipNormals(FlipNormals::new_id(2, sphere.clone()));
    let mut exporter = Exporter::new();
    flip.accept(&mut exporter).unwrap();
    sphere.accept(&mut exporter).unwrap();
    assert_eq!(exporter.objects.len(), 2);
    assert!(matches!(exporter.objects[0], RayTracingObject::FlipNormals(_)));
    assert!(matches!(exporter.objects[1], RayTracingObject::Sphere(_)));
    assert!(exporter.seen.contains(&1) && exporter.seen.contains(&2));
}

fn answers<H: ray_tracing::hit_able::HitAble>(h: &H, ray: &Ray) -> (usize, Option<Scalar>) {
    (h.get_id(), h.hit(ray, units(0)..units(20)).map(|r| r.t))
}

#[test]
fn every_kind_of_node_answers_through_the_same_interface() {
    let ray = Ray::new_ray(vector(0, 0, -3), vector(0, 0, 1));
    let sphere = Sphere::new_id(1, vector(0, 0, 0), units(1), no_material(9));
    let cube = Cuboid::new_id(2, vector(-1, -1, -1)..vector(1, 1, 1), no_material(9));
    let flip = FlipNormals::new_id(3, unit_sphere(1, vector(0, 0, 0)));
    let turn = RotateX::from_sin_cos(4, units(0), units(1), unit_sphere(1, vector(0, 0, 0)));
    let list = Collection::new_id(5, vec![unit_sphere(1, vector(0, 0, 4))]);
    assert_eq!(answers(&sphere, &ray), (1, Some(units(2))));
    assert_eq!(answers(&cube, &ray), (2, Some(units(2))));
    assert_eq!(answers(&flip, &ray), (3, Some(units(2))));
    assert_eq!(answers(&turn, &ray), (4, Some(units(2))));
    assert_eq!(answers(&list, &ray), (5, Some(units(6))));
    assert_eq!(answers(&Node::Sphere(sphere), &ray), (1, Some(units(2))));
}

fn shareable<T: Send + Sync>() {}

#[test]
fn scene_can_be_read_from_many_threads() {
    shareable::<ray_tracing::scene::Scene>();
    shareable::<Node>();
    shareable::<Arc<Node>>();
}
