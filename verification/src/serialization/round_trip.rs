//! Writing a scene out and reading it back gives the scene.
//!
//! This holds of a scene in which an identifier tells what it stands for:
//! there is a table from identifier to description that tells every object
//! of the scene, no node is owned by itself, and every turn holds the box
//! that belongs to its child.

use vstd::prelude::*;
use crate::hit_able::instancing::rotate_x::rotated_box;
use crate::hit_able::model::NodeView;
use crate::material::{MaterialView, Texture};
use crate::scene::SceneView;
use crate::serialization::entry::Entry;
use crate::serialization::error::SceneError;
use crate::serialization::export::{
    camera_record, configuration_record, exported, material_record, node_record, sky_record,
    texture_record, Emitted,
};
use crate::serialization::laws::refers;
use crate::serialization::resolve::{
    camera_of, configuration_of, index_of, index_of_first, lemma_member_ids, lemma_visit_shrinks,
    list_ids, loaded, material_ids, material_of, member_ids, node_ids, node_of, nodes_of, scene_of,
    sky_of, texture_of, with_record, Index,
};
use crate::serialization::scene::{Record, SceneRecords};

verus! {

/// The description of a texture.
pub open spec fn texture_entry(t: Texture) -> Entry {
    match t {
        Texture::Constant(c) => Entry::ConstantTexture { color: c.color },
    }
}

/// The description of a material.
pub open spec fn material_entry(m: MaterialView) -> Entry {
    match m {
        MaterialView::NoMaterial { .. } => Entry::NoMaterial,
        MaterialView::Lambertian { albedo, .. } => Entry::Lambertian { albedo: albedo.id() },
    }
}

/// The description of a node.
pub open spec fn node_entry(n: NodeView) -> Entry {
    match n {
        NodeView::Sphere { center, radius, material, .. } => Entry::Sphere {
            center,
            radius,
            material: material.id(),
        },
        NodeView::Cuboid { min, max, material, .. } => Entry::Cuboid {
            min,
            max,
            material: material.id(),
        },
        NodeView::Collection { object_list, .. } => Entry::Collection {
            object_id_list: Seq::new(object_list.len(), |k: int| object_list[k].id()),
        },
        NodeView::RotateX { sin_theta, cos_theta, node, .. } => Entry::RotateX {
            sin_theta,
            cos_theta,
            node: node.id(),
        },
        NodeView::FlipNormals { node, .. } => Entry::FlipNormals { node: node.id() },
    }
}

/// Whether the table tells the texture.
pub open spec fn texture_told(t: Index, x: Texture) -> bool {
    t.contains_key(x.id()) && t[x.id()] == texture_entry(x)
}

/// Whether the table tells the material and what it owns.
pub open spec fn material_told(t: Index, m: MaterialView) -> bool {
    &&& t.contains_key(m.id())
    &&& t[m.id()] == material_entry(m)
    &&& m matches MaterialView::Lambertian { albedo, .. } ==> texture_told(t, albedo)
}

/// Whether the table tells the node and all that it owns, the node is not
/// owned by itself, and each turn in it holds the box of its child.
pub open spec fn node_told(t: Index, n: NodeView) -> bool
    decreases n, n.fan() + 1,
{
    &&& t.contains_key(n.id())
    &&& t[n.id()] == node_entry(n)
    &&& match n {
        NodeView::Sphere { material, .. } => material_told(t, material),
        NodeView::Cuboid { material, .. } => material_told(t, material),
        NodeView::Collection { id, object_list } => {
            &&& members_told(t, n, object_list.len())
            &&& !member_ids(n, object_list.len()).contains(id)
        },
        NodeView::RotateX { id, sin_theta, cos_theta, node, aabb } => {
            &&& node_told(t, *node)
            &&& !node_ids(*node).contains(id)
            &&& aabb == rotated_box(sin_theta, cos_theta, node.bounding_box())
        },
        NodeView::FlipNormals { id, node } => {
            &&& node_told(t, *node)
            &&& !node_ids(*node).contains(id)
        },
    }
}

/// Whether the table tells the first `k` members of a collection.
pub open spec fn members_told(t: Index, n: NodeView, k: nat) -> bool
    decreases n, k,
{
    match n {
        NodeView::Collection { object_list, .. } => {
            if 0 < k <= object_list.len() {
                members_told(t, n, (k - 1) as nat) && node_told(t, object_list[k - 1])
            } else {
                true
            }
        },
        _ => true,
    }
}

/// Whether the table tells the whole scene.
pub open spec fn scene_told(t: Index, s: SceneView) -> bool {
    &&& node_told(t, s.root_node)
    &&& t.contains_key(s.configuration.id)
    &&& t[s.configuration.id] == configuration_record(s.configuration).entry(0)->Some_0
    &&& t.contains_key(s.camera.id)
    &&& t[s.camera.id] == camera_record(s.camera).entry(0)->Some_0
    &&& t.contains_key(s.sky.id)
    &&& t[s.sky.id] == sky_record(s.sky).entry(0)->Some_0
}

/// Every member that the table tells of, it tells.
proof fn lemma_member_told(t: Index, n: NodeView, k: nat, j: int)
    requires
        n is Collection,
        k <= n->object_list.len(),
        members_told(t, n, k),
        0 <= j < k,
    ensures
        node_told(t, n->object_list[j]),
        node_ids(n->object_list[j]).subset_of(member_ids(n, k)),
    decreases k,
{
    if j < k - 1 {
        lemma_member_told(t, n, (k - 1) as nat, j);
    }
}

/// A material that the table tells unfolds from the table.
proof fn lemma_material_unfolds(t: Index, m: MaterialView, by: Option<usize>)
    requires
        material_told(t, m),
    ensures
        material_of(t, m.id(), by) == Ok::<MaterialView, SceneError>(m),
{
}

/// A node that the table tells unfolds from the table, while no node of
/// it is being unfolded above it.
proof fn lemma_node_unfolds(t: Index, n: NodeView, by: Option<usize>, v: Set<usize>)
    requires
        t.dom().finite(),
        node_told(t, n),
        v.disjoint(node_ids(n)),
    ensures
        node_of(t, n.id(), by, v) == Ok::<NodeView, SceneError>(n),
    decreases n, n.fan() + 1,
{
    let id = n.id();
    assert(node_ids(n).contains(id));
    match n {
        NodeView::Sphere { material, .. } => {
            lemma_material_unfolds(t, material, Some(id));
        },
        NodeView::Cuboid { material, .. } => {
            lemma_material_unfolds(t, material, Some(id));
        },
        NodeView::Collection { object_list, .. } => {
            lemma_members_unfold(t, n, object_list.len(), v.insert(id));
            let ids = Seq::new(object_list.len(), |k: int| object_list[k].id());
            assert(nodes_of(t, ids, ids.len(), id, v.insert(id))->Ok_0 =~= object_list);
        },
        NodeView::RotateX { node, .. } => {
            lemma_node_unfolds(t, *node, Some(id), v.insert(id));
        },
        NodeView::FlipNormals { node, .. } => {
            lemma_node_unfolds(t, *node, Some(id), v.insert(id));
        },
    }
}

/// The first `k` members of a collection that the table tells unfold from
/// the table.
proof fn lemma_members_unfold(t: Index, n: NodeView, k: nat, v: Set<usize>)
    requires
        t.dom().finite(),
        n is Collection,
        k <= n->object_list.len(),
        members_told(t, n, k),
        v.disjoint(member_ids(n, k)),
    ensures
        nodes_of(
            t,
            Seq::new(n->object_list.len(), |j: int| n->object_list[j].id()),
            k,
            n.id(),
            v,
        ) == Ok::<Seq<NodeView>, SceneError>(n->object_list.take(k as int)),
    decreases n, k,
{
    let list = n->object_list;
    let ids = Seq::new(list.len(), |j: int| list[j].id());
    if k == 0 {
        assert(list.take(0) =~= Seq::<NodeView>::empty());
    } else {
        lemma_members_unfold(t, n, (k - 1) as nat, v);
        lemma_node_unfolds(t, list[k - 1], Some(n.id()), v);
        assert(list.take(k as int) =~= list.take(k - 1).push(list[k - 1]));
    }
}

/// Whether the set holds, with each object, the objects it refers to.
pub open spec fn sealed(t: Index, seen: Set<usize>) -> bool {
    forall|a: usize, b: usize| seen.contains(a) && #[trigger] refers(t, a, b) ==> seen.contains(b)
}

/// Whether what has been written is what the table tells of the
/// identifiers written, and nothing is written without all it refers to.
pub open spec fn kept(e: Emitted, t: Index) -> bool {
    &&& index_of(e.objects) == Ok::<Index, SceneError>(t.restrict(e.seen))
    &&& e.seen.subset_of(t.dom())
    &&& e.seen.finite()
    &&& sealed(t, e.seen)
}

/// The index of the first records of a list is that of the first records
/// of any list that begins alike.
proof fn lemma_index_prefix(a: Seq<Record>, b: Seq<Record>, k: nat)
    requires
        k <= a.len() <= b.len(),
        forall|j: int| 0 <= j < k ==> a[j] == b[j],
    ensures
        index_of_first(a, k) == index_of_first(b, k),
    decreases k,
{
    if k > 0 {
        lemma_index_prefix(a, b, (k - 1) as nat);
    }
}

/// One more record that the table tells keeps what is written in line
/// with the table.
proof fn lemma_with(e: Emitted, t: Index, id: usize, record: Record)
    requires
        kept(e, t),
        t.contains_key(id),
        record.ids() == seq![id],
        record.entry(0) == Some(t[id]),
        forall|b: usize| #[trigger] refers(t, id, b) ==> e.seen.contains(b) || b == id,
    ensures
        kept(e.with(id, record), t),
        e.with(id, record).seen == e.seen.insert(id),
{
    let after = e.with(id, record);
    if e.seen.contains(id) {
        assert(e.seen.insert(id) =~= e.seen);
    } else {
        let n = e.objects.len();
        lemma_index_prefix(e.objects, after.objects, n);
        let m = t.restrict(e.seen);
        assert(index_of_first(after.objects, n) == Ok::<Index, SceneError>(m));
        assert(after.objects[n as int] == record);
        assert(with_record(m, record, 0) == Ok::<Index, SceneError>(m));
        assert(with_record(m, record, 1) == Ok::<Index, SceneError>(m.insert(id, t[id])));
        assert(m.insert(id, t[id]) =~= t.restrict(e.seen.insert(id)));
        assert(index_of_first(after.objects, (n + 1) as nat) == with_record(m, record, 1));
    }
}

/// A material that is written has all its identifiers written.
proof fn lemma_material_seen(t: Index, m: MaterialView, seen: Set<usize>)
    requires
        material_told(t, m),
        sealed(t, seen),
        seen.contains(m.id()),
    ensures
        material_ids(m).subset_of(seen),
{
    match m {
        MaterialView::Lambertian { id, albedo } => {
            assert(refers(t, id, albedo.id()));
        },
        _ => {},
    }
}

/// A node that is written has all its identifiers written.
proof fn lemma_node_seen(t: Index, n: NodeView, seen: Set<usize>)
    requires
        node_told(t, n),
        sealed(t, seen),
        seen.contains(n.id()),
    ensures
        node_ids(n).subset_of(seen),
    decreases n, n.fan() + 1,
{
    let id = n.id();
    match n {
        NodeView::Sphere { material, .. } => {
            assert(refers(t, id, material.id()));
            lemma_material_seen(t, material, seen);
        },
        NodeView::Cuboid { material, .. } => {
            assert(refers(t, id, material.id()));
            lemma_material_seen(t, material, seen);
        },
        NodeView::Collection { object_list, .. } => {
            lemma_members_seen(t, n, object_list.len(), seen);
        },
        NodeView::RotateX { node, .. } => {
            assert(t[id].nodes()[0] == node.id());
            assert(refers(t, id, node.id()));
            lemma_node_seen(t, *node, seen);
        },
        NodeView::FlipNormals { node, .. } => {
            assert(t[id].nodes()[0] == node.id());
            assert(refers(t, id, node.id()));
            lemma_node_seen(t, *node, seen);
        },
    }
}

/// The members of a collection that is written have all their identifiers
/// written.
proof fn lemma_members_seen(t: Index, n: NodeView, k: nat, seen: Set<usize>)
    requires
        n is Collection,
        k <= n->object_list.len(),
        t.contains_key(n.id()),
        t[n.id()] == node_entry(n),
        members_told(t, n, k),
        sealed(t, seen),
        seen.contains(n.id()),
    ensures
        member_ids(n, k).subset_of(seen),
    decreases n, k,
{
    if k > 0 {
        lemma_members_seen(t, n, (k - 1) as nat, seen);
        let child = n->object_list[k - 1];
        assert(t[n.id()].nodes()[k - 1] == child.id());
        assert(refers(t, n.id(), child.id()));
        lemma_node_seen(t, child, seen);
    }
}

/// Writing a texture that the table tells keeps what is written in line
/// with the table.
proof fn lemma_with_texture(e: Emitted, t: Index, x: Texture)
    requires
        kept(e, t),
        texture_told(t, x),
    ensures
        kept(e.with_texture(x), t),
        e.with_texture(x).seen == e.seen.insert(x.id()),
{
    lemma_with(e, t, x.id(), texture_record(x));
}

/// Writing a material that the table tells keeps what is written in line
/// with the table.
proof fn lemma_with_material(e: Emitted, t: Index, m: MaterialView)
    requires
        kept(e, t),
        material_told(t, m),
    ensures
        kept(e.with_material(m), t),
        e.with_material(m).seen == e.seen.union(material_ids(m)),
{
    if e.seen.contains(m.id()) {
        lemma_material_seen(t, m, e.seen);
        assert(e.seen.union(material_ids(m)) =~= e.seen);
    } else {
        match m {
            MaterialView::NoMaterial { id } => {
                lemma_with(e, t, id, material_record(m));
                assert(e.seen.insert(id) =~= e.seen.union(material_ids(m)));
            },
            MaterialView::Lambertian { id, albedo } => {
                lemma_with_texture(e, t, albedo);
                let inner = e.with_texture(albedo);
                lemma_with(inner, t, id, material_record(m));
                assert(inner.seen.insert(id) =~= e.seen.union(material_ids(m)));
            },
        }
    }
}

/// Writing a node that the table tells keeps what is written in line with
/// the table.
proof fn lemma_with_node(e: Emitted, t: Index, n: NodeView)
    requires
        kept(e, t),
        node_told(t, n),
    ensures
        kept(e.with_node(n), t),
        e.with_node(n).seen == e.seen.union(node_ids(n)),
    decreases n, n.fan() + 1,
{
    let id = n.id();
    if e.seen.contains(id) {
        lemma_node_seen(t, n, e.seen);
        assert(e.seen.union(node_ids(n)) =~= e.seen);
    } else {
        match n {
            NodeView::Sphere { material, .. } => {
                lemma_with_material(e, t, material);
                let owned = e.with_material(material);
                lemma_with(owned, t, id, node_record(n));
                assert(owned.seen.insert(id) =~= e.seen.union(node_ids(n)));
            },
            NodeView::Cuboid { material, .. } => {
                lemma_with_material(e, t, material);
                let owned = e.with_material(material);
                lemma_with(owned, t, id, node_record(n));
                assert(owned.seen.insert(id) =~= e.seen.union(node_ids(n)));
            },
            NodeView::Collection { object_list, .. } => {
                lemma_with_members(e, t, n, object_list.len());
                let owned = e.with_members(n, object_list.len());
                assert forall|b: usize| #[trigger] refers(t, id, b) implies owned.seen.contains(b)
                    || b == id by {
                    let j = choose|j: int| 0 <= j < t[id].nodes().len() && t[id].nodes()[j] == b;
                    lemma_member_told(t, n, object_list.len(), j);
                    assert(node_ids(object_list[j]).contains(b));
                }
                assert(node_record(n).entry(0) == Some(node_entry(n)));
                lemma_with(owned, t, id, node_record(n));
                assert(owned.seen.insert(id) =~= e.seen.union(node_ids(n)));
            },
            NodeView::RotateX { node, .. } => {
                lemma_with_node(e, t, *node);
                let owned = e.with_node(*node);
                assert(node_ids(*node).contains(node.id()));
                assert forall|b: usize| #[trigger] refers(t, id, b) implies owned.seen.contains(b)
                    || b == id by {
                    let j = choose|j: int| 0 <= j < t[id].nodes().len() && t[id].nodes()[j] == b;
                }
                lemma_with(owned, t, id, node_record(n));
                assert(owned.seen.insert(id) =~= e.seen.union(node_ids(n)));
            },
            NodeView::FlipNormals { node, .. } => {
                lemma_with_node(e, t, *node);
                let owned = e.with_node(*node);
                assert(node_ids(*node).contains(node.id()));
                assert forall|b: usize| #[trigger] refers(t, id, b) implies owned.seen.contains(b)
                    || b == id by {
                    let j = choose|j: int| 0 <= j < t[id].nodes().len() && t[id].nodes()[j] == b;
                }
                lemma_with(owned, t, id, node_record(n));
                assert(owned.seen.insert(id) =~= e.seen.union(node_ids(n)));
            },
        }
    }
}

/// Writing the first `k` members of a collection that the table tells
/// keeps what is written in line with the table.
proof fn lemma_with_members(e: Emitted, t: Index, n: NodeView, k: nat)
    requires
        kept(e, t),
        n is Collection,
        k <= n->object_list.len(),
        members_told(t, n, k),
    ensures
        kept(e.with_members(n, k), t),
        e.with_members(n, k).seen == e.seen.union(member_ids(n, k)),
    decreases n, k,
{
    if k == 0 {
        assert(e.seen.union(member_ids(n, 0)) =~= e.seen);
    } else {
        lemma_with_members(e, t, n, (k - 1) as nat);
        let earlier = e.with_members(n, (k - 1) as nat);
        lemma_with_node(earlier, t, n->object_list[k - 1]);
        assert(earlier.seen.union(node_ids(n->object_list[k - 1])) =~= e.seen.union(
            member_ids(n, k),
        ));
    }
}

/// Whether the two tables tell the same of the given identifiers.
pub open spec fn agree_on(t: Index, part: Index, ids: Set<usize>) -> bool {
    forall|id: usize| #[trigger]
        ids.contains(id) ==> t.contains_key(id) && part.contains_key(id) && part[id] == t[id]
}

/// A node that a table tells is told by every table that agrees with it on
/// the identifiers of the node.
proof fn lemma_told_by_part(t: Index, part: Index, n: NodeView)
    requires
        node_told(t, n),
        agree_on(t, part, node_ids(n)),
    ensures
        node_told(part, n),
    decreases n, n.fan() + 1,
{
    assert(node_ids(n).contains(n.id()));
    match n {
        NodeView::Sphere { material, .. } => {
            assert(material_ids(material).contains(material.id()));
            assert(node_ids(n).contains(material.id()));
            if material is Lambertian {
                assert(material_ids(material).contains(material->albedo.id()));
                assert(node_ids(n).contains(material->albedo.id()));
            }
        },
        NodeView::Cuboid { material, .. } => {
            assert(material_ids(material).contains(material.id()));
            assert(node_ids(n).contains(material.id()));
            if material is Lambertian {
                assert(material_ids(material).contains(material->albedo.id()));
                assert(node_ids(n).contains(material->albedo.id()));
            }
        },
        NodeView::Collection { object_list, .. } => {
            assert forall|id: usize| #[trigger]
                member_ids(n, object_list.len()).contains(id) implies t.contains_key(id)
                && part.contains_key(id) && part[id] == t[id] by {
                assert(node_ids(n).contains(id));
            }
            lemma_members_told_by_part(t, part, n, object_list.len());
        },
        NodeView::RotateX { node, .. } => {
            assert forall|id: usize| #[trigger] node_ids(*node).contains(id) implies t.contains_key(
                id,
            ) && part.contains_key(id) && part[id] == t[id] by {
                assert(node_ids(n).contains(id));
            }
            lemma_told_by_part(t, part, *node);
        },
        NodeView::FlipNormals { node, .. } => {
            assert forall|id: usize| #[trigger] node_ids(*node).contains(id) implies t.contains_key(
                id,
            ) && part.contains_key(id) && part[id] == t[id] by {
                assert(node_ids(n).contains(id));
            }
            lemma_told_by_part(t, part, *node);
        },
    }
}

/// The same for the first `k` members of a collection.
proof fn lemma_members_told_by_part(t: Index, part: Index, n: NodeView, k: nat)
    requires
        n is Collection,
        k <= n->object_list.len(),
        members_told(t, n, k),
        agree_on(t, part, member_ids(n, k)),
    ensures
        members_told(part, n, k),
    decreases n, k,
{
    if k > 0 {
        let child = n->object_list[k - 1];
        assert forall|id: usize| #[trigger]
            member_ids(n, (k - 1) as nat).contains(id) implies t.contains_key(id)
            && part.contains_key(id) && part[id] == t[id] by {
            assert(member_ids(n, k).contains(id));
        }
        assert forall|id: usize| #[trigger] node_ids(child).contains(id) implies t.contains_key(
            id,
        ) && part.contains_key(id) && part[id] == t[id] by {
            assert(member_ids(n, k).contains(id));
        }
        lemma_members_told_by_part(t, part, n, (k - 1) as nat);
        lemma_told_by_part(t, part, child);
    }
}

/// The records of a scene that a table tells stand for that scene:
/// written out and read back, the scene is what it was.
pub proof fn lemma_round_trip(s: SceneView, t: Index)
    requires
        scene_told(t, s),
    ensures
        loaded(exported(s)) == Ok::<SceneView, SceneError>(s),
{
    let e0 = Emitted::nothing();
    assert(t.restrict(e0.seen) =~= Map::<usize, Entry>::empty());
    assert(kept(e0, t));
    lemma_with_node(e0, t, s.root_node);
    let e1 = e0.with_node(s.root_node);
    lemma_with(e1, t, s.camera.id, camera_record(s.camera));
    let e2 = e1.with(s.camera.id, camera_record(s.camera));
    lemma_with(e2, t, s.sky.id, sky_record(s.sky));
    let e3 = e2.with(s.sky.id, sky_record(s.sky));
    lemma_with(e3, t, s.configuration.id, configuration_record(s.configuration));
    let e4 = e3.with(s.configuration.id, configuration_record(s.configuration));
    let part = t.restrict(e4.seen);
    assert(exported(s).objects == e4.objects);
    assert(part.dom() =~= e4.seen);
    assert(agree_on(t, part, node_ids(s.root_node))) by {
        assert forall|id: usize| #[trigger] node_ids(s.root_node).contains(id) implies t.contains_key(
            id,
        ) && part.contains_key(id) && part[id] == t[id] by {
            assert(e1.seen.contains(id));
            assert(e4.seen.contains(id));
        }
    }
    lemma_told_by_part(t, part, s.root_node);
    lemma_node_unfolds(part, s.root_node, None, Set::empty());
}

} // verus!
