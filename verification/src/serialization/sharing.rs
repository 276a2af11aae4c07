//! A scene that is read from records tells, by each identifier, one
//! object: whatever holds an object of some identifier holds the same
//! object as any other that holds one of that identifier. Such a scene
//! can be written out and read back.

use vstd::prelude::*;
use crate::hit_able::model::NodeView;
use crate::material::MaterialView;
use crate::scene::SceneView;
use crate::serialization::entry::Entry;
use crate::serialization::error::{Role, SceneError};
use crate::serialization::export::exported;
use crate::serialization::resolve::{
    index_of, lemma_index_finite, lemma_visit_shrinks, loaded, material_ids, material_of,
    member_ids, node_ids, node_of, nodes_of, Index,
};
use crate::serialization::round_trip::{
    lemma_round_trip, material_told, members_told, node_told, scene_told,
};
use crate::serialization::scene::SceneRecords;

verus! {

/// Whether `x` is the node `n` or a node that `n` owns, directly or through
/// others.
pub open spec fn holds(n: NodeView, x: NodeView) -> bool
    decreases n, n.fan() + 1,
{
    n == x || match n {
        NodeView::Collection { object_list, .. } => member_holds(n, object_list.len(), x),
        NodeView::RotateX { node, .. } => holds(*node, x),
        NodeView::FlipNormals { node, .. } => holds(*node, x),
        _ => false,
    }
}

/// Whether one of the first `k` members of the collection `n` holds `x`.
pub open spec fn member_holds(n: NodeView, k: nat, x: NodeView) -> bool
    decreases n, k,
{
    match n {
        NodeView::Collection { object_list, .. } => {
            if 0 < k <= object_list.len() {
                member_holds(n, (k - 1) as nat, x) || holds(object_list[k - 1], x)
            } else {
                false
            }
        },
        _ => false,
    }
}

/// What a node that the table tells holds, the table tells.
pub proof fn lemma_held_is_told(t: Index, n: NodeView, x: NodeView)
    requires
        node_told(t, n),
        holds(n, x),
    ensures
        node_told(t, x),
    decreases n, n.fan() + 1,
{
    if n != x {
        match n {
            NodeView::Collection { object_list, .. } => {
                lemma_member_held_is_told(t, n, object_list.len(), x);
            },
            NodeView::RotateX { node, .. } => {
                lemma_held_is_told(t, *node, x);
            },
            NodeView::FlipNormals { node, .. } => {
                lemma_held_is_told(t, *node, x);
            },
            _ => {},
        }
    }
}

/// The same for the first `k` members of a collection.
pub proof fn lemma_member_held_is_told(t: Index, n: NodeView, k: nat, x: NodeView)
    requires
        n is Collection,
        k <= n->object_list.len(),
        members_told(t, n, k),
        member_holds(n, k, x),
    ensures
        node_told(t, x),
    decreases n, k,
{
    if k > 0 {
        if member_holds(n, (k - 1) as nat, x) {
            lemma_member_held_is_told(t, n, (k - 1) as nat, x);
        } else {
            lemma_held_is_told(t, n->object_list[k - 1], x);
        }
    }
}

/// Every member among the first `k` that the table tells of, it tells.
proof fn lemma_member_is_told(t: Index, n: NodeView, k: nat, j: int)
    requires
        n is Collection,
        k <= n->object_list.len(),
        members_told(t, n, k),
        0 <= j < k,
    ensures
        node_told(t, n->object_list[j]),
    decreases k,
{
    if j < k - 1 {
        lemma_member_is_told(t, n, (k - 1) as nat, j);
    }
}

/// Two materials of one identifier that the table tells are one material.
pub proof fn lemma_same_identifier_same_material(t: Index, x: MaterialView, y: MaterialView)
    requires
        material_told(t, x),
        material_told(t, y),
        x.id() == y.id(),
    ensures
        x == y,
{
}

/// Two nodes of one identifier that the table tells are one node.
pub proof fn lemma_same_identifier_same_node(t: Index, x: NodeView, y: NodeView)
    requires
        node_told(t, x),
        node_told(t, y),
        x.id() == y.id(),
    ensures
        x == y,
    decreases x,
{
    match x {
        NodeView::Sphere { material, .. } => {
            lemma_same_identifier_same_material(t, material, y->Sphere_material);
        },
        NodeView::Cuboid { material, .. } => {
            lemma_same_identifier_same_material(t, material, y->Cuboid_material);
        },
        NodeView::Collection { object_list, .. } => {
            let other = y->Collection_object_list;
            let ids = t[x.id()]->Collection_object_id_list;
            assert(object_list.len() == ids.len());
            assert(other.len() == ids.len());
            assert forall|j: int| 0 <= j < object_list.len() implies object_list[j] == other[j] by {
                lemma_member_is_told(t, x, object_list.len(), j);
                lemma_member_is_told(t, y, other.len(), j);
                assert(ids[j] == object_list[j].id());
                assert(ids[j] == other[j].id());
                lemma_same_identifier_same_node(t, object_list[j], other[j]);
            }
            assert(object_list =~= other);
        },
        NodeView::RotateX { node, .. } => {
            lemma_same_identifier_same_node(t, *node, *y->RotateX_node);
        },
        NodeView::FlipNormals { node, .. } => {
            lemma_same_identifier_same_node(t, *node, *y->FlipNormals_node);
        },
    }
}

/// Whether the node holds none of the declared nodes of the set.
pub open spec fn clear_of(index: Index, n: NodeView, v: Set<usize>) -> bool {
    forall|x: usize|
        v.contains(x) && index.contains_key(x) && index[x].kind().role() == Role::Node
            ==> !#[trigger] node_ids(n).contains(x)
}

/// A material that an index unfolds to is told by the index.
proof fn lemma_unfolded_material_is_told(index: Index, id: usize, by: Option<usize>)
    requires
        material_of(index, id, by) is Ok,
    ensures
        material_told(index, material_of(index, id, by)->Ok_0),
        material_of(index, id, by)->Ok_0.id() == id,
        forall|x: usize|
            material_ids(
                material_of(index, id, by)->Ok_0,
            ).contains(x) ==> index.contains_key(x) && index[x].kind().role() != Role::Node,
{
}

/// A node that an index unfolds to has the identifier asked for, is told
/// by the index, and holds no declared node that was being unfolded above
/// it.
pub proof fn lemma_unfolded_is_told(index: Index, id: usize, by: Option<usize>, v: Set<usize>)
    requires
        index.dom().finite(),
        node_of(index, id, by, v) is Ok,
    ensures
        node_of(index, id, by, v)->Ok_0.id() == id,
        node_told(index, node_of(index, id, by, v)->Ok_0),
        clear_of(index, node_of(index, id, by, v)->Ok_0, v),
    decreases index.dom().difference(v).len(), 0nat,
{
    let n = node_of(index, id, by, v)->Ok_0;
    let below = v.insert(id);
    lemma_visit_shrinks(index, v, id);
    assert(!v.contains(id));
    match index[id] {
        Entry::Sphere { material, .. } => {
            lemma_unfolded_material_is_told(index, material, Some(id));
            let m = material_of(index, material, Some(id))->Ok_0;
            assert(node_ids(n) == material_ids(m).insert(id));
            assert forall|x: usize|
                v.contains(x) && index.contains_key(x) && index[x].kind().role()
                    == Role::Node implies !#[trigger] node_ids(n).contains(x) by {
                assert(!material_ids(m).contains(x));
            }
        },
        Entry::Cuboid { material, .. } => {
            lemma_unfolded_material_is_told(index, material, Some(id));
            let m = material_of(index, material, Some(id))->Ok_0;
            assert(node_ids(n) == material_ids(m).insert(id));
            assert forall|x: usize|
                v.contains(x) && index.contains_key(x) && index[x].kind().role()
                    == Role::Node implies !#[trigger] node_ids(n).contains(x) by {
                assert(!material_ids(m).contains(x));
            }
        },
        Entry::Collection { object_id_list } => {
            lemma_unfolded_list_is_told(index, object_id_list, object_id_list.len(), id, below);
            let l = nodes_of(index, object_id_list, object_id_list.len(), id, below)->Ok_0;
            lemma_list_is_members(index, id, l, l.len());
            assert(index[id]->Collection_object_id_list =~= Seq::new(l.len(), |k: int| l[k].id()));
            assert forall|x: usize|
                below.contains(x) && index.contains_key(x) && index[x].kind().role()
                    == Role::Node implies !member_ids(n, l.len()).contains(x) by {
                if member_ids(n, l.len()).contains(x) {
                    let j = choose|j: int| 0 <= j < l.len() && #[trigger] node_ids(l[j]).contains(x);
                    assert(clear_of(index, l[j], below));
                }
            }
            assert(below.contains(id));
            assert(!member_ids(n, l.len()).contains(id));
            assert forall|x: usize|
                v.contains(x) && index.contains_key(x) && index[x].kind().role()
                    == Role::Node implies !#[trigger] node_ids(n).contains(x) by {
                assert(below.contains(x));
                assert(!member_ids(n, l.len()).contains(x));
            }
        },
        Entry::RotateX { node, .. } => {
            lemma_unfolded_is_told(index, node, Some(id), below);
            let c = node_of(index, node, Some(id), below)->Ok_0;
            assert(below.contains(id));
            assert(!node_ids(c).contains(id));
            assert forall|x: usize|
                v.contains(x) && index.contains_key(x) && index[x].kind().role()
                    == Role::Node implies !#[trigger] node_ids(n).contains(x) by {
                assert(below.contains(x));
                assert(!node_ids(c).contains(x));
            }
        },
        Entry::FlipNormals { node } => {
            lemma_unfolded_is_told(index, node, Some(id), below);
            let c = node_of(index, node, Some(id), below)->Ok_0;
            assert(below.contains(id));
            assert(!node_ids(c).contains(id));
            assert forall|x: usize|
                v.contains(x) && index.contains_key(x) && index[x].kind().role()
                    == Role::Node implies !#[trigger] node_ids(n).contains(x) by {
                assert(below.contains(x));
                assert(!node_ids(c).contains(x));
            }
        },
        _ => {},
    }
}

/// Whether the index tells each of the first `k` nodes of the list.
pub open spec fn list_told(index: Index, l: Seq<NodeView>, k: nat) -> bool {
    forall|j: int| 0 <= j < k ==> node_told(index, #[trigger] l[j])
}

/// The nodes that an index unfolds a list of identifiers to have those
/// identifiers, are told by the index, and hold no node that was being
/// unfolded above them.
proof fn lemma_unfolded_list_is_told(
    index: Index,
    ids: Seq<usize>,
    n: nat,
    by: usize,
    v: Set<usize>,
)
    requires
        index.dom().finite(),
        n <= ids.len(),
        nodes_of(index, ids, n, by, v) is Ok,
    ensures
        nodes_of(index, ids, n, by, v)->Ok_0.len() == n,
        forall|j: int|
            0 <= j < n ==> (#[trigger] nodes_of(index, ids, n, by, v)->Ok_0[j]).id() == ids[j],
        list_told(index, nodes_of(index, ids, n, by, v)->Ok_0, n),
        forall|j: int|
            0 <= j < n ==> clear_of(index, #[trigger] nodes_of(index, ids, n, by, v)->Ok_0[j], v),
    decreases index.dom().difference(v).len(), n + 1,
{
    if n > 0 {
        lemma_unfolded_list_is_told(index, ids, (n - 1) as nat, by, v);
        lemma_unfolded_is_told(index, ids[n - 1], Some(by), v);
    }
}

/// A collection of nodes that the index tells, none of which holds a node
/// of a given set, has members that the index tells, and holds no node of
/// the set among them.
proof fn lemma_list_is_members(index: Index, id: usize, l: Seq<NodeView>, k: nat)
    requires
        k <= l.len(),
        list_told(index, l, k),
    ensures
        members_told(index, NodeView::Collection { id, object_list: l }, k),
        forall|x: usize|
            member_ids(NodeView::Collection { id, object_list: l }, k).contains(x) ==> exists|
                j: int,
            |
                0 <= j < k && #[trigger] node_ids(l[j]).contains(x),
    decreases k,
{
    if k > 0 {
        lemma_list_is_members(index, id, l, (k - 1) as nat);
        let n = NodeView::Collection { id, object_list: l };
        assert forall|x: usize| member_ids(n, k).contains(x) implies exists|j: int|
            0 <= j < k && #[trigger] node_ids(l[j]).contains(x) by {
            if member_ids(n, (k - 1) as nat).contains(x) {
                let j = choose|j: int| 0 <= j < k - 1 && #[trigger] node_ids(l[j]).contains(x);
                assert(0 <= j < k && node_ids(l[j]).contains(x));
            } else {
                assert(node_ids(l[k - 1]).contains(x));
            }
        }
    }
}

/// A scene that is read from records is told by the index of the records.
pub proof fn lemma_loaded_is_told(records: SceneRecords)
    requires
        loaded(records) is Ok,
    ensures
        scene_told(index_of(records.objects)->Ok_0, loaded(records)->Ok_0),
{
    let index = index_of(records.objects)->Ok_0;
    lemma_index_finite(records.objects, records.objects.len());
    lemma_unfolded_is_told(index, records.root_node_id, None, Set::empty());
}

/// In a scene that is read from records, two nodes of one identifier are
/// one node, wherever in the scene they are held.
pub proof fn lemma_one_object_per_identifier(records: SceneRecords, x: NodeView, y: NodeView)
    requires
        loaded(records) matches Ok(s) && holds(s.root_node, x) && holds(s.root_node, y),
        x.id() == y.id(),
    ensures
        x == y,
{
    let index = index_of(records.objects)->Ok_0;
    let s = loaded(records)->Ok_0;
    lemma_loaded_is_told(records);
    lemma_held_is_told(index, s.root_node, x);
    lemma_held_is_told(index, s.root_node, y);
    lemma_same_identifier_same_node(index, x, y);
}

/// A scene that is read from records can be written out and read back.
pub proof fn lemma_loaded_round_trip(records: SceneRecords)
    requires
        loaded(records) is Ok,
    ensures
        loaded(exported(loaded(records)->Ok_0)) == Ok::<SceneView, SceneError>(loaded(records)->Ok_0),
{
    lemma_loaded_is_told(records);
    lemma_round_trip(loaded(records)->Ok_0, index_of(records.objects)->Ok_0);
}

} // verus!
