//! What holds of every list of records: a cycle among the nodes is never
//! unfolded and, where nothing else is amiss, is reported as a cycle; a
//! reference to an identifier that no record declares is, where nothing
//! else is amiss, reported with that identifier.

use vstd::prelude::*;
use crate::serialization::entry::Entry;
use crate::serialization::error::{Role, SceneError};
use crate::serialization::resolve::{
    lemma_visit_shrinks, material_of, node_of, nodes_of, texture_of, Index,
};

verus! {

/// The material that the object refers to, if it refers to one.
pub open spec fn material_in(e: Entry) -> Option<usize> {
    match e {
        Entry::Sphere { material, .. } => Some(material),
        Entry::Cuboid { material, .. } => Some(material),
        _ => None,
    }
}

/// The texture that the object refers to, if it refers to one.
pub open spec fn texture_in(e: Entry) -> Option<usize> {
    match e {
        Entry::Lambertian { albedo } => Some(albedo),
        _ => None,
    }
}

/// Whether the node `a` owns the node `b`.
pub open spec fn owns(index: Index, a: usize, b: usize) -> bool {
    index.contains_key(a) && index[a].nodes().contains(b)
}

/// Whether the object `a` refers to the object `b`, in any part.
pub open spec fn refers(index: Index, a: usize, b: usize) -> bool {
    index.contains_key(a) && (index[a].nodes().contains(b) || material_in(index[a]) == Some(b)
        || texture_in(index[a]) == Some(b))
}

/// Whether each node of the path owns the next.
pub open spec fn is_path(index: Index, p: Seq<usize>) -> bool {
    p.len() > 0 && forall|i: int|
        #![trigger p[i]]
        0 <= i < p.len() - 1 ==> owns(index, p[i], p[i + 1])
}

/// Whether each object of the chain refers to the next.
pub open spec fn is_chain(index: Index, p: Seq<usize>) -> bool {
    p.len() > 0 && forall|i: int|
        #![trigger p[i]]
        0 <= i < p.len() - 1 ==> refers(index, p[i], p[i + 1])
}

/// Whether `id` is declared, or is `missing`, and can play the part.
pub open spec fn fits(index: Index, id: usize, role: Role, missing: Option<usize>) -> bool {
    missing == Some(id) || (index.contains_key(id) && index[id].kind().role() == role)
}

/// Whether every reference of every record leads to a declared object of
/// the kind that the reference asks for, or to `missing`.
pub open spec fn sound_but_for(index: Index, missing: Option<usize>) -> bool {
    forall|a: usize| #[trigger]
        index.contains_key(a) ==> {
            &&& forall|j: int|
                0 <= j < index[a].nodes().len() ==> fits(
                    index,
                    #[trigger] index[a].nodes()[j],
                    Role::Node,
                    missing,
                )
            &&& material_in(index[a]) matches Some(m) ==> fits(index, m, Role::Material, missing)
            &&& texture_in(index[a]) matches Some(t) ==> fits(index, t, Role::Texture, missing)
        }
}

/// Whether `rank` puts every node above the nodes it owns: there is no
/// cycle.
pub open spec fn ranked(index: Index, rank: spec_fn(usize) -> nat) -> bool {
    forall|a: usize, j: int|
        index.contains_key(a) && 0 <= j < index[a].nodes().len() ==> rank(
            #[trigger] index[a].nodes()[j],
        ) < rank(a)
}

/// Whether every node of the set ranks above `id`.
pub open spec fn all_above(v: Set<usize>, rank: spec_fn(usize) -> nat, id: usize) -> bool {
    forall|x: usize| v.contains(x) ==> rank(id) < rank(x)
}

/// Where a list of nodes unfolds, each of them unfolds.
pub proof fn lemma_each_member_unfolds(
    index: Index,
    ids: Seq<usize>,
    n: nat,
    by: usize,
    v: Set<usize>,
    j: int,
)
    requires
        index.dom().finite(),
        nodes_of(index, ids, n, by, v) is Ok,
        0 <= j < n,
    ensures
        node_of(index, ids[j], Some(by), v) is Ok,
    decreases n,
{
    if j < n - 1 {
        lemma_each_member_unfolds(index, ids, (n - 1) as nat, by, v, j);
    }
}

/// Where a node unfolds, each node it owns unfolds below it.
pub proof fn lemma_owned_unfolds(index: Index, a: usize, b: usize, by: Option<usize>, v: Set<usize>)
    requires
        index.dom().finite(),
        node_of(index, a, by, v) is Ok,
        owns(index, a, b),
    ensures
        node_of(index, b, Some(a), v.insert(a)) is Ok,
{
    let j = choose|j: int| 0 <= j < index[a].nodes().len() && index[a].nodes()[j] == b;
    match index[a] {
        Entry::Collection { object_id_list } => {
            lemma_each_member_unfolds(
                index,
                object_id_list,
                object_id_list.len(),
                a,
                v.insert(a),
                j,
            );
        },
        _ => {},
    }
}

/// The nodes of the path before the place `k`.
pub open spec fn before(p: Seq<usize>, k: int) -> Set<usize> {
    Set::new(|x: usize| exists|i: int| 0 <= i < k && p[i] == x)
}

/// Where the first node of a path unfolds, every node of the path unfolds
/// below those before it.
pub proof fn lemma_path_unfolds(index: Index, p: Seq<usize>, by: Option<usize>, k: int)
    requires
        index.dom().finite(),
        is_path(index, p),
        node_of(index, p[0], by, Set::empty()) is Ok,
        0 <= k < p.len(),
    ensures
        node_of(index, p[k], if k == 0 { by } else { Some(p[k - 1]) }, before(p, k)) is Ok,
        !before(p, k).contains(p[k]),
    decreases k,
{
    if k == 0 {
        assert(before(p, 0) =~= Set::<usize>::empty());
    } else {
        lemma_path_unfolds(index, p, by, k - 1);
        let earlier = if k - 1 == 0 { by } else { Some(p[k - 2]) };
        assert(owns(index, p[k - 1], p[k]));
        lemma_owned_unfolds(index, p[k - 1], p[k], earlier, before(p, k - 1));
        assert(before(p, k) =~= before(p, k - 1).insert(p[k - 1])) by {
            assert forall|x: usize| before(p, k - 1).insert(p[k - 1]).contains(x) implies before(
                p,
                k,
            ).contains(x) by {
                if x == p[k - 1] {
                    assert(0 <= k - 1 < k && p[k - 1] == x);
                } else {
                    let i = choose|i: int| 0 <= i < k - 1 && p[i] == x;
                    assert(0 <= i < k && p[i] == x);
                }
            }
        }
    }
}

/// A cycle is never unfolded: where a path of nodes from the root comes
/// to the same node twice, the root does not unfold.
pub proof fn lemma_cycle_never_unfolds(
    index: Index,
    p: Seq<usize>,
    i: int,
    j: int,
    by: Option<usize>,
)
    requires
        index.dom().finite(),
        is_path(index, p),
        0 <= i < j < p.len(),
        p[i] == p[j],
    ensures
        node_of(index, p[0], by, Set::empty()) is Err,
{
    if node_of(index, p[0], by, Set::empty()) is Ok {
        lemma_path_unfolds(index, p, by, j);
        assert(0 <= i < j && p[i] == p[j]);
        assert(before(p, j).contains(p[j]));
    }
}

/// Where every reference leads to an object of the right kind, a node
/// unfolds or is part of a cycle.
pub proof fn lemma_sound_node(index: Index, id: usize, by: Option<usize>, v: Set<usize>)
    requires
        index.dom().finite(),
        sound_but_for(index, None),
        fits(index, id, Role::Node, None),
    ensures
        node_of(index, id, by, v) is Ok || node_of(index, id, by, v) is Err && node_of(
            index,
            id,
            by,
            v,
        )->Err_0 is CyclicReference,
    decreases index.dom().difference(v).len(), 0nat,
{
    if !v.contains(id) {
        lemma_visit_shrinks(index, v, id);
        match index[id] {
            Entry::Sphere { material, .. } => {
                lemma_sound_material(index, material, Some(id));
            },
            Entry::Cuboid { material, .. } => {
                lemma_sound_material(index, material, Some(id));
            },
            Entry::Collection { object_id_list } => {
                assert forall|j: int| 0 <= j < object_id_list.len() implies fits(
                    index,
                    #[trigger] object_id_list[j],
                    Role::Node,
                    None,
                ) by {
                    assert(index[id].nodes()[j] == object_id_list[j]);
                }
                lemma_sound_nodes(index, object_id_list, object_id_list.len(), id, v.insert(id));
            },
            Entry::RotateX { node, .. } => {
                assert(index[id].nodes()[0] == node);
                lemma_sound_node(index, node, Some(id), v.insert(id));
            },
            Entry::FlipNormals { node } => {
                assert(index[id].nodes()[0] == node);
                lemma_sound_node(index, node, Some(id), v.insert(id));
            },
            _ => {},
        }
    }
}

/// The same for a list of nodes.
pub proof fn lemma_sound_nodes(index: Index, ids: Seq<usize>, n: nat, by: usize, v: Set<usize>)
    requires
        index.dom().finite(),
        sound_but_for(index, None),
        n <= ids.len(),
        forall|j: int| 0 <= j < n ==> fits(index, #[trigger] ids[j], Role::Node, None),
    ensures
        nodes_of(index, ids, n, by, v) is Ok || nodes_of(index, ids, n, by, v) is Err && nodes_of(
            index,
            ids,
            n,
            by,
            v,
        )->Err_0 is CyclicReference,
    decreases index.dom().difference(v).len(), n + 1,
{
    if n > 0 {
        lemma_sound_nodes(index, ids, (n - 1) as nat, by, v);
        lemma_sound_node(index, ids[n - 1], Some(by), v);
    }
}

/// Where every reference leads to an object of the right kind, a material
/// unfolds.
pub proof fn lemma_sound_material(index: Index, id: usize, by: Option<usize>)
    requires
        sound_but_for(index, None),
        fits(index, id, Role::Material, None),
    ensures
        material_of(index, id, by) is Ok,
{
}

/// Where every reference leads to an object of the right kind and a path
/// of nodes from the root comes to the same node twice, unfolding the root
/// fails with a cyclic reference.
pub proof fn lemma_cycle_is_reported(
    index: Index,
    p: Seq<usize>,
    i: int,
    j: int,
    by: Option<usize>,
)
    requires
        index.dom().finite(),
        sound_but_for(index, None),
        fits(index, p[0], Role::Node, None),
        is_path(index, p),
        0 <= i < j < p.len(),
        p[i] == p[j],
    ensures
        node_of(index, p[0], by, Set::empty()) matches Err(e) && e is CyclicReference,
{
    lemma_cycle_never_unfolds(index, p, i, j, by);
    lemma_sound_node(index, p[0], by, Set::empty());
}

/// Whether the object `id` unfolds in the given part.
pub open spec fn unfolds(index: Index, id: usize, role: Role, by: Option<usize>, v: Set<usize>) -> bool {
    match role {
        Role::Node => node_of(index, id, by, v) is Ok,
        Role::Material => material_of(index, id, by) is Ok,
        Role::Texture => texture_of(index, id, by) is Ok,
        _ => false,
    }
}

/// An object from which a chain of references leads to an identifier that
/// no record declares does not unfold.
pub proof fn lemma_chain_to_missing_fails(
    index: Index,
    p: Seq<usize>,
    role: Role,
    by: Option<usize>,
    v: Set<usize>,
)
    requires
        index.dom().finite(),
        is_chain(index, p),
        !index.contains_key(p.last()),
    ensures
        !unfolds(index, p[0], role, by, v),
    decreases p.len(),
{
    if p.len() > 1 && unfolds(index, p[0], role, by, v) {
        let q = p.skip(1);
        assert(q.last() == p.last());
        assert(is_chain(index, q)) by {
            assert forall|i: int| #![trigger q[i]] 0 <= i < q.len() - 1 implies refers(
                index,
                q[i],
                q[i + 1],
            ) by {
                assert(q[i] == p[i + 1]);
                assert(refers(index, p[i + 1], p[i + 2]));
            }
        }
        assert(refers(index, p[0], p[1]));
        assert(q[0] == p[1]);
        match role {
            Role::Node => {
                if index[p[0]].nodes().contains(p[1]) {
                    lemma_owned_unfolds(index, p[0], p[1], by, v);
                    lemma_chain_to_missing_fails(index, q, Role::Node, Some(p[0]), v.insert(p[0]));
                } else {
                    lemma_chain_to_missing_fails(index, q, Role::Material, Some(p[0]), v);
                }
            },
            Role::Material => {
                lemma_chain_to_missing_fails(index, q, Role::Texture, Some(p[0]), v);
            },
            _ => {},
        }
    }
}

/// Whether the outcome is a success or the report of `missing` as
/// unresolved.
pub open spec fn ok_or_unresolved<T>(r: Result<T, SceneError>, missing: usize) -> bool {
    match r {
        Ok(_) => true,
        Err(SceneError::UnresolvedReference { id, .. }) => id == missing,
        Err(_) => false,
    }
}

/// Where nothing is amiss but references to one identifier that no record
/// declares, a node unfolds or that identifier is reported.
pub proof fn lemma_only_missing_node(
    index: Index,
    id: usize,
    by: Option<usize>,
    v: Set<usize>,
    missing: usize,
    rank: spec_fn(usize) -> nat,
)
    requires
        index.dom().finite(),
        !index.contains_key(missing),
        sound_but_for(index, Some(missing)),
        ranked(index, rank),
        fits(index, id, Role::Node, Some(missing)),
        all_above(v, rank, id),
        forall|x: usize| v.contains(x) ==> index.contains_key(x),
    ensures
        ok_or_unresolved(node_of(index, id, by, v), missing),
    decreases index.dom().difference(v).len(), 0nat,
{
    if index.contains_key(id) {
        lemma_visit_shrinks(index, v, id);
        let below = v.insert(id);
        match index[id] {
            Entry::Collection { object_id_list } => {
                assert forall|j: int| 0 <= j < object_id_list.len() implies fits(
                    index,
                    #[trigger] object_id_list[j],
                    Role::Node,
                    Some(missing),
                ) && all_above(below, rank, object_id_list[j]) by {
                    assert(index[id].nodes()[j] == object_id_list[j]);
                }
                lemma_only_missing_nodes(
                    index,
                    object_id_list,
                    object_id_list.len(),
                    id,
                    below,
                    missing,
                    rank,
                );
            },
            Entry::RotateX { node, .. } => {
                assert(index[id].nodes()[0] == node);
                lemma_only_missing_node(index, node, Some(id), below, missing, rank);
            },
            Entry::FlipNormals { node } => {
                assert(index[id].nodes()[0] == node);
                lemma_only_missing_node(index, node, Some(id), below, missing, rank);
            },
            _ => {},
        }
    }
}

/// The same for a list of nodes.
pub proof fn lemma_only_missing_nodes(
    index: Index,
    ids: Seq<usize>,
    n: nat,
    by: usize,
    v: Set<usize>,
    missing: usize,
    rank: spec_fn(usize) -> nat,
)
    requires
        index.dom().finite(),
        !index.contains_key(missing),
        sound_but_for(index, Some(missing)),
        ranked(index, rank),
        n <= ids.len(),
        forall|j: int|
            0 <= j < n ==> fits(index, #[trigger] ids[j], Role::Node, Some(missing)) && all_above(
                v,
                rank,
                ids[j],
            ),
        forall|x: usize| v.contains(x) ==> index.contains_key(x),
    ensures
        ok_or_unresolved(nodes_of(index, ids, n, by, v), missing),
    decreases index.dom().difference(v).len(), n + 1,
{
    if n > 0 {
        lemma_only_missing_nodes(index, ids, (n - 1) as nat, by, v, missing, rank);
        lemma_only_missing_node(index, ids[n - 1], Some(by), v, missing, rank);
    }
}

/// Where a chain of references leads from the root to an identifier that
/// no record declares, and nothing else is amiss
/// (every other reference leads to an object of the right kind, and no
/// node owns itself), unfolding the root fails with an unresolved
/// reference that names that identifier.
pub proof fn lemma_missing_is_reported(
    index: Index,
    p: Seq<usize>,
    by: Option<usize>,
    rank: spec_fn(usize) -> nat,
)
    requires
        index.dom().finite(),
        is_chain(index, p),
        !index.contains_key(p.last()),
        sound_but_for(index, Some(p.last())),
        ranked(index, rank),
        fits(index, p[0], Role::Node, Some(p.last())),
    ensures
        node_of(index, p[0], by, Set::empty()) matches Err(
            SceneError::UnresolvedReference { id, .. },
        ) && id == p.last(),
{
    lemma_chain_to_missing_fails(index, p, Role::Node, by, Set::empty());
    lemma_only_missing_node(index, p[0], by, Set::empty(), p.last(), rank);
}

} // verus!
