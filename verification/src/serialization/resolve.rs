//! What a list of records means: the index from identifier to description,
//! and the live objects that the descriptions unfold to.
//!
//! An object is unfolded from its description and the unfolded objects it
//! owns. Unfolding a node keeps the set of the nodes that are being unfolded
//! above it; meeting one of those again is a cycle.

use vstd::prelude::*;
use crate::hit_able::instancing::rotate_x::rotated_box;
use crate::hit_able::model::NodeView;
use crate::material::{ConstantTexture, MaterialView, Texture};
use crate::scene::{Camera, Configuration, SceneView, Sky};
use crate::serialization::entry::Entry;
use crate::serialization::error::{Malformation, Role, SceneError};
use crate::serialization::scene::{DeserializeOptions, Record, SceneRecords, Unreferenced};

verus! {

/// From identifier to what it stands for.
pub type Index = Map<usize, Entry>;

/// The index extended by the first `k` objects that `record` declares.
/// An identifier that the index holds already, and an object for which a
/// reference list of the record is too short, end it.
pub open spec fn with_record(index: Index, record: Record, k: nat) -> Result<Index, SceneError>
    decreases k,
{
    if k == 0 {
        Ok(index)
    } else {
        match with_record(index, record, (k - 1) as nat) {
            Err(e) => Err(e),
            Ok(m) => {
                let id = record.ids()[k - 1];
                if m.contains_key(id) {
                    Err(SceneError::MalformedRecord { reason: Malformation::DuplicateId { id } })
                } else {
                    match record.entry(k - 1) {
                        None => Err(
                            SceneError::MalformedRecord {
                                reason: Malformation::ShortReferenceList { id },
                            },
                        ),
                        Some(e) => Ok(m.insert(id, e)),
                    }
                }
            },
        }
    }
}

/// The index of the first `n` records.
pub open spec fn index_of_first(records: Seq<Record>, n: nat) -> Result<Index, SceneError>
    decreases n,
{
    if n == 0 {
        Ok(Map::empty())
    } else {
        match index_of_first(records, (n - 1) as nat) {
            Err(e) => Err(e),
            Ok(m) => with_record(m, records[n - 1], records[n - 1].ids().len()),
        }
    }
}

/// The index of a list of records, read from the first record to the last.
pub open spec fn index_of(records: Seq<Record>) -> Result<Index, SceneError> {
    index_of_first(records, records.len())
}

/// The error for an identifier that no record declares.
pub open spec fn unresolved(id: usize, by: Option<usize>) -> SceneError {
    SceneError::UnresolvedReference { id, referenced_by: by }
}

/// The error for an object that cannot play the part asked of it.
pub open spec fn mismatch(id: usize, expected: Role, entry: Entry) -> SceneError {
    SceneError::TypeMismatch { id, expected, actual: entry.kind() }
}

/// The texture `id`, referred to by `by`.
pub open spec fn texture_of(index: Index, id: usize, by: Option<usize>) -> Result<
    Texture,
    SceneError,
> {
    if !index.contains_key(id) {
        Err(unresolved(id, by))
    } else {
        match index[id] {
            Entry::ConstantTexture { color } => Ok(Texture::Constant(ConstantTexture { id, color })),
            e => Err(mismatch(id, Role::Texture, e)),
        }
    }
}

/// The material `id`, referred to by `by`.
pub open spec fn material_of(index: Index, id: usize, by: Option<usize>) -> Result<
    MaterialView,
    SceneError,
> {
    if !index.contains_key(id) {
        Err(unresolved(id, by))
    } else {
        match index[id] {
            Entry::NoMaterial => Ok(MaterialView::NoMaterial { id }),
            Entry::Lambertian { albedo } => match texture_of(index, albedo, Some(id)) {
                Ok(t) => Ok(MaterialView::Lambertian { id, albedo: t }),
                Err(e) => Err(e),
            },
            e => Err(mismatch(id, Role::Material, e)),
        }
    }
}

/// Unfolding a node that is not being unfolded already leaves fewer nodes
/// to unfold below it.
pub proof fn lemma_visit_shrinks(index: Index, visiting: Set<usize>, id: usize)
    requires
        index.dom().finite(),
        index.contains_key(id),
        !visiting.contains(id),
    ensures
        index.dom().difference(visiting.insert(id)).len() < index.dom().difference(visiting).len(),
{
    let before = index.dom().difference(visiting);
    assert(before.contains(id));
    assert(index.dom().difference(visiting.insert(id)) =~= before.remove(id));
}

/// The node `id`, referred to by `by`, while the nodes in `visiting` are
/// being unfolded above it.
pub open spec fn node_of(index: Index, id: usize, by: Option<usize>, visiting: Set<usize>) -> Result<
    NodeView,
    SceneError,
>
    decreases index.dom().difference(visiting).len(), 0nat,
    when index.dom().finite()
{
    if visiting.contains(id) {
        Err(SceneError::CyclicReference { id })
    } else if !index.contains_key(id) {
        Err(unresolved(id, by))
    } else {
        match index[id] {
            Entry::Sphere { center, radius, material } => match material_of(
                index,
                material,
                Some(id),
            ) {
                Ok(m) => Ok(NodeView::Sphere { id, center, radius, material: m }),
                Err(e) => Err(e),
            },
            Entry::Cuboid { min, max, material } => match material_of(index, material, Some(id)) {
                Ok(m) => Ok(NodeView::Cuboid { id, min, max, material: m }),
                Err(e) => Err(e),
            },
            Entry::Collection { object_id_list } => {
                proof {
                    lemma_visit_shrinks(index, visiting, id);
                }
                match nodes_of(index, object_id_list, object_id_list.len(), id, visiting.insert(id)) {
                    Ok(l) => Ok(NodeView::Collection { id, object_list: l }),
                    Err(e) => Err(e),
                }
            },
            Entry::RotateX { sin_theta, cos_theta, node } => {
                proof {
                    lemma_visit_shrinks(index, visiting, id);
                }
                match node_of(index, node, Some(id), visiting.insert(id)) {
                    Ok(n) => Ok(
                        NodeView::RotateX {
                            id,
                            sin_theta,
                            cos_theta,
                            node: Box::new(n),
                            aabb: rotated_box(sin_theta, cos_theta, n.bounding_box()),
                        },
                    ),
                    Err(e) => Err(e),
                }
            },
            Entry::FlipNormals { node } => {
                proof {
                    lemma_visit_shrinks(index, visiting, id);
                }
                match node_of(index, node, Some(id), visiting.insert(id)) {
                    Ok(n) => Ok(NodeView::FlipNormals { id, node: Box::new(n) }),
                    Err(e) => Err(e),
                }
            },
            e => Err(mismatch(id, Role::Node, e)),
        }
    }
}

/// The first `n` of the nodes `ids`, all referred to by `by`; the error of
/// the first that fails.
pub open spec fn nodes_of(index: Index, ids: Seq<usize>, n: nat, by: usize, visiting: Set<usize>) -> Result<
    Seq<NodeView>,
    SceneError,
>
    decreases index.dom().difference(visiting).len(), n + 1,
    when index.dom().finite()
{
    if n == 0 {
        Ok(Seq::empty())
    } else {
        match nodes_of(index, ids, (n - 1) as nat, by, visiting) {
            Err(e) => Err(e),
            Ok(l) => match node_of(index, ids[n - 1], Some(by), visiting) {
                Ok(x) => Ok(l.push(x)),
                Err(e) => Err(e),
            },
        }
    }
}

/// The configuration `id`, an entry point.
pub open spec fn configuration_of(index: Index, id: usize) -> Result<Configuration, SceneError> {
    if !index.contains_key(id) {
        Err(unresolved(id, None))
    } else {
        match index[id] {
            Entry::Configuration { maximum_depth } => Ok(Configuration { id, maximum_depth }),
            e => Err(mismatch(id, Role::Configuration, e)),
        }
    }
}

/// The camera `id`, an entry point.
pub open spec fn camera_of(index: Index, id: usize) -> Result<Camera, SceneError> {
    if !index.contains_key(id) {
        Err(unresolved(id, None))
    } else {
        match index[id] {
            Entry::Camera {
                lower_left_corner,
                horizontal,
                vertical,
                origin,
                lense_radius,
                time_from,
                time_to,
            } => Ok(
                Camera {
                    id,
                    lower_left_corner,
                    horizontal,
                    vertical,
                    origin,
                    lense_radius,
                    time_from,
                    time_to,
                },
            ),
            e => Err(mismatch(id, Role::Camera, e)),
        }
    }
}

/// The sky `id`, an entry point.
pub open spec fn sky_of(index: Index, id: usize) -> Result<Sky, SceneError> {
    if !index.contains_key(id) {
        Err(unresolved(id, None))
    } else {
        match index[id] {
            Entry::Sky { nadir_color, zenith_color } => Ok(Sky { id, nadir_color, zenith_color }),
            e => Err(mismatch(id, Role::Sky, e)),
        }
    }
}

/// The scene that the index unfolds to from the four entry points:
/// configuration, camera, sky and root node, in this order; the first error
/// met is the outcome.
pub open spec fn scene_of(index: Index, records: SceneRecords) -> Result<SceneView, SceneError> {
    match configuration_of(index, records.configuration_id) {
        Err(e) => Err(e),
        Ok(configuration) => match camera_of(index, records.camera_id) {
            Err(e) => Err(e),
            Ok(camera) => match sky_of(index, records.sky_id) {
                Err(e) => Err(e),
                Ok(sky) => match node_of(index, records.root_node_id, None, Set::empty()) {
                    Err(e) => Err(e),
                    Ok(root_node) => Ok(SceneView { configuration, camera, sky, root_node }),
                },
            },
        },
    }
}

/// The scene that a list of records with four entry points stands for.
pub open spec fn loaded(records: SceneRecords) -> Result<SceneView, SceneError> {
    match index_of(records.objects) {
        Err(e) => Err(e),
        Ok(index) => scene_of(index, records),
    }
}

/// The index of a list of records holds finitely many identifiers.
pub proof fn lemma_index_finite(records: Seq<Record>, n: nat)
    requires
        index_of_first(records, n) is Ok,
    ensures
        index_of_first(records, n)->Ok_0.dom().finite(),
    decreases n,
{
    if n > 0 {
        lemma_index_finite(records, (n - 1) as nat);
        let m = index_of_first(records, (n - 1) as nat)->Ok_0;
        lemma_with_record_finite(m, records[n - 1], records[n - 1].ids().len());
    }
}

/// Reading a record into an index of finitely many identifiers leaves
/// finitely many.
pub proof fn lemma_with_record_finite(index: Index, record: Record, k: nat)
    requires
        index.dom().finite(),
        with_record(index, record, k) is Ok,
    ensures
        with_record(index, record, k)->Ok_0.dom().finite(),
    decreases k,
{
    if k > 0 {
        lemma_with_record_finite(index, record, (k - 1) as nat);
    }
}

/// The identifiers of a material and of what it owns.
pub open spec fn material_ids(m: MaterialView) -> Set<usize> {
    match m {
        MaterialView::NoMaterial { id } => set![id],
        MaterialView::Lambertian { id, albedo } => set![id, albedo.id()],
    }
}

/// The identifiers of a node and of all that it owns.
pub open spec fn node_ids(n: NodeView) -> Set<usize>
    decreases n, n.fan() + 1,
{
    match n {
        NodeView::Sphere { id, material, .. } => material_ids(material).insert(id),
        NodeView::Cuboid { id, material, .. } => material_ids(material).insert(id),
        NodeView::Collection { id, object_list } => member_ids(n, object_list.len()).insert(id),
        NodeView::RotateX { id, node, .. } => node_ids(*node).insert(id),
        NodeView::FlipNormals { id, node } => node_ids(*node).insert(id),
    }
}

/// The identifiers of the first `k` members of a collection and of all
/// that they own.
pub open spec fn member_ids(n: NodeView, k: nat) -> Set<usize>
    decreases n, k,
{
    match n {
        NodeView::Collection { object_list, .. } => {
            if 0 < k <= object_list.len() {
                member_ids(n, (k - 1) as nat).union(node_ids(object_list[k - 1]))
            } else {
                Set::empty()
            }
        },
        _ => Set::empty(),
    }
}

/// The identifiers of the first `k` nodes of a list and of all that they
/// own.
pub open spec fn list_ids(l: Seq<NodeView>, k: nat) -> Set<usize>
    decreases k,
{
    if 0 < k <= l.len() {
        list_ids(l, (k - 1) as nat).union(node_ids(l[k - 1]))
    } else {
        Set::empty()
    }
}

/// The members of a collection are the nodes of its list.
pub proof fn lemma_member_ids(id: usize, l: Seq<NodeView>, k: nat)
    ensures
        member_ids(NodeView::Collection { id, object_list: l }, k) == list_ids(l, k),
    decreases k,
{
    if 0 < k <= l.len() {
        lemma_member_ids(id, l, (k - 1) as nat);
    }
}

/// The identifiers of all the objects of a scene.
pub open spec fn scene_ids(s: SceneView) -> Set<usize> {
    node_ids(s.root_node).insert(s.configuration.id).insert(s.camera.id).insert(s.sky.id)
}

/// The first of the first `k` identifiers that `record` declares that is
/// not among `used`.
pub open spec fn unreferenced_in(record: Record, k: nat, used: Set<usize>) -> Option<usize>
    decreases k,
{
    if k == 0 {
        None
    } else {
        match unreferenced_in(record, (k - 1) as nat, used) {
            Some(id) => Some(id),
            None => if used.contains(record.ids()[k - 1]) {
                None
            } else {
                Some(record.ids()[k - 1])
            },
        }
    }
}

/// The first identifier that the first `n` records declare that is not
/// among `used`.
pub open spec fn unreferenced_of_first(records: Seq<Record>, n: nat, used: Set<usize>) -> Option<
    usize,
>
    decreases n,
{
    if n == 0 {
        None
    } else {
        match unreferenced_of_first(records, (n - 1) as nat, used) {
            Some(id) => Some(id),
            None => unreferenced_in(records[n - 1], records[n - 1].ids().len(), used),
        }
    }
}

/// The error for a record that no entry point reaches.
pub open spec fn unreferenced(id: usize) -> SceneError {
    SceneError::MalformedRecord { reason: Malformation::Unreferenced { id } }
}

/// The scene that a list of records with four entry points stands for
/// under the given options. Where the options refuse records that no
/// entry point reaches, the first identifier declared that is none of an
/// object of the scene is an error.
pub open spec fn loaded_with(records: SceneRecords, options: DeserializeOptions) -> Result<
    SceneView,
    SceneError,
> {
    match loaded(records) {
        Err(e) => Err(e),
        Ok(s) => match options.unreferenced {
            Unreferenced::Tolerate => Ok(s),
            Unreferenced::Reject => match unreferenced_of_first(
                records.objects,
                records.objects.len(),
                scene_ids(s),
            ) {
                Some(id) => Err(unreferenced(id)),
                None => Ok(s),
            },
        },
    }
}

/// Whether the set holds, with each of its nodes, the nodes that it owns.
pub open spec fn closed(index: Index, s: Set<usize>) -> bool {
    forall|id: usize, j: int|
        s.contains(id) && index.contains_key(id) && 0 <= j < index[id].nodes().len()
            ==> s.contains(#[trigger] index[id].nodes()[j])
}

/// A node that unfolds while the nodes of one set are being unfolded above
/// it unfolds to the same while those of another set are, if the other
/// set holds no node below it that the first does not.
pub proof fn lemma_node_transfer(
    index: Index,
    id: usize,
    by: Option<usize>,
    v: Set<usize>,
    by2: Option<usize>,
    v2: Set<usize>,
    s: Set<usize>,
)
    requires
        index.dom().finite(),
        closed(index, s),
        s.contains(id),
        forall|x: usize| s.contains(x) && v2.contains(x) ==> v.contains(x),
        node_of(index, id, by, v) is Ok,
    ensures
        node_of(index, id, by2, v2) == node_of(index, id, by, v),
    decreases index.dom().difference(v).len(), 0nat,
{
    match index[id] {
        Entry::Collection { object_id_list } => {
            lemma_visit_shrinks(index, v, id);
            assert forall|j: int| 0 <= j < object_id_list.len() implies s.contains(
                object_id_list[j],
            ) by {
                assert(index[id].nodes()[j] == object_id_list[j]);
            }
            lemma_nodes_transfer(
                index,
                object_id_list,
                object_id_list.len(),
                id,
                v.insert(id),
                v2.insert(id),
                s,
            );
        },
        Entry::RotateX { node, .. } => {
            lemma_visit_shrinks(index, v, id);
            assert(index[id].nodes()[0] == node);
            lemma_node_transfer(index, node, Some(id), v.insert(id), Some(id), v2.insert(id), s);
        },
        Entry::FlipNormals { node } => {
            lemma_visit_shrinks(index, v, id);
            assert(index[id].nodes()[0] == node);
            lemma_node_transfer(index, node, Some(id), v.insert(id), Some(id), v2.insert(id), s);
        },
        _ => {},
    }
}

/// The same for a list of nodes.
pub proof fn lemma_nodes_transfer(
    index: Index,
    ids: Seq<usize>,
    n: nat,
    by: usize,
    v: Set<usize>,
    v2: Set<usize>,
    s: Set<usize>,
)
    requires
        index.dom().finite(),
        closed(index, s),
        n <= ids.len(),
        forall|j: int| 0 <= j < n ==> s.contains(ids[j]),
        forall|x: usize| s.contains(x) && v2.contains(x) ==> v.contains(x),
        nodes_of(index, ids, n, by, v) is Ok,
    ensures
        nodes_of(index, ids, n, by, v2) == nodes_of(index, ids, n, by, v),
    decreases index.dom().difference(v).len(), n + 1,
{
    if n > 0 {
        lemma_nodes_transfer(index, ids, (n - 1) as nat, by, v, v2, s);
        lemma_node_transfer(index, ids[n - 1], Some(by), v, Some(by), v2, s);
    }
}

} // verus!
