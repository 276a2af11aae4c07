//! Building the live scene from records.
//!
//! Every object is built once, when it is first asked for, after the
//! objects it owns; later requests for its identifier are handed the same
//! object.

use vstd::prelude::*;
use std::collections::{HashMap, HashSet};
use std::sync::Arc;
use crate::hit_able::model::{Node, NodeView};
use crate::material::{Material, MaterialView, Texture};
use crate::scene;
use crate::serialization::entry::Entry;
use crate::serialization::error::{Malformation, Role, SceneError};
use crate::serialization::resolve::{
    camera_of, closed, configuration_of, index_of, index_of_first, lemma_member_ids,
    lemma_node_transfer, lemma_visit_shrinks, list_ids, material_ids, material_of, node_ids,
    node_of, nodes_of, sky_of, texture_of, unreferenced_in, unreferenced_of_first, with_record,
    Index,
};
use crate::serialization::scene::{records_view, RayTracingObject, Record};

verus! {

/// The state of one load: the records, where each identifier is declared,
/// the objects built so far, and the nodes that are being built.
pub struct Loader<'a> {
    records: &'a Vec<RayTracingObject>,
    index: Ghost<Index>,
    places: HashMap<usize, (usize, usize)>,
    textures: HashMap<usize, Arc<Texture>>,
    materials: HashMap<usize, Arc<Material>>,
    nodes: HashMap<usize, Arc<Node>>,
    visiting: HashSet<usize>,
}

/// An error met in the middle of a record ends the reading of the record.
proof fn lemma_with_record_error_stays(index: Index, record: Record, k: nat, n: nat)
    requires
        k <= n,
        with_record(index, record, k) is Err,
    ensures
        with_record(index, record, n) == with_record(index, record, k),
    decreases n,
{
    if k < n {
        lemma_with_record_error_stays(index, record, k, (n - 1) as nat);
    }
}

/// An error met in the middle of the list ends the reading of the list.
proof fn lemma_index_error_stays(records: Seq<Record>, k: nat, n: nat)
    requires
        k <= n,
        index_of_first(records, k) is Err,
    ensures
        index_of_first(records, n) == index_of_first(records, k),
    decreases n,
{
    if k < n {
        lemma_index_error_stays(records, k, (n - 1) as nat);
    }
}

/// An identifier found among the first that a record declares is found
/// among all of them.
proof fn lemma_unreferenced_in_stays(record: Record, k: nat, n: nat, used: Set<usize>)
    requires
        k <= n,
        unreferenced_in(record, k, used) is Some,
    ensures
        unreferenced_in(record, n, used) == unreferenced_in(record, k, used),
    decreases n,
{
    if k < n {
        lemma_unreferenced_in_stays(record, k, (n - 1) as nat, used);
    }
}

/// An identifier found in the first records is found in all of them.
proof fn lemma_unreferenced_stays(records: Seq<Record>, k: nat, n: nat, used: Set<usize>)
    requires
        k <= n,
        unreferenced_of_first(records, k, used) is Some,
    ensures
        unreferenced_of_first(records, n, used) == unreferenced_of_first(records, k, used),
    decreases n,
{
    if k < n {
        lemma_unreferenced_stays(records, k, (n - 1) as nat, used);
    }
}

/// The description of an object is of the kind of its record.
proof fn lemma_entry_kind(record: Record, k: int)
    requires
        record.entry(k) is Some,
    ensures
        record.entry(k)->Some_0.kind() == record.kind(),
{
}

/// Whether the record describes its object of the given index in full.
fn describes(record: &RayTracingObject, k: usize) -> (b: bool)
    ensures
        b == record@.entry(k as int) is Some,
{
    match record {
        RayTracingObject::Lambertian(r) => r.albedo.get_id(k).is_some(),
        RayTracingObject::Sphere(r) => r.material.get_id(k).is_some(),
        RayTracingObject::Cuboid(r) => r.material.get_id(k).is_some(),
        RayTracingObject::RotateX(r) => r.node.get_id(k).is_some(),
        RayTracingObject::FlipNormals(r) => r.node.get_id(k).is_some(),
        _ => true,
    }
}

impl<'a> Loader<'a> {
    /// The index of the records.
    pub closed spec fn index(&self) -> Index {
        self.index@
    }

    /// The nodes that are being built.
    pub closed spec fn visiting(&self) -> Set<usize> {
        self.visiting@
    }

    /// The records being read.
    pub closed spec fn records(&self) -> Seq<Record> {
        records_view(self.records@)
    }

    /// Whether every identifier is recorded at the place where a record
    /// declares it, with the description that the index holds for it.
    spec fn placed(&self) -> bool {
        forall|id: usize| #[trigger]
            self.places@.contains_key(id) ==> {
                let p = self.places@[id];
                &&& p.0 < self.records@.len()
                &&& p.1 < self.records@[p.0 as int]@.ids().len()
                &&& self.records@[p.0 as int]@.ids()[p.1 as int] == id
                &&& self.records@[p.0 as int]@.entry(p.1 as int) == Some(self.index@[id])
            }
    }

    /// Whether the state is sound: every object built so far is the one
    /// that its identifier unfolds to, every node built so far has the nodes
    /// it owns built too, and no node that is being built has been built.
    pub closed spec fn wf(&self) -> bool {
        &&& self.index@.dom().finite()
        &&& self.places@.dom() == self.index@.dom()
        &&& self.placed()
        &&& forall|id: usize| #[trigger]
            self.textures@.contains_key(id) ==> texture_of(self.index@, id, None) == Ok::<
                Texture,
                SceneError,
            >(*self.textures@[id])
        &&& forall|id: usize| #[trigger]
            self.materials@.contains_key(id) ==> material_of(self.index@, id, None) == Ok::<
                MaterialView,
                SceneError,
            >(self.materials@[id]@)
        &&& forall|id: usize| #[trigger]
            self.nodes@.contains_key(id) ==> node_of(self.index@, id, None, Set::empty()) == Ok::<
                NodeView,
                SceneError,
            >(self.nodes@[id]@)
        &&& forall|id: usize| #[trigger] self.nodes@.contains_key(id) ==> self.index@.contains_key(id)
        &&& closed(self.index@, self.nodes@.dom())
        &&& self.nodes@.dom().disjoint(self.visiting@)
        &&& forall|id: usize| #[trigger]
            self.materials@.contains_key(id) ==> material_ids(self.materials@[id]@).subset_of(
                self.built(),
            )
        &&& forall|id: usize| #[trigger]
            self.nodes@.contains_key(id) ==> node_ids(self.nodes@[id]@).subset_of(self.built())
    }

    /// The identifiers of the objects built so far.
    pub closed spec fn built(&self) -> Set<usize> {
        self.textures@.dom().union(self.materials@.dom()).union(self.nodes@.dom())
    }

    /// Whether the object `id` has been built.
    pub fn is_built(&self, id: usize) -> (b: bool)
        ensures
            b == self.built().contains(id),
    {
        self.textures.contains_key(&id) || self.materials.contains_key(&id)
            || self.nodes.contains_key(&id)
    }

    /// Whether `self` is a later state of the load that `before` is a state
    /// of, with the same nodes being built.
    pub closed spec fn follows(&self, before: &Loader<'a>) -> bool {
        &&& self.records == before.records
        &&& self.index@ == before.index@
        &&& self.places@ == before.places@
        &&& self.visiting@ == before.visiting@
        &&& before.nodes@.dom().subset_of(self.nodes@.dom())
    }

    /// Whether the same nodes have been built as in `before`.
    pub closed spec fn same_nodes(&self, before: &Loader<'a>) -> bool {
        self.nodes@ == before.nodes@
    }

    /// Whether the node `id` has been built.
    pub closed spec fn has_node(&self, id: usize) -> bool {
        self.nodes@.contains_key(id)
    }

    /// A load of the given records, with nothing built yet.
    pub fn new(records: &'a Vec<RayTracingObject>) -> (r: Result<Loader<'a>, SceneError>)
        ensures
            match index_of(records_view(records@)) {
                Ok(index) => r matches Ok(l) && l.wf() && l.index() == index && l.visiting()
                    == Set::<usize>::empty() && l.records() == records_view(records@) && l.built()
                    == Set::<usize>::empty(),
                Err(e) => r matches Err(f) && f == e,
            },
    {
        let mut places: HashMap<usize, (usize, usize)> = HashMap::new();
        let ghost all = records_view(records@);
        let ghost mut index: Index = Map::empty();
        let mut i: usize = 0;
        while i < records.len()
            invariant
                i <= records.len(),
                all == records_view(records@),
                index_of_first(all, i as nat) == Ok::<Index, SceneError>(index),
                index.dom().finite(),
                places@.dom() == index.dom(),
                forall|id: usize| #[trigger]
                    places@.contains_key(id) ==> {
                        let p = places@[id];
                        &&& p.0 < records@.len()
                        &&& p.1 < records@[p.0 as int]@.ids().len()
                        &&& records@[p.0 as int]@.ids()[p.1 as int] == id
                        &&& records@[p.0 as int]@.entry(p.1 as int) == Some(index[id])
                    },
            decreases records.len() - i,
        {
            let record = &records[i];
            let ids = record.id();
            let n = ids.len();
            let ghost before = index;
            let mut k: usize = 0;
            while k < n
                invariant
                    i < records.len(),
                    record == &records@[i as int],
                    all == records_view(records@),
                    ids@ == record@.id(),
                    n == record@.ids().len(),
                    k <= n,
                    index_of_first(all, i as nat) == Ok::<Index, SceneError>(before),
                    with_record(before, record@, k as nat) == Ok::<Index, SceneError>(index),
                    index.dom().finite(),
                    places@.dom() == index.dom(),
                    forall|id: usize| #[trigger]
                        places@.contains_key(id) ==> {
                            let p = places@[id];
                            &&& p.0 < records@.len()
                            &&& p.1 < records@[p.0 as int]@.ids().len()
                            &&& records@[p.0 as int]@.ids()[p.1 as int] == id
                            &&& records@[p.0 as int]@.entry(p.1 as int) == Some(index[id])
                        },
                decreases n - k,
            {
                let id = match ids.get_id(k) {
                    Some(id) => id,
                    None => {
                        return Err(SceneError::MalformedRecord { reason: Malformation::Shape });
                    },
                };
                let duplicate = places.contains_key(&id);
                let described = describes(record, k);
                if duplicate || !described {
                    proof {
                        assert(with_record(before, record@, (k + 1) as nat) is Err);
                        lemma_with_record_error_stays(before, record@, (k + 1) as nat, n as nat);
                        assert(all[i as int] == record@);
                        assert(index_of_first(all, (i + 1) as nat) is Err);
                        lemma_index_error_stays(all, (i + 1) as nat, all.len());
                    }
                    if duplicate {
                        return Err(
                            SceneError::MalformedRecord {
                                reason: Malformation::DuplicateId { id },
                            },
                        );
                    }
                    return Err(
                        SceneError::MalformedRecord {
                            reason: Malformation::ShortReferenceList { id },
                        },
                    );
                }
                places.insert(id, (i, k));
                proof {
                    index = index.insert(id, record@.entry(k as int)->Some_0);
                }
                k = k + 1;
            }
            proof {
                assert(all[i as int] == record@);
            }
            i = i + 1;
        }
        let loader = Loader {
            records,
            index: Ghost(index),
            places,
            textures: HashMap::new(),
            materials: HashMap::new(),
            nodes: HashMap::new(),
            visiting: HashSet::new(),
        };
        assert(loader.built() =~= Set::<usize>::empty());
        Ok(loader)
    }

    /// The first identifier declared by the records that is neither that of
    /// an object built nor one of the three given.
    pub fn first_unreferenced(&self, a: usize, b: usize, c: usize) -> (r: Option<usize>)
        ensures
            r == unreferenced_of_first(
                self.records(),
                self.records().len(),
                self.built().insert(a).insert(b).insert(c),
            ),
    {
        let records = self.records;
        let ghost all = records_view(records@);
        let ghost used = self.built().insert(a).insert(b).insert(c);
        let mut i: usize = 0;
        while i < records.len()
            invariant
                i <= records.len(),
                records == self.records,
                all == records_view(records@),
                used == self.built().insert(a).insert(b).insert(c),
                unreferenced_of_first(all, i as nat, used) is None,
            decreases records.len() - i,
        {
            let ids = records[i].id();
            let n = ids.len();
            let mut k: usize = 0;
            while k < n
                invariant
                    i < records.len(),
                    records == self.records,
                    all == records_view(records@),
                    used == self.built().insert(a).insert(b).insert(c),
                    ids@ == all[i as int].id(),
                    n == all[i as int].ids().len(),
                    k <= n,
                    unreferenced_of_first(all, i as nat, used) is None,
                    unreferenced_in(all[i as int], k as nat, used) is None,
                decreases n - k,
            {
                match ids.get_id(k) {
                    Some(id) => {
                        if !(self.is_built(id) || id == a || id == b || id == c) {
                            proof {
                                assert(unreferenced_in(all[i as int], (k + 1) as nat, used) == Some(
                                    id,
                                ));
                                lemma_unreferenced_in_stays(
                                    all[i as int],
                                    (k + 1) as nat,
                                    n as nat,
                                    used,
                                );
                                assert(unreferenced_of_first(all, (i + 1) as nat, used) == Some(
                                    id,
                                ));
                                lemma_unreferenced_stays(all, (i + 1) as nat, all.len(), used);
                            }
                            return Some(id);
                        }
                    },
                    None => {},
                }
                k = k + 1;
            }
            i = i + 1;
        }
        None
    }

    /// Whether `self` differs from `before` in nothing but one more
    /// texture built.
    spec fn with_texture(&self, before: &Loader<'a>, id: usize, texture: Arc<Texture>) -> bool {
        &&& self.records == before.records
        &&& self.index@ == before.index@
        &&& self.places@ == before.places@
        &&& self.visiting@ == before.visiting@
        &&& self.nodes@ == before.nodes@
        &&& self.materials@ == before.materials@
        &&& self.textures@ == before.textures@.insert(id, texture)
    }

    /// Whether `self` differs from `before` in nothing but one more
    /// material built.
    spec fn with_material(&self, before: &Loader<'a>, id: usize, material: Arc<Material>) -> bool {
        &&& self.records == before.records
        &&& self.index@ == before.index@
        &&& self.places@ == before.places@
        &&& self.visiting@ == before.visiting@
        &&& self.nodes@ == before.nodes@
        &&& self.textures@ == before.textures@
        &&& self.materials@ == before.materials@.insert(id, material)
    }

    /// Whether `self` differs from `before` in nothing but one more node
    /// built.
    spec fn with_node(&self, before: &Loader<'a>, id: usize, node: Arc<Node>) -> bool {
        &&& self.records == before.records
        &&& self.index@ == before.index@
        &&& self.places@ == before.places@
        &&& self.visiting@ == before.visiting@
        &&& self.textures@ == before.textures@
        &&& self.materials@ == before.materials@
        &&& self.nodes@ == before.nodes@.insert(id, node)
    }

    /// Whether `self` differs from `before` in nothing but the nodes that
    /// are being built.
    spec fn visiting_instead(&self, before: &Loader<'a>, visiting: Set<usize>) -> bool {
        &&& self.records == before.records
        &&& self.index@ == before.index@
        &&& self.places@ == before.places@
        &&& self.textures@ == before.textures@
        &&& self.materials@ == before.materials@
        &&& self.nodes@ == before.nodes@
        &&& self.visiting@ == visiting
    }

    /// A texture that its identifier unfolds to can be kept.
    proof fn lemma_texture_kept(&self, before: &Loader<'a>, id: usize, texture: Arc<Texture>)
        requires
            before.wf(),
            self.with_texture(before, id, texture),
            texture_of(before.index@, id, None) == Ok::<Texture, SceneError>(*texture),
        ensures
            self.wf(),
            self.follows(before),
            self.built() == before.built().insert(id),
    {
        assert(self.built() =~= before.built().insert(id));
        assert forall|x: usize| #[trigger] self.materials@.contains_key(x) implies material_ids(
            self.materials@[x]@,
        ).subset_of(self.built()) by {
            assert(material_ids(before.materials@[x]@).subset_of(before.built()));
        }
        assert forall|x: usize| #[trigger] self.nodes@.contains_key(x) implies node_ids(
            self.nodes@[x]@,
        ).subset_of(self.built()) by {
            assert(node_ids(before.nodes@[x]@).subset_of(before.built()));
        }
    }

    /// A material that its identifier unfolds to can be kept, once what
    /// it owns is built.
    proof fn lemma_material_kept(&self, before: &Loader<'a>, id: usize, material: Arc<Material>)
        requires
            before.wf(),
            self.with_material(before, id, material),
            material_of(before.index@, id, None) == Ok::<MaterialView, SceneError>(
                material@,
            ),
            material_ids(material@).subset_of(before.built().insert(id)),
        ensures
            self.wf(),
            self.follows(before),
            self.built() == before.built().insert(id),
    {
        assert(self.built() =~= before.built().insert(id));
        assert forall|x: usize| #[trigger] self.materials@.contains_key(x) implies material_ids(
            self.materials@[x]@,
        ).subset_of(self.built()) by {
            if x != id {
                assert(material_ids(before.materials@[x]@).subset_of(before.built()));
            }
        }
        assert forall|x: usize| #[trigger] self.nodes@.contains_key(x) implies node_ids(
            self.nodes@[x]@,
        ).subset_of(self.built()) by {
            assert(node_ids(before.nodes@[x]@).subset_of(before.built()));
        }
    }

    /// A node that its identifier unfolds to can be kept, once what it owns
    /// is built.
    proof fn lemma_node_kept(
        &self,
        before: &Loader<'a>,
        id: usize,
        node: Arc<Node>,
        by: Option<usize>,
    )
        requires
            before.wf(),
            self.with_node(before, id, node),
            before.index@.contains_key(id),
            !before.visiting@.contains(id),
            node_of(before.index@, id, by, before.visiting@) == Ok::<NodeView, SceneError>(node@),
            forall|j: int|
                0 <= j < before.index@[id].nodes().len() ==> before.nodes@.contains_key(
                    #[trigger] before.index@[id].nodes()[j],
                ),
            node_ids(node@).subset_of(before.built().insert(id)),
        ensures
            self.wf(),
            self.follows(before),
            self.built() == before.built().insert(id),
    {
        let index = before.index@;
        lemma_node_transfer(index, id, by, before.visiting@, None, Set::empty(), Set::full());
        assert(self.built() =~= before.built().insert(id));
        assert(closed(index, self.nodes@.dom())) by {
            assert forall|x: usize, j: int|
                self.nodes@.dom().contains(x) && index.contains_key(x) && 0 <= j
                    < index[x].nodes().len() implies self.nodes@.dom().contains(
                #[trigger] index[x].nodes()[j],
            ) by {
                if x != id {
                    assert(before.nodes@.dom().contains(index[x].nodes()[j]));
                }
            }
        }
        assert forall|x: usize| #[trigger] self.materials@.contains_key(x) implies material_ids(
            self.materials@[x]@,
        ).subset_of(self.built()) by {
            assert(material_ids(before.materials@[x]@).subset_of(before.built()));
        }
        assert forall|x: usize| #[trigger] self.nodes@.contains_key(x) implies node_ids(
            self.nodes@[x]@,
        ).subset_of(self.built()) by {
            if x != id {
                assert(node_ids(before.nodes@[x]@).subset_of(before.built()));
            }
        }
    }

    /// Another set of nodes being built, none of them built, leaves the
    /// state sound.
    proof fn lemma_visiting_instead(&self, before: &Loader<'a>, visiting: Set<usize>)
        requires
            before.wf(),
            self.visiting_instead(before, visiting),
            before.nodes@.dom().disjoint(visiting),
        ensures
            self.wf(),
            self.built() == before.built(),
    {
        assert(self.built() =~= before.built());
    }

    /// The texture `id`, referred to by `by`: the one built before, or one
    /// built now.
    pub fn texture(&mut self, id: usize, by: Option<usize>) -> (r: Result<Arc<Texture>, SceneError>)
        requires
            old(self).wf(),
        ensures
            match texture_of(old(self).index(), id, by) {
                Ok(t) => r matches Ok(a) && *a == t && final(self).wf() && final(self).follows(
                    old(self),
                ) && final(self).built() == old(self).built().insert(id) && final(self).same_nodes(
                    old(self),
                ),
                Err(e) => r matches Err(f) && f == e,
            },
    {
        match self.textures.get(&id) {
            Some(t) => {
                assert(self.built() =~= self.built().insert(id));
                return Ok(t.clone());
            },
            None => {},
        }
        let place = match self.places.get(&id) {
            Some(p) => *p,
            None => {
                return Err(SceneError::UnresolvedReference { id, referenced_by: by });
            },
        };
        let records = self.records;
        let record = &records[place.0];
        proof {
            lemma_entry_kind(record@, place.1 as int);
        }
        let texture = match record {
            RayTracingObject::ConstantTexture(rec) => match rec.to_texture(place.1) {
                Ok(t) => Arc::new(Texture::Constant(t)),
                Err(e) => {
                    return Err(e);
                },
            },
            other => {
                return Err(
                    SceneError::TypeMismatch { id, expected: Role::Texture, actual: other.kind() },
                );
            },
        };
        let ghost before = *self;
        self.textures.insert(id, texture.clone());
        proof {
            self.lemma_texture_kept(&before, id, texture);
        }
        Ok(texture)
    }

    /// The material `id`, referred to by `by`: the one built before, or one
    /// built now from its texture.
    pub fn material(&mut self, id: usize, by: Option<usize>) -> (r: Result<Arc<Material>, SceneError>)
        requires
            old(self).wf(),
        ensures
            match material_of(old(self).index(), id, by) {
                Ok(m) => r matches Ok(a) && a@ == m && final(self).wf() && final(self).follows(
                    old(self),
                ) && final(self).built() == old(self).built().union(material_ids(m))
                    && final(self).same_nodes(old(self)),
                Err(e) => r matches Err(f) && f == e,
            },
    {
        match self.materials.get(&id) {
            Some(m) => {
                assert(material_ids(m@).subset_of(self.built()));
                assert(self.built() =~= self.built().union(material_ids(m@)));
                return Ok(m.clone());
            },
            None => {},
        }
        let place = match self.places.get(&id) {
            Some(p) => *p,
            None => {
                return Err(SceneError::UnresolvedReference { id, referenced_by: by });
            },
        };
        let records = self.records;
        let record = &records[place.0];
        proof {
            lemma_entry_kind(record@, place.1 as int);
        }
        let material = match record {
            RayTracingObject::NoMaterial(rec) => match rec.to_material(place.1) {
                Ok(m) => Arc::new(Material::NoMaterial(m)),
                Err(e) => {
                    return Err(e);
                },
            },
            RayTracingObject::Lambertian(rec) => {
                let albedo_id = match rec.albedo.get_id(place.1) {
                    Some(a) => a,
                    None => {
                        return Err(SceneError::MalformedRecord { reason: Malformation::Shape });
                    },
                };
                let albedo = match self.texture(albedo_id, Some(id)) {
                    Ok(t) => t,
                    Err(e) => {
                        return Err(e);
                    },
                };
                match rec.to_material(place.1, albedo) {
                    Ok(m) => Arc::new(Material::Lambertian(m)),
                    Err(e) => {
                        return Err(e);
                    },
                }
            },
            other => {
                return Err(
                    SceneError::TypeMismatch { id, expected: Role::Material, actual: other.kind() },
                );
            },
        };
        let ghost before = *self;
        self.materials.insert(id, material.clone());
        proof {
            self.lemma_material_kept(&before, id, material);
            assert(self.built() =~= old(self).built().union(material_ids(material@)));
        }
        Ok(material)
    }

    /// Marks the node `id` as being built.
    fn enter(&mut self, id: usize)
        requires
            old(self).wf(),
            !old(self).nodes@.contains_key(id),
        ensures
            final(self).wf(),
            final(self).visiting_instead(old(self), old(self).visiting@.insert(id)),
            final(self).built() == old(self).built(),
    {
        let ghost before = *self;
        self.visiting.insert(id);
        proof {
            self.lemma_visiting_instead(&before, before.visiting@.insert(id));
        }
    }

    /// Marks the node `id` as no longer being built.
    fn leave(&mut self, id: usize)
        requires
            old(self).wf(),
        ensures
            final(self).wf(),
            final(self).visiting_instead(old(self), old(self).visiting@.remove(id)),
            final(self).built() == old(self).built(),
    {
        let ghost before = *self;
        self.visiting.remove(&id);
        proof {
            self.lemma_visiting_instead(&before, before.visiting@.remove(id));
        }
    }

    /// The node `id`, referred to by `by`: the one built before, or one
    /// built now from the objects it owns. A node that is being built
    /// cannot be had: it would own itself.
    pub fn node(&mut self, id: usize, by: Option<usize>) -> (r: Result<Arc<Node>, SceneError>)
        requires
            old(self).wf(),
        ensures
            match node_of(old(self).index(), id, by, old(self).visiting()) {
                Ok(n) => r matches Ok(a) && a@ == n && final(self).wf() && final(self).follows(
                    old(self),
                ) && final(self).has_node(id) && final(self).built() == old(self).built().union(
                    node_ids(n),
                ) && final(self).records() == old(self).records(),
                Err(e) => r matches Err(f) && f == e,
            },
        decreases old(self).index().dom().difference(old(self).visiting()).len(), 1nat,
    {
        let ghost index = self.index@;
        let ghost visiting = self.visiting@;
        match self.nodes.get(&id) {
            Some(n) => {
                proof {
                    lemma_node_transfer(
                        index,
                        id,
                        None,
                        Set::empty(),
                        by,
                        visiting,
                        self.nodes@.dom(),
                    );
                    assert(node_ids(n@).subset_of(self.built()));
                    assert(self.built() =~= self.built().union(node_ids(n@)));
                }
                return Ok(n.clone());
            },
            None => {},
        }
        if self.visiting.contains(&id) {
            return Err(SceneError::CyclicReference { id });
        }
        let place = match self.places.get(&id) {
            Some(p) => *p,
            None => {
                return Err(SceneError::UnresolvedReference { id, referenced_by: by });
            },
        };
        let node = match self.fresh(id, place) {
            Ok(n) => n,
            Err(e) => {
                return Err(e);
            },
        };
        let ghost before = *self;
        self.nodes.insert(id, node.clone());
        proof {
            assert(node_ids(node@).subset_of(before.built().insert(id))) by {
                assert(before.built().insert(id) =~= old(self).built().union(node_ids(node@)));
            }
            self.lemma_node_kept(&before, id, node, by);
            assert(self.built() =~= old(self).built().union(node_ids(node@)));
        }
        Ok(node)
    }

    /// The node `id`, declared at `place`, built now from the objects it
    /// owns, and not kept yet.
    fn fresh(&mut self, id: usize, place: (usize, usize)) -> (r: Result<Arc<Node>, SceneError>)
        requires
            old(self).wf(),
            old(self).places@.contains_key(id),
            old(self).places@[id] == place,
            !old(self).nodes@.contains_key(id),
            !old(self).visiting@.contains(id),
        ensures
            match node_of(old(self).index(), id, None, old(self).visiting()) {
                Ok(n) => {
                    &&& r matches Ok(a) && a@ == n
                    &&& final(self).wf()
                    &&& final(self).follows(old(self))
                    &&& !final(self).nodes@.contains_key(id)
                    &&& forall|j: int|
                        0 <= j < old(self).index@[id].nodes().len() ==> final(self).has_node(
                            #[trigger] old(self).index@[id].nodes()[j],
                        )
                    &&& final(self).built().insert(id) == old(self).built().union(node_ids(n))
                },
                Err(e) => r matches Err(f) && f == e,
            },
        decreases old(self).index().dom().difference(old(self).visiting()).len(), 0nat,
    {
        let ghost index = self.index@;
        let ghost visiting = self.visiting@;
        let records = self.records;
        let record = &records[place.0];
        proof {
            lemma_entry_kind(record@, place.1 as int);
            lemma_visit_shrinks(index, visiting, id);
        }
        match record {
            RayTracingObject::Sphere(rec) => {
                let material_id = match rec.material.get_id(place.1) {
                    Some(m) => m,
                    None => {
                        return Err(SceneError::MalformedRecord { reason: Malformation::Shape });
                    },
                };
                let material = match self.material(material_id, Some(id)) {
                    Ok(m) => m,
                    Err(e) => {
                        return Err(e);
                    },
                };
                match rec.to_hit_able(place.1, material) {
                    Ok(s) => {
                        let node = Arc::new(Node::Sphere(s));
                        assert(self.built().insert(id) =~= old(self).built().union(
                            node_ids(node@),
                        ));
                        Ok(node)
                    },
                    Err(e) => Err(e),
                }
            },
            RayTracingObject::Cuboid(rec) => {
                let material_id = match rec.material.get_id(place.1) {
                    Some(m) => m,
                    None => {
                        return Err(SceneError::MalformedRecord { reason: Malformation::Shape });
                    },
                };
                let material = match self.material(material_id, Some(id)) {
                    Ok(m) => m,
                    Err(e) => {
                        return Err(e);
                    },
                };
                match rec.to_hit_able(place.1, material) {
                    Ok(c) => {
                        let node = Arc::new(Node::Cuboid(c));
                        assert(self.built().insert(id) =~= old(self).built().union(
                            node_ids(node@),
                        ));
                        Ok(node)
                    },
                    Err(e) => Err(e),
                }
            },
            RayTracingObject::Collection(rec) => {
                self.enter(id);
                let members = match self.members(&rec.object_id_list, id) {
                    Ok(l) => l,
                    Err(e) => {
                        return Err(e);
                    },
                };
                assert(!self.nodes@.contains_key(id));
                self.leave(id);
                assert(self.visiting@ =~= visiting);
                match rec.to_hit_able(place.1, members) {
                    Ok(c) => {
                        let node = Arc::new(Node::Collection(c));
                        proof {
                            let l = nodes_of(
                                index,
                                rec.object_id_list@,
                                rec.object_id_list@.len(),
                                id,
                                visiting.insert(id),
                            )->Ok_0;
                            assert(node@->object_list =~= l);
                            lemma_member_ids(id, l, l.len());
                            assert(self.built().insert(id) =~= old(self).built().union(
                                node_ids(node@),
                            ));
                            assert forall|j: int|
                                0 <= j < index[id].nodes().len() implies self.has_node(
                                #[trigger] index[id].nodes()[j],
                            ) by {
                                assert(index[id].nodes()[j] == rec.object_id_list@[j]);
                            }
                        }
                        Ok(node)
                    },
                    Err(e) => Err(e),
                }
            },
            RayTracingObject::RotateX(rec) => {
                let child_id = match rec.node.get_id(place.1) {
                    Some(c) => c,
                    None => {
                        return Err(SceneError::MalformedRecord { reason: Malformation::Shape });
                    },
                };
                self.enter(id);
                let child = match self.node(child_id, Some(id)) {
                    Ok(c) => c,
                    Err(e) => {
                        return Err(e);
                    },
                };
                assert(!self.nodes@.contains_key(id));
                self.leave(id);
                assert(self.visiting@ =~= visiting);
                match rec.to_hit_able(place.1, child) {
                    Ok(r) => {
                        let node = Arc::new(Node::RotateX(r));
                        assert(self.built().insert(id) =~= old(self).built().union(
                            node_ids(node@),
                        ));
                        Ok(node)
                    },
                    Err(e) => Err(e),
                }
            },
            RayTracingObject::FlipNormals(rec) => {
                let child_id = match rec.node.get_id(place.1) {
                    Some(c) => c,
                    None => {
                        return Err(SceneError::MalformedRecord { reason: Malformation::Shape });
                    },
                };
                self.enter(id);
                let child = match self.node(child_id, Some(id)) {
                    Ok(c) => c,
                    Err(e) => {
                        return Err(e);
                    },
                };
                assert(!self.nodes@.contains_key(id));
                self.leave(id);
                assert(self.visiting@ =~= visiting);
                match rec.to_hit_able(place.1, child) {
                    Ok(f) => {
                        let node = Arc::new(Node::FlipNormals(f));
                        assert(self.built().insert(id) =~= old(self).built().union(
                            node_ids(node@),
                        ));
                        Ok(node)
                    },
                    Err(e) => Err(e),
                }
            },
            other => Err(
                SceneError::TypeMismatch { id, expected: Role::Node, actual: other.kind() },
            ),
        }
    }

    /// The configuration `id`, an entry point.
    pub fn configuration(&self, id: usize) -> (r: Result<scene::Configuration, SceneError>)
        requires
            self.wf(),
        ensures
            r == configuration_of(self.index(), id),
    {
        let place = match self.places.get(&id) {
            Some(p) => *p,
            None => {
                return Err(SceneError::UnresolvedReference { id, referenced_by: None });
            },
        };
        let records = self.records;
        let record = &records[place.0];
        proof {
            lemma_entry_kind(record@, place.1 as int);
        }
        match record {
            RayTracingObject::Configuration(rec) => rec.to_configuration(place.1),
            other => Err(
                SceneError::TypeMismatch { id, expected: Role::Configuration, actual: other.kind() },
            ),
        }
    }

    /// The camera `id`, an entry point.
    pub fn camera(&self, id: usize) -> (r: Result<scene::Camera, SceneError>)
        requires
            self.wf(),
        ensures
            r == camera_of(self.index(), id),
    {
        let place = match self.places.get(&id) {
            Some(p) => *p,
            None => {
                return Err(SceneError::UnresolvedReference { id, referenced_by: None });
            },
        };
        let records = self.records;
        let record = &records[place.0];
        proof {
            lemma_entry_kind(record@, place.1 as int);
        }
        match record {
            RayTracingObject::Camera(rec) => rec.to_camera(place.1),
            other => Err(
                SceneError::TypeMismatch { id, expected: Role::Camera, actual: other.kind() },
            ),
        }
    }

    /// The sky `id`, an entry point.
    pub fn sky(&self, id: usize) -> (r: Result<scene::Sky, SceneError>)
        requires
            self.wf(),
        ensures
            r == sky_of(self.index(), id),
    {
        let place = match self.places.get(&id) {
            Some(p) => *p,
            None => {
                return Err(SceneError::UnresolvedReference { id, referenced_by: None });
            },
        };
        let records = self.records;
        let record = &records[place.0];
        proof {
            lemma_entry_kind(record@, place.1 as int);
        }
        match record {
            RayTracingObject::Sky(rec) => rec.to_sky(place.1),
            other => Err(SceneError::TypeMismatch { id, expected: Role::Sky, actual: other.kind() }),
        }
    }

    /// The nodes `ids`, in order, all referred to by `by`.
    pub fn members(&mut self, ids: &Vec<usize>, by: usize) -> (r: Result<Vec<Arc<Node>>, SceneError>)
        requires
            old(self).wf(),
        ensures
            match nodes_of(old(self).index(), ids@, ids@.len(), by, old(self).visiting()) {
                Ok(l) => r matches Ok(v) && v@.len() == l.len() && (forall|j: int|
                    0 <= j < l.len() ==> (#[trigger] v@[j])@ == l[j]) && final(self).wf()
                    && final(self).follows(old(self)) && (forall|j: int|
                    0 <= j < ids@.len() ==> final(self).has_node(#[trigger] ids@[j]))
                    && final(self).built() == old(self).built().union(list_ids(l, l.len())),
                Err(e) => r matches Err(f) && f == e,
            },
        decreases old(self).index().dom().difference(old(self).visiting()).len(), 2nat,
    {
        let ghost index = self.index@;
        let ghost visiting = self.visiting@;
        let ghost start = *self;
        let mut members: Vec<Arc<Node>> = Vec::new();
        let mut j: usize = 0;
        assert(self.built() =~= start.built().union(
            list_ids(nodes_of(index, ids@, 0, by, visiting)->Ok_0, 0),
        ));
        while j < ids.len()
            invariant
                j <= ids.len(),
                self.wf(),
                self.follows(&start),
                start == *old(self),
                index == start.index@,
                visiting == start.visiting@,
                index.dom().finite(),
                nodes_of(index, ids@, j as nat, by, visiting) is Ok,
                members@.len() == j,
                forall|t: int|
                    0 <= t < j ==> (#[trigger] members@[t])@ == nodes_of(
                        index,
                        ids@,
                        j as nat,
                        by,
                        visiting,
                    )->Ok_0[t],
                nodes_of(index, ids@, j as nat, by, visiting)->Ok_0.len() == j,
                forall|t: int| 0 <= t < j ==> self.has_node(#[trigger] ids@[t]),
                self.built() == start.built().union(
                    list_ids(nodes_of(index, ids@, j as nat, by, visiting)->Ok_0, j as nat),
                ),
            decreases ids.len() - j,
        {
            let ghost so_far = nodes_of(index, ids@, j as nat, by, visiting);
            let ghost before = *self;
            let member = match self.node(ids[j], Some(by)) {
                Ok(n) => n,
                Err(e) => {
                    proof {
                        assert(nodes_of(index, ids@, (j + 1) as nat, by, visiting) is Err);
                        lemma_nodes_error_stays(index, ids@, (j + 1) as nat, ids@.len(), by, visiting);
                    }
                    return Err(e);
                },
            };
            members.push(member);
            proof {
                let next = nodes_of(index, ids@, (j + 1) as nat, by, visiting)->Ok_0;
                assert(next == so_far->Ok_0.push(member@));
                assert(list_ids(next, (j + 1) as nat) == list_ids(next, j as nat).union(
                    node_ids(member@),
                ));
                lemma_list_ids_prefix(so_far->Ok_0, next, j as nat);
                assert(self.built() =~= start.built().union(list_ids(next, (j + 1) as nat)));
            }
            j = j + 1;
        }
        Ok(members)
    }
}

/// The identifiers of the first nodes of a list are those of the first
/// nodes of any list that begins alike.
proof fn lemma_list_ids_prefix(a: Seq<NodeView>, b: Seq<NodeView>, k: nat)
    requires
        k <= a.len() <= b.len(),
        forall|j: int| 0 <= j < k ==> a[j] == b[j],
    ensures
        list_ids(a, k) == list_ids(b, k),
    decreases k,
{
    if k > 0 {
        lemma_list_ids_prefix(a, b, (k - 1) as nat);
    }
}

/// An error met in the middle of a list of nodes ends the unfolding of the
/// list.
proof fn lemma_nodes_error_stays(
    index: Index,
    ids: Seq<usize>,
    k: nat,
    n: nat,
    by: usize,
    visiting: Set<usize>,
)
    requires
        index.dom().finite(),
        k <= n,
        nodes_of(index, ids, k, by, visiting) is Err,
    ensures
        nodes_of(index, ids, n, by, visiting) == nodes_of(index, ids, k, by, visiting),
    decreases n,
{
    if k < n {
        lemma_nodes_error_stays(index, ids, k, (n - 1) as nat, by, visiting);
    }
}

} // verus!
