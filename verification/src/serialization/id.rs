//! Identifiers in records: the ones a record declares and the ones it
//! refers to.

use vstd::prelude::*;

verus! {

/// The identifiers that a record declares: one object for each.
#[derive(Clone, Debug, PartialEq, Eq)]
pub enum IdConstructor {
    Single(usize),
    List(Vec<usize>),
}

/// The identifiers of the objects that a record refers to in one part.
/// A single identifier serves every object that the record declares; a
/// list holds one for each of them, in the order of their declaration.
#[derive(Clone, Debug, PartialEq, Eq)]
pub enum IdReference {
    Single(usize),
    List(Vec<usize>),
}

/// What an identifier field holds.
pub enum Ids {
    Single(usize),
    List(Seq<usize>),
}

impl Ids {
    /// The identifiers declared, in order.
    pub open spec fn declared(self) -> Seq<usize> {
        match self {
            Ids::Single(id) => seq![id],
            Ids::List(l) => l,
        }
    }

    /// The identifier referred to by the object of the given index.
    pub open spec fn target(self, index: int) -> Option<usize> {
        match self {
            Ids::Single(id) => Some(id),
            Ids::List(l) => if 0 <= index < l.len() {
                Some(l[index])
            } else {
                None
            },
        }
    }
}

impl View for IdConstructor {
    type V = Ids;

    open spec fn view(&self) -> Ids {
        match self {
            IdConstructor::Single(id) => Ids::Single(*id),
            IdConstructor::List(l) => Ids::List(l@),
        }
    }
}

impl View for IdReference {
    type V = Ids;

    open spec fn view(&self) -> Ids {
        match self {
            IdReference::Single(id) => Ids::Single(*id),
            IdReference::List(l) => Ids::List(l@),
        }
    }
}

impl IdConstructor {
    /// Number of identifiers declared.
    pub fn len(&self) -> (n: usize)
        ensures
            n == self@.declared().len(),
    {
        match self {
            IdConstructor::Single(_) => 1,
            IdConstructor::List(l) => l.len(),
        }
    }

    /// The identifier of the given index, if that many are declared.
    pub fn get_id(&self, index: usize) -> (id: Option<usize>)
        ensures
            id == if index < self@.declared().len() {
                Some(self@.declared()[index as int])
            } else {
                None
            },
    {
        match self {
            IdConstructor::Single(id) => if index == 0 {
                Some(*id)
            } else {
                None
            },
            IdConstructor::List(l) => if index < l.len() {
                Some(l[index])
            } else {
                None
            },
        }
    }
}

impl IdReference {
    /// The identifier that the object of the given index refers to.
    pub fn get_id(&self, index: usize) -> (id: Option<usize>)
        ensures
            id == self@.target(index as int),
    {
        match self {
            IdReference::Single(id) => Some(*id),
            IdReference::List(l) => if index < l.len() {
                Some(l[index])
            } else {
                None
            },
        }
    }
}

} // verus!
