//! What identifies a stored entity: its partition and its path.

use vstd::prelude::*;

verus! {

/// The project and namespace that an entity is stored under.
#[derive(Debug)]
pub struct PartitionId {
    pub project_id: String,
    pub namespace_id: String,
}

/// A [`PartitionId`] with its texts taken as sequences of characters.
pub struct PartitionIdModel {
    pub project_id: Seq<char>,
    pub namespace_id: Seq<char>,
}

impl View for PartitionId {
    type V = PartitionIdModel;

    open spec fn view(&self) -> PartitionIdModel {
        PartitionIdModel { project_id: self.project_id@, namespace_id: self.namespace_id@ }
    }
}

impl Clone for PartitionId {
    fn clone(&self) -> (copy: PartitionId)
        ensures
            copy@ == self@,
    {
        PartitionId {
            project_id: self.project_id.clone(),
            namespace_id: self.namespace_id.clone(),
        }
    }
}

impl PartialEq for PartitionId {
    fn eq(&self, other: &PartitionId) -> (equal: bool) {
        self.project_id == other.project_id && self.namespace_id == other.namespace_id
    }
}

impl vstd::std_specs::cmp::PartialEqSpecImpl for PartitionId {
    open spec fn obeys_eq_spec() -> bool {
        true
    }

    open spec fn eq_spec(&self, other: &PartitionId) -> bool {
        self@ == other@
    }
}

/// One step of a key's path: a kind, and within it either a numeric
/// identifier or a name. Which of the two it is shows only in the field that
/// is present.
#[derive(Debug)]
pub enum PathElement {
    Id { kind: String, id: String },
    Name { kind: String, name: String },
}

/// A [`PathElement`] with its texts taken as sequences of characters.
pub enum PathElementModel {
    Id { kind: Seq<char>, id: Seq<char> },
    Name { kind: Seq<char>, name: Seq<char> },
}

impl View for PathElement {
    type V = PathElementModel;

    open spec fn view(&self) -> PathElementModel {
        match *self {
            PathElement::Id { kind, id } => PathElementModel::Id { kind: kind@, id: id@ },
            PathElement::Name { kind, name } => PathElementModel::Name {
                kind: kind@,
                name: name@,
            },
        }
    }
}

impl Clone for PathElement {
    fn clone(&self) -> (copy: PathElement)
        ensures
            copy@ == self@,
    {
        match self {
            PathElement::Id { kind, id } => PathElement::Id { kind: kind.clone(), id: id.clone() },
            PathElement::Name { kind, name } => PathElement::Name {
                kind: kind.clone(),
                name: name.clone(),
            },
        }
    }
}

impl PartialEq for PathElement {
    fn eq(&self, other: &PathElement) -> (equal: bool) {
        match (self, other) {
            (PathElement::Id { kind, id }, PathElement::Id { kind: other_kind, id: other_id }) => {
                *kind == *other_kind && *id == *other_id
            },
            (
                PathElement::Name { kind, name },
                PathElement::Name { kind: other_kind, name: other_name },
            ) => *kind == *other_kind && *name == *other_name,
            _ => false,
        }
    }
}

impl vstd::std_specs::cmp::PartialEqSpecImpl for PathElement {
    open spec fn obeys_eq_spec() -> bool {
        true
    }

    open spec fn eq_spec(&self, other: &PathElement) -> bool {
        self@ == other@
    }
}

/// The key of a stored entity: its partition, then the path to it, from the
/// outermost ancestor down to the entity itself.
#[derive(Debug)]
pub struct Key {
    pub partition_id: PartitionId,
    pub path: Vec<PathElement>,
}

/// A [`Key`] with its path taken as a sequence of element models.
pub struct KeyModel {
    pub partition_id: PartitionIdModel,
    pub path: Seq<PathElementModel>,
}

impl View for Key {
    type V = KeyModel;

    open spec fn view(&self) -> KeyModel {
        KeyModel {
            partition_id: self.partition_id@,
            path: self.path@.map_values(|element: PathElement| element@),
        }
    }
}

impl Clone for Key {
    fn clone(&self) -> (copy: Key)
        ensures
            copy@ == self@,
    {
        let mut path: Vec<PathElement> = Vec::new();
        let mut i: usize = 0;
        while i < self.path.len()
            invariant
                i <= self.path.len(),
                path.len() == i,
                forall|k: int| 0 <= k < i ==> path[k]@ == self.path[k]@,
            decreases self.path.len() - i,
        {
            path.push(self.path[i].clone());
            i = i + 1;
        }
        let copy = Key { partition_id: self.partition_id.clone(), path };
        assert(copy@.path =~= self@.path);
        copy
    }
}

impl PartialEq for Key {
    fn eq(&self, other: &Key) -> (equal: bool) {
        if self.partition_id != other.partition_id || self.path.len() != other.path.len() {
            assert(self@.path.len() == self.path.len());
            assert(other@.path.len() == other.path.len());
            return false;
        }
        let mut i: usize = 0;
        while i < self.path.len()
            invariant
                i <= self.path.len(),
                self.path.len() == other.path.len(),
                forall|k: int| 0 <= k < i ==> self.path[k]@ == other.path[k]@,
            decreases self.path.len() - i,
        {
            if self.path[i] != other.path[i] {
                assert(self@.path[i as int] == self.path[i as int]@);
                assert(other@.path[i as int] == other.path[i as int]@);
                return false;
            }
            i = i + 1;
        }
        assert(self@.path =~= other@.path);
        true
    }
}

impl vstd::std_specs::cmp::PartialEqSpecImpl for Key {
    open spec fn obeys_eq_spec() -> bool {
        true
    }

    open spec fn eq_spec(&self, other: &Key) -> bool {
        self@ == other@
    }
}

} // verus!
