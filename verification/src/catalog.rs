use vstd::prelude::*;

verus! {

/// One catalog record: a relational row type's identifier and its
/// human-readable type name.
#[derive(Debug)]
pub struct TypeEntry {
    pub type_id: u32,
    pub name: String,
}

/// A snapshot of the external type catalog, handed in by the caller: the
/// mapping from type identifier to type name. The catalog must be consistent
/// for the lifetime of a type identifier.
#[derive(Debug)]
pub struct Catalog {
    pub entries: Vec<TypeEntry>,
}

impl Catalog {
    /// At most one record per type identifier.
    pub open spec fn wf(self) -> bool {
        forall|i: int, j: int|
            0 <= i < j < self.entries@.len() ==> self.entries@[i].type_id
                != self.entries@[j].type_id
    }

    /// Whether the catalog holds a record of the type identifier.
    pub open spec fn contains_type(self, id: u32) -> bool {
        exists|i: int| 0 <= i < self.entries@.len() && self.entries@[i].type_id == id
    }

    pub fn new() -> (r: Catalog)
        ensures
            r.wf(),
            forall|id: u32| !r.contains_type(id),
    {
        Catalog { entries: Vec::new() }
    }

    /// Resolves the human-readable name of a row type. Returns the recorded
    /// name, or nothing when the catalog has no record of the identifier —
    /// the condition the decision pipeline reports as `UnknownType`.
    pub fn resolve_name(&self, id: u32) -> (r: Option<String>)
        requires
            self.wf(),
        ensures
            (r is Some) == self.contains_type(id),
            match r {
                Some(n) => forall|i: int|
                    0 <= i < self.entries@.len() && self.entries@[i].type_id == id ==> n@
                        == self.entries@[i].name@,
                None => !self.contains_type(id),
            },
    {
        let mut i: usize = 0;
        while i < self.entries.len()
            invariant
                i <= self.entries@.len(),
                forall|j: int| 0 <= j < i ==> self.entries@[j].type_id != id,
                self.wf(),
            decreases self.entries@.len() - i,
        {
            if self.entries[i].type_id == id {
                return Some(self.entries[i].name.clone());
            }
            i = i + 1;
        }
        None
    }
}

} // verus!
