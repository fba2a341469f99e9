use vstd::prelude::*;

verus! {

/// The policy-engine-facing description of one relational row type: the
/// type's identifier, the class name shown to policy rules, and the ordered
/// attribute names whose getters the class exposes. Built once per distinct
/// type identifier and immutable afterwards.
#[derive(Debug)]
pub struct ClassDescriptor {
    pub type_id: u32,
    pub class_name: String,
    pub attribute_names: Vec<String>,
}

/// Whether a descriptor sequence holds at most one descriptor per type
/// identifier.
pub open spec fn unique_type_ids(s: Seq<ClassDescriptor>) -> bool {
    forall|i: int, j: int| 0 <= i < j < s.len() ==> s[i].type_id != s[j].type_id
}

/// Whether a descriptor sequence holds the given type identifier.
pub open spec fn holds_type(s: Seq<ClassDescriptor>, id: u32) -> bool {
    exists|i: int| 0 <= i < s.len() && s[i].type_id == id
}

/// How many descriptors of a sequence carry the given type identifier.
pub open spec fn count_type(s: Seq<ClassDescriptor>, id: u32) -> nat
    decreases s.len(),
{
    if s.len() == 0 {
        0
    } else {
        count_type(s.drop_last(), id) + if s.last().type_id == id {
            1nat
        } else {
            0nat
        }
    }
}

/// The effect of one registration on the cached descriptors: a no-op when
/// the type is already present, otherwise the new descriptor is appended.
pub open spec fn spec_register(s: Seq<ClassDescriptor>, d: ClassDescriptor) -> Seq<
    ClassDescriptor,
> {
    if holds_type(s, d.type_id) {
        s
    } else {
        s.push(d)
    }
}

/// Process-wide cache from a relational type identifier to its class
/// descriptor. Descriptors are never mutated and never evicted.
#[derive(Debug)]
pub struct Registry {
    pub entries: Vec<ClassDescriptor>,
}

impl Registry {
    /// The registry never holds two descriptors for one type identifier.
    pub open spec fn wf(self) -> bool {
        unique_type_ids(self.entries@)
    }

    /// Whether a descriptor for the type identifier is cached.
    pub open spec fn contains_type(self, id: u32) -> bool {
        holds_type(self.entries@, id)
    }

    pub fn new() -> (r: Registry)
        ensures
            r.wf(),
            r.entries@.len() == 0,
            forall|id: u32| !r.contains_type(id),
    {
        Registry { entries: Vec::new() }
    }

    /// The read-only fast path: finds the cached descriptor's position for a
    /// type identifier, without any registration.
    pub fn find(&self, id: u32) -> (r: Option<usize>)
        ensures
            match r {
                Some(i) => i < self.entries@.len() && self.entries@[i as int].type_id == id,
                None => !self.contains_type(id),
            },
            (r is Some) == self.contains_type(id),
    {
        let mut i: usize = 0;
        while i < self.entries.len()
            invariant
                i <= self.entries@.len(),
                forall|j: int| 0 <= j < i ==> self.entries@[j].type_id != id,
            decreases self.entries@.len() - i,
        {
            if self.entries[i].type_id == id {
                return Some(i);
            }
            i = i + 1;
        }
        None
    }

    /// Registers a descriptor for an unseen type identifier, or returns with
    /// the cache unchanged when the identifier is already present. Returns
    /// whether the descriptor was newly registered, in which case the caller
    /// owes the oracle a rule reload before the next decision.
    pub fn get_or_register(&mut self, d: ClassDescriptor) -> (newly: bool)
        requires
            old(self).wf(),
        ensures
            final(self).wf(),
            newly == !old(self).contains_type(d.type_id),
            final(self).entries@ == spec_register(old(self).entries@, d),
            final(self).contains_type(d.type_id),
            forall|t: u32|
                final(self).contains_type(t) == (old(self).contains_type(t) || t == d.type_id),
    {
        let ghost pre = self.entries@;
        let hit = self.find(d.type_id);
        match hit {
            Some(_) => {
                proof {
                    assert(self.contains_type(d.type_id));
                }
                false
            },
            None => {
                let ghost id = d.type_id;
                self.entries.push(d);
                proof {
                    assert(self.entries@[pre.len() as int].type_id == id);
                    assert forall|t: u32|
                        self.contains_type(t) == (holds_type(pre, t) || t == id) by {
                        if holds_type(pre, t) {
                            let j = choose|j: int| 0 <= j < pre.len() && pre[j].type_id == t;
                            assert(self.entries@[j].type_id == t);
                        }
                        if self.contains_type(t) {
                            let j = choose|j: int|
                                0 <= j < self.entries@.len() && self.entries@[j].type_id == t;
                            if j < pre.len() {
                                assert(pre[j].type_id == t);
                            }
                        }
                    }
                }
                true
            },
        }
    }
}

/// Law: registering one type identifier from two callers leaves exactly one
/// descriptor for it. Registration runs under the engine's single lock, so
/// two concurrent attempts serialize; whichever runs second observes the
/// cache hit, the cache is unchanged by it, and the identifier is cached by
/// exactly one descriptor — no duplicate registration, no lost update.
pub proof fn lemma_concurrent_registration_one_descriptor(
    s: Seq<ClassDescriptor>,
    d1: ClassDescriptor,
    d2: ClassDescriptor,
)
    requires
        unique_type_ids(s),
        !holds_type(s, d1.type_id),
        d2.type_id == d1.type_id,
    ensures
        spec_register(spec_register(s, d1), d2) == spec_register(s, d1),
        count_type(spec_register(spec_register(s, d1), d2), d1.type_id) == 1,
{
    let once = spec_register(s, d1);
    assert(once == s.push(d1));
    assert(once[s.len() as int].type_id == d1.type_id);
    assert(holds_type(once, d2.type_id));
    lemma_count_type_absent(s, d1.type_id);
    assert(once.drop_last() =~= s);
    assert(count_type(once, d1.type_id) == 1);
}

/// A sequence without a type identifier counts zero descriptors for it.
pub proof fn lemma_count_type_absent(s: Seq<ClassDescriptor>, id: u32)
    requires
        !holds_type(s, id),
    ensures
        count_type(s, id) == 0,
    decreases s.len(),
{
    if s.len() > 0 {
        assert(!holds_type(s.drop_last(), id)) by {
            if holds_type(s.drop_last(), id) {
                let j = choose|j: int|
                    0 <= j < s.drop_last().len() && s.drop_last()[j].type_id == id;
                assert(s[j].type_id == id);
            }
        }
        lemma_count_type_absent(s.drop_last(), id);
    }
}

} // verus!
