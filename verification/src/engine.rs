use vstd::prelude::*;

use crate::catalog::Catalog;
use crate::errors::AuthzError;
use crate::oracle::{
    oso_clear_rules, oso_load_str, oso_new, oso_query_allowed, oso_register_row_class, polar_nil,
    polar_text_content, row_of_fields,
};
use crate::registry::{ClassDescriptor, Registry};
use crate::rules::{join_sources, sort_rules, sorted_by_order, RuleRecord};
use crate::values::{project_row, ColumnValue};

verus! {

/// A concrete row at decision time: its relational type identifier and its
/// named, typed attribute values, in catalog-declared attribute order.
#[derive(Debug)]
pub struct RawRow {
    pub type_id: u32,
    pub columns: Vec<ColumnValue>,
}

/// The decision engine facade. It owns the authorization oracle and the
/// class registry, and guarantees the "types before rules" protocol: a class
/// newly registered with the oracle is followed by a full rule reload before
/// the decision that needed it is evaluated. One engine value must be shared
/// under a single lock; all registration, reload and decision operations on
/// it then serialize, so no caller can observe a type that is registered
/// while the rules have not yet been recompiled against it.
pub struct Engine {
    pub oso: oso::Oso,
    pub nil: oso::PolarValue,
    pub registry: Registry,
    /// Whether the loaded rules are current with respect to the registered
    /// classes: false after construction and after a failed reload.
    pub rules_current: bool,
    /// How many classes have been registered with the oracle.
    pub registrations: Ghost<nat>,
    /// How many full rule reloads have completed.
    pub reloads: Ghost<nat>,
    /// How many decision queries have been put to the oracle.
    pub queries: Ghost<nat>,
    /// The records loaded by the last completed reload, in loaded order.
    pub loaded: Ghost<Seq<RuleRecord>>,
}

/// Whether a row's columns agree with a cached descriptor: same attribute
/// names in the same order. A disagreement is a registry/row mismatch — the
/// caller handed in a row that does not carry the declared attributes.
pub open spec fn row_matches_descriptor(d: ClassDescriptor, cols: Seq<ColumnValue>) -> bool {
    &&& d.attribute_names@.len() == cols.len()
    &&& forall|k: int| 0 <= k < cols.len() ==> d.attribute_names@[k]@ == cols[k].name@
}

/// The cached descriptor of a type identifier (meaningful when the registry
/// holds the identifier; unique by the registry's well-formedness).
pub open spec fn cached_descriptor(s: Seq<ClassDescriptor>, id: u32) -> ClassDescriptor {
    s[choose|i: int| 0 <= i < s.len() && s[i].type_id == id]
}

/// Whether nothing observable changed between two engine states: same
/// registry, same counters, same rule state.
pub open spec fn unchanged(pre: Engine, post: Engine) -> bool {
    &&& post.registry == pre.registry
    &&& post.registrations@ == pre.registrations@
    &&& post.reloads@ == pre.reloads@
    &&& post.rules_current == pre.rules_current
    &&& post.loaded@ == pre.loaded@
}

/// Whether `post`'s registry extends `pre`'s by exactly one descriptor for
/// the row's type: named by the catalog, with the row's attribute names in
/// row order.
pub open spec fn registered_row(pre: Engine, post: Engine, cat: Catalog, row: RawRow) -> bool {
    &&& post.registry.entries@.len() == pre.registry.entries@.len() + 1
    &&& post.registry.entries@.drop_last() == pre.registry.entries@
    &&& post.registry.entries@.last().type_id == row.type_id
    &&& forall|i: int|
        0 <= i < cat.entries@.len() && cat.entries@[i].type_id == row.type_id
            ==> post.registry.entries@.last().class_name@ == cat.entries@[i].name@
    &&& row_matches_descriptor(post.registry.entries@.last(), row.columns@)
    &&& post.registrations@ == pre.registrations@ + 1
}

fn row_matches(d: &ClassDescriptor, cols: &Vec<ColumnValue>) -> (r: bool)
    ensures
        r == row_matches_descriptor(*d, cols@),
{
    if d.attribute_names.len() != cols.len() {
        return false;
    }
    let mut k: usize = 0;
    while k < cols.len()
        invariant
            k <= cols@.len(),
            d.attribute_names@.len() == cols@.len(),
            forall|j: int| 0 <= j < k ==> d.attribute_names@[j]@ == cols@[j].name@,
        decreases cols@.len() - k,
    {
        let same = d.attribute_names[k] == cols[k].name;
        if !same {
            return false;
        }
        k = k + 1;
    }
    true
}

impl Engine {
    pub open spec fn wf(self) -> bool {
        &&& self.registry.wf()
        &&& polar_text_content(self.nil) is None
    }

    /// A fresh engine: an oracle with no application rules, an empty class
    /// registry, and no rule set loaded yet.
    pub fn new() -> (r: Engine)
        ensures
            r.wf(),
            r.registry.entries@.len() == 0,
            forall|id: u32| !r.registry.contains_type(id),
            !r.rules_current,
            r.registrations@ == 0,
            r.reloads@ == 0,
            r.queries@ == 0,
    {
        Engine {
            oso: oso_new(),
            nil: polar_nil(),
            registry: Registry::new(),
            rules_current: false,
            registrations: Ghost(0nat),
            reloads: Ghost(0nat),
            queries: Ghost(0nat),
            loaded: Ghost(Seq::empty()),
        }
    }

    /// Clears every loaded rule and loads the given records ascending by
    /// `order` (the store's current contents, read by the caller). On
    /// success the rules are current; on failure the oracle's rule state is
    /// undefined and the engine stays stale until a later reload succeeds.
    /// The class registry is never touched by a reload.
    pub fn reload(&mut self, records: Vec<RuleRecord>) -> (r: Result<(), AuthzError>)
        requires
            old(self).wf(),
        ensures
            final(self).wf(),
            final(self).registry == old(self).registry,
            final(self).registrations@ == old(self).registrations@,
            final(self).queries@ == old(self).queries@,
            r is Ok ==> final(self).rules_current && final(self).reloads@ == old(self).reloads@
                + 1 && sorted_by_order(final(self).loaded@) && final(self).loaded@.to_multiset()
                == records@.to_multiset(),
            r is Err ==> r == Err::<(), AuthzError>(AuthzError::RuleLoadError) && !final(self).rules_current && final(self).reloads@ == old(self).reloads@,
    {
        match oso_clear_rules(&mut self.oso) {
            Err(_) => {
                self.rules_current = false;
                return Err(AuthzError::RuleLoadError);
            },
            Ok(_) => {},
        }
        let sorted = sort_rules(records);
        let text = join_sources(&sorted);
        match oso_load_str(&mut self.oso, text.as_str()) {
            Err(_) => {
                self.rules_current = false;
                Err(AuthzError::RuleLoadError)
            },
            Ok(_) => {
                self.rules_current = true;
                self.reloads = Ghost(self.reloads@ + 1);
                self.loaded = Ghost(sorted@);
                Ok(())
            },
        }
    }

    /// Decides whether the subject may perform the action on the row.
    ///
    /// The first decision for an unseen type identifier resolves the type's
    /// name in the catalog (failing with `UnknownType` when absent),
    /// registers exactly one class for it — built from the row's attribute
    /// names — and completes exactly one full rule reload from `records`
    /// before the decision is evaluated: classes must be known to the oracle
    /// before the rules that reference them are compiled. Every later
    /// decision for the same identifier takes the read-only fast path:
    /// no catalog lookup, no registration, no reload.
    ///
    /// The row is projected by value coercion (columns of unsupported types
    /// and omitted NULLs are dropped), wrapped as an instance of its type,
    /// and put to the oracle in exactly one decision query (the `queries`
    /// counter); the instance carries the projected attribute names in row
    /// order and, for every text attribute, exactly the projected text.
    /// Oracle failures surface as `PolicyEvaluationError`, never as a silent
    /// allow or deny; a cached descriptor whose attributes disagree with the
    /// row's fails with `AttributeNotFound`.
    ///
    /// The oracle identifies row instances by one shared host type, so rules
    /// that distinguish several row classes under one oracle instance are
    /// outside the oracle binding's support (see the registration wrapper).
    pub fn is_allowed(
        &mut self,
        catalog: &Catalog,
        subject: &str,
        action: &str,
        row: &RawRow,
        records: Vec<RuleRecord>,
    ) -> (r: Result<bool, AuthzError>)
        requires
            old(self).wf(),
            catalog.wf(),
        ensures
            final(self).wf(),
            old(self).registry.contains_type(row.type_id) ==> unchanged(*old(self), *final(self))
                && (if row_matches_descriptor(
                cached_descriptor(old(self).registry.entries@, row.type_id),
                row.columns@,
            ) {
                (r is Ok || r == Err::<bool, AuthzError>(AuthzError::PolicyEvaluationError))
                    && final(self).queries@ == old(self).queries@ + 1
            } else {
                r == Err::<bool, AuthzError>(AuthzError::AttributeNotFound) && final(self).queries@ == old(self).queries@
            }),
            r is Ok ==> final(self).queries@ == old(self).queries@ + 1,
            !old(self).registry.contains_type(row.type_id) ==> r != Err::<bool, AuthzError>(
                AuthzError::AttributeNotFound,
            ),
            (r == Err::<bool, AuthzError>(AuthzError::UnknownType)) == (!old(self).registry.contains_type(row.type_id) && !catalog.contains_type(row.type_id)),
            r == Err::<bool, AuthzError>(AuthzError::UnknownType) ==> unchanged(
                *old(self),
                *final(self),
            ) && final(self).queries@ == old(self).queries@,
            (!old(self).registry.contains_type(row.type_id) && catalog.contains_type(row.type_id))
                ==> match r {
                Ok(_) => registered_row(*old(self), *final(self), *catalog, *row) && final(self).reloads@ == old(self).reloads@ + 1 && final(self).rules_current
                    && sorted_by_order(final(self).loaded@) && final(self).loaded@.to_multiset()
                    == records@.to_multiset(),
                Err(e) => (e == AuthzError::PolicyEvaluationError && ((unchanged(
                    *old(self),
                    *final(self),
                ) && final(self).queries@ == old(self).queries@) || (registered_row(*old(self), *final(self), *catalog, *row) && final(self).reloads@ == old(self).reloads@ + 1 && final(self).rules_current && final(self).queries@ == old(self).queries@ + 1))) || (e
                    == AuthzError::RuleLoadError && registered_row(
                    *old(self),
                    *final(self),
                    *catalog,
                    *row,
                ) && final(self).reloads@ == old(self).reloads@ && !final(self).rules_current
                    && final(self).queries@ == old(self).queries@),
            },
    {
        let found = self.registry.find(row.type_id);
        match found {
            Some(idx) => {
                proof {
                    let j = choose|j: int|
                        0 <= j < self.registry.entries@.len() && self.registry.entries@[j].type_id
                            == row.type_id;
                    if j < idx as int {
                        assert(self.registry.entries@[j].type_id
                            != self.registry.entries@[idx as int].type_id);
                    } else if j > idx as int {
                        assert(self.registry.entries@[idx as int].type_id
                            != self.registry.entries@[j].type_id);
                    }
                    assert(cached_descriptor(self.registry.entries@, row.type_id)
                        == self.registry.entries@[idx as int]);
                }
                if !row_matches(&self.registry.entries[idx], &row.columns) {
                    return Err(AuthzError::AttributeNotFound);
                }
            },
            None => {
                let name = match catalog.resolve_name(row.type_id) {
                    None => {
                        return Err(AuthzError::UnknownType);
                    },
                    Some(n) => n,
                };
                let mut attrs: Vec<String> = Vec::new();
                let mut k: usize = 0;
                while k < row.columns.len()
                    invariant
                        k <= row.columns@.len(),
                        attrs@.len() == k,
                        forall|j: int| 0 <= j < k ==> attrs@[j]@ == row.columns@[j].name@,
                    decreases row.columns@.len() - k,
                {
                    attrs.push(row.columns[k].name.clone());
                    k = k + 1;
                }
                let ghost nview = name@;
                let d = ClassDescriptor {
                    type_id: row.type_id,
                    class_name: name,
                    attribute_names: attrs,
                };
                let ghost gd = d;
                match oso_register_row_class(&mut self.oso, d.class_name.as_str(), &d.attribute_names) {
                    Err(_) => {
                        return Err(AuthzError::PolicyEvaluationError);
                    },
                    Ok(_) => {},
                }
                self.registrations = Ghost(self.registrations@ + 1);
                let newly = self.registry.get_or_register(d);
                proof {
                    assert(newly);
                    assert(self.registry.entries@ == old(self).registry.entries@.push(gd));
                    assert(self.registry.entries@.drop_last() =~= old(self).registry.entries@);
                    assert(self.registry.entries@.last() == gd);
                    assert(registered_row(*old(self), *self, *catalog, *row));
                }
                match self.reload(records) {
                    Err(e) => {
                        return Err(e);
                    },
                    Ok(_) => {},
                }
            },
        }
        let values = project_row(&row.columns);
        let instance = row_of_fields(&values, &self.nil);
        self.queries = Ghost(self.queries@ + 1);
        match oso_query_allowed(&self.oso, subject, action, instance) {
            Ok(b) => Ok(b),
            Err(_) => Err(AuthzError::PolicyEvaluationError),
        }
    }
}

} // verus!
