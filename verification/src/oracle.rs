use vstd::prelude::*;

use crate::values::{text_content_of, PolicyValue};

verus! {

#[verifier::external_type_specification]
#[verifier::external_body]
pub struct ExOso(oso::Oso);

#[verifier::external_type_specification]
#[verifier::external_body]
pub struct ExPolarValue(oso::PolarValue);

#[verifier::external_type_specification]
#[verifier::external_body]
pub struct ExOsoError(oso::OsoError);

/// Relies on the derived `Clone` of `oso::PolarValue`: a deep copy, equal to
/// the value cloned.
pub assume_specification[ <oso::PolarValue as Clone>::clone ](v: &oso::PolarValue) -> (r:
    oso::PolarValue)
    ensures
        r == *v,
;

/// A concrete row as handed to the policy oracle: the converted attribute
/// values under their attribute names, together with the oracle's nil value,
/// which stands in for any attribute the projection dropped.
pub struct RowInstance {
    pub fields: Vec<(String, oso::PolarValue)>,
    pub nil: oso::PolarValue,
}

/// First-match lookup of a field by attribute name.
pub open spec fn field_lookup(s: Seq<(String, oso::PolarValue)>, name: Seq<char>) -> Option<
    oso::PolarValue,
>
    decreases s.len(),
{
    if s.len() == 0 {
        None
    } else if s[0].0@ == name {
        Some(s[0].1)
    } else {
        field_lookup(s.drop_first(), name)
    }
}

impl RowInstance {
    /// The attribute getter behind every registered class: returns the named
    /// field's value, or the oracle's nil value when the projection dropped
    /// the attribute — a rule that references a dropped attribute then
    /// behaves as if the attribute were undefined instead of aborting the
    /// decision.
    pub fn attr_value(&self, name: &String) -> (r: oso::PolarValue)
        ensures
            r == match field_lookup(self.fields@, name@) {
                Some(v) => v,
                None => self.nil,
            },
    {
        let mut i: usize = 0;
        proof {
            assert(self.fields@.skip(0int) =~= self.fields@);
        }
        while i < self.fields.len()
            invariant
                i <= self.fields@.len(),
                field_lookup(self.fields@, name@) == field_lookup(
                    self.fields@.skip(i as int),
                    name@,
                ),
            decreases self.fields@.len() - i,
        {
            proof {
                assert(self.fields@.skip(i as int)[0] == self.fields@[i as int]);
                assert(self.fields@.skip(i as int).drop_first() =~= self.fields@.skip(
                    i + 1 as int,
                ));
            }
            let same = self.fields[i].0 == *name;
            if same {
                return self.fields[i].1.clone();
            }
            i = i + 1;
        }
        proof {
            assert(self.fields@.skip(self.fields@.len() as int) =~= Seq::<(
                String,
                oso::PolarValue,
            )>::empty());
        }
        self.nil.clone()
    }
}

/// Relies on `oso::Oso::new`: a fresh oracle instance holding only the
/// engine's builtin classes and no application rules.
#[verifier::external_body]
pub fn oso_new() -> oso::Oso {
    oso::Oso::new()
}

/// The text an oracle value carries: the characters of the oracle's text
/// value shape, and nothing for every other shape. The trusted conversion
/// contracts below relate it to the library's value model, so callers can
/// pin which text each attribute value handed to the oracle holds.
pub uninterp spec fn polar_text_content(v: oso::PolarValue) -> Option<Seq<char>>;

/// Relies on `oso::PolarValue::new_from_instance` applied to an absent
/// optional value: the oracle's nil, an instance value — not a text value,
/// so it never unifies with any attribute text.
#[verifier::external_body]
pub fn polar_nil() -> (r: oso::PolarValue)
    ensures
        polar_text_content(r) is None,
{
    oso::PolarValue::new_from_instance(Option::<oso::PolarValue>::None)
}

/// Relies on `oso::Oso::clear_rules`: removes every rule loaded so far.
#[verifier::external_body]
pub fn oso_clear_rules(o: &mut oso::Oso) -> Result<(), oso::OsoError> {
    o.clear_rules()
}

/// Relies on `oso::Oso::load_str`: parses the polar source text and loads
/// its rules, erring on malformed source or a failing inline query.
#[verifier::external_body]
pub fn oso_load_str(o: &mut oso::Oso, src: &str) -> Result<(), oso::OsoError> {
    o.load_str(src)
}

/// Relies on `oso::Class::builder` and `oso::Oso::register_class`: registers
/// a class under the given name whose attribute getters return, for each
/// listed column name, `RowInstance::attr_value` of that name. The names are
/// leaked to obtain the static keys the builder requires; each class is
/// registered once per process, so the leak is bounded by the catalog.
///
/// The oracle resolves a row instance's class through the host type of
/// `RowInstance`, which every registered row class shares: attribute access
/// resolves through the class registered most recently, so rules that
/// distinguish several row classes under one oracle instance are outside
/// this binding's support.
#[verifier::external_body]
pub fn oso_register_row_class(o: &mut oso::Oso, name: &str, cols: &Vec<String>) -> Result<
    (),
    oso::OsoError,
> {
    let mut b = oso::Class::builder::<RowInstance>().name(name);
    for c in cols.iter() {
        let key: &'static str = Box::leak(c.clone().into_boxed_str());
        let owned = c.clone();
        b = b.add_attribute_getter(key, move |r: &RowInstance| r.attr_value(&owned));
    }
    o.register_class(b.build())
}

/// Relies on `oso::Oso::is_allowed`: queries the `allow` rule for the
/// subject, the action, and the row wrapped as an oracle instance, and
/// returns whether some loaded rule admits the triple. Nothing is assumed
/// about which boolean comes back: it depends on the oracle's loaded rules.
#[verifier::external_body]
pub fn oso_query_allowed(o: &oso::Oso, subject: &str, action: &str, row: RowInstance) -> Result<
    bool,
    oso::OsoError,
> {
    o.is_allowed(subject, action, oso::PolarValue::new_from_instance(row))
}

/// Relies on the `oso::PolarValue` constructors: converts one policy value
/// into the oracle's representation. A text value becomes the oracle's text
/// value over the same characters; truth and number values convert to their
/// oracle counterparts; an absent value becomes the oracle's nil; lists
/// convert element-wise; an instance becomes a row instance over its
/// converted fields. None of the non-text shapes is a text value.
#[verifier::external_body]
pub fn polar_of(v: &PolicyValue, nil: &oso::PolarValue) -> (r: oso::PolarValue)
    requires
        polar_text_content(*nil) is None,
    ensures
        polar_text_content(r) == text_content_of(*v),
{
    match v {
        PolicyValue::Text(s) => oso::PolarValue::String(s.clone()),
        PolicyValue::Truth(b) => oso::PolarValue::Boolean(*b),
        PolicyValue::Number(n) => oso::PolarValue::Integer(*n),
        PolicyValue::Null => nil.clone(),
        PolicyValue::List(xs) => oso::PolarValue::List(
            xs.iter().map(|x| polar_of(x, nil)).collect(),
        ),
        PolicyValue::Instance(_, fs) => oso::PolarValue::new_from_instance(RowInstance {
            fields: fs.iter().map(|p| (p.0.clone(), polar_of(&p.1, nil))).collect(),
            nil: nil.clone(),
        }),
    }
}

/// Builds the oracle-facing row instance from converted name/value pairs,
/// keeping the pairs' names and order, and carrying each text value's
/// characters unchanged.
pub fn row_of_fields(fs: &Vec<(String, PolicyValue)>, nil: &oso::PolarValue) -> (r: RowInstance)
    requires
        polar_text_content(*nil) is None,
    ensures
        r.fields@.len() == fs@.len(),
        forall|i: int| 0 <= i < fs@.len() ==> r.fields@[i].0@ == fs@[i].0@,
        forall|i: int|
            0 <= i < fs@.len() ==> polar_text_content(r.fields@[i].1) == text_content_of(
                fs@[i].1,
            ),
        r.nil == *nil,
{
    let mut fields: Vec<(String, oso::PolarValue)> = Vec::new();
    let mut i: usize = 0;
    while i < fs.len()
        invariant
            i <= fs@.len(),
            fields@.len() == i,
            polar_text_content(*nil) is None,
            forall|j: int| 0 <= j < i ==> fields@[j].0@ == fs@[j].0@,
            forall|j: int|
                0 <= j < i ==> polar_text_content(fields@[j].1) == text_content_of(fs@[j].1),
        decreases fs@.len() - i,
    {
        fields.push((fs[i].0.clone(), polar_of(&fs[i].1, nil)));
        i = i + 1;
    }
    RowInstance { fields, nil: nil.clone() }
}

} // verus!
