use vstd::prelude::*;

use crate::errors::CoerceError;
use crate::timestamp::{timestamp_text, TimestampTz};

verus! {

/// The policy engine's tagged value representation. `Instance` carries both
/// the row type's identity and its coerced attribute map, so the engine can
/// resolve attribute access by name.
#[derive(Debug)]
pub enum PolicyValue {
    Text(String),
    Truth(bool),
    Number(i64),
    Null,
    List(Vec<PolicyValue>),
    Instance(u32, Vec<(String, PolicyValue)>),
}

/// One typed relational attribute value. The tag is the relational type;
/// `Unsupported` stands for a value of any type outside the coercion set
/// and carries that type's identifier.
#[derive(Debug)]
pub enum RawValue {
    TextNull,
    Text(String),
    TimestampTzNull,
    TimestampTz(TimestampTz),
    Unsupported(u32),
}

/// One named column of a concrete row: the attribute name together with its
/// typed raw value.
#[derive(Debug)]
pub struct ColumnValue {
    pub name: String,
    pub value: RawValue,
}

/// The outcome of coercing one attribute: either a policy value to include
/// in the row values, or the defined absence of the attribute.
#[derive(Debug)]
pub enum CoercedValue {
    Value(PolicyValue),
    Omitted,
}

/// Converts one typed relational value into the policy engine's value
/// representation. Pure and total over the typed raw values:
/// - a SQL NULL of type text coerces to the empty string (the engine has no
///   null, so null-as-empty-string is the defined semantic);
/// - non-null text passes through unchanged;
/// - a SQL NULL timestamp coerces to absence (the attribute is omitted);
/// - a non-null timestamp becomes its non-empty canonical text;
/// - a value of any other relational type fails with
///   `UnsupportedAttributeType`, carrying that type's identifier.
pub fn coerce(v: &RawValue) -> (r: Result<CoercedValue, CoerceError>)
    ensures
        match *v {
            RawValue::TextNull => r matches Ok(CoercedValue::Value(PolicyValue::Text(s)))
                && s@ =~= Seq::<char>::empty(),
            RawValue::Text(t) => r matches Ok(CoercedValue::Value(PolicyValue::Text(s))) && s@
                == t@,
            RawValue::TimestampTzNull => r == Ok::<CoercedValue, CoerceError>(
                CoercedValue::Omitted,
            ),
            RawValue::TimestampTz(ts) => r matches Ok(CoercedValue::Value(PolicyValue::Text(s)))
                && s@ == timestamp_text(ts) && s@.len() >= 1,
            RawValue::Unsupported(oid) => r == Err::<CoercedValue, CoerceError>(
                CoerceError::UnsupportedAttributeType(oid),
            ),
        },
{
    match v {
        RawValue::TextNull => Ok(CoercedValue::Value(PolicyValue::Text(String::new()))),
        RawValue::Text(t) => Ok(CoercedValue::Value(PolicyValue::Text(t.clone()))),
        RawValue::TimestampTzNull => Ok(CoercedValue::Omitted),
        RawValue::TimestampTz(ts) => Ok(CoercedValue::Value(PolicyValue::Text(
            ts.canonical_text(),
        ))),
        RawValue::Unsupported(oid) => Err(CoerceError::UnsupportedAttributeType(*oid)),
    }
}

/// The text a policy value carries: the characters of a text value, and
/// nothing for every other shape.
pub open spec fn text_content_of(v: PolicyValue) -> Option<Seq<char>> {
    match v {
        PolicyValue::Text(s) => Some(s@),
        _ => None,
    }
}

/// Whether coercing this raw value yields an attribute in the row values.
pub open spec fn keeps(v: RawValue) -> bool {
    match v {
        RawValue::TextNull => true,
        RawValue::Text(_) => true,
        RawValue::TimestampTzNull => false,
        RawValue::TimestampTz(_) => true,
        RawValue::Unsupported(_) => false,
    }
}

/// The text a kept raw value coerces to.
pub open spec fn kept_text(v: RawValue) -> Seq<char>
    recommends
        keeps(v),
{
    match v {
        RawValue::TextNull => Seq::<char>::empty(),
        RawValue::Text(s) => s@,
        RawValue::TimestampTz(ts) => timestamp_text(ts),
        _ => Seq::<char>::empty(),
    }
}

/// The projection of a row's columns: for each kept column, the pair of the
/// attribute name and the text it coerces to, in column order. Columns whose
/// value is an omitted NULL or of an unsupported type are dropped.
pub open spec fn spec_project(cols: Seq<ColumnValue>) -> Seq<(Seq<char>, Seq<char>)>
    decreases cols.len(),
{
    if cols.len() == 0 {
        Seq::empty()
    } else {
        let rest = spec_project(cols.drop_last());
        let c = cols.last();
        if keeps(c.value) {
            rest.push((c.name@, kept_text(c.value)))
        } else {
            rest
        }
    }
}

/// Whether the concrete name/value pairs match the projected model: same
/// length, same names in order, and every value is the text the model gives.
pub open spec fn pairs_match(
    r: Seq<(String, PolicyValue)>,
    m: Seq<(Seq<char>, Seq<char>)>,
) -> bool {
    &&& r.len() == m.len()
    &&& forall|i: int|
        0 <= i < r.len() ==> r[i].0@ == m[i].0 && (r[i].1 matches PolicyValue::Text(s) && s@
            == m[i].1)
}

/// Projects a concrete row's columns into the policy engine's row values.
/// Every column is coerced; attributes whose coercion yields absence, and
/// attributes of unsupported relational types, are dropped rather than
/// failing the row, so a single unsupported column never makes the row
/// unauthorizable.
pub fn project_row(cols: &Vec<ColumnValue>) -> (r: Vec<(String, PolicyValue)>)
    ensures
        pairs_match(r@, spec_project(cols@)),
{
    let mut out: Vec<(String, PolicyValue)> = Vec::new();
    let mut i: usize = 0;
    while i < cols.len()
        invariant
            i <= cols@.len(),
            pairs_match(out@, spec_project(cols@.take(i as int))),
        decreases cols@.len() - i,
    {
        proof {
            assert(cols@.take(i + 1 as int).drop_last() =~= cols@.take(i as int));
            assert(cols@.take(i + 1 as int).last() == cols@[i as int]);
        }
        match coerce(&cols[i].value) {
            Ok(CoercedValue::Value(pv)) => {
                out.push((cols[i].name.clone(), pv));
            },
            Ok(CoercedValue::Omitted) => {},
            Err(_) => {},
        }
        i = i + 1;
    }
    proof {
        assert(cols@.take(cols@.len() as int) =~= cols@);
    }
    out
}

} // verus!

