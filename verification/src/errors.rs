use vstd::prelude::*;

verus! {

/// Error raised by value coercion when an attribute's relational type lies
/// outside the supported set. It carries the offending type's identifier so
/// an administrator can see which column type was rejected. The projection
/// absorbs this error locally: the attribute is dropped from the row values
/// rather than failing the whole row.
#[derive(Clone, Copy, Debug, PartialEq, Eq, Structural)]
pub enum CoerceError {
    UnsupportedAttributeType(u32),
}

/// Fatal errors of the decision pipeline. None of these is ever silently
/// treated as "allow": callers must fail closed on any of them.
#[derive(Clone, Copy, Debug, PartialEq, Eq, Structural)]
pub enum AuthzError {
    /// The catalog holds no record of the row's type identifier.
    UnknownType,
    /// A declared attribute is missing from the row values handed in;
    /// this indicates a registry/row mismatch on the caller's side.
    AttributeNotFound,
    /// The policy oracle failed internally while registering a class or
    /// evaluating a decision.
    PolicyEvaluationError,
    /// The rule set could not be reloaded; the oracle's rule state is
    /// undefined until a later reload succeeds.
    RuleLoadError,
}

} // verus!
