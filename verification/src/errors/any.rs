use vstd::prelude::*;

verus! {

/// Violation of the rules of a `google.protobuf.Any` field.
#[derive(Debug, Clone, PartialEq, Eq)]
pub enum Error {
    /// The field is not set.
    Required,
    /// The type URL is not one of these.
    In(Vec<String>),
    /// The type URL is one of these.
    NotIn(Vec<String>),
}

} // verus!
