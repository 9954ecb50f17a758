use vstd::prelude::*;

verus! {

/// Violation of the rules of an enum field.
#[derive(Debug, Clone, PartialEq, Eq)]
pub enum Error {
    /// The value differs from the required constant.
    Const(i32),
    /// The value is not one of these.
    In(Vec<i32>),
    /// The value is one of these.
    NotIn(Vec<i32>),
    /// The value is not one the enum defines.
    DefinedOnly,
}

} // verus!
