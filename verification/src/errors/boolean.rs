use vstd::prelude::*;

verus! {

/// Violation of the rules of a bool field.
#[derive(Debug, Clone, Copy, PartialEq, Eq)]
pub enum Error {
    /// The value differs from the required constant.
    Const(bool),
}

} // verus!
