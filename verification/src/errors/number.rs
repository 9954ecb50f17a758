use vstd::prelude::*;

verus! {

/// Violation of a numeric rule set; `T` is the field's integer type.
#[derive(Debug, Clone, PartialEq, Eq)]
pub enum Error<T> {
    /// The value differs from the required constant.
    Const(T),
    /// The value is not strictly below the bound.
    Lt(T),
    /// The value is above the bound.
    Lte(T),
    /// The value is not strictly above the bound.
    Gt(T),
    /// The value is below the bound.
    Gte(T),
    /// The value lies outside the range from `lower` to `upper`; the flags
    /// say whether each end belongs to the range.
    InRange { lower_inclusive: bool, lower: T, upper: T, upper_inclusive: bool },
    /// The value lies inside the excluded range from `lower` to `upper`; the
    /// flags say whether each end belongs to the excluded range.
    NotInRange { lower_inclusive: bool, lower: T, upper: T, upper_inclusive: bool },
    /// The value is not one of the allowed values.
    In(Vec<T>),
    /// The value is one of the forbidden values.
    NotIn(Vec<T>),
}

} // verus!
