//! Rules on `google.protobuf.Duration` fields.
use vstd::prelude::*;
use crate::errors::number::Error;
use crate::number::{
    bounds_outcome_of, bounds_representable, bounds_valid_of, check_bounds,
    check_bounds_representable, check_lists_representable, lists_representable, ProtoInt,
};
use crate::wkt::Duration;

verus! {

/// The rules of a duration field. Durations are compared by their length,
/// whatever the split between seconds and nanoseconds.
#[derive(Debug, Clone)]
pub struct DurationRules {
    /// The field must be set.
    pub required: bool,
    /// The duration must equal this one.
    pub const_: Option<Duration>,
    /// Exclusive upper bound; takes precedence over `lte`.
    pub lt: Option<Duration>,
    /// Inclusive upper bound.
    pub lte: Option<Duration>,
    /// Exclusive lower bound; takes precedence over `gte`.
    pub gt: Option<Duration>,
    /// Inclusive lower bound.
    pub gte: Option<Duration>,
    /// When not empty, the duration must equal one of these.
    pub in_: Vec<Duration>,
    /// The duration must not equal any of these.
    pub not_in: Vec<Duration>,
}

impl DurationRules {
    /// Some rule constrains the value of the duration.
    pub open spec fn has_value_checks(self) -> bool {
        self.const_ is Some || self.lt is Some || self.lte is Some || self.gt is Some
            || self.gte is Some || self.in_@.len() > 0 || self.not_in@.len() > 0
    }

    /// The constant and the bounds in force can be normalised (they are
    /// converted whatever the value).
    pub open spec fn representable(self) -> bool {
        &&& (self.const_ matches Some(c) ==> c.representable())
        &&& bounds_representable(self.lt, self.lte, self.gt, self.gte)
    }

    /// The allowed and forbidden durations that validating `v` reaches can
    /// be normalised.
    pub open spec fn lists_representable_for(self, v: Duration) -> bool {
        lists_representable(v, self.const_, self.lt, self.lte, self.gt, self.gte, self.in_@, self.not_in@)
    }

    /// Whether some rule constrains the value of the duration.
    pub fn check_has_value_checks(&self) -> (b: bool)
        ensures
            b == self.has_value_checks(),
    {
        self.const_.is_some() || self.lt.is_some() || self.lte.is_some() || self.gt.is_some()
            || self.gte.is_some() || self.in_.len() > 0 || self.not_in.len() > 0
    }

    /// Whether the constant and the bounds in force can be normalised.
    pub fn check_representable(&self) -> (b: bool)
        ensures
            b == self.representable(),
    {
        (match &self.const_ {
            Some(c) => c.is_representable(),
            None => true,
        }) && check_bounds_representable(&self.lt, &self.lte, &self.gt, &self.gte)
    }

    /// Whether the allowed and forbidden durations that validating `v`
    /// reaches can be normalised.
    pub fn check_lists_representable_for(&self, v: &Duration) -> (b: bool)
        requires
            self.representable(),
            v.representable(),
        ensures
            b == self.lists_representable_for(*v),
    {
        check_lists_representable(*v, self.const_, self.lt, self.lte, self.gt, self.gte, &self.in_, &self.not_in)
    }
}

/// Whether a set duration satisfies the rules.
pub open spec fn duration_valid(v: Duration, r: DurationRules) -> bool {
    bounds_valid_of(v, r.const_, r.lt, r.lte, r.gt, r.gte, r.in_@, r.not_in@)
}

/// Validates a set duration against its rules (whether it must be set is
/// checked with the field), reporting the first rule that fails in the
/// order constant, range, allowed values, forbidden values.
pub fn validate_duration(v: &Duration, r: &DurationRules) -> (res: Result<(), Error<Duration>>)
    requires
        r.representable(),
        r.has_value_checks() ==> v.representable(),
        r.lists_representable_for(*v),
    ensures
        bounds_outcome_of(*v, r.const_, r.lt, r.lte, r.gt, r.gte, r.in_@, r.not_in@, res),
        res is Ok <==> duration_valid(*v, *r),
{
    if r.const_.is_none() && r.lt.is_none() && r.lte.is_none() && r.gt.is_none()
        && r.gte.is_none() && r.in_.len() == 0 && r.not_in.len() == 0 {
        assert(!crate::number::int_in(*v, r.not_in@));
        return Ok(());
    }
    check_bounds(*v, r.const_, r.lt, r.lte, r.gt, r.gte, &r.in_, &r.not_in)
}

} // verus!
