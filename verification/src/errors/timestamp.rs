use vstd::prelude::*;
use crate::errors::number;
use crate::wkt::{Duration, Timestamp};

verus! {

/// Violation of the rules of a timestamp field.
#[derive(Debug, Clone, PartialEq, Eq)]
pub enum Error {
    /// The timestamp breaks its constant or one of its range bounds.
    Bound(number::Error<Timestamp>),
    /// The timestamp is not before the current time.
    LtNow,
    /// The timestamp is not after the current time.
    GtNow,
    /// The timestamp is farther than the duration from the current time.
    Within(Duration),
    /// The timestamp is not before the current time, or earlier than the
    /// current time minus the duration.
    LtNowWithin(Duration),
    /// The timestamp is not after the current time, or later than the
    /// current time plus the duration.
    GtNowWithin(Duration),
    /// The current time, moved by the `within` duration, leaves the range of
    /// a date-time, so the rule cannot be checked.
    NowOutOfRange,
}

} // verus!
