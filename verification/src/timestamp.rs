//! Rules on `google.protobuf.Timestamp` fields, some of them relative to the
//! current time.
use vstd::prelude::*;
use crate::errors::number;
use crate::errors::timestamp::Error;
use crate::number::{
    bounds_representable, check_bounds_representable, check_range, range_error, ProtoInt,
};
use crate::wkt::{
    duration_nanos, max_instant, min_instant, now_instant, Duration,
    Timestamp,
};

verus! {

/// The rules of a timestamp field. Timestamps are compared by the instant
/// they denote.
#[derive(Debug, Clone, Copy)]
pub struct TimestampRules {
    /// The field must be set.
    pub required: bool,
    /// The timestamp must equal this one.
    pub const_: Option<Timestamp>,
    /// Exclusive upper bound; takes precedence over `lte`.
    pub lt: Option<Timestamp>,
    /// Inclusive upper bound.
    pub lte: Option<Timestamp>,
    /// Exclusive lower bound; takes precedence over `gte`.
    pub gt: Option<Timestamp>,
    /// Inclusive lower bound.
    pub gte: Option<Timestamp>,
    /// When `Some(true)` and no bound is given, the timestamp must be before
    /// the current time.
    pub lt_now: Option<bool>,
    /// When `Some(true)` and neither a bound nor `lt_now` is given, the
    /// timestamp must be after the current time.
    pub gt_now: Option<bool>,
    /// The timestamp must lie within this duration of the current time (on
    /// the side that `lt_now` or `gt_now` names, if one does).
    pub within: Option<Duration>,
}

impl TimestampRules {
    /// Some range bound is given.
    pub open spec fn has_bounds(self) -> bool {
        self.lt is Some || self.lte is Some || self.gt is Some || self.gte is Some
    }

    /// The rules compare the timestamp with the current time.
    pub open spec fn uses_now(self) -> bool {
        !self.has_bounds() && (self.lt_now == Some(true) || self.gt_now == Some(true)
            || self.within is Some)
    }

    /// Some rule constrains the value of the timestamp.
    pub open spec fn has_value_checks(self) -> bool {
        self.const_ is Some || self.has_bounds() || self.uses_now()
    }

    /// The timestamps and duration of the rules that validation converts
    /// can be converted.
    pub open spec fn representable(self) -> bool {
        &&& (self.const_ matches Some(c) ==> c.representable())
        &&& bounds_representable(self.lt, self.lte, self.gt, self.gte)
        &&& (self.uses_now() && self.within is Some ==> self.within.unwrap().representable())
    }

    /// Whether the rules compare the timestamp with the current time.
    pub fn check_uses_now(&self) -> (b: bool)
        ensures
            b == self.uses_now(),
    {
        self.lt.is_none() && self.lte.is_none() && self.gt.is_none() && self.gte.is_none() && (
        self.lt_now == Some(true) || self.gt_now == Some(true) || self.within.is_some())
    }

    /// Whether some rule constrains the value of the timestamp.
    pub fn check_has_value_checks(&self) -> (b: bool)
        ensures
            b == self.has_value_checks(),
    {
        self.const_.is_some() || self.lt.is_some() || self.lte.is_some() || self.gt.is_some()
            || self.gte.is_some() || self.check_uses_now()
    }

    /// Whether the timestamps and duration of the rules can be converted.
    pub fn check_representable(&self) -> (b: bool)
        ensures
            b == self.representable(),
    {
        (match &self.const_ {
            Some(c) => c.is_representable(),
            None => true,
        }) && check_bounds_representable(&self.lt, &self.lte, &self.gt, &self.gte) && (
        !self.check_uses_now() || match &self.within {
            Some(d) => d.is_representable(),
            None => true,
        })
    }
}

/// The instant `now - d` or `now + d` that the rules relative to the current
/// time compute, for value `x`, lies within the range of a date-time
/// (computing one outside it fails).
pub open spec fn now_arith_in_range(x: int, r: TimestampRules, now: int) -> bool {
    r.within matches Some(d) ==> {
        let dn = duration_nanos(d);
        if r.lt_now == Some(true) {
            x < now ==> min_instant() <= now - dn <= max_instant()
        } else if r.gt_now == Some(true) {
            x > now ==> min_instant() <= now + dn <= max_instant()
        } else {
            &&& min_instant() <= now - dn <= max_instant()
            &&& x >= now - dn ==> min_instant() <= now + dn <= max_instant()
        }
    }
}

/// The error the rules relative to the current time `now` report for a
/// timestamp denoting instant `x`, if any.
pub open spec fn now_error(x: int, r: TimestampRules, now: int) -> Option<Error> {
    if r.lt_now == Some(true) {
        match r.within {
            Some(d) => if x >= now || x < now - duration_nanos(d) {
                Some(Error::LtNowWithin(d))
            } else {
                None
            },
            None => if x >= now {
                Some(Error::LtNow)
            } else {
                None
            },
        }
    } else if r.gt_now == Some(true) {
        match r.within {
            Some(d) => if x <= now || x > now + duration_nanos(d) {
                Some(Error::GtNowWithin(d))
            } else {
                None
            },
            None => if x <= now {
                Some(Error::GtNow)
            } else {
                None
            },
        }
    } else {
        match r.within {
            Some(d) => if x < now - duration_nanos(d) || x > now + duration_nanos(d) {
                Some(Error::Within(d))
            } else {
                None
            },
            None => None,
        }
    }
}

/// The outcome of validating a set timestamp `v` at current time `now`: the
/// constant first, then the range bounds if any is given, otherwise the
/// rules relative to the current time.
pub open spec fn timestamp_outcome(v: Timestamp, r: TimestampRules, now: int) -> Result<(), Error> {
    if r.const_ is Some && v.to_int() != r.const_.unwrap().to_int() {
        Err(Error::Bound(number::Error::Const(r.const_.unwrap())))
    } else if r.has_bounds() {
        match range_error(v, r.lt, r.lte, r.gt, r.gte) {
            Some(e) => Err(Error::Bound(e)),
            None => Ok(()),
        }
    } else {
        match now_error(v.to_int(), r, now) {
            Some(e) => Err(e),
            None => Ok(()),
        }
    }
}

/// Validates a set timestamp against its rules at current time `now`, in
/// Unix nanoseconds (whether it must be set is checked with the field).
pub fn validate_timestamp_at(v: &Timestamp, r: &TimestampRules, now: i128) -> (res: Result<(), Error>)
    requires
        r.representable(),
        r.has_value_checks() ==> v.representable(),
        r.uses_now() ==> now_arith_in_range(v.to_int(), *r, now as int),
    ensures
        res == timestamp_outcome(*v, *r, now as int),
{
    if r.const_.is_none() && r.lt.is_none() && r.lte.is_none() && r.gt.is_none()
        && r.gte.is_none() && r.lt_now != Some(true) && r.gt_now != Some(true)
        && r.within.is_none() {
        return Ok(());
    }
    let x = v.widen();
    if let Some(c) = r.const_ {
        if c.widen() != x {
            return Err(Error::Bound(number::Error::Const(c)));
        }
    }
    if r.lt.is_some() || r.lte.is_some() || r.gt.is_some() || r.gte.is_some() {
        return match check_range(*v, r.lt, r.lte, r.gt, r.gte) {
            Some(e) => Err(Error::Bound(e)),
            None => Ok(()),
        };
    }
    if r.lt_now == Some(true) {
        match r.within {
            Some(d) => {
                if x >= now {
                    return Err(Error::LtNowWithin(d));
                }
                let dn = d.whole_nanos();
                if x < now - dn {
                    return Err(Error::LtNowWithin(d));
                }
            },
            None => {
                if x >= now {
                    return Err(Error::LtNow);
                }
            },
        }
    } else if r.gt_now == Some(true) {
        match r.within {
            Some(d) => {
                if x <= now {
                    return Err(Error::GtNowWithin(d));
                }
                let dn = d.whole_nanos();
                if x > now + dn {
                    return Err(Error::GtNowWithin(d));
                }
            },
            None => {
                if x <= now {
                    return Err(Error::GtNow);
                }
            },
        }
    } else if let Some(d) = r.within {
        let dn = d.whole_nanos();
        if x < now - dn || x > now + dn {
            return Err(Error::Within(d));
        }
    }
    Ok(())
}

/// The outcome of validating a set timestamp `v` at current time `now`,
/// when computing `now` moved by the `within` duration may leave the range
/// of a date-time: that case fails with `NowOutOfRange`.
pub open spec fn timestamp_checked_outcome(v: Timestamp, r: TimestampRules, now: int) -> Result<(), Error> {
    if r.uses_now() && !now_arith_in_range(v.to_int(), r, now) {
        Err(Error::NowOutOfRange)
    } else {
        timestamp_outcome(v, r, now)
    }
}

/// Validates a set timestamp against its rules at current time `now`
/// (Unix nanoseconds of a date-time), failing with `NowOutOfRange` when the
/// current time moved by the `within` duration leaves the range of a
/// date-time.
pub fn validate_timestamp_checked(v: &Timestamp, r: &TimestampRules, now: i128) -> (res: Result<(), Error>)
    requires
        r.representable(),
        r.has_value_checks() ==> v.representable(),
        min_instant() <= now <= max_instant(),
    ensures
        res == timestamp_checked_outcome(*v, *r, now as int),
{
    let uses_now = r.lt.is_none() && r.lte.is_none() && r.gt.is_none() && r.gte.is_none() && (
    r.lt_now == Some(true) || r.gt_now == Some(true) || r.within.is_some());
    if !uses_now {
        return validate_timestamp_at(v, r, now);
    }
    let ok = match r.within {
        None => true,
        Some(d) => {
            let x = v.widen();
            let dn = d.whole_nanos();
            let lo = now - dn;
            let hi = now + dn;
            let lo_ok = -377_705_116_800_000_000_000i128 <= lo && lo <= 253_402_300_799_999_999_999i128;
            let hi_ok = -377_705_116_800_000_000_000i128 <= hi && hi <= 253_402_300_799_999_999_999i128;
            if r.lt_now == Some(true) {
                x >= now || lo_ok
            } else if r.gt_now == Some(true) {
                x <= now || hi_ok
            } else {
                lo_ok && (x < lo || hi_ok)
            }
        },
    };
    if !ok {
        return Err(Error::NowOutOfRange);
    }
    validate_timestamp_at(v, r, now)
}

/// Validates a set timestamp against its rules, reading the clock when a
/// rule is relative to the current time. When the current time moved by the
/// `within` duration leaves the range of a date-time, the result is
/// `NowOutOfRange`.
pub fn validate_timestamp(v: &Timestamp, r: &TimestampRules) -> (res: Result<(), Error>)
    requires
        r.representable(),
        r.has_value_checks() ==> v.representable(),
    ensures
        !r.uses_now() ==> res == timestamp_outcome(*v, *r, 0),
        r.uses_now() ==> exists|now: int|
            min_instant() <= now <= max_instant() && res == timestamp_checked_outcome(*v, *r, now),
{
    let uses_now = r.lt.is_none() && r.lte.is_none() && r.gt.is_none() && r.gte.is_none() && (
    r.lt_now == Some(true) || r.gt_now == Some(true) || r.within.is_some());
    if !uses_now {
        return validate_timestamp_at(v, r, 0);
    }
    let now = now_instant();
    validate_timestamp_checked(v, r, now)
}

} // verus!
