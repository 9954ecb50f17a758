//! The well-known protocol buffer types `google.protobuf.Duration` and
//! `google.protobuf.Timestamp`, and how range rules order them.
use vstd::prelude::*;
use crate::number::ProtoInt;

verus! {

/// Nanoseconds in a second.
pub const NANOS_PER_SECOND: i128 = 1_000_000_000;

/// The earliest Unix time, in seconds, that a date-time can hold
/// (-9999-01-01T00:00:00Z).
pub const MIN_UNIX_SECONDS: i64 = -377_705_116_800;

/// The latest Unix time, in whole seconds, that a date-time can hold
/// (9999-12-31T23:59:59Z).
pub const MAX_UNIX_SECONDS: i64 = 253_402_300_799;

/// The earliest instant a date-time can hold, in Unix nanoseconds.
pub open spec fn min_instant() -> int {
    MIN_UNIX_SECONDS * 1_000_000_000
}

/// The latest instant a date-time can hold, in Unix nanoseconds.
pub open spec fn max_instant() -> int {
    MAX_UNIX_SECONDS * 1_000_000_000 + 999_999_999
}

/// A signed span of time (`google.protobuf.Duration`).
#[derive(Debug, Clone, Copy, PartialEq, Eq)]
pub struct Duration {
    pub seconds: i64,
    pub nanos: i32,
}

/// A point in time (`google.protobuf.Timestamp`): seconds and nanoseconds
/// since the Unix epoch.
#[derive(Debug, Clone, Copy, PartialEq, Eq)]
pub struct Timestamp {
    pub seconds: i64,
    pub nanos: i32,
}

/// The whole seconds carried by `nanos` when a duration is normalised
/// (the quotient rounded toward zero).
pub open spec fn nanos_carry(nanos: i32) -> int {
    if nanos >= 0 {
        nanos / 1_000_000_000
    } else {
        -((-nanos) / 1_000_000_000)
    }
}

/// A duration of `seconds` and `nanos` can be normalised without the seconds
/// leaving the range of `i64`.
pub open spec fn duration_constructible(seconds: i64, nanos: i32) -> bool {
    i64::MIN <= seconds + nanos_carry(nanos) <= i64::MAX
}

/// The length of a duration in nanoseconds.
pub open spec fn duration_nanos(d: Duration) -> int {
    d.seconds * 1_000_000_000 + d.nanos
}

/// The instant, in Unix nanoseconds, of the start of Unix second `seconds`,
/// or the epoch when a date-time cannot hold that second.
pub open spec fn seconds_instant(seconds: i64) -> int {
    if MIN_UNIX_SECONDS <= seconds <= MAX_UNIX_SECONDS {
        seconds * 1_000_000_000
    } else {
        0
    }
}

/// The instant, in Unix nanoseconds, that a timestamp denotes: its seconds
/// (the epoch if out of range) plus its nanoseconds.
pub open spec fn timestamp_instant(t: Timestamp) -> int {
    seconds_instant(t.seconds) + t.nanos
}

/// `time::Duration::new(seconds, nanos)` (which normalises the nanoseconds
/// into the seconds), read back as a whole number of nanoseconds. The
/// contract claims the result is `seconds * 10^9 + nanos`, and requires the
/// normalised seconds to fit in `i64`, where the constructor would panic.
#[verifier::external_body]
fn duration_whole_nanos(seconds: i64, nanos: i32) -> (r: i128)
    requires
        duration_constructible(seconds, nanos),
    ensures
        r == seconds * 1_000_000_000 + nanos,
{
    ::time::Duration::new(seconds, nanos).whole_nanoseconds()
}

/// `time::OffsetDateTime::from_unix_timestamp(seconds)`, read back in Unix
/// nanoseconds. The contract claims it succeeds exactly for the seconds from
/// `MIN_UNIX_SECONDS` to `MAX_UNIX_SECONDS` (years -9999 to 9999) and then
/// denotes `seconds * 10^9`.
#[verifier::external_body]
fn unix_seconds_instant(seconds: i64) -> (r: Option<i128>)
    ensures
        r is Some <==> MIN_UNIX_SECONDS <= seconds <= MAX_UNIX_SECONDS,
        r matches Some(n) ==> n == seconds * 1_000_000_000,
{
    match ::time::OffsetDateTime::from_unix_timestamp(seconds) {
        Ok(t) => Some(t.unix_timestamp_nanos()),
        Err(_) => None,
    }
}

/// `time::OffsetDateTime::now_utc()`, read back in Unix nanoseconds. The
/// contract claims only that the result lies within the range of a
/// date-time; which instant comes back depends on the clock.
#[verifier::external_body]
pub(crate) fn now_instant() -> (r: i128)
    ensures
        min_instant() <= r <= max_instant(),
{
    ::time::OffsetDateTime::now_utc().unix_timestamp_nanos()
}

impl ProtoInt for Duration {
    open spec fn to_int(self) -> int {
        duration_nanos(self)
    }

    open spec fn representable(self) -> bool {
        duration_constructible(self.seconds, self.nanos)
    }

    fn widen(self) -> (r: i128) {
        duration_whole_nanos(self.seconds, self.nanos)
    }

    fn is_representable(&self) -> (b: bool) {
        let carry: i64 = if self.nanos >= 2_000_000_000 {
            2
        } else if self.nanos >= 1_000_000_000 {
            1
        } else if self.nanos <= -2_000_000_000 {
            -2
        } else if self.nanos <= -1_000_000_000 {
            -1
        } else {
            0
        };
        self.seconds.checked_add(carry).is_some()
    }
}

impl ProtoInt for Timestamp {
    open spec fn to_int(self) -> int {
        timestamp_instant(self)
    }

    open spec fn representable(self) -> bool {
        min_instant() <= timestamp_instant(self) <= max_instant()
    }

    fn widen(self) -> (r: i128) {
        let base: i128 = match unix_seconds_instant(self.seconds) {
            Some(n) => n,
            None => 0,
        };
        base + self.nanos as i128
    }

    fn is_representable(&self) -> (b: bool) {
        let base: i128 = match unix_seconds_instant(self.seconds) {
            Some(n) => n,
            None => 0,
        };
        let x = base + self.nanos as i128;
        -377_705_116_800_000_000_000i128 <= x && x <= 253_402_300_799_999_999_999i128
    }
}

impl Duration {
    /// The length of this duration in nanoseconds.
    pub fn whole_nanos(&self) -> (r: i128)
        requires
            duration_constructible(self.seconds, self.nanos),
        ensures
            r == duration_nanos(*self),
    {
        duration_whole_nanos(self.seconds, self.nanos)
    }
}

impl Timestamp {
    /// The instant this timestamp denotes, in Unix nanoseconds.
    pub fn instant(&self) -> (r: i128)
        requires
            self.representable(),
        ensures
            r == timestamp_instant(*self),
    {
        self.widen()
    }
}

} // verus!
