//! Durations and timestamps as the `validate` attribute writes them:
//! seconds and nanoseconds, each of which may be left out.
use vstd::prelude::*;
use vstd::std_specs::convert::FromSpecImpl;
use crate::wkt::{Duration, Timestamp};

verus! {

/// Seconds and nanoseconds, each of which may be left out (and then counts
/// as zero).
#[derive(Debug, Clone, Copy, PartialEq, Eq, Default)]
pub struct SecsAndNanosInner {
    /// The seconds.
    pub seconds: Option<i64>,
    /// The nanoseconds.
    pub nanos: Option<i32>,
}

/// A duration or timestamp written in a `validate` attribute.
#[derive(Debug, Clone, Copy, PartialEq, Eq)]
pub struct SecsAndNanos(pub SecsAndNanosInner);

/// A list of durations or timestamps written in a `validate` attribute.
#[derive(Debug, Clone)]
pub struct SecAndNanosVec(pub Vec<SecsAndNanos>);

impl SecsAndNanos {
    /// The seconds, zero when left out.
    pub open spec fn seconds_or_zero(self) -> i64 {
        match self.0.seconds {
            Some(s) => s,
            None => 0,
        }
    }

    /// The nanoseconds, zero when left out.
    pub open spec fn nanos_or_zero(self) -> i32 {
        match self.0.nanos {
            Some(n) => n,
            None => 0,
        }
    }
}

impl From<SecsAndNanos> for Duration {
    fn from(v: SecsAndNanos) -> (d: Duration) {
        Duration {
            seconds: match v.0.seconds {
                Some(s) => s,
                None => 0,
            },
            nanos: match v.0.nanos {
                Some(n) => n,
                None => 0,
            },
        }
    }
}

impl FromSpecImpl<SecsAndNanos> for Duration {
    open spec fn obeys_from_spec() -> bool {
        true
    }

    open spec fn from_spec(v: SecsAndNanos) -> Duration {
        Duration { seconds: v.seconds_or_zero(), nanos: v.nanos_or_zero() }
    }
}

impl From<SecsAndNanos> for Timestamp {
    fn from(v: SecsAndNanos) -> (t: Timestamp) {
        Timestamp {
            seconds: match v.0.seconds {
                Some(s) => s,
                None => 0,
            },
            nanos: match v.0.nanos {
                Some(n) => n,
                None => 0,
            },
        }
    }
}

impl FromSpecImpl<SecsAndNanos> for Timestamp {
    open spec fn obeys_from_spec() -> bool {
        true
    }

    open spec fn from_spec(v: SecsAndNanos) -> Timestamp {
        Timestamp { seconds: v.seconds_or_zero(), nanos: v.nanos_or_zero() }
    }
}

impl SecAndNanosVec {
    /// The durations of the list, in order.
    pub fn durations(&self) -> (r: Vec<Duration>)
        ensures
            r@.len() == self.0@.len(),
            forall|i: int|
                0 <= i < r@.len() ==> #[trigger] r@[i] == (Duration {
                    seconds: self.0@[i].seconds_or_zero(),
                    nanos: self.0@[i].nanos_or_zero(),
                }),
    {
        let mut r: Vec<Duration> = Vec::new();
        let mut i: usize = 0;
        while i < self.0.len()
            invariant
                i <= self.0@.len(),
                r@.len() == i,
                forall|k: int|
                    0 <= k < i ==> #[trigger] r@[k] == (Duration {
                        seconds: self.0@[k].seconds_or_zero(),
                        nanos: self.0@[k].nanos_or_zero(),
                    }),
            decreases self.0@.len() - i,
        {
            r.push(Duration::from(self.0[i]));
            i = i + 1;
        }
        r
    }

    /// The timestamps of the list, in order.
    pub fn timestamps(&self) -> (r: Vec<Timestamp>)
        ensures
            r@.len() == self.0@.len(),
            forall|i: int|
                0 <= i < r@.len() ==> #[trigger] r@[i] == (Timestamp {
                    seconds: self.0@[i].seconds_or_zero(),
                    nanos: self.0@[i].nanos_or_zero(),
                }),
    {
        let mut r: Vec<Timestamp> = Vec::new();
        let mut i: usize = 0;
        while i < self.0.len()
            invariant
                i <= self.0@.len(),
                r@.len() == i,
                forall|k: int|
                    0 <= k < i ==> #[trigger] r@[k] == (Timestamp {
                        seconds: self.0@[k].seconds_or_zero(),
                        nanos: self.0@[k].nanos_or_zero(),
                    }),
            decreases self.0@.len() - i,
        {
            r.push(Timestamp::from(self.0[i]));
            i = i + 1;
        }
        r
    }
}

} // verus!
