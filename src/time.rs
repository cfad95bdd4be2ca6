//! Instants in UTC, held as plain integers.

use vstd::prelude::*;

verus! {

/// An instant in UTC: whole seconds since the Unix epoch and the
/// nanoseconds within that second (a leap second carries a value of
/// 1_000_000_000 or more, as chrono represents it).
#[derive(Clone, Copy, Debug, PartialEq, Eq, Structural)]
pub struct Timestamp {
    pub seconds: i64,
    pub nanos: u32,
}

impl Timestamp {
    /// `self` lies strictly before `other`.
    pub open spec fn spec_before(self, other: Timestamp) -> bool {
        self.seconds < other.seconds || (self.seconds == other.seconds && self.nanos < other.nanos)
    }

    pub fn new(seconds: i64, nanos: u32) -> (r: Timestamp)
        ensures
            r.seconds == seconds,
            r.nanos == nanos,
    {
        Timestamp { seconds, nanos }
    }

    /// True when `self` lies strictly before `other`.
    pub fn before(&self, other: &Timestamp) -> (r: bool)
        ensures
            r == self.spec_before(*other),
    {
        self.seconds < other.seconds || (self.seconds == other.seconds && self.nanos < other.nanos)
    }

    /// The current instant.
    pub fn now() -> (r: Timestamp)
        ensures
            r.nanos < 1_000_000_000,
    {
        current_time()
    }
}

/// Relies on chrono::Utc::now, read through `DateTime::timestamp` and
/// `DateTime::timestamp_subsec_nanos`; `now` builds its value with
/// `DateTime::from_timestamp(secs, subsec_nanos)`, so the nanoseconds stay
/// under one second.
#[verifier::external_body]
fn current_time() -> (r: Timestamp)
    ensures
        r.nanos < 1_000_000_000,
{
    let now = chrono::Utc::now();
    Timestamp { seconds: now.timestamp(), nanos: now.timestamp_subsec_nanos() }
}

} // verus!
