//! Points in time, as the number of seconds since the Unix epoch and the
//! nanoseconds into that second.

use vstd::prelude::*;

verus! {

/// A UTC instant. `nanos` counts from the start of second `secs`; during a leap
/// second it may reach `1_999_999_999`.
#[derive(Clone, Copy, Debug, PartialEq, Eq, Structural)]
pub struct Timestamp {
    pub secs: i64,
    pub nanos: u32,
}

impl Timestamp {
    /// Strictly earlier than `other`: seconds first, then nanoseconds.
    pub open spec fn before(self, other: Timestamp) -> bool {
        self.secs < other.secs || (self.secs == other.secs && self.nanos < other.nanos)
    }

    pub fn new(secs: i64, nanos: u32) -> (t: Timestamp)
        ensures
            t.secs == secs,
            t.nanos == nanos,
    {
        Timestamp { secs, nanos }
    }

    pub fn is_before(&self, other: &Timestamp) -> (b: bool)
        ensures
            b == self.before(*other),
    {
        self.secs < other.secs || (self.secs == other.secs && self.nanos < other.nanos)
    }

    /// The current instant, read from the system clock.
    pub fn now() -> (t: Timestamp)
        ensures
            t.nanos < 1_000_000_000,
    {
        clock_now()
    }
}

/// Calls `chrono::Utc::now` and splits the instant with `DateTime::timestamp` and
/// `DateTime::timestamp_subsec_nanos`. The clock never reports a leap second, so
/// the nanoseconds stay below one second; nothing else is claimed of the result.
#[verifier::external_body]
fn clock_now() -> (t: Timestamp)
    ensures
        t.nanos < 1_000_000_000,
{
    let now = chrono::Utc::now();
    Timestamp { secs: now.timestamp(), nanos: now.timestamp_subsec_nanos() }
}

} // verus!
