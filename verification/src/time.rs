//! Instants in UTC.

use vstd::prelude::*;

verus! {

/// An instant in UTC: whole seconds since the Unix epoch and the nanoseconds
/// within that second.
#[derive(Debug, Clone, Copy, PartialEq, Eq, Structural)]
pub struct Timestamp {
    pub secs: i64,
    pub nanos: u32,
}

impl Timestamp {
    /// Whether `self` is strictly earlier than `other`.
    pub open spec fn spec_before(self, other: Timestamp) -> bool {
        self.secs < other.secs || (self.secs == other.secs && self.nanos < other.nanos)
    }

    /// Whether `self` is no later than `other`.
    pub open spec fn spec_at_most(self, other: Timestamp) -> bool {
        !other.spec_before(self)
    }

    /// The later of two instants.
    pub open spec fn spec_latest(self, other: Timestamp) -> Timestamp {
        if self.spec_before(other) {
            other
        } else {
            self
        }
    }

    /// An instant from its seconds and nanoseconds.
    pub fn new(secs: i64, nanos: u32) -> (r: Self)
        ensures
            r == (Timestamp { secs, nanos }),
    {
        Timestamp { secs, nanos }
    }

    /// Whether `self` is strictly earlier than `other`.
    pub fn before(&self, other: &Timestamp) -> (r: bool)
        ensures
            r == self.spec_before(*other),
    {
        self.secs < other.secs || (self.secs == other.secs && self.nanos < other.nanos)
    }

    /// Whether `self` is no later than `other`.
    pub fn at_most(&self, other: &Timestamp) -> (r: bool)
        ensures
            r == self.spec_at_most(*other),
    {
        !other.before(self)
    }

    /// The later of two instants.
    pub fn latest(self, other: Timestamp) -> (r: Self)
        ensures
            r == self.spec_latest(other),
            self.spec_at_most(r),
            other.spec_at_most(r),
    {
        if self.before(&other) {
            other
        } else {
            self
        }
    }

    /// The current instant, read from the system clock.
    pub fn now() -> Self {
        clock_now()
    }
}

/// `chrono::Utc::now`, taken apart with `DateTime::timestamp` and
/// `DateTime::timestamp_subsec_nanos`. The clock decides the result, so
/// nothing is claimed of it.
#[verifier::external_body]
fn clock_now() -> Timestamp {
    let now = chrono::Utc::now();
    Timestamp { secs: now.timestamp(), nanos: now.timestamp_subsec_nanos() }
}

/// The order of instants is transitive.
pub proof fn lemma_at_most_transitive(a: Timestamp, b: Timestamp, c: Timestamp)
    requires
        a.spec_at_most(b),
        b.spec_at_most(c),
    ensures
        a.spec_at_most(c),
{
}

} // verus!
