//! Points in time, as the job records keep them.

use vstd::prelude::*;

verus! {

/// A point in time: whole seconds since 1970-01-01T00:00:00Z, and the
/// nanoseconds that have passed within that second.
///
/// Timestamps are ordered by their seconds first and by their nanoseconds
/// second, which is also the order that `derive` gives the two fields.
#[derive(Debug, Clone, Copy, PartialEq, Eq, Structural, PartialOrd, Ord, Hash)]
pub struct Timestamp {
    pub secs: i64,
    pub nanos: u32,
}

impl Timestamp {
    /// `self` is not later than `other`.
    pub open spec fn at_or_before(self, other: Timestamp) -> bool {
        self.secs < other.secs || (self.secs == other.secs && self.nanos <= other.nanos)
    }

    /// `self` is earlier than `other`.
    pub open spec fn before(self, other: Timestamp) -> bool {
        self.secs < other.secs || (self.secs == other.secs && self.nanos < other.nanos)
    }

    /// The later of the two; `self` where they are equal.
    pub open spec fn latest(self, other: Timestamp) -> Timestamp {
        if other.at_or_before(self) {
            self
        } else {
            other
        }
    }

    /// The timestamp with the given seconds and nanoseconds.
    pub fn new(secs: i64, nanos: u32) -> (t: Timestamp)
        ensures
            t == (Timestamp { secs, nanos }),
    {
        Timestamp { secs, nanos }
    }

    /// Whether `self` is not later than `other`.
    pub fn is_at_or_before(&self, other: &Timestamp) -> (r: bool)
        ensures
            r == self.at_or_before(*other),
    {
        self.secs < other.secs || (self.secs == other.secs && self.nanos <= other.nanos)
    }

    /// Whether `self` is earlier than `other`.
    pub fn is_before(&self, other: &Timestamp) -> (r: bool)
        ensures
            r == self.before(*other),
    {
        self.secs < other.secs || (self.secs == other.secs && self.nanos < other.nanos)
    }

    /// The later of the two timestamps.
    pub fn later_of(self, other: Timestamp) -> (t: Timestamp)
        ensures
            t == self.latest(other),
    {
        if other.is_at_or_before(&self) {
            self
        } else {
            other
        }
    }
}

/// Any two timestamps are comparable, and the order is reflexive,
/// antisymmetric and transitive.
pub proof fn lemma_timestamps_totally_ordered(a: Timestamp, b: Timestamp, c: Timestamp)
    ensures
        a.at_or_before(a),
        a.at_or_before(b) || b.at_or_before(a),
        a.at_or_before(b) && b.at_or_before(a) ==> a == b,
        a.at_or_before(b) && b.at_or_before(c) ==> a.at_or_before(c),
        a.before(b) <==> a.at_or_before(b) && a != b,
{
}

/// Reads the system clock through `chrono::Utc::now` and splits the reading
/// with `DateTime::timestamp` and `DateTime::timestamp_subsec_nanos`.
///
/// Nothing is claimed of the reading: the clock may be set back between two
/// calls, so a later call may well return an earlier time. `Utc::now` panics
/// where the clock stands before 1970.
#[verifier::external_body]
pub(crate) fn read_clock() -> Timestamp
{
    let now = chrono::Utc::now();
    Timestamp { secs: now.timestamp(), nanos: now.timestamp_subsec_nanos() }
}

} // verus!
