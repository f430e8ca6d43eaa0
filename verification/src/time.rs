//! Points in time and spans of time.

use vstd::prelude::*;

verus! {

/// A point in time: seconds since the Unix epoch and the nanoseconds into that
/// second. A leap second is the second before it with its nanoseconds running
/// on past a thousand million, so points are ordered by the pair.
#[derive(Clone, Copy, Debug, PartialEq, Eq, Structural)]
pub struct Timestamp {
    pub secs: i64,
    pub nanos: u32,
}

impl Timestamp {
    /// Whether this point lies before `other`.
    pub open spec fn before(self, other: Timestamp) -> bool {
        self.secs < other.secs || (self.secs == other.secs && self.nanos < other.nanos)
    }

    /// Whether this point lies before `other`.
    pub fn is_before(self, other: Timestamp) -> (yes: bool)
        ensures
            yes == self.before(other),
    {
        self.secs < other.secs || (self.secs == other.secs && self.nanos < other.nanos)
    }
}

/// A span of time: whole seconds and the nanoseconds beyond them.
#[derive(Clone, Copy, Debug, PartialEq, Eq, Structural)]
pub struct Span {
    pub secs: u64,
    pub nanos: u32,
}

impl Span {
    /// The nanoseconds stay below a full second.
    pub open spec fn valid(self) -> bool {
        self.nanos < 1_000_000_000
    }
}

/// Points in time are in order: of two, one lies before the other exactly when
/// they differ, never both ways; an earlier second lies before a later one
/// whatever the nanoseconds, and within a second the nanoseconds decide.
pub proof fn time_runs_one_way(a: Timestamp, b: Timestamp, yes: bool)
    requires
        call_ensures(Timestamp::is_before, (a, b), yes),
    ensures
        a.secs < b.secs ==> yes,
        a.secs > b.secs ==> !yes,
        a.secs == b.secs ==> (yes <==> a.nanos < b.nanos),
        yes ==> !b.before(a),
        !yes && a != b ==> b.before(a),
{
}

} // verus!
