use vstd::prelude::*;

verus! {

/// A point in time in UTC: whole seconds since the Unix epoch, and the
/// nanoseconds past that second (a leap second shows as 1e9 or more).
#[derive(Debug, Clone, Copy, PartialEq, Eq, Structural)]
pub struct Timestamp {
    pub seconds: i64,
    pub nanos: u32,
}

/// `a` is the same instant as `b` or later.
pub open spec fn at_or_after(a: Timestamp, b: Timestamp) -> bool {
    a.seconds > b.seconds || (a.seconds == b.seconds && a.nanos >= b.nanos)
}

impl Timestamp {
    /// Whether this instant is the same as `other` or later.
    pub fn is_at_or_after(&self, other: &Timestamp) -> (r: bool)
        ensures
            r == at_or_after(*self, *other),
    {
        self.seconds > other.seconds || (self.seconds == other.seconds && self.nanos
            >= other.nanos)
    }
}

/// Relies on chrono::Utc::now, read through `DateTime::timestamp` and
/// `DateTime::timestamp_subsec_nanos`: the current time, whose sub-second part
/// chrono keeps below two billion nanoseconds. `now` measures from the Unix
/// epoch and returns only for a clock past it.
#[verifier::external_body]
pub(crate) fn now() -> (r: Timestamp)
    ensures
        r.seconds >= 0,
        r.nanos < 2_000_000_000,
{
    let t = chrono::Utc::now();
    Timestamp { seconds: t.timestamp(), nanos: t.timestamp_subsec_nanos() }
}

} // verus!
