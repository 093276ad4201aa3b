use vstd::prelude::*;

verus! {

/// An instant as seconds and nanoseconds since the Unix epoch.
#[derive(Clone, Copy, Debug, PartialEq, Eq, Structural)]
pub struct Timestamp {
    pub secs: i64,
    pub nanos: u32,
}

/// `a` is at or before `b`, comparing seconds first and nanoseconds second.
pub open spec fn at_or_before(a: Timestamp, b: Timestamp) -> bool {
    a.secs < b.secs || (a.secs == b.secs && a.nanos <= b.nanos)
}

/// Seconds added to an instant, saturating at the largest representable second.
pub open spec fn spec_plus_seconds(t: Timestamp, s: i64) -> Timestamp
    recommends
        s >= 0,
{
    let sum = t.secs + s;
    Timestamp { secs: if sum > i64::MAX { i64::MAX } else { sum as i64 }, nanos: t.nanos }
}

impl Timestamp {
    pub fn is_at_or_before(&self, other: &Timestamp) -> (r: bool)
        ensures
            r == at_or_before(*self, *other),
    {
        self.secs < other.secs || (self.secs == other.secs && self.nanos <= other.nanos)
    }

    pub fn plus_seconds(&self, s: i64) -> (r: Timestamp)
        requires
            s >= 0,
        ensures
            r == spec_plus_seconds(*self, s),
    {
        let secs: i64 = if self.secs > i64::MAX - s {
            i64::MAX
        } else {
            self.secs + s
        };
        Timestamp { secs, nanos: self.nanos }
    }
}

/// Relies on chrono::Local::now: the current instant, read from the system clock.
/// Nothing is promised of the value.
#[verifier::external_body]
pub(crate) fn now() -> (r: Timestamp) {
    let t = chrono::Local::now();
    Timestamp { secs: t.timestamp(), nanos: t.timestamp_subsec_nanos() }
}

} // verus!
