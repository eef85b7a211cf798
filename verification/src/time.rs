//! Instants on the UTC time line, and the clock.

use vstd::prelude::*;

verus! {

/// An instant: whole seconds since 1970-01-01T00:00:00Z and the nanoseconds
/// within that second. Instants are ordered by seconds, then nanoseconds.
#[derive(Debug, Clone, Copy, PartialEq, Eq, Structural)]
pub struct Timestamp {
    /// Seconds since the epoch; negative before it.
    pub secs: i64,
    /// Nanoseconds since the last second boundary.
    pub nanos: u32,
}

impl Timestamp {
    /// `self` lies strictly after `other`.
    pub open spec fn after(self, other: Timestamp) -> bool {
        self.secs > other.secs || (self.secs == other.secs && self.nanos > other.nanos)
    }

    /// `self` shifted by `delta` seconds, where the seconds still fit.
    pub open spec fn shifted(self, delta: int) -> Option<Timestamp> {
        if i64::MIN <= self.secs + delta <= i64::MAX {
            Some(Timestamp { secs: (self.secs + delta) as i64, nanos: self.nanos })
        } else {
            None
        }
    }

    /// Tells whether `self` lies strictly after `other`.
    pub fn is_after(&self, other: &Timestamp) -> (r: bool)
        ensures
            r == self.after(*other),
    {
        self.secs > other.secs || (self.secs == other.secs && self.nanos > other.nanos)
    }

    /// The instant `delta` seconds away, or `None` where the seconds would
    /// leave the range of `i64`.
    pub fn plus_seconds(&self, delta: i64) -> (r: Option<Timestamp>)
        ensures
            r == self.shifted(delta as int),
    {
        match self.secs.checked_add(delta) {
            Some(secs) => Some(Timestamp { secs, nanos: self.nanos }),
            None => None,
        }
    }
}

/// The later of two optional end instants, where an absent one stands for
/// "never ends" and so is later than every instant.
pub open spec fn later_end(a: Option<Timestamp>, b: Option<Timestamp>) -> Option<Timestamp> {
    match (a, b) {
        (Some(x), Some(y)) => if y.after(x) {
            Some(y)
        } else {
            Some(x)
        },
        _ => None,
    }
}

/// Reads the clock through `chrono::Utc::now`, keeping the instant's seconds
/// (`DateTime::timestamp`) and nanoseconds (`DateTime::timestamp_subsec_nanos`).
/// Nothing is claimed of the instant read. The call panics only where the
/// system clock is set before 1970.
#[verifier::external_body]
pub(crate) fn clock_now() -> (now: Timestamp) {
    let now = chrono::Utc::now();
    Timestamp { secs: now.timestamp(), nanos: now.timestamp_subsec_nanos() }
}

} // verus!
