//! Points in time, counted from the Unix epoch.

use vstd::prelude::*;
use chrono::{DateTime, Utc};
use std::time::SystemTime;

verus! {

/// Nanoseconds in one second.
pub const NANOS_PER_SECOND: i128 = 1_000_000_000;

/// A point in time: whole seconds since the Unix epoch and the nanoseconds
/// that have passed since that second began.
#[derive(Clone, Copy, Debug, PartialEq, Eq, Structural, Hash)]
pub struct Timestamp {
    /// Whole seconds since 1970-01-01 00:00:00 UTC.
    pub secs: i64,
    /// Nanoseconds since the last whole second.
    pub nanos: u32,
}

/// Reads the system clock and has chrono turn the reading into an instant,
/// with `DateTime::<Utc>::from`, whose seconds and nanoseconds are handed
/// back. Which instant that is depends on the clock and on nothing that
/// could be stated here. What holds of every reading is that it is no leap
/// second: chrono takes the sub-second part from the time that lies between
/// the reading and the epoch, on either side of it, and keeps it below one
/// second. A clock that stands before the epoch gives an instant with
/// negative seconds. Chrono has an instant for every reading within some
/// 262,000 years of the epoch and panics on a clock set beyond that.
#[verifier::external_body]
fn utc_now() -> (now: Timestamp)
    ensures
        now.nanos < NANOS_PER_SECOND,
{
    let now = DateTime::<Utc>::from(SystemTime::now());
    Timestamp { secs: now.timestamp(), nanos: now.timestamp_subsec_nanos() }
}

impl Timestamp {
    /// The instant as a count of nanoseconds since the epoch.
    pub open spec fn as_nanos(&self) -> int {
        self.secs * 1_000_000_000 + self.nanos
    }

    /// Whole seconds that lie between `earlier` and this instant. A part of
    /// a second does not count, whichever of the two instants comes first,
    /// so the result is negative only when this instant lies a full second
    /// or more before `earlier`.
    pub open spec fn spec_seconds_since(&self, earlier: &Timestamp) -> int {
        let elapsed = self.as_nanos() - earlier.as_nanos();
        if elapsed >= 0 {
            elapsed / 1_000_000_000
        } else {
            -((-elapsed) / 1_000_000_000)
        }
    }

    /// The instant `nanos` nanoseconds after the `secs`-th second of the
    /// epoch.
    pub fn new(secs: i64, nanos: u32) -> (t: Timestamp)
        ensures
            t.secs == secs,
            t.nanos == nanos,
    {
        Timestamp { secs, nanos }
    }

    /// The current time of the system clock. Its sub-second part is less
    /// than a full second, so that seconds and nanoseconds together count
    /// the time since the epoch.
    pub fn now() -> (now: Timestamp)
        ensures
            now.nanos < NANOS_PER_SECOND,
    {
        utc_now()
    }

    /// Whole seconds that lie between `earlier` and this instant.
    pub fn seconds_since(&self, earlier: &Timestamp) -> (seconds: i128)
        ensures
            seconds == self.spec_seconds_since(earlier),
    {
        let later_nanos: i128 = (self.secs as i128) * NANOS_PER_SECOND + (self.nanos as i128);
        let earlier_nanos: i128 = (earlier.secs as i128) * NANOS_PER_SECOND
            + (earlier.nanos as i128);
        let elapsed: i128 = later_nanos - earlier_nanos;
        elapsed / NANOS_PER_SECOND
    }
}

} // verus!
