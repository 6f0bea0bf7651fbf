//! Instants of time as plain integers, and the system clock.

use vstd::prelude::*;

verus! {

/// Nanoseconds in one second.
pub const NANOS_PER_SECOND: i128 = 1_000_000_000;

/// Nanoseconds in one minute.
pub const NANOS_PER_MINUTE: i128 = 60_000_000_000;

/// An instant on the UTC time line: whole seconds since 1970-01-01T00:00:00Z
/// and the nanoseconds that follow them.
#[derive(Clone, Copy, Debug, PartialEq, Eq, Structural)]
pub struct Timestamp {
    pub secs: i64,
    pub nanos: u32,
}

impl Timestamp {
    /// The instant as one number: nanoseconds since the epoch.
    pub open spec fn total_nanos(self) -> int {
        self.secs as int * NANOS_PER_SECOND as int + self.nanos as int
    }
}

/// Whole minutes from `start` to `end`, rounded towards negative infinity.
pub open spec fn minutes_between(start: Timestamp, end: Timestamp) -> int {
    (end.total_nanos() - start.total_nanos()) / (NANOS_PER_MINUTE as int)
}

/// The remainder of that division is never negative: the minutes counted
/// are the most that fit between `start` and `end`.
pub proof fn lemma_minutes_between_is_floor(start: Timestamp, end: Timestamp)
    ensures
        minutes_between(start, end) * NANOS_PER_MINUTE <= end.total_nanos() - start.total_nanos(),
        end.total_nanos() - start.total_nanos() < (minutes_between(start, end) + 1)
            * NANOS_PER_MINUTE,
        i64::MIN <= minutes_between(start, end) <= i64::MAX,
{
}

/// `chrono::Utc::now`, as the seconds that `DateTime::timestamp` gives and
/// the nanoseconds that `DateTime::timestamp_subsec_nanos` gives. Nothing
/// is claimed of the instant that comes back. `Utc::now` panics on a
/// machine whose clock stands before 1970.
#[verifier::external_body]
pub(crate) fn now() -> (t: Timestamp) {
    let t = chrono::Utc::now();
    Timestamp { secs: t.timestamp(), nanos: t.timestamp_subsec_nanos() }
}

} // verus!
