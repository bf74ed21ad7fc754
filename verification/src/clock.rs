//! Points in time as the game stores them: local wall-clock time, kept
//! as whole seconds and nanoseconds.
use vstd::prelude::*;

verus! {

/// A local date and time: seconds since 1970-01-01 00:00:00 (of local
/// time, not UTC) and nanoseconds into the second. The nanoseconds reach
/// past a billion only during a leap second.
#[derive(Debug, Clone, Copy, PartialEq, Eq, Structural)]
pub struct Timestamp {
    pub secs: i64,
    pub nanos: u32,
}

impl Timestamp {
    /// The nanoseconds are in the range a date-time allows.
    pub open spec fn wf(&self) -> bool {
        self.nanos < 2_000_000_000
    }
}

/// chrono `Local::now().naive_local()`, taken apart into seconds and
/// nanoseconds. The time is whatever the clock says: only the range of the
/// nanoseconds is stated. (chrono panics if the local offset pushes the
/// date out of its range, which no present-day clock does.)
#[verifier::external_body]
pub(crate) fn now_local() -> (t: Timestamp)
    ensures
        t.wf(),
{
    let now = chrono::Local::now().naive_local().and_utc();
    Timestamp { secs: now.timestamp(), nanos: now.timestamp_subsec_nanos() }
}

} // verus!
