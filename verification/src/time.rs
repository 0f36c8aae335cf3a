//! Plain representation of a point in time: seconds since the Unix epoch
//! and the nanoseconds into that second. The wire formats carry richer
//! date types; the dashboard only stores and compares these values.

use vstd::prelude::*;

verus! {

/// Seconds since the Unix epoch plus nanoseconds into the second.
#[derive(Clone, Copy, Debug, PartialEq, Eq, Structural)]
pub struct Timestamp {
    pub secs: i64,
    pub nanos: u32,
}

impl Timestamp {
    /// The subsecond part stays below two seconds' worth of nanoseconds
    /// (one full second more than usual may appear on a leap second).
    pub open spec fn wf(self) -> bool {
        self.nanos < 2_000_000_000
    }

    /// The timestamp for a given second boundary.
    pub fn at_secs(secs: i64) -> (r: Timestamp)
        ensures
            r == (Timestamp { secs, nanos: 0u32 }),
            r.wf(),
    {
        Timestamp { secs, nanos: 0 }
    }
}

impl Default for Timestamp {
    /// The zero value, used by the wire formats as the "unset" sentinel.
    fn default() -> (r: Timestamp)
        ensures
            r == (Timestamp { secs: 0i64, nanos: 0u32 }),
    {
        Timestamp { secs: 0, nanos: 0 }
    }
}

/// Relies on `chrono::Utc::now`: the current time. Nothing is promised of
/// which instant comes back; the subsecond part stays in the range that
/// `chrono` documents, which allows for a leap second.
#[verifier::external_body]
pub(crate) fn now_utc() -> (t: Timestamp)
    ensures
        t.wf(),
{
    let now = chrono::Utc::now();
    Timestamp { secs: now.timestamp(), nanos: now.timestamp_subsec_nanos() }
}

} // verus!
