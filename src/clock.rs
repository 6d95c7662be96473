use chrono::Local;
use vstd::prelude::*;

verus! {

/// An instant as the local clock showed it: seconds since the Unix epoch,
/// the nanoseconds past that second, and the local offset from UTC.
#[derive(Debug, Clone, Copy, PartialEq, Eq, Structural)]
pub struct Timestamp {
    pub secs: i64,
    pub nanos: u32,
    pub offset_secs: i32,
}

impl Timestamp {
    /// The nanoseconds stay under two seconds (a leap second runs past one),
    /// and the offset stays within a day either way.
    pub open spec fn wf(self) -> bool {
        &&& self.nanos < 2_000_000_000
        &&& -86_400 < self.offset_secs < 86_400
    }
}

/// Relies on chrono's `Local::now`, read through `DateTime::timestamp`,
/// `DateTime::timestamp_subsec_nanos` (below two billion: chrono keeps the
/// fraction of a leap second there) and `FixedOffset::local_minus_utc` (an
/// offset can only be built strictly within a day of UTC).
#[verifier::external_body]
pub(crate) fn local_time() -> (r: Timestamp)
    ensures
        r.wf(),
{
    let now = Local::now();
    Timestamp {
        secs: now.timestamp(),
        nanos: now.timestamp_subsec_nanos(),
        offset_secs: now.offset().local_minus_utc(),
    }
}

} // verus!
