//! The wall clock that stamps log entries.
use vstd::prelude::*;

verus! {

/// A wall-clock time of day, as the log shows it.
#[derive(Clone, Copy, PartialEq, Eq, Structural, Debug)]
pub struct ClockTime {
    pub hour: u8,
    pub minute: u8,
    pub second: u8,
}

impl ClockTime {
    pub open spec fn wf(self) -> bool {
        self.hour < 24 && self.minute < 60 && self.second < 60
    }
}

/// Relies on time::OffsetDateTime::now_utc and time::UtcOffset: the current
/// wall-clock time of day, shifted by the given offset east of UTC (an
/// out-of-range offset falls back to UTC). The machine's clock decides the
/// value; whatever it reports is a valid time of day.
#[verifier::external_body]
pub(crate) fn local_clock_time(offset_seconds: i32) -> (r: ClockTime)
    ensures
        r.wf(),
{
    let offset = time::UtcOffset::from_whole_seconds(offset_seconds).unwrap_or(
        time::UtcOffset::UTC,
    );
    let (hour, minute, second) = time::OffsetDateTime::now_utc().to_offset(offset).time().as_hms();
    ClockTime { hour, minute, second }
}

} // verus!
