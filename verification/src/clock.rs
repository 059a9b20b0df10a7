//! Instants, and the two things asked of the calendar: the present, and an
//! instant a number of seconds away from another.

use vstd::prelude::*;
use chrono::{DateTime, TimeDelta, Utc};

verus! {

/// An instant: whole seconds since the first of January 1970 UTC, and the
/// nanoseconds into the second.
#[derive(Clone, Copy, Debug, PartialEq, Eq, Structural)]
pub struct Timestamp {
    pub seconds: i64,
    pub nanos: u32,
}

/// Nanoseconds in a second.
pub const NANOS_PER_SECOND: u32 = 1_000_000_000;

/// The last second of the year 9999, in seconds since the start of 1970.
pub const YEAR_9999_END: i64 = 253_402_300_799;

/// Whether an instant lies from the start of 1970 to the end of 9999, a
/// range that the calendar expresses in full.
pub open spec fn in_common_range(seconds: int) -> bool {
    0 <= seconds <= YEAR_9999_END
}

/// The instant `delta` seconds after the one given, where the calendar can
/// express both.
pub uninterp spec fn shifted(seconds: int, nanos: int, delta: int) -> Option<(int, int)>;

impl Timestamp {
    /// The start of 1970, which stands for an instant that cannot be
    /// expressed.
    pub open spec fn epoch() -> Timestamp {
        Timestamp { seconds: 0, nanos: 0 }
    }

    /// The instant `delta` seconds later, or the start of 1970 where the
    /// calendar cannot express it.
    pub open spec fn plus(self, delta: int) -> Timestamp {
        match shifted(self.seconds as int, self.nanos as int, delta) {
            Some((seconds, nanos)) => Timestamp { seconds: seconds as i64, nanos: nanos as u32 },
            None => Timestamp::epoch(),
        }
    }
}

impl Default for Timestamp {
    fn default() -> (at: Timestamp)
        ensures
            at == Timestamp::epoch(),
    {
        Timestamp { seconds: 0, nanos: 0 }
    }
}

/// Calls `chrono::Utc::now`. Nothing is claimed of the instant but that it
/// is not inside a leap second, which the system clock never reports.
#[verifier::external_body]
pub(crate) fn now() -> (at: Timestamp)
    ensures
        at.nanos < NANOS_PER_SECOND,
{
    let at = Utc::now();
    Timestamp { seconds: at.timestamp(), nanos: at.timestamp_subsec_nanos() }
}

/// Calls `DateTime::checked_add_signed` with a span of whole seconds.
/// Trusted: the result is absent where an instant or the span is out of the
/// calendar's range; otherwise, outside a leap second, it lies `delta`
/// seconds later with the same nanoseconds. The calendar's range reaches
/// far beyond the years 1970 to 9999, so between two instants of those
/// years the result is present.
#[verifier::external_body]
pub(crate) fn shift(at: Timestamp, delta: i64) -> (moved: Option<Timestamp>)
    ensures
        match moved {
            Some(t) => shifted(at.seconds as int, at.nanos as int, delta as int) == Some(
                (t.seconds as int, t.nanos as int),
            ) && (at.nanos < NANOS_PER_SECOND ==> t.seconds == at.seconds + delta && t.nanos
                == at.nanos),
            None => shifted(at.seconds as int, at.nanos as int, delta as int) is None,
        },
        at.nanos < NANOS_PER_SECOND && in_common_range(at.seconds as int) && in_common_range(
            at.seconds + delta,
        ) ==> moved is Some,
{
    let start: DateTime<Utc> = DateTime::from_timestamp(at.seconds, at.nanos)?;
    let moved = start.checked_add_signed(TimeDelta::try_seconds(delta)?)?;
    Some(Timestamp { seconds: moved.timestamp(), nanos: moved.timestamp_subsec_nanos() })
}

} // verus!
