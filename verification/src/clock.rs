//! The engine's single source of wall-clock time.
//!
//! Grown-ness is a function of the current time of day compared against a
//! stored ready timestamp, both counted in whole seconds since midnight.
//! Timestamps themselves are monotone plain numbers: ready times are never
//! wrapped around midnight, so a ready time at or past the day's end is out
//! of this clock's reach and is only met by explicitly supplied timestamps.

use vstd::prelude::*;

verus! {

use crate::consts::SECONDS_PER_DAY;

/// Whether `now` is a time of day in whole seconds, as the clock hands out.
pub open spec fn is_time_of_day(now: u64) -> bool {
    now < SECONDS_PER_DAY
}

/// Relies on chrono::Timelike::num_seconds_from_midnight on the local time of
/// day (chrono::Local::now): the number of non-leap seconds since the last
/// midnight, which chrono keeps strictly below 86 400.
#[verifier::external_body]
pub(crate) fn now_secs() -> (now: u64)
    ensures
        is_time_of_day(now),
{
    chrono::Timelike::num_seconds_from_midnight(&chrono::Local::now().time()) as u64
}

} // verus!
