//! Calendar time: the text of an instant, which is chrono's, and the day
//! that an instant falls on. Nothing here reads a clock: the instant that
//! counts as now is handed in.

use chrono::{DateTime, Utc};
use vstd::prelude::*;
use crate::domain::Timestamp;

verus! {

/// The seconds of one day.
pub const SECONDS_PER_DAY: i64 = 86_400;

/// The RFC 3339 text of the instant `secs` seconds and `nanos` nanoseconds
/// after 1970-01-01T00:00:00Z, as chrono writes it for a UTC date and time;
/// `None` where chrono has no date and time for these numbers.
pub uninterp spec fn rfc3339_text(secs: i64, nanos: u32) -> Option<Seq<char>>;

/// The view of an optional text.
pub open spec fn text_view(text: Option<String>) -> Option<Seq<char>> {
    match text {
        Some(t) => Some(t@),
        None => None,
    }
}

/// Calls `chrono::DateTime::<Utc>::from_timestamp` and, on the date and time
/// that it gives, `chrono::DateTime::to_rfc3339`.
///
/// Trusted: the result is the text that chrono writes for these two numbers,
/// and the same numbers always give the same text. Nothing is claimed of
/// what the text holds, nor of the numbers for which chrono gives none.
#[verifier::external_body]
pub(crate) fn format_rfc3339(secs: i64, nanos: u32) -> (text: Option<String>)
    ensures
        text_view(text) == rfc3339_text(secs, nanos),
{
    match DateTime::<Utc>::from_timestamp(secs, nanos) {
        Some(instant) => Some(instant.to_rfc3339()),
        None => None,
    }
}

/// The first second of the UTC day that `secs` falls on.
pub open spec fn day_start(secs: i64) -> int {
    secs - secs % SECONDS_PER_DAY
}

/// The last second of the UTC day that `secs` falls on.
pub open spec fn day_end(secs: i64) -> int {
    day_start(secs) + SECONDS_PER_DAY - 1
}

/// The day that `secs` falls on lies within the range of `i64` seconds.
pub open spec fn day_fits(secs: i64) -> bool {
    i64::MIN <= day_start(secs) && day_end(secs) <= i64::MAX
}

/// `start` and `end` are the first and the last whole second of one UTC day.
pub open spec fn is_day(start: Timestamp, end: Timestamp) -> bool {
    &&& start.secs % SECONDS_PER_DAY == 0
    &&& end.secs == start.secs + SECONDS_PER_DAY - 1
    &&& start.nanos == 0
    &&& end.nanos == 0
}

/// The UTC day that `secs` falls on, as its first and its last whole second.
pub open spec fn day_of(secs: i64) -> (Timestamp, Timestamp) {
    (Timestamp::second(day_start(secs) as i64), Timestamp::second(day_end(secs) as i64))
}

/// Today, for whoever reads the clock: the UTC day that the instant `now`
/// falls on, from 00:00:00 to 23:59:59, or `None` where that day does not
/// fit the range of `i64` seconds. The nanoseconds of `now` play no part.
pub fn get_today_start_end_date(now: Timestamp) -> (today: Option<(Timestamp, Timestamp)>)
    ensures
        day_fits(now.secs) ==> today == Some(day_of(now.secs)),
        !day_fits(now.secs) ==> today is None,
        today matches Some((start, end)) ==> is_day(start, end) && Timestamp::second(
            now.secs,
        ).within(start, end),
{
    let into_day: i64 = match now.secs.checked_rem_euclid(SECONDS_PER_DAY) {
        Some(into_day) => into_day,
        None => {
            return None;
        },
    };
    let start: i64 = match now.secs.checked_sub(into_day) {
        Some(start) => start,
        None => {
            return None;
        },
    };
    let end: i64 = match start.checked_add(SECONDS_PER_DAY - 1) {
        Some(end) => end,
        None => {
            return None;
        },
    };
    assert(start % SECONDS_PER_DAY == 0) by {
        vstd::arithmetic::div_mod::lemma_fundamental_div_mod(now.secs as int, 86_400);
        vstd::arithmetic::div_mod::lemma_mod_multiples_basic(now.secs as int / 86_400, 86_400);
    }
    Some((Timestamp { secs: start, nanos: 0 }, Timestamp { secs: end, nanos: 0 }))
}

} // verus!
