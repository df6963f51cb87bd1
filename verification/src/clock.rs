//! The wall clock and the local calendar, both read through `chrono`.

use chrono::TimeZone;
use vstd::prelude::*;

verus! {

/// Last second of the year 9999, counted from the UNIX epoch. Every instant
/// up to it can be written as a calendar date.
pub const MAX_DISPLAY_SECS: i64 = 253_402_300_799;

/// Nanoseconds in a second.
pub const NANOS_PER_SEC: u32 = 1_000_000_000;

/// Calls `chrono::Utc::now` and `DateTime::timestamp_millis`: the current
/// time in milliseconds since the UNIX epoch. `now` measures from the epoch
/// and panics on a clock set before it, so what is returned is never
/// negative; nothing else is known of it.
#[verifier::external_body]
pub(crate) fn now_millis() -> (millis: i64)
    ensures
        millis >= 0,
{
    chrono::Utc::now().timestamp_millis()
}

/// Calls `TimeZone::timestamp_opt` on `chrono::Utc`, moves the instant to
/// `chrono::Local` and writes it with `to_string`. `timestamp_opt` yields an
/// instant exactly for the seconds of the dates chrono covers, with
/// nanoseconds below a second, or below two in the last second of a minute.
/// The text depends on the machine's time zone; nothing is claimed of it.
#[verifier::external_body]
pub(crate) fn local_time_text(secs: i64, nanos: u32) -> (text: Option<String>)
    ensures
        text is Some <==> in_calendar(secs, nanos),
{
    chrono::Utc.timestamp_opt(secs, nanos).single().map(
        |instant| instant.with_timezone(&chrono::Local).to_string(),
    )
}

/// Whether an instant in milliseconds since the epoch falls within the years
/// that can always be written as a local date.
pub open spec fn displayable(millis: u64) -> bool {
    millis / 1000 <= MAX_DISPLAY_SECS
}

/// Writes an instant, given in milliseconds since the UNIX epoch, as a date
/// and time of the local time zone. The instant is split into whole seconds
/// and the nanoseconds beyond them; there is a text exactly when the calendar
/// holds that instant, which it always does before the year 10000.
pub fn local_time_string(tm: u64) -> (text: Option<String>)
    ensures
        text is Some <==> in_calendar(whole_seconds(tm), subsecond_nanos(tm)),
        displayable(tm) ==> text is Some,
{
    let secs: i64 = (tm / 1000) as i64;
    let nanos: u32 = ((tm % 1000) * 1_000_000) as u32;
    local_time_text(secs, nanos)
}

/// First second of the first day chrono's calendar holds (January 1 of the
/// year -262143), counted from the UNIX epoch.
pub const MIN_CALENDAR_SECS: i64 = -8_334_601_228_800;

/// Last second of the last day chrono's calendar holds (December 31 of the
/// year 262142), counted from the UNIX epoch.
pub const MAX_CALENDAR_SECS: i64 = 8_210_266_876_799;

/// Whether chrono's calendar holds the instant that lies `secs` seconds and
/// `nanos` nanoseconds after the UNIX epoch. The seconds must fall on a day
/// the calendar holds. The nanoseconds must stay below a second, but for the
/// last second of a minute, which may be followed by a leap second and so
/// takes nanoseconds below two seconds.
pub open spec fn in_calendar(secs: i64, nanos: u32) -> bool {
    &&& MIN_CALENDAR_SECS <= secs <= MAX_CALENDAR_SECS
    &&& nanos < NANOS_PER_SEC || (nanos < 2 * NANOS_PER_SEC && secs as int % 60 == 59)
}

/// The whole seconds of an instant given in milliseconds.
pub open spec fn whole_seconds(millis: u64) -> i64 {
    (millis / 1000) as i64
}

/// What is left of an instant given in milliseconds beyond its whole
/// seconds, in nanoseconds.
pub open spec fn subsecond_nanos(millis: u64) -> u32 {
    ((millis % 1000) * 1_000_000) as u32
}

/// An instant given in milliseconds has a text exactly when its seconds do
/// not pass the last second of the calendar.
pub proof fn lemma_text_up_to_the_last_day(millis: u64)
    ensures
        in_calendar(whole_seconds(millis), subsecond_nanos(millis)) <==> millis / 1000
            <= MAX_CALENDAR_SECS,
        displayable(millis) ==> in_calendar(whole_seconds(millis), subsecond_nanos(millis)),
{
}

} // verus!
