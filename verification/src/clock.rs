//! Reading times: the two places where the chrono crates do the work.
//!
//! Parsing a time from text and turning an instant into the wall clock of
//! Asia/Kolkata are left to `chrono` and `chrono-tz`. Their results are
//! named here by two uninterpreted functions; everything the crate decides
//! about a time is decided on the value that comes back.

use crate::time::{LocalDate, LocalDateTime, TimeOfDay};
use chrono::{Datelike, Timelike};
use vstd::prelude::*;

verus! {

/// What `chrono::NaiveTime::parse_from_str` makes of `text` under the
/// strftime pattern `pattern`: the time it reads, or `None` where it reports
/// an error.
pub uninterp spec fn parsed_clock(text: Seq<char>, pattern: Seq<char>) -> Option<TimeOfDay>;

/// What the wall clock of the zone Asia/Kolkata shows at `secs` seconds and
/// `nanos` nanoseconds after 1970-01-01 00:00:00 UTC, as
/// `chrono::DateTime::from_timestamp` and `chrono_tz::Asia::Kolkata` compute
/// it; `None` where chrono cannot represent the instant.
pub uninterp spec fn kolkata_wall_clock(secs: int, nanos: int) -> Option<LocalDateTime>;

/// The pattern of a time given as hour and minute.
pub open spec fn hour_minute_pattern() -> Seq<char> {
    "%H:%M"@
}

/// The pattern of a time given with seconds and an optional fraction.
pub open spec fn hour_minute_second_pattern() -> Seq<char> {
    "%H:%M:%S%.f"@
}

/// Calls `chrono::NaiveTime::parse_from_str(text, pattern)` and hands out the
/// fields of the time it returns. Trusted: the result is the one named by
/// [`parsed_clock`], and a time that chrono returns has its hour below 24,
/// its minute and second below 60 and its nanosecond part below two billion.
#[verifier::external_body]
fn parse_clock(text: &str, pattern: &str) -> (r: Option<TimeOfDay>)
    ensures
        r == parsed_clock(text@, pattern@),
        r matches Some(t) ==> t.wf(),
{
    match chrono::NaiveTime::parse_from_str(text, pattern) {
        Ok(t) => Some(
            TimeOfDay { hour: t.hour(), minute: t.minute(), second: t.second(), nano: t.nanosecond() },
        ),
        Err(_) => None,
    }
}

/// Calls `chrono::DateTime::from_timestamp(secs, nanos)`, moves the instant
/// to `chrono_tz::Asia::Kolkata` with `with_timezone`, and hands out the
/// fields of the local date and time. Trusted: the result is the one named by
/// [`kolkata_wall_clock`], and what chrono returns is a date of the calendar
/// with a time whose fields are in range.
#[verifier::external_body]
fn kolkata_clock(secs: i64, nanos: u32) -> (r: Option<LocalDateTime>)
    ensures
        r == kolkata_wall_clock(secs as int, nanos as int),
        r matches Some(t) ==> t.wf(),
{
    let local = chrono::DateTime::from_timestamp(secs, nanos)?.with_timezone(
        &chrono_tz::Asia::Kolkata,
    );
    Some(
        LocalDateTime {
            date: LocalDate { year: local.year(), month: local.month(), day: local.day() },
            time: TimeOfDay {
                hour: local.hour(),
                minute: local.minute(),
                second: local.second(),
                nano: local.nanosecond(),
            },
        },
    )
}

/// Reads a time written as hour and minute, such as `17:45`. `None` where the
/// text is not such a time.
pub fn parse_hour_minute(text: &str) -> (r: Option<TimeOfDay>)
    ensures
        r == parsed_clock(text@, hour_minute_pattern()),
        r matches Some(t) ==> t.wf(),
{
    parse_clock(text, "%H:%M")
}

/// Reads a time written with seconds and an optional fraction, such as
/// `17:45:10.250`. `None` where the text is not such a time.
pub fn parse_hour_minute_second(text: &str) -> (r: Option<TimeOfDay>)
    ensures
        r == parsed_clock(text@, hour_minute_second_pattern()),
        r matches Some(t) ==> t.wf(),
{
    parse_clock(text, "%H:%M:%S%.f")
}

/// The local date and time in Asia/Kolkata at the instant `secs` seconds and
/// `nanos` nanoseconds after the Unix epoch. `None` where the instant is out
/// of the range that can be represented.
pub fn local_time(secs: i64, nanos: u32) -> (r: Option<LocalDateTime>)
    ensures
        r == kolkata_wall_clock(secs as int, nanos as int),
        r matches Some(t) ==> t.wf(),
{
    kolkata_clock(secs, nanos)
}

} // verus!
