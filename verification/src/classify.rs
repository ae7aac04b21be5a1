//! Classification of one day's attendance records.
//!
//! A record is judged against two fixed thresholds: arrival after 17:45 is
//! late, and a check-out more than thirty minutes before the moment of
//! judging counts as absence. A record without a check-out is absent outright.

use crate::clock::{hour_minute_pattern, parse_hour_minute, parsed_clock};
use crate::text::same_text;
use crate::time::TimeOfDay;
use vstd::prelude::*;

verus! {

/// One member's raw attendance for the current day.
#[derive(Clone, Debug, PartialEq, Eq)]
pub struct MemberRecord {
    pub name: String,
    /// Arrival as `HH:MM`, or any other text where none was recorded.
    pub check_in: String,
    /// Departure as `HH:MM`, or the absent marker.
    pub check_out: String,
}

/// The texts of a [`MemberRecord`].
pub struct RecordView {
    pub name: Seq<char>,
    pub check_in: Seq<char>,
    pub check_out: Seq<char>,
}

impl View for MemberRecord {
    type V = RecordView;

    open spec fn view(&self) -> RecordView {
        RecordView { name: self.name@, check_in: self.check_in@, check_out: self.check_out@ }
    }
}

impl DeepView for MemberRecord {
    type V = RecordView;

    open spec fn deep_view(&self) -> RecordView {
        self@
    }
}

/// Where a member stands for the day.
#[derive(Clone, Copy, Debug, PartialEq, Eq, Structural)]
pub enum AttendanceStatus {
    Absent,
    Late,
    Present,
}

/// The outcome of judging one record.
#[derive(Clone, Copy, Debug, PartialEq, Eq, Structural)]
pub struct Classification {
    pub status: AttendanceStatus,
    /// The member checked out more than thirty minutes ago and is counted
    /// with the absentees, whatever the status says.
    pub absent_by_timeout: bool,
}

/// The hour of the late threshold.
pub const LATE_HOUR: u32 = 17;

/// The minute of the late threshold.
pub const LATE_MINUTE: u32 = 45;

/// Minutes after check-out from which a member counts as absent.
pub const TIMEOUT_MINUTES: u32 = 30;

/// The latest arrival that is still on time: 17:45 sharp.
pub open spec fn late_threshold() -> TimeOfDay {
    TimeOfDay { hour: LATE_HOUR, minute: LATE_MINUTE, second: 0, nano: 0 }
}

/// Thirty minutes, in nanoseconds.
pub open spec fn timeout_nanos() -> int {
    TIMEOUT_MINUTES * 60 * 1_000_000_000
}

/// The texts that stand for "no check-out recorded".
pub open spec fn absent_marker(text: Seq<char>) -> bool {
    text == "Absent"@ || text == "00:00:00"@
}

/// An arrival that was read and lies strictly after the late threshold.
/// An arrival that could not be read is not late.
pub open spec fn arrived_late(check_in: Option<TimeOfDay>) -> bool {
    check_in matches Some(t) && t.is_after(late_threshold())
}

/// A departure that was read and lies more than thirty minutes before `now`.
/// A departure that could not be read has not timed out.
pub open spec fn left_long_ago(check_out: Option<TimeOfDay>, now: TimeOfDay) -> bool {
    check_out matches Some(t) && now.nanos_since(t) > timeout_nanos()
}

/// The outcome for a record whose times have been read.
pub open spec fn classification_of_readings(
    marked_absent: bool,
    check_in: Option<TimeOfDay>,
    check_out: Option<TimeOfDay>,
    now: TimeOfDay,
) -> Classification {
    if marked_absent {
        Classification { status: AttendanceStatus::Absent, absent_by_timeout: false }
    } else {
        Classification {
            status: if arrived_late(check_in) {
                AttendanceStatus::Late
            } else {
                AttendanceStatus::Present
            },
            absent_by_timeout: left_long_ago(check_out, now),
        }
    }
}

/// The outcome for a record, judged at the time of day `now`.
pub open spec fn classification(record: RecordView, now: TimeOfDay) -> Classification {
    classification_of_readings(
        absent_marker(record.check_out),
        parsed_clock(record.check_in, hour_minute_pattern()),
        parsed_clock(record.check_out, hour_minute_pattern()),
        now,
    )
}

/// Whether `text` is the absent marker.
pub fn is_absent_marker(text: &str) -> (marked: bool)
    ensures
        marked == absent_marker(text@),
{
    same_text(text, "Absent") || same_text(text, "00:00:00")
}

/// Whether an arrival, as far as it could be read, is late.
pub fn is_late_reading(check_in: Option<TimeOfDay>) -> (late: bool)
    ensures
        late == arrived_late(check_in),
{
    match check_in {
        Some(t) => {
            let threshold = TimeOfDay { hour: LATE_HOUR, minute: LATE_MINUTE, second: 0, nano: 0 };
            t.later_than(&threshold)
        },
        None => false,
    }
}

/// Whether a departure, as far as it could be read, lies more than thirty
/// minutes before `now`.
pub fn is_timed_out_reading(check_out: Option<TimeOfDay>, now: &TimeOfDay) -> (timed_out: bool)
    ensures
        timed_out == left_long_ago(check_out, *now),
{
    match check_out {
        Some(t) => now.elapsed_since(&t) > TIMEOUT_MINUTES as i128 * 60 * 1_000_000_000,
        None => false,
    }
}

/// Whether the arrival time `time`, written as `HH:MM`, is after 17:45.
/// A text that is no such time is not late.
pub fn is_late(time: &str) -> (late: bool)
    ensures
        late == arrived_late(parsed_clock(time@, hour_minute_pattern())),
{
    is_late_reading(parse_hour_minute(time))
}

/// Whether the departure time `time`, written as `HH:MM`, lies more than
/// thirty minutes before `now`. A text that is no such time has not timed out.
pub fn absent_for_more_than_thirty_min(time: &str, now: &TimeOfDay) -> (timed_out: bool)
    ensures
        timed_out == left_long_ago(parsed_clock(time@, hour_minute_pattern()), *now),
{
    is_timed_out_reading(parse_hour_minute(time), now)
}

/// Judges a record whose times have been read.
pub fn classify_readings(
    marked_absent: bool,
    check_in: Option<TimeOfDay>,
    check_out: Option<TimeOfDay>,
    now: &TimeOfDay,
) -> (outcome: Classification)
    ensures
        outcome == classification_of_readings(marked_absent, check_in, check_out, *now),
{
    if marked_absent {
        Classification { status: AttendanceStatus::Absent, absent_by_timeout: false }
    } else {
        let status = if is_late_reading(check_in) {
            AttendanceStatus::Late
        } else {
            AttendanceStatus::Present
        };
        Classification { status, absent_by_timeout: is_timed_out_reading(check_out, now) }
    }
}

/// Judges one record at the time of day `now`.
pub fn classify(record: &MemberRecord, now: &TimeOfDay) -> (outcome: Classification)
    ensures
        outcome == classification(record@, *now),
{
    let marked_absent = is_absent_marker(record.check_out.as_str());
    if marked_absent {
        classify_readings(true, None, None, now)
    } else {
        classify_readings(
            false,
            parse_hour_minute(record.check_in.as_str()),
            parse_hour_minute(record.check_out.as_str()),
            now,
        )
    }
}

/// An arrival after 17:45 is late, and the record is marked late whatever
/// its check-out says, as long as a check-out was recorded at all.
pub proof fn late_arrival_is_marked_late(record: RecordView, now: TimeOfDay, arrival: TimeOfDay)
    requires
        parsed_clock(record.check_in, hour_minute_pattern()) == Some(arrival),
        arrival.is_after(late_threshold()),
    ensures
        arrived_late(parsed_clock(record.check_in, hour_minute_pattern())),
        !absent_marker(record.check_out) ==> classification(record, now).status
            == AttendanceStatus::Late,
{
}

/// A record whose check-out is the absent marker is marked absent, and its
/// check-in has no say in the outcome.
pub proof fn absent_marker_is_marked_absent(
    record: RecordView,
    other_check_in: Seq<char>,
    now: TimeOfDay,
)
    requires
        absent_marker(record.check_out),
    ensures
        classification(record, now).status == AttendanceStatus::Absent,
        classification(RecordView { check_in: other_check_in, ..record }, now) == classification(
            record,
            now,
        ),
{
}

/// A check-out counts as timed out exactly when more than thirty minutes
/// have passed since: one second more raises the flag, thirty minutes sharp
/// do not. For a record with a check-out the flag of its outcome says the same.
pub proof fn timeout_boundary_is_exclusive(record: RecordView, now: TimeOfDay, departure: TimeOfDay)
    requires
        parsed_clock(record.check_out, hour_minute_pattern()) == Some(departure),
    ensures
        left_long_ago(Some(departure), now) <==> now.nanos_since(departure) > timeout_nanos(),
        now.nanos_since(departure) == timeout_nanos() ==> !left_long_ago(Some(departure), now),
        !absent_marker(record.check_out) ==> (classification(record, now).absent_by_timeout
            <==> now.nanos_since(departure) > timeout_nanos()),
{
}

} // verus!
