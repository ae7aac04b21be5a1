//! Wall-clock values: a time of day, a calendar date, and the two together.
//!
//! The values are plain integers, so every rule about them is stated and
//! proved here. Ordering and elapsed time follow the usual convention for a
//! leap second: it is the 59th second of its minute with a nanosecond part of
//! one billion or more.

use vstd::prelude::*;

verus! {

/// Nanoseconds in one second.
pub const NANOS_PER_SECOND: u32 = 1_000_000_000;

/// A time of day, to the nanosecond.
#[derive(Clone, Copy, Debug, PartialEq, Eq, Structural)]
pub struct TimeOfDay {
    pub hour: u32,
    pub minute: u32,
    pub second: u32,
    pub nano: u32,
}

impl TimeOfDay {
    /// The fields are in range. A nanosecond part of a billion or more
    /// stands for a leap second.
    pub open spec fn wf(self) -> bool {
        &&& self.hour < 24
        &&& self.minute < 60
        &&& self.second < 60
        &&& self.nano < 2 * NANOS_PER_SECOND
    }

    /// Whole seconds since midnight.
    pub open spec fn seconds_of_day(self) -> int {
        self.hour * 3600 + self.minute * 60 + self.second
    }

    /// `self` is strictly later in the day than `other`: by whole seconds
    /// first, then by the nanosecond part.
    pub open spec fn is_after(self, other: TimeOfDay) -> bool {
        self.seconds_of_day() > other.seconds_of_day() || (self.seconds_of_day()
            == other.seconds_of_day() && self.nano > other.nano)
    }

    /// Nanoseconds from `earlier` to `self` within one day; negative when
    /// `self` is the earlier one. Where the earlier value of a pair that lies
    /// whole seconds apart is inside a leap second, that second is counted.
    pub open spec fn nanos_since(self, earlier: TimeOfDay) -> int {
        let leap: int = if self.seconds_of_day() > earlier.seconds_of_day() && earlier.nano
            >= NANOS_PER_SECOND {
            1
        } else if self.seconds_of_day() < earlier.seconds_of_day() && self.nano
            >= NANOS_PER_SECOND {
            -1
        } else {
            0
        };
        (self.seconds_of_day() - earlier.seconds_of_day() + leap) * NANOS_PER_SECOND + (self.nano
            - earlier.nano)
    }

    /// The time `hour:minute:second` with the given nanosecond part, if the
    /// fields are in range.
    pub fn new(hour: u32, minute: u32, second: u32, nano: u32) -> (r: Option<TimeOfDay>)
        ensures
            r == if (TimeOfDay { hour, minute, second, nano }).wf() {
                Some(TimeOfDay { hour, minute, second, nano })
            } else {
                None
            },
    {
        if hour < 24 && minute < 60 && second < 60 && nano < 2 * NANOS_PER_SECOND {
            Some(TimeOfDay { hour, minute, second, nano })
        } else {
            None
        }
    }

    /// The time `hour:minute` on the whole minute, if the fields are in range.
    pub fn from_hm(hour: u32, minute: u32) -> (r: Option<TimeOfDay>)
        ensures
            r == if hour < 24 && minute < 60 {
                Some(TimeOfDay { hour, minute, second: 0, nano: 0 })
            } else {
                None
            },
    {
        TimeOfDay::new(hour, minute, 0, 0)
    }

    /// Whole seconds since midnight.
    pub fn second_of_day(&self) -> (s: u64)
        ensures
            s == self.seconds_of_day(),
    {
        self.hour as u64 * 3600 + self.minute as u64 * 60 + self.second as u64
    }

    /// Whether `self` is strictly later in the day than `other`.
    pub fn later_than(&self, other: &TimeOfDay) -> (r: bool)
        ensures
            r == self.is_after(*other),
    {
        let a = self.second_of_day();
        let b = other.second_of_day();
        a > b || (a == b && self.nano > other.nano)
    }

    /// Nanoseconds from `earlier` to `self`.
    pub fn elapsed_since(&self, earlier: &TimeOfDay) -> (d: i128)
        ensures
            d == self.nanos_since(*earlier),
    {
        let a = self.second_of_day() as i128;
        let b = earlier.second_of_day() as i128;
        let leap: i128 = if a > b && earlier.nano >= NANOS_PER_SECOND {
            1
        } else if a < b && self.nano >= NANOS_PER_SECOND {
            -1
        } else {
            0
        };
        (a - b + leap) * (NANOS_PER_SECOND as i128) + (self.nano as i128 - earlier.nano as i128)
    }
}

/// Whether `year` has a 29th of February.
pub open spec fn is_leap_year(year: int) -> bool {
    year % 4 == 0 && (year % 100 != 0 || year % 400 == 0)
}

/// The number of days of a month; 0 where `month` is none of 1 to 12.
pub open spec fn days_in_month(year: int, month: int) -> int {
    if month == 2 {
        if is_leap_year(year) {
            29
        } else {
            28
        }
    } else if month == 4 || month == 6 || month == 9 || month == 11 {
        30
    } else if 1 <= month <= 12 {
        31
    } else {
        0
    }
}

/// A date of the proleptic Gregorian calendar.
#[derive(Clone, Copy, Debug, PartialEq, Eq, Structural)]
pub struct LocalDate {
    pub year: i32,
    pub month: u32,
    pub day: u32,
}

impl LocalDate {
    /// The date exists in the calendar.
    pub open spec fn wf(self) -> bool {
        &&& 1 <= self.month <= 12
        &&& 1 <= self.day <= days_in_month(self.year as int, self.month as int)
    }

    /// The date `year-month-day`, if the calendar has it.
    pub fn new(year: i32, month: u32, day: u32) -> (r: Option<LocalDate>)
        ensures
            r == if (LocalDate { year, month, day }).wf() {
                Some(LocalDate { year, month, day })
            } else {
                None
            },
    {
        if month < 1 || month > 12 || day < 1 {
            return None;
        }
        let leap = year % 4 == 0 && (year % 100 != 0 || year % 400 == 0);
        let days: u32 = if month == 2 {
            if leap {
                29
            } else {
                28
            }
        } else if month == 4 || month == 6 || month == 9 || month == 11 {
            30
        } else {
            31
        };
        if day <= days {
            Some(LocalDate { year, month, day })
        } else {
            None
        }
    }
}

/// A date and a time of day in the zone the reports are written for.
#[derive(Clone, Copy, Debug, PartialEq, Eq, Structural)]
pub struct LocalDateTime {
    pub date: LocalDate,
    pub time: TimeOfDay,
}

impl LocalDateTime {
    /// Both parts are well-formed.
    pub open spec fn wf(self) -> bool {
        self.date.wf() && self.time.wf()
    }
}

} // verus!
