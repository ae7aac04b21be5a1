//! The textual forms of dates and times that reports and records carry.

use crate::text::{decimal_text, digit_char, digit_str, push_decimal};
use crate::time::{LocalDate, TimeOfDay};
use vstd::prelude::*;
use vstd::string::*;

verus! {

/// `n` below 100 as two digits, with a leading zero where needed.
pub open spec fn two_digit_text(n: int) -> Seq<char> {
    seq![digit_char(n / 10), digit_char(n % 10)]
}

/// `n` below 10000 as four digits, with leading zeros where needed.
pub open spec fn four_digit_text(n: int) -> Seq<char> {
    seq![
        digit_char(n / 1000),
        digit_char((n / 100) % 10),
        digit_char((n / 10) % 10),
        digit_char(n % 10),
    ]
}

/// The English name of a month; empty where `month` is none of 1 to 12.
pub open spec fn month_name(month: int) -> Seq<char> {
    if month == 1 {
        "January"@
    } else if month == 2 {
        "February"@
    } else if month == 3 {
        "March"@
    } else if month == 4 {
        "April"@
    } else if month == 5 {
        "May"@
    } else if month == 6 {
        "June"@
    } else if month == 7 {
        "July"@
    } else if month == 8 {
        "August"@
    } else if month == 9 {
        "September"@
    } else if month == 10 {
        "October"@
    } else if month == 11 {
        "November"@
    } else if month == 12 {
        "December"@
    } else {
        Seq::empty()
    }
}

/// A year as text: four digits from 0 to 9999; beyond that a sign, then at
/// least four digits.
pub open spec fn year_text(year: int) -> Seq<char> {
    if 0 <= year <= 9999 {
        four_digit_text(year)
    } else if year > 9999 {
        seq!['+'] + decimal_text(year as nat)
    } else if year >= -9999 {
        seq!['-'] + four_digit_text(-year)
    } else {
        seq!['-'] + decimal_text((-year) as nat)
    }
}

/// A date as day, month name and year: `01 January 2024`.
pub open spec fn long_date_text(date: LocalDate) -> Seq<char> {
    two_digit_text(date.day as int) + seq![' '] + month_name(date.month as int) + seq![' ']
        + year_text(date.year as int)
}

/// A time of day as hour and minute: `07:05`.
pub open spec fn clock_text(time: TimeOfDay) -> Seq<char> {
    two_digit_text(time.hour as int) + seq![':'] + two_digit_text(time.minute as int)
}

/// Appends `n` as two digits.
pub(crate) fn push_two_digits(out: &mut String, n: u32)
    requires
        n < 100,
    ensures
        final(out)@ == old(out)@ + two_digit_text(n as int),
{
    out.append(digit_str((n / 10) as u64));
    out.append(digit_str((n % 10) as u64));
}

/// Appends `n` as four digits.
pub(crate) fn push_four_digits(out: &mut String, n: u32)
    requires
        n < 10000,
    ensures
        final(out)@ == old(out)@ + four_digit_text(n as int),
{
    out.append(digit_str((n / 1000) as u64));
    out.append(digit_str(((n / 100) % 10) as u64));
    out.append(digit_str(((n / 10) % 10) as u64));
    out.append(digit_str((n % 10) as u64));
}

/// The English name of the month `month`.
pub(crate) fn month_str(month: u32) -> (s: &'static str)
    requires
        1 <= month <= 12,
    ensures
        s@ == month_name(month as int),
{
    if month == 1 {
        "January"
    } else if month == 2 {
        "February"
    } else if month == 3 {
        "March"
    } else if month == 4 {
        "April"
    } else if month == 5 {
        "May"
    } else if month == 6 {
        "June"
    } else if month == 7 {
        "July"
    } else if month == 8 {
        "August"
    } else if month == 9 {
        "September"
    } else if month == 10 {
        "October"
    } else if month == 11 {
        "November"
    } else {
        "December"
    }
}

/// Appends a year in the form of [`year_text`].
pub fn push_year(out: &mut String, year: i32)
    ensures
        final(out)@ == old(out)@ + year_text(year as int),
{
    proof {
        reveal_strlit("+");
        reveal_strlit("-");
    }
    if 0 <= year && year <= 9999 {
        push_four_digits(out, year as u32);
    } else if year > 9999 {
        out.append("+");
        push_decimal(out, year as u64);
    } else {
        let magnitude: u64 = (-(year as i64)) as u64;
        out.append("-");
        if magnitude <= 9999 {
            push_four_digits(out, magnitude as u32);
        } else {
            push_decimal(out, magnitude);
        }
    }
}

/// The date as day, month name and year, such as `01 January 2024`: the day
/// in two digits, the full English month name, and the year in four digits
/// wherever it lies between 0 and 9999.
pub fn format_long_date(date: &LocalDate) -> (label: String)
    requires
        date.wf(),
    ensures
        label@ == long_date_text(*date),
{
    proof {
        reveal_strlit(" ");
    }
    let mut label = String::new();
    push_two_digits(&mut label, date.day);
    label.append(" ");
    label.append(month_str(date.month));
    label.append(" ");
    push_year(&mut label, date.year);
    label
}

/// The time as `HH:MM`, both parts in two digits.
pub fn format_clock(time: &TimeOfDay) -> (label: String)
    requires
        time.wf(),
    ensures
        label@ == clock_text(*time),
{
    proof {
        reveal_strlit(":");
    }
    let mut label = String::new();
    push_two_digits(&mut label, time.hour);
    label.append(":");
    push_two_digits(&mut label, time.minute);
    label
}

} // verus!
