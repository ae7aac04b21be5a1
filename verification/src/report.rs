//! Rendering of the two reports.
//!
//! A report is a title line with the date, followed by one section for each
//! list that is not empty. A section is a heading and the names of the list,
//! numbered from 1 in the order given.

use crate::classify::{MemberRecord, RecordView};
use crate::label::{
    format_long_date, four_digit_text, long_date_text, month_name, two_digit_text,
};
use crate::roster::{classify_roster, names_listed, RosterList};
use crate::text::{decimal_text, push_decimal};
use crate::time::{LocalDate, LocalDateTime};
use vstd::prelude::*;
use vstd::string::*;

verus! {

/// The title of the report on absentees and late arrivals.
pub open spec fn full_report_title() -> Seq<char> {
    "Presence Report"@
}

/// The title of the list of members present.
pub open spec fn present_report_title() -> Seq<char> {
    "Attendance Report"@
}

/// The first line of a report: the title and the date.
pub open spec fn title_line(title: Seq<char>, date: LocalDate) -> Seq<char> {
    "# "@ + title + " - "@ + long_date_text(date) + "\n"@
}

/// One line of a section: the position in the list, counted from 1, and the name.
pub open spec fn numbered_line(position: nat, name: Seq<char>) -> Seq<char> {
    decimal_text(position) + ". "@ + name + "\n"@
}

/// The lines of a section, one for each name, in order.
pub open spec fn numbered_lines(names: Seq<Seq<char>>) -> Seq<char>
    decreases names.len(),
{
    if names.len() == 0 {
        Seq::empty()
    } else {
        numbered_lines(names.drop_last()) + numbered_line(names.len(), names.last())
    }
}

/// A section: nothing at all for an empty list, else a blank line, the
/// heading and the numbered names.
pub open spec fn section_text(heading: Seq<char>, names: Seq<Seq<char>>) -> Seq<char> {
    if names.len() == 0 {
        Seq::empty()
    } else {
        "\n## "@ + heading + "\n"@ + numbered_lines(names)
    }
}

/// The report on absentees and late arrivals.
pub open spec fn full_report_text(
    date: LocalDate,
    absentees: Seq<Seq<char>>,
    late: Seq<Seq<char>>,
) -> Seq<char> {
    title_line(full_report_title(), date) + section_text("Absent"@, absentees) + section_text(
        "Late"@,
        late,
    )
}

/// The list of members present.
pub open spec fn present_report_text(date: LocalDate, present: Seq<Seq<char>>) -> Seq<char> {
    title_line(present_report_title(), date) + section_text("Present"@, present)
}

/// Appends the title line of a report.
pub fn push_title_line(out: &mut String, title: &str, date: &LocalDate)
    requires
        date.wf(),
    ensures
        final(out)@ == old(out)@ + title_line(title@, *date),
{
    let label = format_long_date(date);
    out.append("# ");
    out.append(title);
    out.append(" - ");
    out.append(label.as_str());
    out.append("\n");
}

/// Appends a section, or nothing where `names` is empty.
pub fn push_section(out: &mut String, heading: &str, names: &Vec<String>)
    ensures
        final(out)@ == old(out)@ + section_text(heading@, names.deep_view()),
{
    let ghost all = names.deep_view();
    if names.len() == 0 {
        return ;
    }
    out.append("\n## ");
    out.append(heading);
    out.append("\n");
    let ghost head = out@;
    let mut i: usize = 0;
    while i < names.len()
        invariant
            i <= names.len(),
            all == names.deep_view(),
            out@ == head + numbered_lines(all.take(i as int)),
        decreases names.len() - i,
    {
        push_decimal(out, (i + 1) as u64);
        out.append(". ");
        out.append(names[i].as_str());
        out.append("\n");
        assert(all.take(i + 1).drop_last() =~= all.take(i as int));
        i += 1;
    }
    assert(all.take(names.len() as int) =~= all);
}

/// Renders the report on absentees and late arrivals for the day `date`.
pub fn render_full_report(date: &LocalDate, absentees: &Vec<String>, late: &Vec<String>) -> (report:
    String)
    requires
        date.wf(),
    ensures
        report@ == full_report_text(*date, absentees.deep_view(), late.deep_view()),
{
    let mut report = String::new();
    push_title_line(&mut report, "Presence Report", date);
    push_section(&mut report, "Absent", absentees);
    push_section(&mut report, "Late", late);
    report
}

/// Renders the list of members present for the day `date`.
pub fn render_present_report(date: &LocalDate, present: &Vec<String>) -> (report: String)
    requires
        date.wf(),
    ensures
        report@ == present_report_text(*date, present.deep_view()),
{
    let mut report = String::new();
    push_title_line(&mut report, "Attendance Report", date);
    push_section(&mut report, "Present", present);
    report
}

/// The report on absentees and late arrivals that `records` give at the
/// local date and time `now`.
pub open spec fn generated_report(records: Seq<RecordView>, now: LocalDateTime) -> Seq<char> {
    full_report_text(
        now.date,
        names_listed(RosterList::Absentees, records, now.time),
        names_listed(RosterList::Late, records, now.time),
    )
}

/// The list of members present that `records` give at the local date and
/// time `now`.
pub open spec fn generated_present_list(records: Seq<RecordView>, now: LocalDateTime) -> Seq<
    char,
> {
    present_report_text(now.date, names_listed(RosterList::Present, records, now.time))
}

/// Classifies `records` at `now` and renders the report on absentees and
/// late arrivals.
pub fn generate_report(records: &Vec<MemberRecord>, now: &LocalDateTime) -> (report: String)
    requires
        now.date.wf(),
    ensures
        report@ == generated_report(records.deep_view(), *now),
{
    let roster = classify_roster(records, &now.time);
    render_full_report(&now.date, &roster.absentees, &roster.late)
}

/// Classifies `records` at `now` and renders the list of members present:
/// everyone whose record is not marked absent.
pub fn generate_present_list(records: &Vec<MemberRecord>, now: &LocalDateTime) -> (report: String)
    requires
        now.date.wf(),
    ensures
        report@ == generated_present_list(records.deep_view(), *now),
{
    let roster = classify_roster(records, &now.time);
    render_present_report(&now.date, &roster.present)
}

/// A section whose list is empty leaves no trace in a report, heading
/// included: the report is the one without that section, and with no list
/// filled it is the title line alone.
pub proof fn empty_section_is_omitted(
    date: LocalDate,
    heading: Seq<char>,
    absentees: Seq<Seq<char>>,
    late: Seq<Seq<char>>,
)
    ensures
        section_text(heading, Seq::empty()) == Seq::<char>::empty(),
        full_report_text(date, Seq::empty(), late) == title_line(full_report_title(), date)
            + section_text("Late"@, late),
        full_report_text(date, absentees, Seq::empty()) == title_line(full_report_title(), date)
            + section_text("Absent"@, absentees),
        full_report_text(date, Seq::empty(), Seq::empty()) == title_line(
            full_report_title(),
            date,
        ),
        present_report_text(date, Seq::empty()) == title_line(present_report_title(), date),
{
}

/// The date on a report is the day in two digits, the full English name of
/// the month and the year, in four digits for every year from 0 to 9999,
/// with one space between them.
pub proof fn report_date_is_day_month_year(title: Seq<char>, date: LocalDate)
    requires
        date.wf(),
        0 <= date.year <= 9999,
    ensures
        title_line(title, date) == "# "@ + title + " - "@ + two_digit_text(date.day as int)
            + seq![' '] + month_name(date.month as int) + seq![' '] + four_digit_text(
            date.year as int,
        ) + "\n"@,
        two_digit_text(date.day as int).len() == 2,
        four_digit_text(date.year as int).len() == 4,
        month_name(date.month as int).len() >= 3,
{
    reveal_strlit("January");
    reveal_strlit("February");
    reveal_strlit("March");
    reveal_strlit("April");
    reveal_strlit("May");
    reveal_strlit("June");
    reveal_strlit("July");
    reveal_strlit("August");
    reveal_strlit("September");
    reveal_strlit("October");
    reveal_strlit("November");
    reveal_strlit("December");
}

} // verus!
