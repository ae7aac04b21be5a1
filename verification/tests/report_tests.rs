use attendance_report::classify::MemberRecord;
use attendance_report::report::{
    generate_present_list, generate_report, push_section, push_title_line, render_full_report,
    render_present_report,
};
use attendance_report::time::{LocalDate, LocalDateTime, TimeOfDay};

fn date(year: i32, month: u32, day: u32) -> LocalDate {
    LocalDate::new(year, month, day).unwrap()
}

fn moment(year: i32, month: u32, day: u32, hour: u32, minute: u32) -> LocalDateTime {
    LocalDateTime {
        date: date(year, month, day),
        time: TimeOfDay { hour, minute, second: 0, nano: 0 },
    }
}

fn names(list: &[&str]) -> Vec<String> {
    list.iter().map(|s| s.to_string()).collect()
}

fn record(name: &str, check_in: &str, check_out: &str) -> MemberRecord {
    MemberRecord {
        name: name.to_string(),
        check_in: check_in.to_string(),
        check_out: check_out.to_string(),
    }
}

#[test]
fn full_report_with_both_sections() {
    let report = render_full_report(
        &date(2024, 1, 1),
        &names(&["Anu", "Bala"]),
        &names(&["Chitra"]),
    );
    assert_eq!(
        report,
        "# Presence Report - 01 January 2024\n\n## Absent\n1. Anu\n2. Bala\n\n## Late\n1. Chitra\n"
    );
}

#[test]
fn full_report_without_absentees_has_no_absent_heading() {
    let report = render_full_report(&date(2024, 3, 9), &Vec::new(), &names(&["Chitra"]));
    assert_eq!(report, "# Presence Report - 09 March 2024\n\n## Late\n1. Chitra\n");
}

#[test]
fn full_report_without_late_arrivals_has_no_late_heading() {
    let report = render_full_report(&date(2024, 3, 9), &names(&["Anu"]), &Vec::new());
    assert_eq!(report, "# Presence Report - 09 March 2024\n\n## Absent\n1. Anu\n");
}

#[test]
fn full_report_of_empty_lists_is_the_title_line() {
    let report = render_full_report(&date(2024, 12, 31), &Vec::new(), &Vec::new());
    assert_eq!(report, "# Presence Report - 31 December 2024\n");
}

#[test]
fn present_report_with_names() {
    let report = render_present_report(&date(2024, 7, 4), &names(&["Anu", "Ravi"]));
    assert_eq!(report, "# Attendance Report - 04 July 2024\n\n## Present\n1. Anu\n2. Ravi\n");
}

#[test]
fn present_report_of_an_empty_list_is_the_title_line() {
    let report = render_present_report(&date(2024, 7, 4), &Vec::new());
    assert_eq!(report, "# Attendance Report - 04 July 2024\n");
}

#[test]
fn sections_number_past_nine() {
    let list: Vec<String> = (0..12).map(|i| format!("M{}", i)).collect();
    let mut out = String::new();
    push_section(&mut out, "Present", &list);
    assert_eq!(
        out,
        "\n## Present\n1. M0\n2. M1\n3. M2\n4. M3\n5. M4\n6. M5\n7. M6\n8. M7\n9. M8\n10. M9\n11. M10\n12. M11\n"
    );
}

#[test]
fn push_section_appends_to_what_is_there() {
    let mut out = String::from("head");
    push_section(&mut out, "Late", &Vec::new());
    assert_eq!(out, "head");
    push_section(&mut out, "Late", &names(&["Anu"]));
    assert_eq!(out, "head\n## Late\n1. Anu\n");
}

#[test]
fn push_title_line_appends_title_and_date() {
    let mut out = String::from(">");
    push_title_line(&mut out, "Presence Report", &date(2024, 1, 1));
    assert_eq!(out, "># Presence Report - 01 January 2024\n");
}

#[test]
fn names_are_rendered_as_they_are() {
    let report = render_present_report(&date(2024, 7, 4), &names(&["", "അനു", "## Absent"]));
    assert_eq!(
        report,
        "# Attendance Report - 04 July 2024\n\n## Present\n1. \n2. അനു\n3. ## Absent\n"
    );
}

#[test]
fn end_to_end_example_lists_only_the_absentee() {
    let records = vec![record("Anu", "17:50", "Absent"), record("Ravi", "17:00", "18:30")];
    let report = generate_report(&records, &moment(2024, 1, 1, 18, 35));
    assert_eq!(report, "# Presence Report - 01 January 2024\n\n## Absent\n1. Anu\n");
}

#[test]
fn end_to_end_example_present_list() {
    let records = vec![record("Anu", "17:50", "Absent"), record("Ravi", "17:00", "18:30")];
    let report = generate_present_list(&records, &moment(2024, 1, 1, 18, 35));
    assert_eq!(report, "# Attendance Report - 01 January 2024\n\n## Present\n1. Ravi\n");
}

#[test]
fn generated_report_depends_on_the_time_of_judging() {
    let records = vec![record("Ravi", "17:50", "18:30")];
    let early = generate_report(&records, &moment(2024, 1, 1, 19, 0));
    assert_eq!(early, "# Presence Report - 01 January 2024\n\n## Late\n1. Ravi\n");
    let later = generate_report(&records, &moment(2024, 1, 1, 19, 1));
    assert_eq!(
        later,
        "# Presence Report - 01 January 2024\n\n## Absent\n1. Ravi\n\n## Late\n1. Ravi\n"
    );
}

#[test]
fn generated_report_of_no_records_is_the_title_line() {
    let report = generate_report(&Vec::new(), &moment(2024, 2, 29, 18, 0));
    assert_eq!(report, "# Presence Report - 29 February 2024\n");
    let list = generate_present_list(&Vec::new(), &moment(2024, 2, 29, 18, 0));
    assert_eq!(list, "# Attendance Report - 29 February 2024\n");
}
