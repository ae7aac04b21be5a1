use attendance_report::classify::{
    absent_for_more_than_thirty_min, classify, classify_readings, is_absent_marker, is_late,
    is_late_reading, is_timed_out_reading, AttendanceStatus, Classification, MemberRecord,
};
use attendance_report::roster::{classify_roster, get_stragglers};
use attendance_report::time::TimeOfDay;

fn at(hour: u32, minute: u32) -> TimeOfDay {
    TimeOfDay { hour, minute, second: 0, nano: 0 }
}

fn record(name: &str, check_in: &str, check_out: &str) -> MemberRecord {
    MemberRecord {
        name: name.to_string(),
        check_in: check_in.to_string(),
        check_out: check_out.to_string(),
    }
}

#[test]
fn late_is_strictly_after_a_quarter_to_six() {
    assert!(!is_late("17:45"));
    assert!(is_late("17:46"));
    assert!(is_late("23:59"));
    assert!(!is_late("17:44"));
    assert!(!is_late("00:00"));
    assert!(!is_late("9:05"));
}

#[test]
fn late_check_fails_open_on_malformed_times() {
    assert!(!is_late(""));
    assert!(!is_late("Invalid Time"));
    assert!(!is_late("Absent"));
    assert!(!is_late("18:00:00"));
    assert!(!is_late("25:00"));
    assert!(!is_late("six o'clock"));
}

#[test]
fn late_reading_counts_seconds_and_nanoseconds() {
    assert!(!is_late_reading(None));
    assert!(!is_late_reading(Some(at(17, 45))));
    assert!(is_late_reading(Some(TimeOfDay { hour: 17, minute: 45, second: 0, nano: 1 })));
    assert!(is_late_reading(Some(TimeOfDay { hour: 17, minute: 45, second: 1, nano: 0 })));
    assert!(!is_late_reading(Some(TimeOfDay {
        hour: 17,
        minute: 44,
        second: 59,
        nano: 999_999_999
    })));
}

#[test]
fn timeout_boundary_is_exclusive() {
    let now = at(18, 35);
    assert!(!absent_for_more_than_thirty_min("18:05", &now));
    assert!(absent_for_more_than_thirty_min("18:04", &now));
    assert!(!absent_for_more_than_thirty_min("18:06", &now));
    assert!(!absent_for_more_than_thirty_min("18:30", &now));
    assert!(absent_for_more_than_thirty_min("09:00", &now));
}

#[test]
fn timeout_counts_the_fraction_of_a_second() {
    let just_after = TimeOfDay { hour: 18, minute: 35, second: 0, nano: 1 };
    assert!(absent_for_more_than_thirty_min("18:05", &just_after));
    let a_second_after = TimeOfDay { hour: 18, minute: 35, second: 1, nano: 0 };
    assert!(absent_for_more_than_thirty_min("18:05", &a_second_after));
}

#[test]
fn timeout_is_false_for_a_check_out_later_than_now() {
    let now = at(0, 10);
    assert!(!absent_for_more_than_thirty_min("23:50", &now));
    assert!(!absent_for_more_than_thirty_min("00:10", &now));
}

#[test]
fn timeout_fails_open_on_malformed_times() {
    let now = at(18, 35);
    assert!(!absent_for_more_than_thirty_min("", &now));
    assert!(!absent_for_more_than_thirty_min("Absent", &now));
    assert!(!absent_for_more_than_thirty_min("Invalid Time", &now));
    assert!(!absent_for_more_than_thirty_min("00:00:00", &now));
}

#[test]
fn timed_out_reading_on_values() {
    let now = at(18, 35);
    assert!(!is_timed_out_reading(None, &now));
    assert!(!is_timed_out_reading(Some(at(18, 5)), &now));
    assert!(is_timed_out_reading(
        Some(TimeOfDay { hour: 18, minute: 4, second: 59, nano: 999_999_999 }),
        &now
    ));
}

#[test]
fn absent_marker_is_recognised() {
    assert!(is_absent_marker("Absent"));
    assert!(is_absent_marker("00:00:00"));
    assert!(!is_absent_marker("00:00"));
    assert!(!is_absent_marker("absent"));
    assert!(!is_absent_marker(""));
    assert!(!is_absent_marker("18:30"));
}

#[test]
fn record_with_absent_marker_is_absent_whatever_its_check_in() {
    let now = at(18, 35);
    for check_in in ["17:50", "09:00", "", "Invalid Time"] {
        for check_out in ["Absent", "00:00:00"] {
            assert_eq!(
                classify(&record("Anu", check_in, check_out), &now),
                Classification { status: AttendanceStatus::Absent, absent_by_timeout: false }
            );
        }
    }
}

#[test]
fn late_check_in_is_late_whatever_the_check_out() {
    let now = at(18, 35);
    for check_out in ["18:30", "17:55", "Invalid Time", "", "00:00"] {
        assert_eq!(
            classify(&record("Anu", "17:50", check_out), &now).status,
            AttendanceStatus::Late
        );
    }
}

#[test]
fn late_and_timed_out_can_hold_together() {
    let now = at(18, 35);
    assert_eq!(
        classify(&record("Anu", "17:50", "18:00"), &now),
        Classification { status: AttendanceStatus::Late, absent_by_timeout: true }
    );
}

#[test]
fn on_time_with_recent_check_out_is_present() {
    let now = at(18, 35);
    assert_eq!(
        classify(&record("Ravi", "17:00", "18:30"), &now),
        Classification { status: AttendanceStatus::Present, absent_by_timeout: false }
    );
    assert_eq!(
        classify(&record("Ravi", "17:00", "17:30"), &now),
        Classification { status: AttendanceStatus::Present, absent_by_timeout: true }
    );
}

#[test]
fn malformed_times_leave_a_member_present() {
    let now = at(18, 35);
    assert_eq!(
        classify(&record("Ravi", "Invalid Time", "Invalid Time"), &now),
        Classification { status: AttendanceStatus::Present, absent_by_timeout: false }
    );
}

#[test]
fn classify_readings_on_values() {
    let now = at(18, 35);
    assert_eq!(
        classify_readings(true, Some(at(17, 50)), Some(at(9, 0)), &now),
        Classification { status: AttendanceStatus::Absent, absent_by_timeout: false }
    );
    assert_eq!(
        classify_readings(false, Some(at(17, 50)), Some(at(9, 0)), &now),
        Classification { status: AttendanceStatus::Late, absent_by_timeout: true }
    );
    assert_eq!(
        classify_readings(false, None, None, &now),
        Classification { status: AttendanceStatus::Present, absent_by_timeout: false }
    );
}

#[test]
fn stragglers_of_the_worked_example() {
    let records = vec![record("Anu", "17:50", "Absent"), record("Ravi", "17:00", "18:30")];
    let (absentees, late) = get_stragglers(&records, &at(18, 35));
    assert_eq!(absentees, vec!["Anu".to_string()]);
    assert_eq!(late, Vec::<String>::new());
}

#[test]
fn stragglers_keep_the_order_of_the_records() {
    let records = vec![
        record("Asha", "17:50", "18:20"),
        record("Bala", "17:00", "Absent"),
        record("Chitra", "18:10", "18:34"),
        record("Dev", "16:00", "17:00"),
        record("Esha", "17:45", "18:05"),
        record("Farid", "Invalid Time", "Invalid Time"),
    ];
    let (absentees, late) = get_stragglers(&records, &at(18, 35));
    assert_eq!(absentees, vec!["Bala".to_string(), "Dev".to_string()]);
    assert_eq!(late, vec!["Asha".to_string(), "Chitra".to_string()]);
}

#[test]
fn a_member_can_be_late_and_absent_at_once() {
    let records = vec![record("Asha", "17:50", "18:00")];
    let (absentees, late) = get_stragglers(&records, &at(18, 35));
    assert_eq!(absentees, vec!["Asha".to_string()]);
    assert_eq!(late, vec!["Asha".to_string()]);
}

#[test]
fn equal_names_of_different_records_are_all_kept() {
    let records = vec![record("Asha", "17:00", "Absent"), record("Asha", "17:00", "Absent")];
    let (absentees, late) = get_stragglers(&records, &at(18, 35));
    assert_eq!(absentees, vec!["Asha".to_string(), "Asha".to_string()]);
    assert!(late.is_empty());
}

#[test]
fn roster_lists_everyone_with_a_check_out_as_present() {
    let records = vec![
        record("Asha", "17:50", "18:20"),
        record("Bala", "17:00", "Absent"),
        record("Dev", "16:00", "17:00"),
        record("Gita", "16:00", "00:00:00"),
    ];
    let roster = classify_roster(&records, &at(18, 35));
    assert_eq!(roster.present, vec!["Asha".to_string(), "Dev".to_string()]);
    assert_eq!(roster.absentees, vec!["Bala".to_string(), "Dev".to_string(), "Gita".to_string()]);
    assert_eq!(roster.late, vec!["Asha".to_string()]);
}

#[test]
fn roster_of_no_records_is_empty() {
    let roster = classify_roster(&Vec::new(), &at(18, 35));
    assert!(roster.absentees.is_empty());
    assert!(roster.late.is_empty());
    assert!(roster.present.is_empty());
}
