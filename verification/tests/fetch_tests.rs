use attendance_report::classify::MemberRecord;
use attendance_report::db::member::Member;
use attendance_report::fetch::{
    find_member_name, members_from_rows, normalize_reading, normalize_time, record_from_row,
    records_from_rows, AttendanceRow, FetchError, MemberRow,
};
use attendance_report::time::TimeOfDay;

fn member(id: i32, name: &str) -> Member {
    Member { name: name.to_string(), id }
}

fn row(id: Option<i64>, timein: Option<&str>, timeout: Option<&str>) -> AttendanceRow {
    AttendanceRow {
        id,
        timein: timein.map(|s| s.to_string()),
        timeout: timeout.map(|s| s.to_string()),
    }
}

fn record(name: &str, check_in: &str, check_out: &str) -> MemberRecord {
    MemberRecord {
        name: name.to_string(),
        check_in: check_in.to_string(),
        check_out: check_out.to_string(),
    }
}

fn directory() -> Vec<Member> {
    vec![member(1, "Anu"), member(2, "Ravi"), member(2, "Shadow"), member(-3, "Minus")]
}

#[test]
fn normalize_time_cuts_to_hour_and_minute() {
    assert_eq!(normalize_time("17:50:31"), "17:50");
    assert_eq!(normalize_time("07:05:00.123456"), "07:05");
    assert_eq!(normalize_time("00:00:00"), "00:00");
    assert_eq!(normalize_time("23:59:60"), "23:59");
}

#[test]
fn normalize_time_marks_what_it_cannot_read() {
    assert_eq!(normalize_time(""), "Invalid Time");
    assert_eq!(normalize_time("17:50"), "Invalid Time");
    assert_eq!(normalize_time("24:00:00"), "Invalid Time");
    assert_eq!(normalize_time("soon"), "Invalid Time");
}

#[test]
fn normalize_reading_on_values() {
    assert_eq!(normalize_reading(None), "Invalid Time");
    assert_eq!(
        normalize_reading(Some(TimeOfDay { hour: 9, minute: 3, second: 59, nano: 5 })),
        "09:03"
    );
}

#[test]
fn find_member_name_takes_the_first_match() {
    let members = directory();
    assert_eq!(find_member_name(&members, 1), Some("Anu".to_string()));
    assert_eq!(find_member_name(&members, 2), Some("Ravi".to_string()));
    assert_eq!(find_member_name(&members, -3), Some("Minus".to_string()));
    assert_eq!(find_member_name(&members, 4), None);
    assert_eq!(find_member_name(&Vec::new(), 1), None);
}

#[test]
fn members_from_rows_keeps_order_and_names() {
    let rows = vec![
        MemberRow { id: Some(1), name: Some("Anu".to_string()) },
        MemberRow { id: Some(2), name: Some("Ravi".to_string()) },
    ];
    assert_eq!(members_from_rows(&rows), Ok(vec![member(1, "Anu"), member(2, "Ravi")]));
    assert_eq!(members_from_rows(&Vec::new()), Ok(Vec::new()));
}

#[test]
fn members_from_rows_takes_the_low_bits_of_a_number() {
    let rows = vec![
        MemberRow { id: Some(4_294_967_301), name: Some("Wide".to_string()) },
        MemberRow { id: Some(-1), name: Some("Neg".to_string()) },
        MemberRow { id: Some(2_147_483_648), name: Some("Edge".to_string()) },
    ];
    assert_eq!(
        members_from_rows(&rows),
        Ok(vec![member(5, "Wide"), member(-1, "Neg"), member(i32::MIN, "Edge")])
    );
}

#[test]
fn members_from_rows_fails_on_the_first_incomplete_entry() {
    let rows = vec![
        MemberRow { id: Some(1), name: Some("Anu".to_string()) },
        MemberRow { id: Some(2), name: None },
        MemberRow { id: None, name: Some("Ravi".to_string()) },
    ];
    assert_eq!(members_from_rows(&rows), Err(FetchError::MemberWithoutName));
    let rows = vec![
        MemberRow { id: None, name: None },
        MemberRow { id: Some(2), name: None },
    ];
    assert_eq!(members_from_rows(&rows), Err(FetchError::MemberWithoutId));
}

#[test]
fn record_from_row_joins_the_name_and_cuts_the_times() {
    let members = directory();
    assert_eq!(
        record_from_row(&members, &row(Some(1), Some("17:50:12"), Some("18:30:45.5"))),
        Ok(record("Anu", "17:50", "18:30"))
    );
}

#[test]
fn record_without_a_departure_is_marked_absent() {
    let members = directory();
    assert_eq!(
        record_from_row(&members, &row(Some(2), Some("17:00:00"), Some("00:00:00"))),
        Ok(record("Ravi", "17:00", "Absent"))
    );
    assert_eq!(
        record_from_row(&members, &row(Some(2), Some("17:00:00"), None)),
        Ok(record("Ravi", "17:00", "Absent"))
    );
    assert_eq!(
        record_from_row(&members, &row(Some(2), None, None)),
        Ok(record("Ravi", "00:00", "Absent"))
    );
}

#[test]
fn record_with_unreadable_times_is_kept() {
    let members = directory();
    assert_eq!(
        record_from_row(&members, &row(Some(1), Some("late"), Some("18:30"))),
        Ok(record("Anu", "Invalid Time", "Invalid Time"))
    );
    // A midnight departure written otherwise than the marker is a real time.
    assert_eq!(
        record_from_row(&members, &row(Some(1), Some("17:00:00"), Some("00:00:00.0"))),
        Ok(record("Anu", "17:00", "00:00"))
    );
}

#[test]
fn record_from_row_fails_without_a_known_member() {
    let members = directory();
    assert_eq!(
        record_from_row(&members, &row(None, Some("17:00:00"), Some("18:00:00"))),
        Err(FetchError::AttendanceWithoutId)
    );
    assert_eq!(
        record_from_row(&members, &row(Some(99), Some("17:00:00"), Some("18:00:00"))),
        Err(FetchError::UnknownMember)
    );
}

#[test]
fn record_from_row_matches_a_number_by_its_low_bits() {
    let members = directory();
    assert_eq!(
        record_from_row(&members, &row(Some(4_294_967_297), Some("17:00:00"), None)),
        Ok(record("Anu", "17:00", "Absent"))
    );
}

#[test]
fn records_from_rows_keeps_the_order_of_the_rows() {
    let members = directory();
    let rows = vec![
        row(Some(2), Some("17:00:00"), Some("18:30:00")),
        row(Some(1), Some("17:50:00"), Some("00:00:00")),
        row(Some(2), Some("x"), Some("y")),
    ];
    assert_eq!(
        records_from_rows(&members, &rows),
        Ok(vec![
            record("Ravi", "17:00", "18:30"),
            record("Anu", "17:50", "Absent"),
            record("Ravi", "Invalid Time", "Invalid Time"),
        ])
    );
    assert_eq!(records_from_rows(&members, &Vec::new()), Ok(Vec::new()));
}

#[test]
fn records_from_rows_fails_with_the_first_error() {
    let members = directory();
    let rows = vec![
        row(Some(2), Some("17:00:00"), Some("18:30:00")),
        row(Some(42), Some("17:50:00"), Some("00:00:00")),
        row(None, None, None),
    ];
    assert_eq!(records_from_rows(&members, &rows), Err(FetchError::UnknownMember));
    let rows = vec![row(None, None, None), row(Some(42), None, None)];
    assert_eq!(records_from_rows(&members, &rows), Err(FetchError::AttendanceWithoutId));
}
