//! Decoding the answers of the attendance service.
//!
//! Both answers are JSON documents with a list under `data`: the members
//! under `getMember`, each with `id` and `name`, and today's attendance under
//! `getAttendance`, each row with `id`, `timein` and `timeout`. Only these
//! fields are read. A field of another type than expected counts as missing.

use crate::classify::{MemberRecord, RecordView};
use crate::db::member::{Member, MemberView};
use crate::fetch::{
    members_from_rows, members_of_rows, members_view, records_from_rows, records_of_rows,
    records_view, text_of, AttendanceRow, AttendanceRowView, FetchError, MemberRow, MemberRowView,
};
use crate::json::{
    integer, items, json_document, json_integer, json_items, json_member, json_text, member,
    parse_document, text,
};
use vstd::prelude::*;

verus! {

/// The entry of the member list that a JSON value describes.
pub open spec fn member_row_of(item: serde_json::Value) -> MemberRowView {
    MemberRowView {
        id: json_integer(json_member(item, "id"@)),
        name: json_text(json_member(item, "name"@)),
    }
}

/// The attendance row that a JSON value describes.
pub open spec fn attendance_row_of(item: serde_json::Value) -> AttendanceRowView {
    AttendanceRowView {
        id: json_integer(json_member(item, "id"@)),
        timein: json_text(json_member(item, "timein"@)),
        timeout: json_text(json_member(item, "timeout"@)),
    }
}

/// The elements of the list called `list` under `data` in `document`, if
/// there is such a list.
pub open spec fn data_list(document: serde_json::Value, list: Seq<char>) -> Option<
    Seq<serde_json::Value>,
> {
    json_items(json_member(json_member(document, "data"@), list))
}

/// The entries of the member list in the payload `text`.
pub open spec fn decoded_member_rows(text: Seq<char>) -> Result<Seq<MemberRowView>, FetchError> {
    match json_document(text) {
        None => Err(FetchError::InvalidJson),
        Some(document) => match data_list(document, "getMember"@) {
            None => Err(FetchError::MissingList),
            Some(elements) => Ok(elements.map_values(|item| member_row_of(item))),
        },
    }
}

/// The attendance rows in the payload `text`.
pub open spec fn decoded_attendance_rows(text: Seq<char>) -> Result<
    Seq<AttendanceRowView>,
    FetchError,
> {
    match json_document(text) {
        None => Err(FetchError::InvalidJson),
        Some(document) => match data_list(document, "getAttendance"@) {
            None => Err(FetchError::MissingList),
            Some(elements) => Ok(elements.map_values(|item| attendance_row_of(item))),
        },
    }
}

/// The members that the payload `text` lists.
pub open spec fn decoded_members(text: Seq<char>) -> Result<Seq<MemberView>, FetchError> {
    match decoded_member_rows(text) {
        Err(e) => Err(e),
        Ok(rows) => members_of_rows(rows),
    }
}

/// The records that the two payloads give: those of the attendance rows,
/// with the names from the member list. The member list is read first, and
/// the first thing that is wrong decides the error.
pub open spec fn decoded_records(member_text: Seq<char>, attendance_text: Seq<char>) -> Result<
    Seq<RecordView>,
    FetchError,
> {
    match decoded_members(member_text) {
        Err(e) => Err(e),
        Ok(members) => match decoded_attendance_rows(attendance_text) {
            Err(e) => Err(e),
            Ok(rows) => records_of_rows(members, rows),
        },
    }
}

/// The rows of a `Result`, as texts.
pub open spec fn member_rows_view(result: Result<Vec<MemberRow>, FetchError>) -> Result<
    Seq<MemberRowView>,
    FetchError,
> {
    match result {
        Ok(rows) => Ok(rows.deep_view()),
        Err(e) => Err(e),
    }
}

/// The rows of a `Result`, as texts.
pub open spec fn attendance_rows_view(result: Result<Vec<AttendanceRow>, FetchError>) -> Result<
    Seq<AttendanceRowView>,
    FetchError,
> {
    match result {
        Ok(rows) => Ok(rows.deep_view()),
        Err(e) => Err(e),
    }
}

/// A text of the payload as an owned text.
fn owned(field: Option<&str>) -> (r: Option<String>)
    ensures
        text_of(r) == match field {
            Some(s) => Some(s@),
            None => None,
        },
{
    match field {
        Some(s) => Some(s.to_owned()),
        None => None,
    }
}

/// Reads the entry of the member list that a JSON value describes.
fn member_row_from_json(item: &serde_json::Value) -> (row: MemberRow)
    ensures
        row@ == member_row_of(*item),
{
    MemberRow { id: integer(member(item, "id")), name: owned(text(member(item, "name"))) }
}

/// Reads the attendance row that a JSON value describes.
fn attendance_row_from_json(item: &serde_json::Value) -> (row: AttendanceRow)
    ensures
        row@ == attendance_row_of(*item),
{
    AttendanceRow {
        id: integer(member(item, "id")),
        timein: owned(text(member(item, "timein"))),
        timeout: owned(text(member(item, "timeout"))),
    }
}

/// Decodes the member list of a payload. Fails where the text is no JSON, or
/// holds no list `data.getMember`.
pub fn decode_member_rows(payload: &str) -> (result: Result<Vec<MemberRow>, FetchError>)
    ensures
        member_rows_view(result) == decoded_member_rows(payload@),
{
    let document = match parse_document(payload) {
        Ok(document) => document,
        Err(_) => {
            return Err(FetchError::InvalidJson);
        },
    };
    let elements = match items(member(member(&document, "data"), "getMember")) {
        Some(elements) => elements,
        None => {
            return Err(FetchError::MissingList);
        },
    };
    let mut rows: Vec<MemberRow> = Vec::new();
    let mut i: usize = 0;
    while i < elements.len()
        invariant
            i <= elements.len(),
            rows.len() == i,
            forall|j: int| 0 <= j < i ==> rows[j]@ == member_row_of(elements[j]),
        decreases elements.len() - i,
    {
        rows.push(member_row_from_json(&elements[i]));
        i += 1;
    }
    assert(rows.deep_view() =~= elements@.map_values(|item| member_row_of(item)));
    Ok(rows)
}

/// Decodes the attendance list of a payload. Fails where the text is no
/// JSON, or holds no list `data.getAttendance`.
pub fn decode_attendance_rows(payload: &str) -> (result: Result<Vec<AttendanceRow>, FetchError>)
    ensures
        attendance_rows_view(result) == decoded_attendance_rows(payload@),
{
    let document = match parse_document(payload) {
        Ok(document) => document,
        Err(_) => {
            return Err(FetchError::InvalidJson);
        },
    };
    let elements = match items(member(member(&document, "data"), "getAttendance")) {
        Some(elements) => elements,
        None => {
            return Err(FetchError::MissingList);
        },
    };
    let mut rows: Vec<AttendanceRow> = Vec::new();
    let mut i: usize = 0;
    while i < elements.len()
        invariant
            i <= elements.len(),
            rows.len() == i,
            forall|j: int| 0 <= j < i ==> rows[j]@ == attendance_row_of(elements[j]),
        decreases elements.len() - i,
    {
        rows.push(attendance_row_from_json(&elements[i]));
        i += 1;
    }
    assert(rows.deep_view() =~= elements@.map_values(|item| attendance_row_of(item)));
    Ok(rows)
}

/// The members that the service's answer to the member query lists.
pub fn get_member_data(payload: &str) -> (result: Result<Vec<Member>, FetchError>)
    ensures
        members_view(result) == decoded_members(payload@),
{
    match decode_member_rows(payload) {
        Ok(rows) => members_from_rows(&rows),
        Err(e) => Err(e),
    }
}

/// Today's records, from the service's answers to the member query and to
/// the attendance query.
pub fn get_presense_data(member_payload: &str, attendance_payload: &str) -> (result: Result<
    Vec<MemberRecord>,
    FetchError,
>)
    ensures
        records_view(result) == decoded_records(member_payload@, attendance_payload@),
{
    let members = match get_member_data(member_payload) {
        Ok(members) => members,
        Err(e) => {
            return Err(e);
        },
    };
    match decode_attendance_rows(attendance_payload) {
        Ok(rows) => records_from_rows(&members, &rows),
        Err(e) => Err(e),
    }
}

} // verus!
