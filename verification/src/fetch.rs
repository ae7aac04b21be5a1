//! From the rows of the attendance service to the records that are
//! classified.
//!
//! The service answers with two lists: the members, each with a number and a
//! name, and today's attendance, each row with a member's number and the
//! times of arrival and departure to the second. A row gives a record: the
//! member's name, and both times cut to `HH:MM`. A departure of `00:00:00`
//! means that none was recorded. A row that names no known member makes the
//! whole fetch fail; a time that cannot be read does not.

use crate::classify::{MemberRecord, RecordView};
use crate::clock::{hour_minute_second_pattern, parse_hour_minute_second, parsed_clock};
use crate::db::member::{Member, MemberView};
use crate::label::{clock_text, format_clock};
use crate::text::same_text;
use crate::time::TimeOfDay;
use vstd::prelude::*;
use vstd::string::*;

verus! {

/// One entry of the member list, as far as the payload held it.
#[derive(Clone, Debug, PartialEq, Eq)]
pub struct MemberRow {
    pub id: Option<i64>,
    pub name: Option<String>,
}

/// One entry of the attendance list, as far as the payload held it.
#[derive(Clone, Debug, PartialEq, Eq)]
pub struct AttendanceRow {
    pub id: Option<i64>,
    pub timein: Option<String>,
    pub timeout: Option<String>,
}

/// Why a payload could not be used.
#[derive(Clone, Copy, Debug, PartialEq, Eq, Structural)]
pub enum FetchError {
    /// The payload is no JSON document.
    InvalidJson,
    /// The payload does not hold the list that was asked for.
    MissingList,
    /// An entry of the member list has no number.
    MemberWithoutId,
    /// An entry of the member list has no name.
    MemberWithoutName,
    /// An attendance row has no member number.
    AttendanceWithoutId,
    /// An attendance row refers to a member that the member list does not have.
    UnknownMember,
}

/// A text that may be missing.
pub open spec fn text_of(field: Option<String>) -> Option<Seq<char>> {
    match field {
        Some(s) => Some(s@),
        None => None,
    }
}

/// A [`MemberRow`] with its name as text.
pub struct MemberRowView {
    pub id: Option<i64>,
    pub name: Option<Seq<char>>,
}

/// An [`AttendanceRow`] with its times as texts.
pub struct AttendanceRowView {
    pub id: Option<i64>,
    pub timein: Option<Seq<char>>,
    pub timeout: Option<Seq<char>>,
}

impl View for MemberRow {
    type V = MemberRowView;

    open spec fn view(&self) -> MemberRowView {
        MemberRowView { id: self.id, name: text_of(self.name) }
    }
}

impl DeepView for MemberRow {
    type V = MemberRowView;

    open spec fn deep_view(&self) -> MemberRowView {
        self@
    }
}

impl View for AttendanceRow {
    type V = AttendanceRowView;

    open spec fn view(&self) -> AttendanceRowView {
        AttendanceRowView {
            id: self.id,
            timein: text_of(self.timein),
            timeout: text_of(self.timeout),
        }
    }
}

impl DeepView for AttendanceRow {
    type V = AttendanceRowView;

    open spec fn deep_view(&self) -> AttendanceRowView {
        self@
    }
}

/// The time that stands for "none recorded" in a row.
pub open spec fn unrecorded_time() -> Seq<char> {
    "00:00:00"@
}

/// The text that a record carries in place of a time that could not be read.
pub open spec fn invalid_time() -> Seq<char> {
    "Invalid Time"@
}

/// The text that a record carries in place of a departure that was not recorded.
pub open spec fn absent_text() -> Seq<char> {
    "Absent"@
}

/// The time of a row, or the unrecorded time where the row has none.
pub open spec fn time_or_unrecorded(field: Option<Seq<char>>) -> Seq<char> {
    match field {
        Some(s) => s,
        None => unrecorded_time(),
    }
}

/// The form in which a record carries a time that was read, or was not.
pub open spec fn reading_text(reading: Option<TimeOfDay>) -> Seq<char> {
    match reading {
        Some(t) => clock_text(t),
        None => invalid_time(),
    }
}

/// The form in which a record carries the time `raw` of a row.
pub open spec fn normalized_time(raw: Seq<char>) -> Seq<char> {
    reading_text(parsed_clock(raw, hour_minute_second_pattern()))
}

/// The member number that a number of the payload stands for: its low 32 bits.
pub open spec fn member_number(id: i64) -> i32 {
    id as i32
}

/// The name of the first member with the number `id`, if there is one.
pub open spec fn name_of_member(members: Seq<MemberView>, id: i32) -> Option<Seq<char>>
    decreases members.len(),
{
    if members.len() == 0 {
        None
    } else if members[0].id == id {
        Some(members[0].name)
    } else {
        name_of_member(members.drop_first(), id)
    }
}

/// The member that an entry of the member list describes.
pub open spec fn member_of_row(row: MemberRowView) -> Result<MemberView, FetchError> {
    match (row.id, row.name) {
        (None, _) => Err(FetchError::MemberWithoutId),
        (Some(_), None) => Err(FetchError::MemberWithoutName),
        (Some(id), Some(name)) => Ok(MemberView { name, id: member_number(id) }),
    }
}

/// The members that the entries describe, or the error of the first entry
/// that describes none.
pub open spec fn members_of_rows(rows: Seq<MemberRowView>) -> Result<Seq<MemberView>, FetchError>
    decreases rows.len(),
{
    if rows.len() == 0 {
        Ok(Seq::empty())
    } else {
        match members_of_rows(rows.drop_last()) {
            Err(e) => Err(e),
            Ok(members) => match member_of_row(rows.last()) {
                Err(e) => Err(e),
                Ok(member) => Ok(members.push(member)),
            },
        }
    }
}

/// The record that an attendance row gives.
pub open spec fn record_of_row(members: Seq<MemberView>, row: AttendanceRowView) -> Result<
    RecordView,
    FetchError,
> {
    match row.id {
        None => Err(FetchError::AttendanceWithoutId),
        Some(id) => match name_of_member(members, member_number(id)) {
            None => Err(FetchError::UnknownMember),
            Some(name) => Ok(
                RecordView {
                    name,
                    check_in: normalized_time(time_or_unrecorded(row.timein)),
                    check_out: if time_or_unrecorded(row.timeout) == unrecorded_time() {
                        absent_text()
                    } else {
                        normalized_time(time_or_unrecorded(row.timeout))
                    },
                },
            ),
        },
    }
}

/// The records that the rows give, in their order, or the error of the first
/// row that gives none.
pub open spec fn records_of_rows(members: Seq<MemberView>, rows: Seq<AttendanceRowView>) -> Result<
    Seq<RecordView>,
    FetchError,
>
    decreases rows.len(),
{
    if rows.len() == 0 {
        Ok(Seq::empty())
    } else {
        match records_of_rows(members, rows.drop_last()) {
            Err(e) => Err(e),
            Ok(records) => match record_of_row(members, rows.last()) {
                Err(e) => Err(e),
                Ok(record) => Ok(records.push(record)),
            },
        }
    }
}

/// The records of a `Result`, as texts.
pub open spec fn records_view(result: Result<Vec<MemberRecord>, FetchError>) -> Result<
    Seq<RecordView>,
    FetchError,
> {
    match result {
        Ok(records) => Ok(records.deep_view()),
        Err(e) => Err(e),
    }
}

/// The members of a `Result`, as texts.
pub open spec fn members_view(result: Result<Vec<Member>, FetchError>) -> Result<
    Seq<MemberView>,
    FetchError,
> {
    match result {
        Ok(members) => Ok(members.deep_view()),
        Err(e) => Err(e),
    }
}

/// The form in which a record carries a time that was read, or was not:
/// `HH:MM`, or `Invalid Time`.
pub fn normalize_reading(reading: Option<TimeOfDay>) -> (text: String)
    requires
        reading matches Some(t) ==> t.wf(),
    ensures
        text@ == reading_text(reading),
{
    match reading {
        Some(t) => format_clock(&t),
        None => "Invalid Time".to_owned(),
    }
}

/// Cuts a time with seconds to `HH:MM`; `Invalid Time` where `raw` is no
/// such time.
pub fn normalize_time(raw: &str) -> (text: String)
    ensures
        text@ == normalized_time(raw@),
{
    normalize_reading(parse_hour_minute_second(raw))
}

/// Looks up the name of the first member with the number `id`.
pub fn find_member_name(members: &Vec<Member>, id: i32) -> (name: Option<String>)
    ensures
        text_of(name) == name_of_member(members.deep_view(), id),
{
    let ghost all = members.deep_view();
    let mut i: usize = 0;
    assert(all.skip(0) =~= all);
    while i < members.len()
        invariant
            i <= members.len(),
            all == members.deep_view(),
            name_of_member(all, id) == name_of_member(all.skip(i as int), id),
        decreases members.len() - i,
    {
        proof {
            assert(all.skip(i as int).drop_first() =~= all.skip(i + 1));
        }
        if members[i].id == id {
            return Some(members[i].name.clone());
        }
        i += 1;
    }
    None
}

/// Turns the entries of the member list into members. Fails on the first
/// entry without a number or a name.
pub fn members_from_rows(rows: &Vec<MemberRow>) -> (result: Result<Vec<Member>, FetchError>)
    ensures
        members_view(result) == members_of_rows(rows.deep_view()),
{
    let ghost all = rows.deep_view();
    let mut members: Vec<Member> = Vec::new();
    let mut i: usize = 0;
    assert(members.deep_view() =~= Seq::<MemberView>::empty());
    while i < rows.len()
        invariant
            i <= rows.len(),
            all == rows.deep_view(),
            members_of_rows(all.take(i as int)) == Ok::<Seq<MemberView>, FetchError>(
                members.deep_view(),
            ),
        decreases rows.len() - i,
    {
        let row = &rows[i];
        let ghost before = members.deep_view();
        proof {
            assert(all.take(i + 1).drop_last() =~= all.take(i as int));
        }
        let id = match row.id {
            Some(id) => id,
            None => {
                proof {
                    lemma_members_error_stays(all, i + 1);
                }
                return Err(FetchError::MemberWithoutId);
            },
        };
        let name = match &row.name {
            Some(name) => name.clone(),
            None => {
                proof {
                    lemma_members_error_stays(all, i + 1);
                }
                return Err(FetchError::MemberWithoutName);
            },
        };
        members.push(Member { name, id: #[verifier::truncate] (id as i32) });
        assert(members.deep_view() =~= before.push(member_of_row(row@)->Ok_0));
        i += 1;
    }
    assert(all.take(rows.len() as int) =~= all);
    Ok(members)
}

/// Once a prefix of the member entries has failed, the whole list fails
/// with the same error.
proof fn lemma_members_error_stays(rows: Seq<MemberRowView>, n: int)
    requires
        0 <= n <= rows.len(),
        members_of_rows(rows.take(n)) is Err,
    ensures
        members_of_rows(rows) == members_of_rows(rows.take(n)),
    decreases rows.len() - n,
{
    if n == rows.len() {
        assert(rows.take(n) =~= rows);
    } else {
        assert(rows.take(n + 1).drop_last() =~= rows.take(n));
        lemma_members_error_stays(rows, n + 1);
    }
}

/// Once a prefix of the attendance rows has failed, the whole list fails
/// with the same error.
proof fn lemma_records_error_stays(
    members: Seq<MemberView>,
    rows: Seq<AttendanceRowView>,
    n: int,
)
    requires
        0 <= n <= rows.len(),
        records_of_rows(members, rows.take(n)) is Err,
    ensures
        records_of_rows(members, rows) == records_of_rows(members, rows.take(n)),
    decreases rows.len() - n,
{
    if n == rows.len() {
        assert(rows.take(n) =~= rows);
    } else {
        assert(rows.take(n + 1).drop_last() =~= rows.take(n));
        lemma_records_error_stays(members, rows, n + 1);
    }
}

/// Turns one attendance row into a record.
pub fn record_from_row(members: &Vec<Member>, row: &AttendanceRow) -> (result: Result<
    MemberRecord,
    FetchError,
>)
    ensures
        match result {
            Ok(record) => record_of_row(members.deep_view(), row@) == Ok::<
                RecordView,
                FetchError,
            >(record@),
            Err(e) => record_of_row(members.deep_view(), row@) == Err::<RecordView, FetchError>(e),
        },
{
    let id = match row.id {
        Some(id) => id,
        None => {
            return Err(FetchError::AttendanceWithoutId);
        },
    };
    let name = match find_member_name(members, #[verifier::truncate] (id as i32)) {
        Some(name) => name,
        None => {
            return Err(FetchError::UnknownMember);
        },
    };
    let check_in = match &row.timein {
        Some(raw) => normalize_time(raw.as_str()),
        None => normalize_time("00:00:00"),
    };
    let check_out = match &row.timeout {
        Some(raw) => if same_text(raw.as_str(), "00:00:00") {
            "Absent".to_owned()
        } else {
            normalize_time(raw.as_str())
        },
        None => "Absent".to_owned(),
    };
    Ok(MemberRecord { name, check_in, check_out })
}

/// Turns today's attendance rows into records, in their order. Fails on the
/// first row without a member number or with one that `members` does not
/// have.
pub fn records_from_rows(members: &Vec<Member>, rows: &Vec<AttendanceRow>) -> (result: Result<
    Vec<MemberRecord>,
    FetchError,
>)
    ensures
        records_view(result) == records_of_rows(members.deep_view(), rows.deep_view()),
{
    let ghost all = rows.deep_view();
    let ghost directory = members.deep_view();
    let mut records: Vec<MemberRecord> = Vec::new();
    let mut i: usize = 0;
    assert(records.deep_view() =~= Seq::<RecordView>::empty());
    while i < rows.len()
        invariant
            i <= rows.len(),
            all == rows.deep_view(),
            directory == members.deep_view(),
            records_of_rows(directory, all.take(i as int)) == Ok::<Seq<RecordView>, FetchError>(
                records.deep_view(),
            ),
        decreases rows.len() - i,
    {
        let ghost before = records.deep_view();
        proof {
            assert(all.take(i + 1).drop_last() =~= all.take(i as int));
        }
        match record_from_row(members, &rows[i]) {
            Ok(record) => {
                records.push(record);
                assert(records.deep_view() =~= before.push(record@));
            },
            Err(e) => {
                proof {
                    lemma_records_error_stays(directory, all, i + 1);
                }
                return Err(e);
            },
        }
        i += 1;
    }
    assert(all.take(rows.len() as int) =~= all);
    Ok(records)
}

} // verus!
