//! The lists of names that a classification pass produces.

use crate::classify::{classification, classify, AttendanceStatus, MemberRecord, RecordView};
use crate::time::TimeOfDay;
use vstd::prelude::*;

verus! {

/// The three lists a pass can fill.
pub enum RosterList {
    /// Members without a check-out, and members who left over thirty minutes ago.
    Absentees,
    /// Members who arrived after the late threshold.
    Late,
    /// Members with a check-out on record.
    Present,
}

/// Whether a record puts its member on the list `list`.
pub open spec fn is_listed(list: RosterList, record: RecordView, now: TimeOfDay) -> bool {
    let outcome = classification(record, now);
    match list {
        RosterList::Absentees => outcome.status == AttendanceStatus::Absent
            || outcome.absent_by_timeout,
        RosterList::Late => outcome.status == AttendanceStatus::Late,
        RosterList::Present => outcome.status != AttendanceStatus::Absent,
    }
}

/// The names on the list `list`, in the order of the records. Each record
/// contributes its name at most once; equal names of different records are
/// all kept.
pub open spec fn names_listed(list: RosterList, records: Seq<RecordView>, now: TimeOfDay) -> Seq<
    Seq<char>,
>
    decreases records.len(),
{
    if records.len() == 0 {
        Seq::empty()
    } else {
        let before = names_listed(list, records.drop_last(), now);
        if is_listed(list, records.last(), now) {
            before.push(records.last().name)
        } else {
            before
        }
    }
}

/// The names of one classification pass, by list. A member can stand on the
/// late list and on the absentee list at once.
#[derive(Clone, Debug, PartialEq, Eq)]
pub struct ClassifiedRoster {
    pub absentees: Vec<String>,
    pub late: Vec<String>,
    pub present: Vec<String>,
}

impl ClassifiedRoster {
    /// Each list holds the names that the records put on it at `now`.
    pub open spec fn is_roster_of(&self, records: Seq<RecordView>, now: TimeOfDay) -> bool {
        &&& self.absentees.deep_view() == names_listed(RosterList::Absentees, records, now)
        &&& self.late.deep_view() == names_listed(RosterList::Late, records, now)
        &&& self.present.deep_view() == names_listed(RosterList::Present, records, now)
    }
}

/// Classifies every record at the time of day `now` and collects the names.
pub fn classify_roster(records: &Vec<MemberRecord>, now: &TimeOfDay) -> (roster: ClassifiedRoster)
    ensures
        roster.is_roster_of(records.deep_view(), *now),
{
    let mut roster = ClassifiedRoster {
        absentees: Vec::new(),
        late: Vec::new(),
        present: Vec::new(),
    };
    let ghost views = records.deep_view();
    let mut i: usize = 0;
    assert(roster.absentees.deep_view() =~= Seq::empty());
    assert(roster.late.deep_view() =~= Seq::empty());
    assert(roster.present.deep_view() =~= Seq::empty());
    while i < records.len()
        invariant
            i <= records.len(),
            views == records.deep_view(),
            roster.is_roster_of(views.take(i as int), *now),
        decreases records.len() - i,
    {
        let record = &records[i];
        let outcome = classify(record, now);
        let ghost old_roster = roster;
        assert(views.take(i + 1).drop_last() =~= views.take(i as int));
        if outcome.status == AttendanceStatus::Absent || outcome.absent_by_timeout {
            roster.absentees.push(record.name.clone());
            assert(roster.absentees.deep_view() =~= old_roster.absentees.deep_view().push(
                record.name@,
            ));
        }
        if outcome.status == AttendanceStatus::Late {
            roster.late.push(record.name.clone());
            assert(roster.late.deep_view() =~= old_roster.late.deep_view().push(record.name@));
        }
        if outcome.status != AttendanceStatus::Absent {
            roster.present.push(record.name.clone());
            assert(roster.present.deep_view() =~= old_roster.present.deep_view().push(
                record.name@,
            ));
        }
        i += 1;
    }
    assert(views.take(records.len() as int) =~= views);
    roster
}

/// The absentees and the late arrivals among `records` at the time of day
/// `now`, each in the order of the records.
pub fn get_stragglers(records: &Vec<MemberRecord>, now: &TimeOfDay) -> (lists: (
    Vec<String>,
    Vec<String>,
))
    ensures
        lists.0.deep_view() == names_listed(RosterList::Absentees, records.deep_view(), *now),
        lists.1.deep_view() == names_listed(RosterList::Late, records.deep_view(), *now),
{
    let roster = classify_roster(records, now);
    (roster.absentees, roster.late)
}

} // verus!
