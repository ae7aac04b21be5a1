//! The daily triggers: when a report is posted and when it is edited.
//!
//! The scheduler is a state machine that never waits and never talks to
//! anyone. The program around it feeds it one event at a time (a tick of the
//! minute timer, the outcome of a fetch, the outcome of a delivery) and
//! carries out the action that comes back. The post trigger fires at 18:00
//! local time, the edit trigger at 19:00, each at most once within one
//! minute of one day.
//!
//! The handle of a posted report is kept until the next post trigger fires.
//! It is not dropped at midnight: an edit trigger that finds a handle edits
//! that message, whichever day it was posted on.

use crate::classify::{MemberRecord, RecordView};
use crate::report::{generate_report, generated_report};
use crate::time::{LocalDate, LocalDateTime, TimeOfDay};
use vstd::prelude::*;

verus! {

/// The hour at which the report is posted.
pub const POST_HOUR: u32 = 18;

/// The minute at which the report is posted.
pub const POST_MINUTE: u32 = 0;

/// The hour at which the posted report is edited.
pub const EDIT_HOUR: u32 = 19;

/// The minute at which the posted report is edited.
pub const EDIT_MINUTE: u32 = 0;

/// A reference to a report message that was delivered, by which it can be
/// edited later.
#[derive(Clone, Copy, Debug, PartialEq, Eq, Structural)]
pub struct MessageHandle {
    pub id: u64,
}

/// The resting states of the scheduler.
#[derive(Clone, Copy, Debug, PartialEq, Eq, Structural)]
pub enum SchedulerState {
    /// No report of today is waiting for its edit.
    Idle,
    /// The post trigger has fired and the edit trigger has not yet acted.
    AwaitingEditWindow,
}

/// The work that the scheduler has asked for and whose outcome it awaits.
#[derive(Clone, Copy, Debug, PartialEq, Eq, Structural)]
pub enum Pending {
    Nothing,
    /// The records for the report that is to be posted.
    PostFetch,
    /// The delivery of the new report.
    PostDelivery,
    /// The records for the report that is to replace the posted one.
    EditFetch,
    /// The delivery of the replacement.
    EditDelivery,
}

/// One minute of one day.
#[derive(Clone, Copy, Debug, PartialEq, Eq, Structural)]
pub struct MinuteStamp {
    pub date: LocalDate,
    pub hour: u32,
    pub minute: u32,
}

/// The scheduler's memory.
#[derive(Clone, Copy, Debug, PartialEq, Eq, Structural)]
pub struct Scheduler {
    pub state: SchedulerState,
    /// The report message that the edit trigger will replace, if one was delivered.
    pub handle: Option<MessageHandle>,
    pub pending: Pending,
    /// The minute in which a trigger fired last.
    pub last_fired: Option<MinuteStamp>,
}

/// What the surrounding program reports to the scheduler.
#[derive(Clone, Debug, PartialEq, Eq)]
pub enum Event {
    /// The minute timer ticked at this local date and time.
    Tick(LocalDateTime),
    /// The fetch that was asked for returned these records; `now` is the
    /// local date and time at its return.
    Fetched { records: Vec<MemberRecord>, now: LocalDateTime },
    /// The fetch that was asked for failed.
    FetchFailed,
    /// The new report was delivered as this message.
    Posted(MessageHandle),
    /// The new report could not be delivered.
    PostFailed,
    /// The posted report was replaced.
    Edited,
    /// The posted report could not be replaced.
    EditFailed,
}

/// What the scheduler asks the surrounding program to do next.
#[derive(Clone, Debug, PartialEq, Eq)]
pub enum Action {
    /// Wait for the next tick.
    Sleep,
    /// Fetch today's records and report the outcome.
    Fetch,
    /// Deliver this text as a new message and report the outcome.
    Post(String),
    /// Replace the text of this message and report the outcome.
    Edit(MessageHandle, String),
}

/// An [`Event`] with its records as texts.
pub enum EventView {
    Tick(LocalDateTime),
    Fetched { records: Seq<RecordView>, now: LocalDateTime },
    FetchFailed,
    Posted(MessageHandle),
    PostFailed,
    Edited,
    EditFailed,
}

/// An [`Action`] with its report as text.
pub enum ActionView {
    Sleep,
    Fetch,
    Post(Seq<char>),
    Edit(MessageHandle, Seq<char>),
}

impl View for Event {
    type V = EventView;

    open spec fn view(&self) -> EventView {
        match *self {
            Event::Tick(now) => EventView::Tick(now),
            Event::Fetched { records, now } => EventView::Fetched {
                records: records.deep_view(),
                now,
            },
            Event::FetchFailed => EventView::FetchFailed,
            Event::Posted(handle) => EventView::Posted(handle),
            Event::PostFailed => EventView::PostFailed,
            Event::Edited => EventView::Edited,
            Event::EditFailed => EventView::EditFailed,
        }
    }
}

impl View for Action {
    type V = ActionView;

    open spec fn view(&self) -> ActionView {
        match *self {
            Action::Sleep => ActionView::Sleep,
            Action::Fetch => ActionView::Fetch,
            Action::Post(text) => ActionView::Post(text@),
            Action::Edit(handle, text) => ActionView::Edit(handle, text@),
        }
    }
}

impl EventView {
    /// The date that a report would be written for is a date of the calendar.
    pub open spec fn wf(self) -> bool {
        self matches EventView::Fetched { now, .. } ==> now.date.wf()
    }
}

/// The time of day is in the minute of the post trigger.
pub open spec fn is_post_time(time: TimeOfDay) -> bool {
    time.hour == POST_HOUR && time.minute == POST_MINUTE
}

/// The time of day is in the minute of the edit trigger.
pub open spec fn is_edit_time(time: TimeOfDay) -> bool {
    time.hour == EDIT_HOUR && time.minute == EDIT_MINUTE
}

/// The minute that `now` lies in.
pub open spec fn stamp_of(now: LocalDateTime) -> MinuteStamp {
    MinuteStamp { date: now.date, hour: now.time.hour, minute: now.time.minute }
}

/// The scheduler at the start of the process: idle, with no message to edit.
pub open spec fn initial() -> Scheduler {
    Scheduler {
        state: SchedulerState::Idle,
        handle: None,
        pending: Pending::Nothing,
        last_fired: None,
    }
}

/// The scheduler's reaction to a tick.
///
/// A tick ends whatever work was still awaited. In the minute of the post
/// trigger, unless a trigger has fired in this very minute already, the old
/// handle is dropped and a fetch is asked for. In the minute of the edit
/// trigger, under the same guard, a fetch is asked for if there is a message
/// to edit, and nothing happens if there is none.
pub open spec fn on_tick(s: Scheduler, now: LocalDateTime) -> (Scheduler, ActionView) {
    let stamp = stamp_of(now);
    if is_post_time(now.time) && s.last_fired != Some(stamp) {
        (
            Scheduler {
                state: SchedulerState::AwaitingEditWindow,
                handle: None,
                pending: Pending::PostFetch,
                last_fired: Some(stamp),
            },
            ActionView::Fetch,
        )
    } else if is_edit_time(now.time) && s.last_fired != Some(stamp) {
        if s.handle is Some {
            (
                Scheduler {
                    state: SchedulerState::Idle,
                    handle: s.handle,
                    pending: Pending::EditFetch,
                    last_fired: Some(stamp),
                },
                ActionView::Fetch,
            )
        } else {
            (
                Scheduler { pending: Pending::Nothing, last_fired: Some(stamp), ..s },
                ActionView::Sleep,
            )
        }
    } else {
        (Scheduler { pending: Pending::Nothing, ..s }, ActionView::Sleep)
    }
}

/// The scheduler's reaction to the records of a fetch: the report is
/// rendered and handed out for delivery, as a new message where the post
/// trigger asked for the fetch, as a replacement where the edit trigger did.
/// Records that nobody asked for are ignored.
pub open spec fn on_fetched(s: Scheduler, records: Seq<RecordView>, now: LocalDateTime) -> (
    Scheduler,
    ActionView,
) {
    match (s.pending, s.handle) {
        (Pending::PostFetch, _) => (
            Scheduler { pending: Pending::PostDelivery, ..s },
            ActionView::Post(generated_report(records, now)),
        ),
        (Pending::EditFetch, Some(handle)) => (
            Scheduler { pending: Pending::EditDelivery, ..s },
            ActionView::Edit(handle, generated_report(records, now)),
        ),
        (Pending::EditFetch, None) => (
            Scheduler { pending: Pending::Nothing, ..s },
            ActionView::Sleep,
        ),
        _ => (s, ActionView::Sleep),
    }
}

/// The scheduler's reaction to any event.
///
/// A failed fetch abandons the trigger's work. A delivered post stores its
/// handle; a failed one leaves none. An edit, delivered or failed, leaves
/// the handle as it is. An outcome that was not awaited changes nothing.
pub open spec fn next(s: Scheduler, event: EventView) -> (Scheduler, ActionView) {
    match event {
        EventView::Tick(now) => on_tick(s, now),
        EventView::Fetched { records, now } => on_fetched(s, records, now),
        EventView::FetchFailed => if s.pending == Pending::PostFetch || s.pending
            == Pending::EditFetch {
            (Scheduler { pending: Pending::Nothing, ..s }, ActionView::Sleep)
        } else {
            (s, ActionView::Sleep)
        },
        EventView::Posted(handle) => if s.pending == Pending::PostDelivery {
            (Scheduler { handle: Some(handle), pending: Pending::Nothing, ..s }, ActionView::Sleep)
        } else {
            (s, ActionView::Sleep)
        },
        EventView::PostFailed => if s.pending == Pending::PostDelivery {
            (Scheduler { pending: Pending::Nothing, ..s }, ActionView::Sleep)
        } else {
            (s, ActionView::Sleep)
        },
        EventView::Edited | EventView::EditFailed => if s.pending == Pending::EditDelivery {
            (Scheduler { pending: Pending::Nothing, ..s }, ActionView::Sleep)
        } else {
            (s, ActionView::Sleep)
        },
    }
}

impl Scheduler {
    /// There is at most one handle, and it agrees with the work awaited:
    /// an edit is under way only for a message that exists, a post only
    /// after the old handle was dropped.
    pub open spec fn wf(self) -> bool {
        &&& (self.pending == Pending::EditFetch || self.pending == Pending::EditDelivery)
            ==> self.handle is Some
        &&& (self.pending == Pending::PostFetch || self.pending == Pending::PostDelivery)
            ==> self.handle is None
    }

    /// The scheduler at the start of the process.
    pub fn new() -> (s: Scheduler)
        ensures
            s == initial(),
            s.wf(),
    {
        Scheduler {
            state: SchedulerState::Idle,
            handle: None,
            pending: Pending::Nothing,
            last_fired: None,
        }
    }

    /// Whether a trigger has fired in the minute `stamp` already.
    pub fn has_fired_in(&self, stamp: &MinuteStamp) -> (fired: bool)
        ensures
            fired == (self.last_fired == Some(*stamp)),
    {
        match self.last_fired {
            Some(last) => last.date.year == stamp.date.year && last.date.month == stamp.date.month
                && last.date.day == stamp.date.day && last.hour == stamp.hour && last.minute
                == stamp.minute,
            None => false,
        }
    }

    /// Takes one event and says what to do next.
    pub fn step(&mut self, event: Event) -> (action: Action)
        requires
            event@.wf(),
        ensures
            (*final(self), action@) == next(*old(self), event@),
            old(self).wf() ==> final(self).wf(),
    {
        match event {
            Event::Tick(now) => {
                let stamp = MinuteStamp {
                    date: now.date,
                    hour: now.time.hour,
                    minute: now.time.minute,
                };
                let fired = self.has_fired_in(&stamp);
                if now.time.hour == POST_HOUR && now.time.minute == POST_MINUTE && !fired {
                    self.state = SchedulerState::AwaitingEditWindow;
                    self.handle = None;
                    self.pending = Pending::PostFetch;
                    self.last_fired = Some(stamp);
                    Action::Fetch
                } else if now.time.hour == EDIT_HOUR && now.time.minute == EDIT_MINUTE && !fired {
                    self.last_fired = Some(stamp);
                    if self.handle.is_some() {
                        self.state = SchedulerState::Idle;
                        self.pending = Pending::EditFetch;
                        Action::Fetch
                    } else {
                        self.pending = Pending::Nothing;
                        Action::Sleep
                    }
                } else {
                    self.pending = Pending::Nothing;
                    Action::Sleep
                }
            },
            Event::Fetched { records, now } => {
                match self.pending {
                    Pending::PostFetch => {
                        self.pending = Pending::PostDelivery;
                        Action::Post(generate_report(&records, &now))
                    },
                    Pending::EditFetch => {
                        match self.handle {
                            Some(handle) => {
                                self.pending = Pending::EditDelivery;
                                Action::Edit(handle, generate_report(&records, &now))
                            },
                            None => {
                                self.pending = Pending::Nothing;
                                Action::Sleep
                            },
                        }
                    },
                    _ => Action::Sleep,
                }
            },
            Event::FetchFailed => {
                match self.pending {
                    Pending::PostFetch | Pending::EditFetch => {
                        self.pending = Pending::Nothing;
                    },
                    _ => {},
                }
                Action::Sleep
            },
            Event::Posted(handle) => {
                match self.pending {
                    Pending::PostDelivery => {
                        self.handle = Some(handle);
                        self.pending = Pending::Nothing;
                    },
                    _ => {},
                }
                Action::Sleep
            },
            Event::PostFailed => {
                match self.pending {
                    Pending::PostDelivery => {
                        self.pending = Pending::Nothing;
                    },
                    _ => {},
                }
                Action::Sleep
            },
            Event::Edited | Event::EditFailed => {
                match self.pending {
                    Pending::EditDelivery => {
                        self.pending = Pending::Nothing;
                    },
                    _ => {},
                }
                Action::Sleep
            },
        }
    }
}

} // verus!
