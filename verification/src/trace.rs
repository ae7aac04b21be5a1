//! What the scheduler does over a whole run of events.

use crate::classify::RecordView;
use crate::report::generated_report;
use crate::scheduler::{
    initial, is_edit_time, is_post_time, next, stamp_of, ActionView, EventView, MessageHandle,
    Pending, Scheduler,
};
use crate::time::LocalDateTime;
use vstd::prelude::*;

verus! {

/// The state after a run of events, and the actions asked for on the way,
/// one for each event.
pub open spec fn run(s: Scheduler, events: Seq<EventView>) -> (Scheduler, Seq<ActionView>)
    decreases events.len(),
{
    if events.len() == 0 {
        (s, Seq::empty())
    } else {
        let (mid, actions) = run(s, events.drop_last());
        let (end, action) = next(mid, events.last());
        (end, actions.push(action))
    }
}

/// The calls to the chat platform among `actions`, posts and edits, in order.
pub open spec fn deliveries(actions: Seq<ActionView>) -> Seq<ActionView>
    decreases actions.len(),
{
    if actions.len() == 0 {
        Seq::empty()
    } else {
        let before = deliveries(actions.drop_last());
        match actions.last() {
            ActionView::Post(_) | ActionView::Edit(_, _) => before.push(actions.last()),
            _ => before,
        }
    }
}

/// Every event is a tick outside the minutes of both triggers.
pub open spec fn all_quiet(events: Seq<EventView>) -> bool {
    forall|i: int|
        0 <= i < events.len() ==> (#[trigger] events[i] matches EventView::Tick(now)
            && !is_post_time(now.time) && !is_edit_time(now.time))
}

/// The scheduler awaits nothing, and no trigger has fired in the minute of `tick`.
/// The scheduler at the start of the process is such a one for every tick.
pub open spec fn rests_before(s: Scheduler, tick: LocalDateTime) -> bool {
    s.pending == Pending::Nothing && s.last_fired != Some(stamp_of(tick))
}

/// A run of two parts is the run of the first part followed by the run of
/// the second from where the first ended.
pub proof fn run_of_concatenation(s: Scheduler, first: Seq<EventView>, second: Seq<EventView>)
    ensures
        run(s, first + second).0 == run(run(s, first).0, second).0,
        run(s, first + second).1 == run(s, first).1 + run(run(s, first).0, second).1,
    decreases second.len(),
{
    if second.len() > 0 {
        assert((first + second).drop_last() =~= first + second.drop_last());
        run_of_concatenation(s, first, second.drop_last());
    }
}

/// The deliveries of two runs of actions in a row are those of the first
/// followed by those of the second.
pub proof fn deliveries_of_concatenation(first: Seq<ActionView>, second: Seq<ActionView>)
    ensures
        deliveries(first + second) == deliveries(first) + deliveries(second),
    decreases second.len(),
{
    if second.len() > 0 {
        assert((first + second).drop_last() =~= first + second.drop_last());
        deliveries_of_concatenation(first, second.drop_last());
    }
}

/// Ticks outside the trigger minutes leave a scheduler that awaits nothing
/// as it is, and no delivery is asked for.
pub proof fn quiet_ticks_change_nothing(s: Scheduler, events: Seq<EventView>)
    requires
        all_quiet(events),
        s.pending == Pending::Nothing,
    ensures
        run(s, events).0 == s,
        deliveries(run(s, events).1) == Seq::<ActionView>::empty(),
    decreases events.len(),
{
    if events.len() > 0 {
        let shorter = events.drop_last();
        assert(all_quiet(shorter)) by {
            assert forall|i: int| 0 <= i < shorter.len() implies (#[trigger] shorter[i] matches
                EventView::Tick(now) && !is_post_time(now.time) && !is_edit_time(now.time)) by {
                assert(shorter[i] == events[i]);
            }
        }
        quiet_ticks_change_nothing(s, shorter);
        let actions = run(s, shorter).1;
        assert(actions.push(next(s, events.last()).1).drop_last() =~= actions);
    }
}

/// A trigger does not fire twice within one minute: after a tick in some
/// minute, another tick in that minute asks for nothing.
pub proof fn trigger_fires_once_per_minute(s: Scheduler, first: LocalDateTime, again: LocalDateTime)
    requires
        stamp_of(first) == stamp_of(again),
        is_post_time(first.time) || is_edit_time(first.time),
    ensures
        next(next(s, EventView::Tick(first)).0, EventView::Tick(again)).1 == ActionView::Sleep,
{
}

/// The events of a day on which everything works: ticks outside the trigger
/// minutes, the one tick in the post minute with its fetch and its delivery,
/// more such ticks, the one tick in the edit minute with its fetch and its
/// delivery, and ticks again.
pub open spec fn day_that_works(
    before: Seq<EventView>,
    post_tick: LocalDateTime,
    post_records: Seq<RecordView>,
    post_now: LocalDateTime,
    handle: MessageHandle,
    between: Seq<EventView>,
    edit_tick: LocalDateTime,
    edit_records: Seq<RecordView>,
    edit_now: LocalDateTime,
    after: Seq<EventView>,
) -> Seq<EventView> {
    before + seq![
        EventView::Tick(post_tick),
        EventView::Fetched { records: post_records, now: post_now },
        EventView::Posted(handle),
    ] + between + seq![
        EventView::Tick(edit_tick),
        EventView::Fetched { records: edit_records, now: edit_now },
        EventView::Edited,
    ] + after
}

/// The events of a day on which the fetch in the post minute fails.
pub open spec fn day_with_failed_fetch(
    before: Seq<EventView>,
    post_tick: LocalDateTime,
    between: Seq<EventView>,
    edit_tick: LocalDateTime,
    after: Seq<EventView>,
) -> Seq<EventView> {
    before + seq![EventView::Tick(post_tick), EventView::FetchFailed] + between + seq![
        EventView::Tick(edit_tick),
    ] + after
}

/// When the clock reaches the post minute once and then the edit minute
/// once, and every fetch and delivery succeeds, the scheduler asks for
/// exactly one post and then exactly one edit, and the edit is of the very
/// message that the post delivered. This holds from the start of the
/// process, and from any later state of rest as well.
pub proof fn one_post_then_one_edit(
    start: Scheduler,
    before: Seq<EventView>,
    post_tick: LocalDateTime,
    post_records: Seq<RecordView>,
    post_now: LocalDateTime,
    handle: MessageHandle,
    between: Seq<EventView>,
    edit_tick: LocalDateTime,
    edit_records: Seq<RecordView>,
    edit_now: LocalDateTime,
    after: Seq<EventView>,
)
    requires
        start == initial() || rests_before(start, post_tick),
        all_quiet(before),
        all_quiet(between),
        all_quiet(after),
        is_post_time(post_tick.time),
        is_edit_time(edit_tick.time),
    ensures
        deliveries(
            run(
                start,
                day_that_works(
                    before,
                    post_tick,
                    post_records,
                    post_now,
                    handle,
                    between,
                    edit_tick,
                    edit_records,
                    edit_now,
                    after,
                ),
            ).1,
        ) == seq![
            ActionView::Post(generated_report(post_records, post_now)),
            ActionView::Edit(handle, generated_report(edit_records, edit_now)),
        ],
{
    let s0 = start;
    let posting = seq![
        EventView::Tick(post_tick),
        EventView::Fetched { records: post_records, now: post_now },
        EventView::Posted(handle),
    ];
    let editing = seq![
        EventView::Tick(edit_tick),
        EventView::Fetched { records: edit_records, now: edit_now },
        EventView::Edited,
    ];
    let post = ActionView::Post(generated_report(post_records, post_now));
    let edit = ActionView::Edit(handle, generated_report(edit_records, edit_now));

    quiet_ticks_change_nothing(s0, before);
    let s1 = run(s0, posting).0;
    assert(run(s0, posting).1 =~= seq![ActionView::Fetch, post, ActionView::Sleep] && s1.handle
        == Some(handle) && s1.pending == Pending::Nothing && s1.last_fired == Some(
        stamp_of(post_tick),
    )) by {
        reveal_with_fuel(run, 4);
    }
    assert(deliveries(seq![ActionView::Fetch, post, ActionView::Sleep]) =~= seq![post]) by {
        reveal_with_fuel(deliveries, 4);
    }
    quiet_ticks_change_nothing(s1, between);
    let s2 = run(s1, editing).0;
    assert(run(s1, editing).1 =~= seq![ActionView::Fetch, edit, ActionView::Sleep] && s2.pending
        == Pending::Nothing) by {
        reveal_with_fuel(run, 4);
    }
    assert(deliveries(seq![ActionView::Fetch, edit, ActionView::Sleep]) =~= seq![edit]) by {
        reveal_with_fuel(deliveries, 4);
    }
    quiet_ticks_change_nothing(s2, after);

    let through_post = before + posting;
    let through_wait = through_post + between;
    let through_edit = through_wait + editing;
    run_of_concatenation(s0, before, posting);
    run_of_concatenation(s0, through_post, between);
    run_of_concatenation(s0, through_wait, editing);
    run_of_concatenation(s0, through_edit, after);
    deliveries_of_concatenation(run(s0, before).1, run(s0, posting).1);
    deliveries_of_concatenation(run(s0, through_post).1, run(s1, between).1);
    deliveries_of_concatenation(run(s0, through_wait).1, run(s1, editing).1);
    deliveries_of_concatenation(run(s0, through_edit).1, run(s2, after).1);
}

/// When the fetch in the post minute fails, nothing is posted, and the edit
/// minute that follows finds no message and edits nothing. This holds from
/// the start of the process, and from any later state of rest as well.
pub proof fn failed_fetch_posts_and_edits_nothing(
    start: Scheduler,
    before: Seq<EventView>,
    post_tick: LocalDateTime,
    between: Seq<EventView>,
    edit_tick: LocalDateTime,
    after: Seq<EventView>,
)
    requires
        start == initial() || rests_before(start, post_tick),
        all_quiet(before),
        all_quiet(between),
        all_quiet(after),
        is_post_time(post_tick.time),
        is_edit_time(edit_tick.time),
    ensures
        deliveries(
            run(start, day_with_failed_fetch(before, post_tick, between, edit_tick, after)).1,
        ) == Seq::<ActionView>::empty(),
        run(
            start,
            day_with_failed_fetch(before, post_tick, between, edit_tick, after),
        ).0.handle is None,
{
    let s0 = start;
    let posting = seq![EventView::Tick(post_tick), EventView::FetchFailed];
    let editing = seq![EventView::Tick(edit_tick)];

    quiet_ticks_change_nothing(s0, before);
    let s1 = run(s0, posting).0;
    assert(run(s0, posting).1 =~= seq![ActionView::Fetch, ActionView::Sleep] && s1.handle is None
        && s1.pending == Pending::Nothing) by {
        reveal_with_fuel(run, 3);
    }
    assert(deliveries(seq![ActionView::Fetch, ActionView::Sleep]) =~= Seq::<ActionView>::empty())
        by {
        reveal_with_fuel(deliveries, 3);
    }
    quiet_ticks_change_nothing(s1, between);
    let s2 = run(s1, editing).0;
    assert(run(s1, editing).1 =~= seq![ActionView::Sleep] && s2.handle is None && s2.pending
        == Pending::Nothing) by {
        reveal_with_fuel(run, 2);
    }
    assert(deliveries(seq![ActionView::Sleep]) =~= Seq::<ActionView>::empty()) by {
        reveal_with_fuel(deliveries, 2);
    }
    quiet_ticks_change_nothing(s2, after);

    let through_post = before + posting;
    let through_wait = through_post + between;
    let through_edit = through_wait + editing;
    run_of_concatenation(s0, before, posting);
    run_of_concatenation(s0, through_post, between);
    run_of_concatenation(s0, through_wait, editing);
    run_of_concatenation(s0, through_edit, after);
    deliveries_of_concatenation(run(s0, before).1, run(s0, posting).1);
    deliveries_of_concatenation(run(s0, through_post).1, run(s1, between).1);
    deliveries_of_concatenation(run(s0, through_wait).1, run(s1, editing).1);
    deliveries_of_concatenation(run(s0, through_edit).1, run(s2, after).1);
}

} // verus!
