//! What holds of the router over whole series of events: the invariant of
//! the session context, the effect of debouncing on bursts, the measured hold
//! duration, the single start attempt, and the return to idle.

use vstd::prelude::*;
use crate::clock::{Timestamp, DEBOUNCE_WINDOW_MS, NANOS_PER_MILLI};
use crate::command::{last_pill_state, launch_count, CommandView, PillState};
use crate::debounce::outside_window;
use crate::finish::{closing_commands, handback_commands, lemma_finish_returns_to_idle};
use crate::hold::hold_millis;
use crate::router::{ContextView, EventView, RouterState};
use crate::start::{lemma_release_before_ready_prevents_start, Round, StartAttempt, StartOutcome};

verus! {

/// Running two series of events one after the other is running their
/// concatenation.
pub proof fn lemma_run_concat(ctx: ContextView, first: Seq<EventView>, second: Seq<EventView>)
    ensures
        ctx.run(first + second) == (
            ctx.run(first).0.run(second).0,
            ctx.run(first).1 + ctx.run(first).0.run(second).1,
        ),
    decreases second.len(),
{
    if second.len() == 0 {
        assert(first + second =~= first);
        assert(ctx.run(first).1 + Seq::<CommandView>::empty() =~= ctx.run(first).1);
    } else {
        let all = first + second;
        assert(all.drop_last() =~= first + second.drop_last());
        assert(all.last() == second.last());
        lemma_run_concat(ctx, first, second.drop_last());
        let mid = ctx.run(first);
        let before = mid.0.run(second.drop_last());
        let more = before.0.step(second.last()).1;
        assert((mid.1 + before.1) + more =~= mid.1 + (before.1 + more));
    }
}

/// A series of one event does what the event does.
pub proof fn lemma_run_single(ctx: ContextView, event: EventView)
    ensures
        ctx.run(seq![event]) == ctx.step(event),
{
    let events = seq![event];
    assert(events.drop_last() =~= Seq::<EventView>::empty());
    assert(events.last() == event);
    assert(ctx.run(events.drop_last()) == (ctx, Seq::<CommandView>::empty()));
    assert(Seq::<CommandView>::empty() + ctx.step(event).1 =~= ctx.step(event).1);
}

/// No series of events moves the time of the last accepted signal
/// backwards.
pub proof fn lemma_last_action_never_decreases(ctx: ContextView, events: Seq<EventView>)
    ensures
        ctx.run(events).0.last_action.nanos >= ctx.last_action.nanos,
    decreases events.len(),
{
    if events.len() > 0 {
        lemma_last_action_never_decreases(ctx, events.drop_last());
    }
}

/// Every event keeps the invariant of the context.
pub proof fn lemma_step_keeps_invariant(ctx: ContextView, event: EventView)
    requires
        ctx.inv(),
    ensures
        ctx.step(event).0.inv(),
{
}

/// Every series of events keeps the invariant of the context: while the
/// key is held the hold has a start, and no hold began after the last
/// accepted signal.
pub proof fn lemma_run_keeps_invariant(ctx: ContextView, events: Seq<EventView>)
    requires
        ctx.inv(),
    ensures
        ctx.run(events).0.inv(),
        ctx.run(events).0.held ==> ctx.run(events).0.hold_start is Some,
    decreases events.len(),
{
    if events.len() > 0 {
        lemma_run_keeps_invariant(ctx, events.drop_last());
        lemma_step_keeps_invariant(ctx.run(events.drop_last()).0, events.last());
    }
}

/// Every context that signals can lead to from a fresh one satisfies the
/// invariant.
pub proof fn lemma_reachable_contexts_are_consistent(created_at: Timestamp, events: Seq<EventView>)
    ensures
        ContextView::initial(created_at).run(events).0.inv(),
{
    lemma_run_keeps_invariant(ContextView::initial(created_at), events);
}

/// Two accepted signals are never closer than the refractory window,
/// whatever happens between them.
pub proof fn lemma_accepted_signals_are_apart(
    ctx: ContextView,
    first: EventView,
    between: Seq<EventView>,
    second: EventView,
)
    requires
        first.is_key_signal(),
        second.is_key_signal(),
        ctx.accepts(first.read_at()),
        ctx.step(first).0.run(between).0.accepts(second.read_at()),
    ensures
        second.read_at().nanos - first.read_at().nanos > DEBOUNCE_WINDOW_MS * NANOS_PER_MILLI,
{
    lemma_last_action_never_decreases(ctx.step(first).0, between);
}

/// The router moves between its two states on accepted signals only: an
/// accepted press leaves it held, an accepted release leaves it idle, and a
/// debounced signal leaves everything as it was and yields no command.
pub proof fn lemma_transitions(ctx: ContextView, event: EventView)
    requires
        event.is_key_signal(),
    ensures
        ctx.accepts(event.read_at()) && event is Press ==> ctx.step(event).0.state()
            == RouterState::Held,
        ctx.accepts(event.read_at()) && event is Release ==> ctx.step(event).0.state()
            == RouterState::Idle,
        !ctx.accepts(event.read_at()) ==> ctx.step(event) == (ctx, Seq::<CommandView>::empty()),
{
}

/// Background work is launched last: whatever an event yields, a launch
/// of the start attempt or a dispatch of the finish task can only be its
/// last command, after the context has changed and the indicator was told.
pub proof fn lemma_background_work_is_launched_last(ctx: ContextView, event: EventView)
    ensures
        forall|i: int|
            0 <= i < ctx.step(event).1.len() - 1 ==> {
                &&& !(#[trigger] ctx.step(event).1[i] is LaunchStartAttempt)
                &&& !(ctx.step(event).1[i] is DispatchFinish)
            },
{
}

/// Signals of the key hook that all arrive within the refractory window
/// of the last accepted signal have no effect at all: the context stays as
/// it was and no command is yielded.
pub proof fn lemma_burst_is_ignored(ctx: ContextView, events: Seq<EventView>)
    requires
        forall|i: int|
            0 <= i < events.len() ==> (#[trigger] events[i]).is_key_signal() && !outside_window(
                ctx.last_action,
                events[i].read_at(),
            ),
    ensures
        ctx.run(events) == (ctx, Seq::<CommandView>::empty()),
    decreases events.len(),
{
    if events.len() > 0 {
        let before = events.drop_last();
        assert forall|i: int| 0 <= i < before.len() implies (#[trigger] before[i]).is_key_signal()
            && !outside_window(ctx.last_action, before[i].read_at()) by {
            assert(before[i] == events[i]);
        }
        lemma_burst_is_ignored(ctx, before);
        assert(events.last() == events[events.len() - 1]);
        assert(Seq::<CommandView>::empty() + Seq::<CommandView>::empty() =~= Seq::<
            CommandView,
        >::empty());
    }
}

/// Of a burst of signals, only the first has an effect: when a signal is
/// accepted and every signal after it arrives within the refractory window
/// that it opened, the whole burst does what its first signal does alone.
pub proof fn lemma_first_of_burst_alone_counts(
    ctx: ContextView,
    first: EventView,
    rest: Seq<EventView>,
)
    requires
        first.is_key_signal(),
        ctx.accepts(first.read_at()),
        forall|i: int|
            0 <= i < rest.len() ==> (#[trigger] rest[i]).is_key_signal() && !outside_window(
                first.read_at(),
                rest[i].read_at(),
            ),
    ensures
        ctx.run(seq![first] + rest) == ctx.step(first),
        ctx.step(first).0.last_action == first.read_at(),
{
    let after = ctx.step(first);
    lemma_run_single(ctx, first);
    lemma_run_concat(ctx, seq![first], rest);
    lemma_burst_is_ignored(after.0, rest);
    assert(after.1 + Seq::<CommandView>::empty() =~= after.1);
}

/// The hold duration that an accepted release reports is the time between
/// the accepted press and the accepted release, in whole milliseconds. It is
/// never shorter than the refractory window.
pub proof fn lemma_hold_duration_is_elapsed_time(
    ctx: ContextView,
    pressed_at: Timestamp,
    frontmost: Option<Seq<char>>,
    active_at_press: bool,
    released_at: Timestamp,
)
    requires
        ctx.accepts(pressed_at),
        ctx.press(pressed_at, frontmost, active_at_press).0.accepts(released_at),
    ensures
        released_at.nanos > pressed_at.nanos,
        hold_millis(ctx.press(pressed_at, frontmost, active_at_press).0.hold_start, released_at)
            == Some(((released_at.nanos - pressed_at.nanos) / (NANOS_PER_MILLI as int)) as u64),
        (released_at.nanos - pressed_at.nanos) / (NANOS_PER_MILLI as int) >= DEBOUNCE_WINDOW_MS,
        ctx.press(pressed_at, frontmost, active_at_press).0.release(released_at, true).1 == seq![
            CommandView::EmitPillState(PillState::Loading),
            CommandView::EmitStopRecording,
            CommandView::EmitHoldTime(
                ((released_at.nanos - pressed_at.nanos) / (NANOS_PER_MILLI as int)) as u64,
            ),
            CommandView::DispatchFinish {
                restore: frontmost,
                hold_ms: Some(
                    ((released_at.nanos - pressed_at.nanos) / (NANOS_PER_MILLI as int)) as u64,
                ),
            },
        ],
{
}

/// How many start attempts the commands of two lists launch together.
pub proof fn lemma_launch_count_concat(first: Seq<CommandView>, second: Seq<CommandView>)
    ensures
        launch_count(first + second) == launch_count(first) + launch_count(second),
    decreases second.len(),
{
    if second.len() == 0 {
        assert(first + second =~= first);
    } else {
        let all = first + second;
        assert(all.drop_last() =~= first + second.drop_last());
        assert(all.last() == second.last());
        lemma_launch_count_concat(first, second.drop_last());
    }
}

/// One event launches a start attempt exactly when it is an accepted press
/// that finds none in flight and capture not active, and then it marks the
/// attempt as in flight. No event launches more than one.
pub proof fn lemma_step_launches(ctx: ContextView, event: EventView)
    ensures
        launch_count(ctx.step(event).1) == if event matches EventView::Press {
            now,
            capture_active,
            ..
        } && ctx.accepts(now) && ctx.launches(capture_active) {
            1nat
        } else {
            0nat
        },
        launch_count(ctx.step(event).1) == 1 ==> ctx.step(event).0.starting,
        !(event is StartAttemptEnded) && ctx.starting ==> ctx.step(event).0.starting,
{
    reveal_with_fuel(launch_count, 5);
    match event {
        EventView::Press { now, frontmost, capture_active } => {
            if ctx.accepts(now) {
                let fixed = seq![
                    CommandView::ShowIndicator,
                    CommandView::RefreshDockIcon,
                    CommandView::EmitPillState(PillState::Listening),
                    CommandView::EmitStartRecording,
                ];
                let reassert = match frontmost {
                    Some(name) => seq![CommandView::ReassertFocus(name)],
                    None => seq![],
                };
                let launch = if ctx.launches(capture_active) {
                    seq![CommandView::LaunchStartAttempt]
                } else {
                    seq![]
                };
                lemma_launch_count_concat(fixed, reassert);
                lemma_launch_count_concat(fixed + reassert, launch);
                assert(launch_count(fixed) == 0);
                assert(launch_count(reassert) == 0);
            }
        },
        EventView::Release { now, capture_active } => {
            if ctx.accepts(now) && capture_active {
                let hold_ms = hold_millis(ctx.hold_start, now);
                let head = seq![
                    CommandView::EmitPillState(PillState::Loading),
                    CommandView::EmitStopRecording,
                ];
                let time = match hold_ms {
                    Some(ms) => seq![CommandView::EmitHoldTime(ms)],
                    None => seq![],
                };
                let dispatch = seq![CommandView::DispatchFinish { restore: ctx.front_app, hold_ms }];
                lemma_launch_count_concat(head, time);
                lemma_launch_count_concat(head + time, dispatch);
                assert(launch_count(head) == 0);
                assert(launch_count(time) == 0);
                assert(launch_count(dispatch) == 0);
            }
        },
        EventView::StartAttemptEnded => {},
    }
}

/// While a start attempt is in flight, no event launches another.
pub proof fn lemma_no_launch_while_starting(ctx: ContextView, event: EventView)
    requires
        ctx.starting,
    ensures
        launch_count(ctx.step(event).1) == 0,
{
    lemma_step_launches(ctx, event);
}

/// At most one start attempt is in flight: between two ends of attempts,
/// no series of signals launches more than one, and none at all when one is
/// in flight already, however often the key is pressed.
pub proof fn lemma_one_attempt_in_flight(ctx: ContextView, events: Seq<EventView>)
    requires
        forall|i: int| 0 <= i < events.len() ==> !((#[trigger] events[i]) is StartAttemptEnded),
    ensures
        launch_count(ctx.run(events).1) <= 1,
        ctx.starting ==> launch_count(ctx.run(events).1) == 0,
        ctx.run(events).0.starting == (ctx.starting || launch_count(ctx.run(events).1) == 1),
    decreases events.len(),
{
    if events.len() > 0 {
        let before = events.drop_last();
        assert forall|i: int| 0 <= i < before.len() implies !((#[trigger] before[i])
            is StartAttemptEnded) by {
            assert(before[i] == events[i]);
        }
        lemma_one_attempt_in_flight(ctx, before);
        let mid = ctx.run(before);
        assert(events.last() == events[events.len() - 1]);
        lemma_step_launches(mid.0, events.last());
        lemma_launch_count_concat(mid.1, mid.0.step(events.last()).1);
    }
}

/// Once a start attempt has ended, however it ended, none is in flight,
/// and the next accepted press that finds capture not active launches one.
pub proof fn lemma_attempt_end_enables_next_launch(
    ctx: ContextView,
    now: Timestamp,
    frontmost: Option<Seq<char>>,
)
    requires
        ctx.accepts(now),
    ensures
        !ctx.end_start_attempt().starting,
        ctx.end_start_attempt().accepts(now),
        launch_count(ctx.end_start_attempt().press(now, frontmost, false).1) == 1,
        ctx.end_start_attempt().press(now, frontmost, false).0.starting,
{
    lemma_step_launches(
        ctx.end_start_attempt(),
        EventView::Press { now, frontmost, capture_active: false },
    );
}

/// A release that is accepted before the audio subsystem was ready cancels
/// the start attempt: the attempt finds the key released in its next probe
/// and ends without asking for capture to begin.
pub proof fn lemma_accepted_release_cancels_attempt(
    ctx: ContextView,
    released_at: Timestamp,
    capture_active: bool,
    attempt: StartAttempt,
    rounds: Seq<Round>,
    k: int,
)
    requires
        ctx.accepts(released_at),
        0 <= k < rounds.len(),
        rounds[k].held == ctx.release(released_at, capture_active).0.held,
        forall|i: int| 0 <= i < k ==> !(#[trigger] rounds[i]).ready,
    ensures
        attempt.start_calls(rounds) == 0,
        attempt.outcome(rounds) is Some,
        attempt.outcome(rounds) != Some(StartOutcome::Started),
{
    lemma_release_before_ready_prevents_start(attempt, rounds, k);
}

/// The indicator state that two lists of commands leave on display.
pub proof fn lemma_last_pill_state_concat(first: Seq<CommandView>, second: Seq<CommandView>)
    ensures
        last_pill_state(first + second) == if last_pill_state(second) is Some {
            last_pill_state(second)
        } else {
            last_pill_state(first)
        },
    decreases second.len(),
{
    if second.len() == 0 {
        assert(first + second =~= first);
    } else {
        let all = first + second;
        assert(all.drop_last() =~= first + second.drop_last());
        assert(all.last() == second.last());
        lemma_last_pill_state_concat(first, second.drop_last());
    }
}

/// All the commands that an accepted release leads to, those of the
/// finish task included, for a workflow that ends as `succeeded` tells.
pub open spec fn session_end_commands(
    ctx: ContextView,
    now: Timestamp,
    capture_active: bool,
    succeeded: bool,
) -> Seq<CommandView> {
    if capture_active {
        ctx.release_commands(now, capture_active) + handback_commands(ctx.front_app)
            + closing_commands(succeeded)
    } else {
        ctx.release_commands(now, capture_active)
    }
}

/// Every accepted release brings the indicator back to idle: at once when
/// capture never started, and after the outcome was shown when the workflow
/// ran, whether it succeeded or failed.
pub proof fn lemma_release_returns_to_idle(
    ctx: ContextView,
    now: Timestamp,
    capture_active: bool,
    succeeded: bool,
)
    ensures
        last_pill_state(session_end_commands(ctx, now, capture_active, succeeded)) == Some(
            PillState::Idle,
        ),
        ctx.release(now, capture_active).0.state() == RouterState::Idle || !ctx.accepts(now),
{
    if capture_active {
        lemma_finish_returns_to_idle(succeeded);
        lemma_last_pill_state_concat(
            ctx.release_commands(now, capture_active) + handback_commands(ctx.front_app),
            closing_commands(succeeded),
        );
    } else {
        reveal_with_fuel(last_pill_state, 4);
    }
}

} // verus!
