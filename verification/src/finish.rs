//! The session finish dispatcher: what the background task does once a hold
//! that captured audio has ended. Focus goes back to the application that had
//! it, the workflow runs, its outcome is shown for a fixed time, and the
//! indicator returns to idle whatever the outcome was.

use vstd::prelude::*;
use crate::clock::{ERROR_DWELL_MS, FOCUS_SETTLE_MS, SUCCESS_DWELL_MS};
use crate::command::{last_pill_state, name_view, Command, CommandView, PillState};

verus! {

/// The commands that hand focus back before the workflow runs: none when
/// no application was recorded.
pub open spec fn handback_commands(restore: Option<Seq<char>>) -> Seq<CommandView> {
    match restore {
        Some(name) => seq![CommandView::RestoreFocus(name), CommandView::Pause(FOCUS_SETTLE_MS)],
        None => seq![],
    }
}

/// How long the outcome of the workflow stays on display, in milliseconds.
pub open spec fn dwell_millis(succeeded: bool) -> u64 {
    if succeeded {
        SUCCESS_DWELL_MS
    } else {
        ERROR_DWELL_MS
    }
}

/// The indicator state that shows the outcome of the workflow.
pub open spec fn outcome_state(succeeded: bool) -> PillState {
    if succeeded {
        PillState::Success
    } else {
        PillState::Error
    }
}

/// The commands that follow the workflow: show the outcome, let it dwell,
/// go back to idle and hide the indicator.
pub open spec fn closing_commands(succeeded: bool) -> Seq<CommandView> {
    seq![
        CommandView::EmitPillState(outcome_state(succeeded)),
        CommandView::Pause(dwell_millis(succeeded)),
        CommandView::EmitPillState(PillState::Idle),
        CommandView::HideIndicator,
        CommandView::RefreshDockIcon,
    ]
}

/// The commands of the finish task before it runs the workflow. When an
/// application was recorded at the press, focus goes back to it and the task
/// pauses until the change has settled, so that what the workflow types
/// lands there.
pub fn before_workflow(restore: Option<String>) -> (commands: Vec<Command>)
    ensures
        commands.deep_view() == handback_commands(name_view(restore)),
{
    let mut commands: Vec<Command> = Vec::new();
    match restore {
        Some(name) => {
            commands.push(Command::RestoreFocus(name));
            commands.push(Command::Pause(FOCUS_SETTLE_MS));
        },
        None => {},
    }
    assert(commands.deep_view() =~= handback_commands(name_view(restore)));
    commands
}

/// The commands of the finish task after the workflow has returned.
/// `succeeded` tells how it went. A failure is shown, and shown longer than
/// a success, but it ends the session like a success does.
pub fn after_workflow(succeeded: bool) -> (commands: Vec<Command>)
    ensures
        commands.deep_view() == closing_commands(succeeded),
{
    let mut commands: Vec<Command> = Vec::new();
    if succeeded {
        commands.push(Command::EmitPillState(PillState::Success));
        commands.push(Command::Pause(SUCCESS_DWELL_MS));
    } else {
        commands.push(Command::EmitPillState(PillState::Error));
        commands.push(Command::Pause(ERROR_DWELL_MS));
    }
    commands.push(Command::EmitPillState(PillState::Idle));
    commands.push(Command::HideIndicator);
    commands.push(Command::RefreshDockIcon);
    assert(commands.deep_view() =~= closing_commands(succeeded));
    commands
}

/// Whatever the workflow returns, the finish task leaves the indicator
/// idle: the last state it announces is `idle`, after the outcome was on
/// display for its dwell time, and the window is hidden after that.
pub proof fn lemma_finish_returns_to_idle(succeeded: bool)
    ensures
        last_pill_state(closing_commands(succeeded)) == Some(PillState::Idle),
        closing_commands(succeeded)[0] == CommandView::EmitPillState(outcome_state(succeeded)),
        closing_commands(succeeded)[1] == CommandView::Pause(dwell_millis(succeeded)),
        closing_commands(succeeded)[2] == CommandView::EmitPillState(PillState::Idle),
        closing_commands(succeeded)[3] == CommandView::HideIndicator,
        closing_commands(succeeded).len() == 5,
{
    let all = closing_commands(succeeded);
    let four = all.drop_last();
    let three = four.drop_last();
    assert(all.last() == CommandView::RefreshDockIcon);
    assert(four.last() == CommandView::HideIndicator);
    assert(three.last() == CommandView::EmitPillState(PillState::Idle));
    assert(last_pill_state(three) == Some(PillState::Idle));
    assert(last_pill_state(four) == last_pill_state(three));
    assert(last_pill_state(all) == last_pill_state(four));
}

/// A failing workflow is shown as an error for the error dwell time and
/// then gives way to idle.
pub proof fn lemma_failure_dwells_then_idles()
    ensures
        closing_commands(false) == seq![
            CommandView::EmitPillState(PillState::Error),
            CommandView::Pause(ERROR_DWELL_MS),
            CommandView::EmitPillState(PillState::Idle),
            CommandView::HideIndicator,
            CommandView::RefreshDockIcon,
        ],
        ERROR_DWELL_MS == 3000,
        ERROR_DWELL_MS > SUCCESS_DWELL_MS,
        last_pill_state(closing_commands(false)) == Some(PillState::Idle),
{
    lemma_finish_returns_to_idle(false);
}

} // verus!
