//! What the coordinator asks its surroundings to do: window changes, one-way
//! notifications to the indicator, focus changes, pauses and background work.

use vstd::prelude::*;

verus! {

/// The states that the floating indicator can display.
#[derive(Clone, Copy, PartialEq, Eq, Structural, Debug)]
pub enum PillState {
    Idle,
    Listening,
    Loading,
    Success,
    Error,
}

impl PillState {
    /// The name under which the state is announced to the indicator.
    pub open spec fn spec_name(self) -> Seq<char> {
        match self {
            PillState::Idle => "idle"@,
            PillState::Listening => "listening"@,
            PillState::Loading => "loading"@,
            PillState::Success => "success"@,
            PillState::Error => "error"@,
        }
    }

    /// The name under which the state is announced to the indicator.
    pub fn name(self) -> (s: &'static str)
        ensures
            s@ == self.spec_name(),
    {
        match self {
            PillState::Idle => "idle",
            PillState::Listening => "listening",
            PillState::Loading => "loading",
            PillState::Success => "success",
            PillState::Error => "error",
        }
    }
}

/// One instruction for the surroundings. A list of them is carried out in order.
#[derive(PartialEq, Eq, Debug)]
pub enum Command {
    /// Show the indicator window.
    ShowIndicator,
    /// Hide the indicator window.
    HideIndicator,
    /// Recompute the dock icon from the windows that are visible now.
    RefreshDockIcon,
    /// Announce a new indicator state.
    EmitPillState(PillState),
    /// Announce that a recording is wanted.
    EmitStartRecording,
    /// Signal that capture must stop.
    EmitStopRecording,
    /// Forward the measured hold duration, in milliseconds.
    EmitHoldTime(u64),
    /// Bring the named application back to the foreground without waiting
    /// for the outcome.
    ReassertFocus(String),
    /// Bring the named application back to the foreground and wait until the
    /// request has been made.
    RestoreFocus(String),
    /// Do nothing for the given number of milliseconds.
    Pause(u64),
    /// Launch the background attempt to begin capture.
    LaunchStartAttempt,
    /// Launch the background task that finishes the session: hand focus back
    /// to `restore` if there is one, run the workflow with `hold_ms`, and
    /// show its outcome.
    DispatchFinish { restore: Option<String>, hold_ms: Option<u64> },
}

/// The mathematical value of a [`Command`]: names are sequences of characters.
pub enum CommandView {
    ShowIndicator,
    HideIndicator,
    RefreshDockIcon,
    EmitPillState(PillState),
    EmitStartRecording,
    EmitStopRecording,
    EmitHoldTime(u64),
    ReassertFocus(Seq<char>),
    RestoreFocus(Seq<char>),
    Pause(u64),
    LaunchStartAttempt,
    DispatchFinish { restore: Option<Seq<char>>, hold_ms: Option<u64> },
}

impl View for Command {
    type V = CommandView;

    open spec fn view(&self) -> CommandView {
        match *self {
            Command::ShowIndicator => CommandView::ShowIndicator,
            Command::HideIndicator => CommandView::HideIndicator,
            Command::RefreshDockIcon => CommandView::RefreshDockIcon,
            Command::EmitPillState(p) => CommandView::EmitPillState(p),
            Command::EmitStartRecording => CommandView::EmitStartRecording,
            Command::EmitStopRecording => CommandView::EmitStopRecording,
            Command::EmitHoldTime(ms) => CommandView::EmitHoldTime(ms),
            Command::ReassertFocus(name) => CommandView::ReassertFocus(name@),
            Command::RestoreFocus(name) => CommandView::RestoreFocus(name@),
            Command::Pause(ms) => CommandView::Pause(ms),
            Command::LaunchStartAttempt => CommandView::LaunchStartAttempt,
            Command::DispatchFinish { restore, hold_ms } => CommandView::DispatchFinish {
                restore: name_view(restore),
                hold_ms,
            },
        }
    }
}

impl DeepView for Command {
    type V = CommandView;

    open spec fn deep_view(&self) -> CommandView {
        self@
    }
}

impl CommandView {
    /// The channel on which the indicator is told of the command, for the
    /// commands that are notifications.
    pub open spec fn channel(self) -> Option<Seq<char>> {
        match self {
            CommandView::EmitPillState(_) => Some("pill-state"@),
            CommandView::EmitStartRecording => Some("start-recording"@),
            CommandView::EmitStopRecording => Some("stop-recording"@),
            CommandView::EmitHoldTime(_) => Some("hold-time"@),
            _ => None,
        }
    }
}

impl Command {
    /// The channel on which the indicator is told of the command, if the
    /// command is a notification.
    pub fn channel(&self) -> (channel: Option<&'static str>)
        ensures
            match self@.channel() {
                Some(name) => channel matches Some(c) && c@ == name,
                None => channel is None,
            },
    {
        match self {
            Command::EmitPillState(_) => Some("pill-state"),
            Command::EmitStartRecording => Some("start-recording"),
            Command::EmitStopRecording => Some("stop-recording"),
            Command::EmitHoldTime(_) => Some("hold-time"),
            _ => None,
        }
    }
}

/// The characters of an optional name.
pub open spec fn name_view(name: Option<String>) -> Option<Seq<char>> {
    match name {
        Some(s) => Some(s@),
        None => None,
    }
}

/// The indicator state that a list of commands leaves on display: the one
/// announced last, if any was announced.
pub open spec fn last_pill_state(commands: Seq<CommandView>) -> Option<PillState>
    decreases commands.len(),
{
    if commands.len() == 0 {
        None
    } else {
        match commands.last() {
            CommandView::EmitPillState(p) => Some(p),
            _ => last_pill_state(commands.drop_last()),
        }
    }
}

/// How many commands of a list launch a start attempt.
pub open spec fn launch_count(commands: Seq<CommandView>) -> nat
    decreases commands.len(),
{
    if commands.len() == 0 {
        0
    } else {
        launch_count(commands.drop_last()) + if commands.last() is LaunchStartAttempt {
            1nat
        } else {
            0nat
        }
    }
}

} // verus!
