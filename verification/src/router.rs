//! The key event router: the state machine that turns the raw press and
//! release signals of the key hook into hold sessions. Each signal is
//! debounced; an accepted one changes the session context and yields the
//! commands that the surroundings carry out.

use vstd::prelude::*;
use crate::clock::Timestamp;
use crate::command::{name_view, Command, CommandView, PillState};
use crate::debounce::{outside_window, DebounceGuard};
use crate::focus::FocusSnapshot;
use crate::hold::{hold_millis, HoldSession};

verus! {

/// The two states of the router.
#[derive(Clone, Copy, PartialEq, Eq, Structural, Debug)]
pub enum RouterState {
    /// No hold is under way.
    Idle,
    /// The key is held; capture is pending or active.
    Held,
}

/// The mathematical value of a [`SessionContext`].
pub struct ContextView {
    /// When the last signal was accepted.
    pub last_action: Timestamp,
    /// When the hold under way began.
    pub hold_start: Option<Timestamp>,
    /// Whether the key is held.
    pub held: bool,
    /// Whether a start attempt is in flight.
    pub starting: bool,
    /// The application that had the keyboard when the hold began.
    pub front_app: Option<Seq<char>>,
}

impl ContextView {
    /// What holds of every context: while the key is held the hold has a
    /// start, and no hold began after the last accepted signal.
    pub open spec fn inv(self) -> bool {
        &&& self.held ==> self.hold_start is Some
        &&& self.hold_start matches Some(start) ==> start.nanos <= self.last_action.nanos
    }

    /// The context before any signal, with the debounce window opening at `now`.
    pub open spec fn initial(now: Timestamp) -> ContextView {
        ContextView {
            last_action: now,
            hold_start: None,
            held: false,
            starting: false,
            front_app: None,
        }
    }

    /// The state of the router.
    pub open spec fn state(self) -> RouterState {
        if self.held {
            RouterState::Held
        } else {
            RouterState::Idle
        }
    }

    /// Whether a signal read at `now` passes the debounce guard.
    pub open spec fn accepts(self, now: Timestamp) -> bool {
        outside_window(self.last_action, now)
    }

    /// Whether an accepted press launches a start attempt: none is in
    /// flight and capture is not active already.
    pub open spec fn launches(self, capture_active: bool) -> bool {
        !self.starting && !capture_active
    }

    /// The context after a press that was accepted.
    pub open spec fn after_press(
        self,
        now: Timestamp,
        frontmost: Option<Seq<char>>,
        capture_active: bool,
    ) -> ContextView {
        ContextView {
            last_action: now,
            hold_start: Some(now),
            held: true,
            starting: self.starting || !capture_active,
            front_app: frontmost,
        }
    }

    /// The commands of a press that was accepted.
    pub open spec fn press_commands(
        self,
        frontmost: Option<Seq<char>>,
        capture_active: bool,
    ) -> Seq<CommandView> {
        seq![
            CommandView::ShowIndicator,
            CommandView::RefreshDockIcon,
            CommandView::EmitPillState(PillState::Listening),
            CommandView::EmitStartRecording,
        ] + match frontmost {
            Some(name) => seq![CommandView::ReassertFocus(name)],
            None => seq![],
        } + if self.launches(capture_active) {
            seq![CommandView::LaunchStartAttempt]
        } else {
            seq![]
        }
    }

    /// The context after a release that was accepted.
    pub open spec fn after_release(self, now: Timestamp) -> ContextView {
        ContextView {
            last_action: now,
            hold_start: None,
            held: false,
            starting: self.starting,
            front_app: None,
        }
    }

    /// The commands of a release that was accepted at `now`.
    pub open spec fn release_commands(self, now: Timestamp, capture_active: bool) -> Seq<
        CommandView,
    > {
        if !capture_active {
            seq![
                CommandView::EmitPillState(PillState::Idle),
                CommandView::HideIndicator,
                CommandView::RefreshDockIcon,
            ]
        } else {
            let hold_ms = hold_millis(self.hold_start, now);
            seq![CommandView::EmitPillState(PillState::Loading), CommandView::EmitStopRecording]
                + match hold_ms {
                Some(ms) => seq![CommandView::EmitHoldTime(ms)],
                None => seq![],
            } + seq![CommandView::DispatchFinish { restore: self.front_app, hold_ms }]
        }
    }

    /// What a press signal does: nothing when it is debounced.
    pub open spec fn press(
        self,
        now: Timestamp,
        frontmost: Option<Seq<char>>,
        capture_active: bool,
    ) -> (ContextView, Seq<CommandView>) {
        if self.accepts(now) {
            (
                self.after_press(now, frontmost, capture_active),
                self.press_commands(frontmost, capture_active),
            )
        } else {
            (self, seq![])
        }
    }

    /// What a release signal does: nothing when it is debounced.
    pub open spec fn release(self, now: Timestamp, capture_active: bool) -> (
        ContextView,
        Seq<CommandView>,
    ) {
        if self.accepts(now) {
            (self.after_release(now), self.release_commands(now, capture_active))
        } else {
            (self, seq![])
        }
    }

    /// The context after the start attempt in flight has ended.
    pub open spec fn end_start_attempt(self) -> ContextView {
        ContextView { starting: false, ..self }
    }
}

/// What can happen to the router.
#[derive(PartialEq, Eq, Debug)]
pub enum Event {
    /// The key hook reported a press, read at `now`.
    Press { now: Timestamp, frontmost: Option<String>, capture_active: bool },
    /// The key hook reported a release, read at `now`.
    Release { now: Timestamp, capture_active: bool },
    /// The start attempt in flight has ended.
    StartAttemptEnded,
}

/// The mathematical value of an [`Event`].
pub enum EventView {
    Press { now: Timestamp, frontmost: Option<Seq<char>>, capture_active: bool },
    Release { now: Timestamp, capture_active: bool },
    StartAttemptEnded,
}

impl View for Event {
    type V = EventView;

    open spec fn view(&self) -> EventView {
        match *self {
            Event::Press { now, frontmost, capture_active } => EventView::Press {
                now,
                frontmost: name_view(frontmost),
                capture_active,
            },
            Event::Release { now, capture_active } => EventView::Release { now, capture_active },
            Event::StartAttemptEnded => EventView::StartAttemptEnded,
        }
    }
}

impl EventView {
    /// Whether the event is a signal of the key hook.
    pub open spec fn is_key_signal(self) -> bool {
        self is Press || self is Release
    }

    /// When a signal of the key hook was read.
    pub open spec fn read_at(self) -> Timestamp
        recommends
            self.is_key_signal(),
    {
        match self {
            EventView::Press { now, .. } => now,
            EventView::Release { now, .. } => now,
            EventView::StartAttemptEnded => Timestamp { nanos: 0 },
        }
    }
}

impl ContextView {
    /// What one event does to the context, and the commands it yields.
    pub open spec fn step(self, event: EventView) -> (ContextView, Seq<CommandView>) {
        match event {
            EventView::Press { now, frontmost, capture_active } => self.press(
                now,
                frontmost,
                capture_active,
            ),
            EventView::Release { now, capture_active } => self.release(now, capture_active),
            EventView::StartAttemptEnded => (self.end_start_attempt(), seq![]),
        }
    }

    /// What a series of events does to the context, and all the commands
    /// it yields, in order.
    pub open spec fn run(self, events: Seq<EventView>) -> (ContextView, Seq<CommandView>)
        decreases events.len(),
    {
        if events.len() == 0 {
            (self, seq![])
        } else {
            let (before, commands) = self.run(events.drop_last());
            let (after, more) = before.step(events.last());
            (after, commands + more)
        }
    }
}

/// The session context: everything the router remembers between signals.
#[derive(Debug)]
pub struct SessionContext {
    debounce: DebounceGuard,
    session: HoldSession,
    held: bool,
    starting: bool,
    focus: FocusSnapshot,
}

impl View for SessionContext {
    type V = ContextView;

    closed spec fn view(&self) -> ContextView {
        ContextView {
            last_action: self.debounce.last(),
            hold_start: self.session.start(),
            held: self.held,
            starting: self.starting,
            front_app: self.focus@,
        }
    }
}

impl SessionContext {
    /// The context of an idle router whose debounce window opens at `now`.
    pub fn new(now: Timestamp) -> (ctx: SessionContext)
        ensures
            ctx@ == ContextView::initial(now),
            ctx@.inv(),
    {
        SessionContext {
            debounce: DebounceGuard::new(now),
            session: HoldSession::new(),
            held: false,
            starting: false,
            focus: FocusSnapshot::new(),
        }
    }

    /// Handles a press signal read at `now`. `frontmost` is the application
    /// in the foreground, as far as the system told, and `capture_active`
    /// tells whether the audio subsystem is capturing already.
    ///
    /// A debounced signal changes nothing and yields no command. An accepted
    /// one starts the hold clock at `now` (again, if a hold was under way),
    /// keeps `frontmost` for the release, and claims the start attempt if
    /// none is in flight and capture is not active.
    pub fn on_press(
        &mut self,
        now: Timestamp,
        frontmost: Option<String>,
        capture_active: bool,
    ) -> (commands: Vec<Command>)
        ensures
            (final(self)@, commands.deep_view()) == old(self)@.press(
                now,
                name_view(frontmost),
                capture_active,
            ),
            old(self)@.inv() ==> final(self)@.inv(),
    {
        let mut commands: Vec<Command> = Vec::new();
        if !self.debounce.accept(now) {
            assert(commands.deep_view() =~= Seq::<CommandView>::empty());
            return commands;
        }
        self.session.begin(now);
        self.focus.capture(frontmost);
        self.held = true;
        commands.push(Command::ShowIndicator);
        commands.push(Command::RefreshDockIcon);
        commands.push(Command::EmitPillState(PillState::Listening));
        commands.push(Command::EmitStartRecording);
        match self.focus.recall() {
            Some(name) => {
                commands.push(Command::ReassertFocus(name));
            },
            None => {},
        }
        if !self.starting && !capture_active {
            self.starting = true;
            commands.push(Command::LaunchStartAttempt);
        }
        assert(commands.deep_view() =~= old(self)@.press_commands(
            name_view(frontmost),
            capture_active,
        ));
        commands
    }

    /// Handles a release signal read at `now`. `capture_active` tells
    /// whether the audio subsystem is capturing.
    ///
    /// A debounced signal changes nothing and yields no command. An accepted
    /// one ends the hold and empties the focus slot. If capture never
    /// started, the indicator goes back to idle and is hidden; otherwise the
    /// session is handed to the finish task, with the measured hold duration
    /// and the application to hand focus back to.
    pub fn on_release(&mut self, now: Timestamp, capture_active: bool) -> (commands: Vec<Command>)
        ensures
            (final(self)@, commands.deep_view()) == old(self)@.release(now, capture_active),
            old(self)@.inv() ==> final(self)@.inv(),
    {
        let mut commands: Vec<Command> = Vec::new();
        if !self.debounce.accept(now) {
            assert(commands.deep_view() =~= Seq::<CommandView>::empty());
            return commands;
        }
        let hold_ms = self.session.end(now);
        self.held = false;
        let restore = self.focus.take();
        if !capture_active {
            commands.push(Command::EmitPillState(PillState::Idle));
            commands.push(Command::HideIndicator);
            commands.push(Command::RefreshDockIcon);
        } else {
            commands.push(Command::EmitPillState(PillState::Loading));
            commands.push(Command::EmitStopRecording);
            match hold_ms {
                Some(ms) => {
                    commands.push(Command::EmitHoldTime(ms));
                },
                None => {},
            }
            commands.push(Command::DispatchFinish { restore, hold_ms });
        }
        assert(commands.deep_view() =~= old(self)@.release_commands(now, capture_active));
        commands
    }

    /// Records that the start attempt in flight has ended, however it
    /// ended, so that the next press may launch one again.
    pub fn end_start_attempt(&mut self)
        ensures
            final(self)@ == old(self)@.end_start_attempt(),
            old(self)@.inv() ==> final(self)@.inv(),
    {
        self.starting = false;
    }

    /// Handles one event, whichever it is.
    pub fn handle(&mut self, event: Event) -> (commands: Vec<Command>)
        ensures
            (final(self)@, commands.deep_view()) == old(self)@.step(event@),
            old(self)@.inv() ==> final(self)@.inv(),
    {
        match event {
            Event::Press { now, frontmost, capture_active } => self.on_press(
                now,
                frontmost,
                capture_active,
            ),
            Event::Release { now, capture_active } => self.on_release(now, capture_active),
            Event::StartAttemptEnded => {
                self.end_start_attempt();
                let commands: Vec<Command> = Vec::new();
                assert(commands.deep_view() =~= Seq::<CommandView>::empty());
                commands
            },
        }
    }

    /// Tells whether a signal read at `now` would pass the debounce guard.
    /// Nothing changes.
    pub fn would_accept(&self, now: Timestamp) -> (accepted: bool)
        ensures
            accepted == self@.accepts(now),
    {
        self.debounce.would_accept(now)
    }

    /// The state of the router.
    pub fn state(&self) -> (state: RouterState)
        ensures
            state == self@.state(),
    {
        if self.held {
            RouterState::Held
        } else {
            RouterState::Idle
        }
    }

    /// Whether the key is held. A start attempt reads this on every probe:
    /// a key that is no longer held cancels it.
    pub fn is_held(&self) -> (held: bool)
        ensures
            held == self@.held,
    {
        self.held
    }

    /// Whether a start attempt is in flight.
    pub fn is_starting(&self) -> (starting: bool)
        ensures
            starting == self@.starting,
    {
        self.starting
    }

    /// When the hold under way began.
    pub fn hold_started_at(&self) -> (start: Option<Timestamp>)
        ensures
            start == self@.hold_start,
    {
        self.session.started_at()
    }

    /// When the last signal was accepted.
    pub fn last_action(&self) -> (last: Timestamp)
        ensures
            last == self@.last_action,
    {
        self.debounce.last_accepted()
    }

    /// A copy of the name of the application that had the keyboard when the
    /// hold began.
    pub fn focused_app(&self) -> (name: Option<String>)
        ensures
            name_view(name) == self@.front_app,
    {
        self.focus.recall()
    }
}

} // verus!
