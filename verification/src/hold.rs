//! The hold session tracker: when the current hold began, and how long it
//! lasted once the key is released. It measures and decides nothing.

use vstd::prelude::*;
use crate::clock::Timestamp;

verus! {

/// The hold duration reported at `now` for a hold that began at `start`.
pub open spec fn hold_millis(start: Option<Timestamp>, now: Timestamp) -> Option<u64> {
    match start {
        Some(s) => Some(now.millis_since(s) as u64),
        None => None,
    }
}

/// The start of the hold that is under way, if one is.
#[derive(Clone, Copy, Debug)]
pub struct HoldSession {
    start: Option<Timestamp>,
}

impl HoldSession {
    /// When the hold under way began.
    pub closed spec fn start(self) -> Option<Timestamp> {
        self.start
    }

    /// A tracker with no hold under way.
    pub fn new() -> (session: HoldSession)
        ensures
            session.start() is None,
    {
        HoldSession { start: None }
    }

    /// When the hold under way began.
    pub fn started_at(&self) -> (t: Option<Timestamp>)
        ensures
            t == self.start(),
    {
        self.start
    }

    /// Starts the hold clock at `now`. A hold that was under way is
    /// forgotten: its clock restarts.
    pub fn begin(&mut self, now: Timestamp)
        ensures
            final(self).start() == Some(now),
    {
        self.start = Some(now);
    }

    /// Ends the hold at `now`: reports how many whole milliseconds it
    /// lasted, if one was under way, and leaves none under way.
    pub fn end(&mut self, now: Timestamp) -> (held_for: Option<u64>)
        ensures
            held_for == hold_millis(old(self).start(), now),
            final(self).start() is None,
    {
        let held_for = match self.start {
            Some(start) => Some(now.saturating_millis_since(start)),
            None => None,
        };
        self.start = None;
        held_for
    }
}

} // verus!
