//! The debounce guard: a key hook may fire several times for one physical
//! transition, and only the first signal of such a burst may have an effect.

use vstd::prelude::*;
use crate::clock::{Timestamp, DEBOUNCE_WINDOW_MS};

verus! {

/// Whether a signal read at `now` lies outside the refractory window that
/// the last accepted signal, read at `last`, opened.
pub open spec fn outside_window(last: Timestamp, now: Timestamp) -> bool {
    now.is_more_than_after(DEBOUNCE_WINDOW_MS, last)
}

/// Remembers when the last signal was accepted.
#[derive(Clone, Copy, Debug)]
pub struct DebounceGuard {
    last: Timestamp,
}

impl DebounceGuard {
    /// When the last signal was accepted.
    pub closed spec fn last(self) -> Timestamp {
        self.last
    }

    /// A guard whose window opens at `now`.
    pub fn new(now: Timestamp) -> (guard: DebounceGuard)
        ensures
            guard.last() == now,
    {
        DebounceGuard { last: now }
    }

    /// When the last signal was accepted.
    pub fn last_accepted(&self) -> (t: Timestamp)
        ensures
            t == self.last(),
    {
        self.last
    }

    /// Tells whether a signal read at `now` would be accepted, and changes nothing.
    pub fn would_accept(&self, now: Timestamp) -> (accepted: bool)
        ensures
            accepted == outside_window(self.last(), now),
    {
        now.more_than_after(DEBOUNCE_WINDOW_MS, self.last)
    }

    /// Judges a signal read at `now`. It is accepted exactly when more than
    /// the refractory window has passed since the last accepted one, and then
    /// becomes the last accepted one itself. A rejected signal changes nothing.
    pub fn accept(&mut self, now: Timestamp) -> (accepted: bool)
        ensures
            accepted == outside_window(old(self).last(), now),
            accepted ==> final(self).last() == now,
            !accepted ==> *final(self) == *old(self),
            final(self).last().nanos >= old(self).last().nanos,
    {
        if now.more_than_after(DEBOUNCE_WINDOW_MS, self.last) {
            self.last = now;
            true
        } else {
            false
        }
    }
}

} // verus!
