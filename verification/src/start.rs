//! The recording start coordinator: a background attempt to begin capture
//! once the audio subsystem is ready, for as long as the key stays held and a
//! deadline has not passed. The attempt probes, decides, and pauses in turn;
//! the decisions are made here, the probing and pausing by the caller.

use vstd::prelude::*;
use crate::clock::{Timestamp, NANOS_PER_MILLI, POLL_INTERVAL_MS, START_DEADLINE_MS};

verus! {

/// How a start attempt ended.
#[derive(Clone, Copy, PartialEq, Eq, Structural, Debug)]
pub enum StartOutcome {
    /// The key was released before capture began.
    Cancelled,
    /// Capture began.
    Started,
    /// The audio subsystem did not let capture begin before the deadline.
    TimedOut,
}

/// What a start attempt does next.
#[derive(Clone, Copy, PartialEq, Eq, Structural, Debug)]
pub enum StartStep {
    /// End the attempt.
    Finish(StartOutcome),
    /// Ask the audio subsystem to begin capture, and report what it answered.
    AttemptStart,
    /// Pause for the given number of milliseconds, then probe again.
    PauseThenRetry(u64),
}

/// What one round of an attempt meets: the readings of its probe and, for
/// the case that it asks for capture, the answer it would get.
#[derive(Clone, Copy, PartialEq, Eq, Structural, Debug)]
pub struct Round {
    /// Whether the key is still held.
    pub held: bool,
    /// Whether the audio subsystem reports that it is ready.
    pub ready: bool,
    /// Whether a request to begin capture succeeds.
    pub start_succeeds: bool,
    /// The clock when the probe was made.
    pub probed_at: Timestamp,
    /// The clock when the request to begin capture has returned.
    pub answered_at: Timestamp,
}

/// The course of an attempt over a series of rounds.
#[derive(Clone, Copy, PartialEq, Eq, Structural, Debug)]
pub struct Course {
    /// How the attempt ended, if it did within the rounds given.
    pub outcome: Option<StartOutcome>,
    /// How many times capture was asked to begin.
    pub start_calls: usize,
    /// How many rounds were played.
    pub rounds_played: usize,
}

/// A start attempt, launched at a given moment.
#[derive(Clone, Copy, PartialEq, Eq, Structural, Debug)]
pub struct StartAttempt {
    pub launched_at: Timestamp,
}

impl StartAttempt {
    /// Whether the deadline has passed at `now`.
    pub open spec fn expired(self, now: Timestamp) -> bool {
        now.is_at_least_after(START_DEADLINE_MS, self.launched_at)
    }

    /// The step after a round that did not begin capture.
    pub open spec fn after_miss(self, now: Timestamp) -> StartStep {
        if self.expired(now) {
            StartStep::Finish(StartOutcome::TimedOut)
        } else {
            StartStep::PauseThenRetry(POLL_INTERVAL_MS)
        }
    }

    /// The step that follows a probe read at `now`.
    pub open spec fn probe_step(self, held: bool, ready: bool, now: Timestamp) -> StartStep {
        if !held {
            StartStep::Finish(StartOutcome::Cancelled)
        } else if ready {
            StartStep::AttemptStart
        } else {
            self.after_miss(now)
        }
    }

    /// The step that follows the answer to a request to begin capture,
    /// read at `now`.
    pub open spec fn answer_step(self, started: bool, now: Timestamp) -> StartStep {
        if started {
            StartStep::Finish(StartOutcome::Started)
        } else {
            self.after_miss(now)
        }
    }

    /// The step on which a round ends, and whether capture was asked to begin.
    pub open spec fn round_step(self, round: Round) -> (StartStep, bool) {
        match self.probe_step(round.held, round.ready, round.probed_at) {
            StartStep::AttemptStart => (
                self.answer_step(round.start_succeeds, round.answered_at),
                true,
            ),
            step => (step, false),
        }
    }

    /// How the attempt ends over `rounds`, if it does.
    pub open spec fn outcome(self, rounds: Seq<Round>) -> Option<StartOutcome>
        decreases rounds.len(),
    {
        if rounds.len() == 0 {
            None
        } else {
            match self.round_step(rounds.first()).0 {
                StartStep::Finish(outcome) => Some(outcome),
                _ => self.outcome(rounds.drop_first()),
            }
        }
    }

    /// How many of `rounds` the attempt plays: all up to the one on which it ends.
    pub open spec fn rounds_played(self, rounds: Seq<Round>) -> nat
        decreases rounds.len(),
    {
        if rounds.len() == 0 {
            0
        } else {
            match self.round_step(rounds.first()).0 {
                StartStep::Finish(_) => 1,
                _ => 1 + self.rounds_played(rounds.drop_first()),
            }
        }
    }

    /// How many times the attempt asks for capture to begin over `rounds`.
    pub open spec fn start_calls(self, rounds: Seq<Round>) -> nat
        decreases rounds.len(),
    {
        if rounds.len() == 0 {
            0
        } else {
            let (step, asked) = self.round_step(rounds.first());
            let calls: nat = if asked {
                1
            } else {
                0
            };
            match step {
                StartStep::Finish(_) => calls,
                _ => calls + self.start_calls(rounds.drop_first()),
            }
        }
    }

    /// An attempt launched at `now`.
    pub fn launch(now: Timestamp) -> (attempt: StartAttempt)
        ensures
            attempt.launched_at == now,
    {
        StartAttempt { launched_at: now }
    }

    /// Tells whether the deadline has passed at `now`.
    pub fn is_expired(&self, now: Timestamp) -> (expired: bool)
        ensures
            expired == self.expired(now),
    {
        now.at_least_after(START_DEADLINE_MS, self.launched_at)
    }

    /// Decides what follows a probe: `held` and `ready` are what the probe
    /// found, `now` is the clock after it. A key that is no longer held
    /// cancels the attempt, whatever else the probe found.
    pub fn on_probe(&self, held: bool, ready: bool, now: Timestamp) -> (step: StartStep)
        ensures
            step == self.probe_step(held, ready, now),
    {
        if !held {
            StartStep::Finish(StartOutcome::Cancelled)
        } else if ready {
            StartStep::AttemptStart
        } else {
            self.miss(now)
        }
    }

    /// Decides what follows the answer to a request to begin capture:
    /// `started` tells whether it succeeded, `now` is the clock after it.
    pub fn on_start_result(&self, started: bool, now: Timestamp) -> (step: StartStep)
        ensures
            step == self.answer_step(started, now),
    {
        if started {
            StartStep::Finish(StartOutcome::Started)
        } else {
            self.miss(now)
        }
    }

    fn miss(&self, now: Timestamp) -> (step: StartStep)
        ensures
            step == self.after_miss(now),
    {
        if self.is_expired(now) {
            StartStep::Finish(StartOutcome::TimedOut)
        } else {
            StartStep::PauseThenRetry(POLL_INTERVAL_MS)
        }
    }

    /// Plays the attempt against a script: round after round, each with the
    /// readings it is to meet, until the attempt ends or the script does.
    pub fn rehearse(&self, rounds: &Vec<Round>) -> (course: Course)
        ensures
            course.outcome == self.outcome(rounds@),
            course.start_calls == self.start_calls(rounds@),
            course.rounds_played == self.rounds_played(rounds@),
    {
        let mut calls: usize = 0;
        let mut i: usize = 0;
        assert(rounds@.skip(0) =~= rounds@);
        while i < rounds.len()
            invariant
                i <= rounds@.len(),
                calls <= i,
                self.outcome(rounds@) == self.outcome(rounds@.skip(i as int)),
                self.start_calls(rounds@) == calls + self.start_calls(rounds@.skip(i as int)),
                self.rounds_played(rounds@) == i + self.rounds_played(rounds@.skip(i as int)),
            decreases rounds@.len() - i,
        {
            let round = rounds[i];
            proof {
                let rest = rounds@.skip(i as int);
                assert(rest.first() == round);
                assert(rest.drop_first() =~= rounds@.skip(i + 1));
            }
            let mut step = self.on_probe(round.held, round.ready, round.probed_at);
            if step == StartStep::AttemptStart {
                calls = calls + 1;
                step = self.on_start_result(round.start_succeeds, round.answered_at);
            }
            match step {
                StartStep::Finish(outcome) => {
                    return Course {
                        outcome: Some(outcome),
                        start_calls: calls,
                        rounds_played: i + 1,
                    };
                },
                _ => {},
            }
            i = i + 1;
        }
        Course { outcome: None, start_calls: calls, rounds_played: i }
    }
}

impl StartAttempt {
    /// Whether the rounds keep the pace of the attempt: each probe comes at
    /// least one pause after the one before, the first no earlier than the
    /// launch, and each answer no earlier than its probe.
    pub open spec fn paced(self, rounds: Seq<Round>) -> bool {
        forall|i: int|
            0 <= i < rounds.len() ==> {
                &&& (#[trigger] rounds[i]).probed_at.nanos >= self.launched_at.nanos + i
                    * POLL_INTERVAL_MS * NANOS_PER_MILLI
                &&& rounds[i].answered_at.nanos >= rounds[i].probed_at.nanos
            }
    }
}

/// Cancellation: if the key is found released in round `k`, and the audio
/// subsystem was not ready in any round before it, the attempt ends in that
/// round at the latest and capture is never asked to begin.
pub proof fn lemma_release_before_ready_prevents_start(
    attempt: StartAttempt,
    rounds: Seq<Round>,
    k: int,
)
    requires
        0 <= k < rounds.len(),
        !rounds[k].held,
        forall|i: int| 0 <= i < k ==> !(#[trigger] rounds[i]).ready,
    ensures
        attempt.start_calls(rounds) == 0,
        attempt.outcome(rounds) is Some,
        attempt.outcome(rounds) != Some(StartOutcome::Started),
        attempt.rounds_played(rounds) <= k + 1,
    decreases k,
{
    if k > 0 {
        assert(!rounds[0].ready);
        let rest = rounds.drop_first();
        assert(rest[k - 1] == rounds[k]);
        assert forall|i: int| 0 <= i < k - 1 implies !(#[trigger] rest[i]).ready by {
            assert(rest[i] == rounds[i + 1]);
        }
        lemma_release_before_ready_prevents_start(attempt, rest, k - 1);
    }
}

/// The deadline bounds the attempt: once the clock of a round has passed
/// the deadline, the attempt has ended, in that round at the latest.
pub proof fn lemma_attempt_ends_by_deadline(attempt: StartAttempt, rounds: Seq<Round>, k: int)
    requires
        0 <= k < rounds.len(),
        attempt.expired(rounds[k].probed_at),
        attempt.expired(rounds[k].answered_at),
    ensures
        attempt.outcome(rounds) is Some,
        attempt.rounds_played(rounds) <= k + 1,
    decreases k,
{
    if k > 0 {
        let rest = rounds.drop_first();
        assert(rest[k - 1] == rounds[k]);
        lemma_attempt_ends_by_deadline(attempt, rest, k - 1);
    }
}

/// Timeout: if the audio subsystem is not ready in any round up to one
/// whose probe is made after the deadline, the attempt ends in that round at
/// the latest, without capture ever being asked to begin.
pub proof fn lemma_never_ready_times_out(attempt: StartAttempt, rounds: Seq<Round>, k: int)
    requires
        0 <= k < rounds.len(),
        forall|i: int| 0 <= i <= k ==> !(#[trigger] rounds[i]).ready,
        attempt.expired(rounds[k].probed_at),
    ensures
        attempt.outcome(rounds) == Some(StartOutcome::TimedOut) || attempt.outcome(rounds) == Some(
            StartOutcome::Cancelled,
        ),
        attempt.start_calls(rounds) == 0,
        attempt.rounds_played(rounds) <= k + 1,
    decreases k,
{
    assert(!rounds[0].ready);
    if k > 0 {
        let rest = rounds.drop_first();
        assert(rest[k - 1] == rounds[k]);
        assert forall|i: int| 0 <= i <= k - 1 implies !(#[trigger] rest[i]).ready by {
            assert(rest[i] == rounds[i + 1]);
        }
        lemma_never_ready_times_out(attempt, rest, k - 1);
    }
}

/// No attempt outlives its deadline by more than one round: when the rounds
/// keep the pace, the attempt has ended after as many pauses as fit into the
/// deadline, whatever the key and the audio subsystem do.
pub proof fn lemma_paced_attempt_is_bounded(attempt: StartAttempt, rounds: Seq<Round>)
    requires
        attempt.paced(rounds),
        rounds.len() > START_DEADLINE_MS / POLL_INTERVAL_MS,
    ensures
        attempt.outcome(rounds) is Some,
        attempt.rounds_played(rounds) <= START_DEADLINE_MS / POLL_INTERVAL_MS + 1,
{
    let k = (START_DEADLINE_MS / POLL_INTERVAL_MS) as int;
    assert(rounds[k].probed_at.nanos >= attempt.launched_at.nanos + k * POLL_INTERVAL_MS
        * NANOS_PER_MILLI);
    lemma_attempt_ends_by_deadline(attempt, rounds, k);
}

/// Capture begins once: if the key stays held, the audio subsystem becomes
/// ready in round `k` and not before, no earlier probe was made after the
/// deadline, and the request to begin capture succeeds, then the attempt
/// ends in round `k` with capture started by its only request.
pub proof fn lemma_ready_while_held_starts_once(attempt: StartAttempt, rounds: Seq<Round>, k: int)
    requires
        0 <= k < rounds.len(),
        forall|i: int|
            0 <= i < k ==> {
                &&& (#[trigger] rounds[i]).held
                &&& !rounds[i].ready
                &&& !attempt.expired(rounds[i].probed_at)
            },
        rounds[k].held,
        rounds[k].ready,
        rounds[k].start_succeeds,
    ensures
        attempt.outcome(rounds) == Some(StartOutcome::Started),
        attempt.start_calls(rounds) == 1,
        attempt.rounds_played(rounds) == k + 1,
    decreases k,
{
    if k > 0 {
        assert(rounds[0].held && !rounds[0].ready && !attempt.expired(rounds[0].probed_at));
        let rest = rounds.drop_first();
        assert(rest[k - 1] == rounds[k]);
        assert forall|i: int| 0 <= i < k - 1 implies {
            &&& (#[trigger] rest[i]).held
            &&& !rest[i].ready
            &&& !attempt.expired(rest[i].probed_at)
        } by {
            assert(rest[i] == rounds[i + 1]);
        }
        lemma_ready_while_held_starts_once(attempt, rest, k - 1);
    }
}

} // verus!
