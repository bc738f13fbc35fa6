use hold_session::clock::Timestamp;
use hold_session::command::Command;
use hold_session::router::SessionContext;
use hold_session::start::{Course, Round, StartAttempt, StartOutcome, StartStep};

fn ms(millis: u64) -> Timestamp {
    Timestamp::from_millis(millis)
}

/// Runs an attempt launched at 0 against a simulated clock: the key is held
/// until `released_at`, the audio subsystem is ready from `ready_at` on, and
/// each request to begin capture is answered by `start_succeeds`. Returns the
/// outcome and the times at which capture was asked to begin.
fn simulate(
    released_at: Option<u64>,
    ready_at: Option<u64>,
    start_succeeds: bool,
) -> (StartOutcome, Vec<u64>) {
    let attempt = StartAttempt::launch(ms(0));
    let mut now: u64 = 0;
    let mut calls = Vec::new();
    loop {
        let held = released_at.map_or(true, |t| now < t);
        let ready = ready_at.map_or(false, |t| now >= t);
        let mut step = attempt.on_probe(held, ready, ms(now));
        if step == StartStep::AttemptStart {
            calls.push(now);
            step = attempt.on_start_result(start_succeeds, ms(now));
        }
        match step {
            StartStep::Finish(outcome) => return (outcome, calls),
            StartStep::PauseThenRetry(pause) => now += pause,
            StartStep::AttemptStart => unreachable!(),
        }
        assert!(now <= 10_000);
    }
}

#[test]
fn capture_starts_once_when_audio_becomes_ready() {
    let (outcome, calls) = simulate(None, Some(50), true);
    assert_eq!(outcome, StartOutcome::Started);
    assert_eq!(calls, vec![60]);
}

#[test]
fn capture_starts_at_once_when_audio_is_ready_at_launch() {
    let (outcome, calls) = simulate(None, Some(0), true);
    assert_eq!(outcome, StartOutcome::Started);
    assert_eq!(calls, vec![0]);
}

#[test]
fn early_release_cancels_before_any_start() {
    let (outcome, calls) = simulate(Some(10), Some(500), true);
    assert_eq!(outcome, StartOutcome::Cancelled);
    assert_eq!(calls, vec![]);
}

#[test]
fn release_wins_over_readiness_in_the_same_probe() {
    let (outcome, calls) = simulate(Some(40), Some(40), true);
    assert_eq!(outcome, StartOutcome::Cancelled);
    assert_eq!(calls, vec![]);
}

#[test]
fn attempt_times_out_when_audio_never_becomes_ready() {
    let (outcome, calls) = simulate(None, None, true);
    assert_eq!(outcome, StartOutcome::TimedOut);
    assert_eq!(calls, vec![]);
}

#[test]
fn failing_start_is_retried_until_the_deadline() {
    let (outcome, calls) = simulate(None, Some(1950), false);
    assert_eq!(outcome, StartOutcome::TimedOut);
    assert_eq!(calls, vec![1960, 1980, 2000]);
}

#[test]
fn deadline_is_two_seconds_after_launch() {
    let attempt = StartAttempt::launch(ms(700));
    assert!(!attempt.is_expired(ms(700)));
    assert!(!attempt.is_expired(Timestamp::from_nanos(2_699_999_999)));
    assert!(attempt.is_expired(ms(2700)));
    assert!(attempt.is_expired(ms(9000)));
    assert!(!attempt.is_expired(ms(0)));
}

#[test]
fn probe_decides_in_order_released_ready_expired() {
    let attempt = StartAttempt::launch(ms(0));
    assert_eq!(attempt.on_probe(false, true, ms(5000)), StartStep::Finish(StartOutcome::Cancelled));
    assert_eq!(attempt.on_probe(false, false, ms(0)), StartStep::Finish(StartOutcome::Cancelled));
    assert_eq!(attempt.on_probe(true, true, ms(5000)), StartStep::AttemptStart);
    assert_eq!(attempt.on_probe(true, true, ms(0)), StartStep::AttemptStart);
    assert_eq!(attempt.on_probe(true, false, ms(2000)), StartStep::Finish(StartOutcome::TimedOut));
    assert_eq!(attempt.on_probe(true, false, ms(1999)), StartStep::PauseThenRetry(20));
}

#[test]
fn answer_decides_between_started_retry_and_timeout() {
    let attempt = StartAttempt::launch(ms(0));
    assert_eq!(attempt.on_start_result(true, ms(5000)), StartStep::Finish(StartOutcome::Started));
    assert_eq!(attempt.on_start_result(false, ms(100)), StartStep::PauseThenRetry(20));
    assert_eq!(
        attempt.on_start_result(false, ms(2000)),
        StartStep::Finish(StartOutcome::TimedOut)
    );
}

fn round(held: bool, ready: bool, start_succeeds: bool, at: u64) -> Round {
    Round { held, ready, start_succeeds, probed_at: ms(at), answered_at: ms(at) }
}

#[test]
fn rehearsal_follows_the_script() {
    let attempt = StartAttempt::launch(ms(0));
    let script = vec![
        round(true, false, true, 0),
        round(true, false, true, 20),
        round(true, true, false, 40),
        round(true, true, true, 60),
        round(true, true, true, 80),
    ];
    assert_eq!(
        attempt.rehearse(&script),
        Course { outcome: Some(StartOutcome::Started), start_calls: 2, rounds_played: 4 }
    );
}

#[test]
fn rehearsal_of_a_short_script_is_left_open() {
    let attempt = StartAttempt::launch(ms(0));
    assert_eq!(
        attempt.rehearse(&vec![]),
        Course { outcome: None, start_calls: 0, rounds_played: 0 }
    );
    let script = vec![round(true, false, true, 0), round(true, true, false, 20)];
    assert_eq!(
        attempt.rehearse(&script),
        Course { outcome: None, start_calls: 1, rounds_played: 2 }
    );
}

#[test]
fn rehearsal_stops_at_the_release() {
    let attempt = StartAttempt::launch(ms(0));
    let script = vec![
        round(true, false, true, 0),
        round(false, true, true, 20),
        round(true, true, true, 40),
    ];
    assert_eq!(
        attempt.rehearse(&script),
        Course { outcome: Some(StartOutcome::Cancelled), start_calls: 0, rounds_played: 2 }
    );
}

#[test]
fn paced_attempt_ends_within_one_hundred_and_one_rounds() {
    let attempt = StartAttempt::launch(ms(0));
    let mut script = Vec::new();
    for i in 0..150u64 {
        script.push(round(true, false, true, i * 20));
    }
    assert_eq!(
        attempt.rehearse(&script),
        Course { outcome: Some(StartOutcome::TimedOut), start_calls: 0, rounds_played: 101 }
    );
}

#[test]
fn timed_out_attempt_frees_the_next_session() {
    let mut ctx = SessionContext::new(ms(0));
    assert!(ctx.on_press(ms(1000), None, false).contains(&Command::LaunchStartAttempt));
    let attempt = StartAttempt::launch(ms(1000));
    let mut now: u64 = 1000;
    let outcome = loop {
        match attempt.on_probe(ctx.is_held(), false, ms(now)) {
            StartStep::Finish(outcome) => break outcome,
            StartStep::PauseThenRetry(pause) => now += pause,
            StartStep::AttemptStart => unreachable!(),
        }
    };
    assert_eq!(outcome, StartOutcome::TimedOut);
    assert_eq!(now, 3000);
    ctx.end_start_attempt();
    assert!(!ctx.is_starting());
    ctx.on_release(ms(3100), false);
    assert!(ctx.on_press(ms(3200), None, false).contains(&Command::LaunchStartAttempt));
}

#[test]
fn released_key_cancels_the_attempt_through_the_context() {
    let mut ctx = SessionContext::new(ms(0));
    ctx.on_press(ms(1000), None, false);
    let attempt = StartAttempt::launch(ms(1000));
    assert_eq!(attempt.on_probe(ctx.is_held(), false, ms(1000)), StartStep::PauseThenRetry(20));
    ctx.on_release(ms(1030), false);
    assert_eq!(
        attempt.on_probe(ctx.is_held(), true, ms(1040)),
        StartStep::Finish(StartOutcome::Cancelled)
    );
    ctx.end_start_attempt();
    assert!(!ctx.is_starting());
}

#[test]
fn release_inside_the_debounce_window_does_not_cancel() {
    // A release 10 ms after the accepted press is a bounce: the key counts
    // as held, and the attempt goes on until the audio subsystem is ready.
    let mut ctx = SessionContext::new(ms(0));
    assert!(ctx.on_press(ms(1000), None, false).contains(&Command::LaunchStartAttempt));
    assert!(ctx.on_release(ms(1010), false).is_empty());
    assert!(ctx.is_held());
    let attempt = StartAttempt::launch(ms(1000));
    let mut now: u64 = 1000;
    let mut calls = Vec::new();
    let outcome = loop {
        let ready = now >= 1500;
        let mut step = attempt.on_probe(ctx.is_held(), ready, ms(now));
        if step == StartStep::AttemptStart {
            calls.push(now);
            step = attempt.on_start_result(true, ms(now));
        }
        match step {
            StartStep::Finish(outcome) => break outcome,
            StartStep::PauseThenRetry(pause) => now += pause,
            StartStep::AttemptStart => unreachable!(),
        }
    };
    assert_eq!(outcome, StartOutcome::Started);
    assert_eq!(calls, vec![1500]);
}

#[test]
fn release_after_the_debounce_window_cancels_before_ready() {
    let mut ctx = SessionContext::new(ms(0));
    assert!(ctx.on_press(ms(1000), None, false).contains(&Command::LaunchStartAttempt));
    let attempt = StartAttempt::launch(ms(1000));
    let mut now: u64 = 1000;
    let mut calls: Vec<u64> = Vec::new();
    let mut released = Vec::new();
    let outcome = loop {
        if now >= 1030 && ctx.is_held() {
            released = ctx.on_release(ms(now), false);
        }
        let ready = now >= 1500;
        let mut step = attempt.on_probe(ctx.is_held(), ready, ms(now));
        if step == StartStep::AttemptStart {
            calls.push(now);
            step = attempt.on_start_result(true, ms(now));
        }
        match step {
            StartStep::Finish(outcome) => break outcome,
            StartStep::PauseThenRetry(pause) => now += pause,
            StartStep::AttemptStart => unreachable!(),
        }
    };
    assert_eq!(outcome, StartOutcome::Cancelled);
    assert_eq!(calls, vec![]);
    assert_eq!(now, 1040);
    assert_eq!(released.len(), 3);
    ctx.end_start_attempt();
    assert!(!ctx.is_starting());
}
