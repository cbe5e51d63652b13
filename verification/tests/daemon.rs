use agentfs_mount::daemon::channel::Outcome;
use agentfs_mount::daemon::polling::{poll, Observation, Verdict, POLL_INTERVAL_MILLIS};
use agentfs_mount::daemon::{
    daemonize, exit_status, fork_role, report, Action, DaemonError, Event, Phase, Role,
    EXIT_FAILURE, EXIT_SUCCESS,
};

const MILLI: u128 = 1_000_000;

/// A worker and a probe whose behaviour depends on the time alone.
#[derive(Clone, Copy)]
struct World {
    /// From when on the probe holds, in nanoseconds after the start.
    ready_from: Option<u128>,
    /// When the worker returns, and whether with success.
    worker_returns: Option<(u128, bool)>,
}

/// What a simulated background process did.
struct Background {
    actions: Vec<Action>,
    /// The outcome written, and the time of the look that decided it.
    signalled: Option<(Outcome, u128)>,
    sleeps: usize,
    status: i32,
}

/// Feeds the controller the events of a run, each as the answer to the
/// action before it, and gives the actions.
fn answers(timeout_nanos: u128, events: &[Event]) -> Vec<Action> {
    let mut phase = Phase::Start;
    let mut actions = Vec::new();
    for event in events {
        let (next, action) = daemonize(timeout_nanos, phase, *event);
        phase = next;
        actions.push(action);
    }
    actions
}

/// Plays the background process of a fork that succeeded, on a clock that
/// moves only while the process sleeps.
fn background(timeout_nanos: u128, world: World) -> Background {
    let mut clock: u128 = 0;
    let mut run = Background { actions: Vec::new(), signalled: None, sleeps: 0, status: -1 };
    let mut phase = Phase::Start;
    let mut event = Event::Begin;
    for _ in 0..100_000 {
        let (next, action) = daemonize(timeout_nanos, phase, event);
        phase = next;
        run.actions.push(action);
        event = match action {
            Action::OpenChannel => Event::Returned(0),
            Action::Fork => Event::Returned(0),
            Action::Detach => Event::Returned(4242),
            Action::Observe => Event::Observed(Observation {
                ready: world.ready_from.map_or(false, |from| clock >= from),
                worker_finished: world.worker_returns.map_or(false, |(at, _)| clock >= at),
                elapsed_nanos: clock,
            }),
            Action::Sleep { millis } => {
                clock += millis as u128 * MILLI;
                run.sleeps += 1;
                Event::Done
            }
            Action::Signal(outcome) => {
                assert!(run.signalled.is_none(), "a second outcome was sent");
                run.signalled = Some((outcome, clock));
                Event::Done
            }
            Action::JoinWorker => match world.worker_returns {
                Some((_, ok)) => Event::Joined { worker_ok: ok },
                None => panic!("the worker never returns"),
            },
            Action::Exit(status) => {
                run.status = status;
                return run;
            }
            Action::Await | Action::Return(_) => panic!("the background process acts as originator"),
            Action::CloseRead | Action::CloseWrite | Action::RedirectStdio | Action::SpawnWorker => {
                Event::Done
            }
        };
    }
    panic!("the background process did not end");
}

/// Plays the originator of a fork that succeeded; `sent` is what the
/// background process wrote before it closed the channel.
fn originator(timeout_nanos: u128, sent: Option<Outcome>) -> (Vec<Action>, Result<(), DaemonError>) {
    let mut actions = Vec::new();
    let mut phase = Phase::Start;
    let mut event = Event::Begin;
    for _ in 0..100 {
        let (next, action) = daemonize(timeout_nanos, phase, event);
        phase = next;
        actions.push(action);
        event = match action {
            Action::OpenChannel => Event::Returned(0),
            Action::Fork => Event::Returned(31337),
            Action::CloseRead | Action::CloseWrite => Event::Done,
            Action::Await => Event::Received(sent.unwrap_or(Outcome::Failed)),
            Action::Return(result) => return (actions, result),
            other => panic!("the originator was told to {:?}", other),
        };
    }
    panic!("the originator did not return");
}

/// Both processes of one invocation: the originator's result, and what the
/// background process did.
fn invocation(timeout_nanos: u128, world: World) -> (Result<(), DaemonError>, Background) {
    let run = background(timeout_nanos, world);
    let (_, result) = originator(timeout_nanos, run.signalled.map(|(outcome, _)| outcome));
    (result, run)
}

const STARTUP: [Action; 6] = [
    Action::OpenChannel,
    Action::Fork,
    Action::CloseRead,
    Action::Detach,
    Action::RedirectStdio,
    Action::SpawnWorker,
];

#[test]
fn polling_interval_is_fifty_milliseconds() {
    assert_eq!(POLL_INTERVAL_MILLIS, 50);
}

#[test]
fn exit_statuses() {
    assert_eq!(EXIT_SUCCESS, 0);
    assert_eq!(EXIT_FAILURE, 1);
    assert_eq!(exit_status(true), 0);
    assert_eq!(exit_status(false), 1);
}

#[test]
fn report_is_success_for_ready_only() {
    assert_eq!(report(Outcome::Ready), Ok(()));
    assert_eq!(report(Outcome::Failed), Err(DaemonError::StartFailed));
}

#[test]
fn fork_role_by_return_value() {
    assert_eq!(fork_role(Event::Returned(-1)), None);
    assert_eq!(fork_role(Event::Returned(0)), Some(Role::Background));
    assert_eq!(fork_role(Event::Returned(1)), Some(Role::Originator));
    assert_eq!(fork_role(Event::Returned(i32::MAX)), Some(Role::Originator));
    assert_eq!(fork_role(Event::Returned(-2)), Some(Role::Originator));
    assert_eq!(fork_role(Event::Done), None);
    assert_eq!(fork_role(Event::Begin), None);
}

#[test]
fn poll_asks_the_probe_first() {
    let late_and_stopped =
        Observation { ready: true, worker_finished: true, elapsed_nanos: 500 * MILLI };
    assert_eq!(poll(late_and_stopped, 200 * MILLI), Verdict::Ready);
    assert_eq!(poll(late_and_stopped, 0), Verdict::Ready);
}

#[test]
fn poll_sees_a_stopped_worker_before_the_deadline() {
    let stopped = Observation { ready: false, worker_finished: true, elapsed_nanos: 0 };
    assert_eq!(poll(stopped, 10_000 * MILLI), Verdict::WorkerStopped);
    let stopped_late =
        Observation { ready: false, worker_finished: true, elapsed_nanos: 300 * MILLI };
    assert_eq!(poll(stopped_late, 200 * MILLI), Verdict::WorkerStopped);
}

#[test]
fn poll_times_out_at_the_deadline() {
    let at = |elapsed_nanos| Observation { ready: false, worker_finished: false, elapsed_nanos };
    assert_eq!(poll(at(199_999_999), 200 * MILLI), Verdict::Wait);
    assert_eq!(poll(at(200_000_000), 200 * MILLI), Verdict::TimedOut);
    assert_eq!(poll(at(200_000_001), 200 * MILLI), Verdict::TimedOut);
    assert_eq!(poll(at(u128::MAX), u128::MAX), Verdict::TimedOut);
    assert_eq!(poll(at(u128::MAX - 1), u128::MAX), Verdict::Wait);
}

#[test]
fn poll_with_zero_timeout_decides_at_once() {
    let nothing_yet = Observation { ready: false, worker_finished: false, elapsed_nanos: 0 };
    assert_eq!(poll(nothing_yet, 0), Verdict::TimedOut);
}

#[test]
fn verdict_outcomes() {
    assert_eq!(Verdict::Ready.outcome(), Some(Outcome::Ready));
    assert_eq!(Verdict::WorkerStopped.outcome(), Some(Outcome::Failed));
    assert_eq!(Verdict::TimedOut.outcome(), Some(Outcome::Failed));
    assert_eq!(Verdict::Wait.outcome(), None);
}

#[test]
fn first_step_opens_the_channel() {
    assert_eq!(daemonize(0, Phase::Start, Event::Begin), (Phase::OpeningChannel, Action::OpenChannel));
}

#[test]
fn failed_channel_returns_at_once() {
    for status in [-1, 1, i32::MIN] {
        assert_eq!(
            answers(10_000 * MILLI, &[Event::Begin, Event::Returned(status)]),
            vec![Action::OpenChannel, Action::Return(Err(DaemonError::ChannelFailed))]
        );
    }
}

#[test]
fn failed_fork_closes_both_ends() {
    assert_eq!(
        answers(
            10_000 * MILLI,
            &[Event::Begin, Event::Returned(0), Event::Returned(-1), Event::Done, Event::Done]
        ),
        vec![
            Action::OpenChannel,
            Action::Fork,
            Action::CloseRead,
            Action::CloseWrite,
            Action::Return(Err(DaemonError::ForkFailed)),
        ]
    );
}

#[test]
fn failed_detach_reports_failure_and_exits() {
    let events = [
        Event::Begin,
        Event::Returned(0),
        Event::Returned(0),
        Event::Done,
        Event::Returned(-1),
        Event::Done,
    ];
    assert_eq!(
        answers(10_000 * MILLI, &events),
        vec![
            Action::OpenChannel,
            Action::Fork,
            Action::CloseRead,
            Action::Detach,
            Action::Signal(Outcome::Failed),
            Action::Exit(1),
        ]
    );
    let (_, result) = originator(10_000 * MILLI, Some(Outcome::Failed));
    assert_eq!(result, Err(DaemonError::StartFailed));
}

#[test]
fn originator_reads_once_and_closes_both_ends() {
    let (actions, result) = originator(10_000 * MILLI, Some(Outcome::Ready));
    assert_eq!(
        actions,
        vec![
            Action::OpenChannel,
            Action::Fork,
            Action::CloseWrite,
            Action::Await,
            Action::CloseRead,
            Action::Return(Ok(())),
        ]
    );
    assert_eq!(result, Ok(()));
}

#[test]
fn originator_fails_when_the_background_process_crashed() {
    // Nothing was written before the channel closed.
    let (actions, result) = originator(10_000 * MILLI, None);
    assert_eq!(result, Err(DaemonError::StartFailed));
    assert_eq!(actions.iter().filter(|action| **action == Action::Await).count(), 1);
}

#[test]
fn scenario_probe_true_on_first_look() {
    let world = World { ready_from: Some(0), worker_returns: Some((3_600_000 * MILLI, true)) };
    for timeout_nanos in [0, 1, 200 * MILLI, 10_000 * MILLI, u128::MAX] {
        let (result, run) = invocation(timeout_nanos, world);
        assert_eq!(result, Ok(()));
        assert_eq!(run.signalled, Some((Outcome::Ready, 0)));
        assert_eq!(run.sleeps, 0);
        let mut expected = STARTUP.to_vec();
        expected.extend([
            Action::Observe,
            Action::Signal(Outcome::Ready),
            Action::CloseWrite,
            Action::JoinWorker,
            Action::Exit(0),
        ]);
        assert_eq!(run.actions, expected);
    }
}

#[test]
fn scenario_timeout_with_worker_still_running() {
    let world = World { ready_from: None, worker_returns: None };
    let (result, run) = invocation(200 * MILLI, world);
    assert_eq!(result, Err(DaemonError::StartFailed));
    assert_eq!(run.signalled, Some((Outcome::Failed, 200 * MILLI)));
    assert_eq!(run.sleeps, 4);
    assert_eq!(run.status, 1);
    let mut expected = STARTUP.to_vec();
    for _ in 0..4 {
        expected.extend([Action::Observe, Action::Sleep { millis: 50 }]);
    }
    expected.extend([
        Action::Observe,
        Action::Signal(Outcome::Failed),
        Action::CloseWrite,
        Action::Exit(1),
    ]);
    // The worker is neither waited for nor stopped by any action.
    assert_eq!(run.actions, expected);
}

#[test]
fn scenario_worker_fails_immediately() {
    let world = World { ready_from: None, worker_returns: Some((0, false)) };
    let (result, run) = invocation(10_000 * MILLI, world);
    assert_eq!(result, Err(DaemonError::StartFailed));
    assert_eq!(run.signalled, Some((Outcome::Failed, 0)));
    assert_eq!(run.sleeps, 0);
    assert_eq!(run.status, 1);
}

#[test]
fn ready_probe_succeeds_within_timeout_plus_interval() {
    let interval = POLL_INTERVAL_MILLIS as u128 * MILLI;
    for timeout_millis in [120u128, 200, 330, 10_000] {
        let timeout_nanos = timeout_millis * MILLI;
        let mut ready_from: u128 = 0;
        while ready_from < timeout_nanos {
            let world = World { ready_from: Some(ready_from), worker_returns: None };
            // The worker runs on; joining it is not part of this test.
            let run = background_until_signal(timeout_nanos, world);
            let (outcome, at) = run.signalled.unwrap();
            assert_eq!(outcome, Outcome::Ready);
            assert!(at >= ready_from);
            assert!(at < ready_from + interval);
            assert!(at <= timeout_nanos + interval);
            assert_eq!(originator(timeout_nanos, Some(outcome)).1, Ok(()));
            ready_from += 7 * MILLI;
        }
    }
}

/// As `background`, but stops once the outcome is written.
fn background_until_signal(timeout_nanos: u128, world: World) -> Background {
    let mut clock: u128 = 0;
    let mut run = Background { actions: Vec::new(), signalled: None, sleeps: 0, status: -1 };
    let mut phase = Phase::Start;
    let mut event = Event::Begin;
    for _ in 0..100_000 {
        let (next, action) = daemonize(timeout_nanos, phase, event);
        phase = next;
        run.actions.push(action);
        event = match action {
            Action::OpenChannel | Action::Fork => Event::Returned(0),
            Action::Detach => Event::Returned(1),
            Action::Observe => Event::Observed(Observation {
                ready: world.ready_from.map_or(false, |from| clock >= from),
                worker_finished: world.worker_returns.map_or(false, |(at, _)| clock >= at),
                elapsed_nanos: clock,
            }),
            Action::Sleep { millis } => {
                clock += millis as u128 * MILLI;
                run.sleeps += 1;
                Event::Done
            }
            Action::Signal(outcome) => {
                run.signalled = Some((outcome, clock));
                return run;
            }
            _ => Event::Done,
        };
    }
    panic!("no outcome was written");
}

#[test]
fn probe_at_the_deadline_still_succeeds() {
    // The probe turns true at the very look at which the deadline passes.
    let world = World { ready_from: Some(180 * MILLI), worker_returns: None };
    let run = background_until_signal(200 * MILLI, world);
    assert_eq!(run.signalled, Some((Outcome::Ready, 200 * MILLI)));
}

#[test]
fn probe_just_after_the_last_look_is_missed() {
    let world = World { ready_from: Some(201 * MILLI), worker_returns: None };
    let run = background_until_signal(200 * MILLI, world);
    assert_eq!(run.signalled, Some((Outcome::Failed, 200 * MILLI)));
}

#[test]
fn never_ready_fails_within_timeout_plus_interval() {
    let interval = POLL_INTERVAL_MILLIS as u128 * MILLI;
    let world = World { ready_from: None, worker_returns: None };
    for (timeout_nanos, expected_at, expected_sleeps) in [
        (0, 0, 0usize),
        (1, 50 * MILLI, 1),
        (50 * MILLI, 50 * MILLI, 1),
        (50 * MILLI + 1, 100 * MILLI, 2),
        (75 * MILLI, 100 * MILLI, 2),
        (200 * MILLI, 200 * MILLI, 4),
        (10_000 * MILLI, 10_000 * MILLI, 200),
    ] {
        let (result, run) = invocation(timeout_nanos, world);
        assert_eq!(result, Err(DaemonError::StartFailed));
        assert_eq!(run.signalled, Some((Outcome::Failed, expected_at)));
        assert_eq!(run.sleeps, expected_sleeps);
        assert_eq!(run.status, 1);
        assert!(expected_at >= timeout_nanos);
        assert!(expected_at <= timeout_nanos + interval);
    }
}

#[test]
fn zero_timeout_polls_once() {
    let never = World { ready_from: None, worker_returns: None };
    let run = background(0, never);
    assert_eq!(run.actions.iter().filter(|action| **action == Action::Observe).count(), 1);
    assert_eq!(run.signalled, Some((Outcome::Failed, 0)));

    let at_once = World { ready_from: Some(0), worker_returns: Some((1, true)) };
    let run = background(0, at_once);
    assert_eq!(run.actions.iter().filter(|action| **action == Action::Observe).count(), 1);
    assert_eq!(run.signalled, Some((Outcome::Ready, 0)));
}

#[test]
fn stopped_worker_fails_without_waiting_for_the_timeout() {
    for ok in [false, true] {
        let world = World { ready_from: None, worker_returns: Some((60 * MILLI, ok)) };
        let (result, run) = invocation(10_000 * MILLI, world);
        assert_eq!(result, Err(DaemonError::StartFailed));
        // The first look after the worker returned.
        assert_eq!(run.signalled, Some((Outcome::Failed, 100 * MILLI)));
        assert_eq!(run.sleeps, 2);
        assert_eq!(run.status, 1);
        assert!(!run.actions.contains(&Action::JoinWorker));
    }
}

#[test]
fn worker_that_stops_after_readiness_decides_the_exit_status() {
    let clean = World { ready_from: Some(100 * MILLI), worker_returns: Some((5_000 * MILLI, true)) };
    let (result, run) = invocation(10_000 * MILLI, clean);
    assert_eq!(result, Ok(()));
    assert_eq!(run.status, 0);

    let broken = World { ready_from: Some(100 * MILLI), worker_returns: Some((5_000 * MILLI, false)) };
    let (result, run) = invocation(10_000 * MILLI, broken);
    assert_eq!(result, Ok(()));
    assert_eq!(run.status, 1);
}

#[test]
fn ready_and_stopped_at_the_same_look_is_ready() {
    let world = World { ready_from: Some(30 * MILLI), worker_returns: Some((40 * MILLI, true)) };
    let (result, run) = invocation(10_000 * MILLI, world);
    assert_eq!(result, Ok(()));
    assert_eq!(run.signalled, Some((Outcome::Ready, 50 * MILLI)));
    assert_eq!(run.status, 0);
}

#[test]
fn ready_report_ends_polling() {
    let world = World { ready_from: Some(100 * MILLI), worker_returns: Some((900 * MILLI, true)) };
    let run = background(10_000 * MILLI, world);
    let signal = run.actions.iter().position(|action| matches!(action, Action::Signal(_))).unwrap();
    for action in &run.actions[signal + 1..] {
        assert!(!matches!(action, Action::Observe | Action::Sleep { .. } | Action::Signal(_)));
    }
    assert_eq!(
        run.actions[signal + 1..].to_vec(),
        vec![Action::CloseWrite, Action::JoinWorker, Action::Exit(0)]
    );
}

#[test]
fn last_phases_repeat_their_action() {
    for event in [Event::Begin, Event::Done, Event::Returned(0), Event::Received(Outcome::Ready)] {
        assert_eq!(daemonize(0, Phase::Exited(1), event), (Phase::Exited(1), Action::Exit(1)));
        assert_eq!(daemonize(0, Phase::Exited(0), event), (Phase::Exited(0), Action::Exit(0)));
        assert_eq!(
            daemonize(0, Phase::Finished(Ok(())), event),
            (Phase::Finished(Ok(())), Action::Return(Ok(())))
        );
        assert_eq!(
            daemonize(0, Phase::Finished(Err(DaemonError::StartFailed)), event),
            (
                Phase::Finished(Err(DaemonError::StartFailed)),
                Action::Return(Err(DaemonError::StartFailed))
            )
        );
    }
}

#[test]
fn events_of_another_kind_count_as_failure() {
    assert_eq!(
        daemonize(0, Phase::OpeningChannel, Event::Done),
        (
            Phase::Finished(Err(DaemonError::ChannelFailed)),
            Action::Return(Err(DaemonError::ChannelFailed))
        )
    );
    assert_eq!(daemonize(0, Phase::Forking, Event::Done), (Phase::AbandoningRead, Action::CloseRead));
    assert_eq!(
        daemonize(0, Phase::Detaching, Event::Done),
        (Phase::ReportingDetachFailure, Action::Signal(Outcome::Failed))
    );
    assert_eq!(
        daemonize(10_000 * MILLI, Phase::Polling, Event::Done),
        (Phase::Signalling(Outcome::Failed), Action::Signal(Outcome::Failed))
    );
    assert_eq!(
        daemonize(0, Phase::Awaiting, Event::Done),
        (Phase::ClosingRead(Outcome::Failed), Action::CloseRead)
    );
    assert_eq!(daemonize(0, Phase::Joining, Event::Done), (Phase::Exited(1), Action::Exit(1)));
}

/// A small generator of numbers that look random.
fn next(state: &mut u64) -> u64 {
    *state = state.wrapping_mul(6364136223846793005).wrapping_add(1442695040888963407);
    *state >> 33
}

fn some_event(state: &mut u64) -> Event {
    match next(state) % 9 {
        0 => Event::Begin,
        1 => Event::Done,
        2 => Event::Returned(0),
        3 => Event::Returned(-1),
        4 => Event::Returned(77),
        5 => Event::Observed(Observation {
            ready: next(state) % 4 == 0,
            worker_finished: next(state) % 4 == 0,
            elapsed_nanos: next(state) as u128 % 300,
        }),
        6 => Event::Received(Outcome::Ready),
        7 => Event::Received(Outcome::Failed),
        _ => Event::Joined { worker_ok: next(state) % 2 == 0 },
    }
}

#[test]
fn no_run_signals_or_awaits_twice() {
    let mut state: u64 = 0x5eed;
    for _ in 0..2_000 {
        let timeout_nanos = next(&mut state) as u128 % 300;
        let events: Vec<Event> = (0..40).map(|_| some_event(&mut state)).collect();
        let actions = answers(timeout_nanos, &events);
        let signals = actions.iter().filter(|action| matches!(action, Action::Signal(_))).count();
        let awaits = actions.iter().filter(|action| **action == Action::Await).count();
        assert!(signals <= 1);
        assert!(awaits <= 1);
        assert!(signals + awaits <= 1);
        // A process that has been told to exit or to return is told nothing else.
        if let Some(end) =
            actions.iter().position(|action| matches!(action, Action::Exit(_) | Action::Return(_)))
        {
            for action in &actions[end..] {
                assert_eq!(*action, actions[end]);
            }
        }
    }
}

#[test]
fn daemon_error_messages() {
    assert_eq!(DaemonError::ChannelFailed.message(), "Failed to create pipe");
    assert_eq!(DaemonError::ForkFailed.message(), "Fork failed");
    assert_eq!(DaemonError::StartFailed.message(), "Daemon failed to start");
}
