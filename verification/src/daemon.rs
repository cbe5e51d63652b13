//! The daemonization controller.
//!
//! A caller that wants a worker to run in a detached background process
//! drives [`daemonize`]: it hands in what the last action brought, performs
//! the action that comes back, and goes on until the action is
//! [`Action::Return`] or [`Action::Exit`].  The controller decides the order
//! of the system calls on both sides of the fork, when the background process
//! stops polling for readiness, what it reports, and what each process ends
//! with.  It has no action that stops a worker once started: after a timeout
//! the originator is told of the failure while the worker may still be
//! running.

use vstd::prelude::*;
use crate::daemon::channel::Outcome;
use crate::daemon::polling::{
    lemma_deadline_ends_polling, lemma_decision_is_timely, lemma_first_decisive_look, paced, poll,
    polling_ends_at, spec_poll, Observation, Verdict, POLL_INTERVAL_MILLIS,
};

pub mod channel;
pub mod polling;
pub mod stdio;

verus! {

/// The background process's exit status after a clean shutdown that followed
/// a reported ready state.
pub const EXIT_SUCCESS: i32 = 0;

/// The background process's exit status after any failure.
pub const EXIT_FAILURE: i32 = 1;

/// Why daemonization failed, as the originator sees it.
#[derive(Clone, Copy, Debug, PartialEq, Eq, Structural)]
pub enum DaemonError {
    /// The outcome channel could not be created.
    ChannelFailed,
    /// The process could not be duplicated.
    ForkFailed,
    /// The background process reported failure, or went away without a
    /// report.  The worker may still be running.
    StartFailed,
}

impl DaemonError {
    /// What went wrong, in words.
    pub open spec fn spec_message(self) -> Seq<char> {
        match self {
            DaemonError::ChannelFailed => "Failed to create pipe"@,
            DaemonError::ForkFailed => "Fork failed"@,
            DaemonError::StartFailed => "Daemon failed to start"@,
        }
    }

    /// What went wrong, in words.  For the first two the system's own error
    /// follows after a colon.
    pub fn message(self) -> (text: &'static str)
        ensures
            text@ == self.spec_message(),
    {
        match self {
            DaemonError::ChannelFailed => "Failed to create pipe",
            DaemonError::ForkFailed => "Fork failed",
            DaemonError::StartFailed => "Daemon failed to start",
        }
    }
}

/// The two processes that a successful fork leaves behind.
#[derive(Clone, Copy, Debug, PartialEq, Eq, Structural)]
pub enum Role {
    /// The process that asked for daemonization and returns a result.
    Originator,
    /// The detached process that runs the worker.
    Background,
}

/// Where the controller stands: what it has asked for and not yet heard of.
#[derive(Clone, Copy, Debug, PartialEq, Eq)]
pub enum Phase {
    /// Nothing has been asked for yet.
    Start,
    /// The outcome channel is being created.
    OpeningChannel,
    /// The process is being duplicated.
    Forking,
    /// Originator, after a failed fork: the read end is being closed.
    AbandoningRead,
    /// Originator, after a failed fork: the write end is being closed.
    AbandoningWrite,
    /// Background: the read end, which it never uses, is being closed.
    DroppingRead,
    /// Background: a new session is being created.
    Detaching,
    /// Background: the failure to detach is being reported.
    ReportingDetachFailure,
    /// Background: the standard streams are being redirected.
    Redirecting,
    /// Background: the worker is being started.
    Spawning,
    /// Background: an observation is being taken.
    Polling,
    /// Background: the pause between two observations.
    Sleeping,
    /// Background: this outcome is being written to the channel.
    Signalling(Outcome),
    /// Background: the write end is being closed after this outcome went out.
    ClosingWrite(Outcome),
    /// Background: the worker, reported ready, runs until it returns.
    Joining,
    /// Originator: the write end, which it never uses, is being closed.
    DroppingWrite,
    /// Originator: the outcome is being awaited.
    Awaiting,
    /// Originator: the read end is being closed after this outcome came in.
    ClosingRead(Outcome),
    /// The background process has been told to exit with this status.
    Exited(i32),
    /// The originator has been told to return this result.
    Finished(Result<(), DaemonError>),
}

/// What the caller reports back after it has carried out an action.
#[derive(Clone, Copy, Debug, PartialEq, Eq)]
pub enum Event {
    /// Nothing has been carried out yet: the event of the first call.
    Begin,
    /// The system call returned this value.
    Returned(i32),
    /// The action, which has no result that matters, has been carried out.
    Done,
    /// The observation that was taken.
    Observed(Observation),
    /// The outcome that the wait on the channel ended with.
    Received(Outcome),
    /// The worker has returned, with success or not.
    Joined { worker_ok: bool },
}

/// What the caller is to do next.
#[derive(Clone, Copy, Debug, PartialEq, Eq)]
pub enum Action {
    /// Create the outcome channel; report the call's return value.
    OpenChannel,
    /// Duplicate the process; report the call's return value in each process
    /// that gets one.
    Fork,
    /// Close the channel's read end.
    CloseRead,
    /// Close the channel's write end.
    CloseWrite,
    /// Create a new session; report the call's return value.
    Detach,
    /// Point the standard streams at the null device.
    RedirectStdio,
    /// Start the worker, concurrently.
    SpawnWorker,
    /// Ask the probe, look whether the worker has returned, read the clock;
    /// report the observation.
    Observe,
    /// Sleep for this many milliseconds.
    Sleep { millis: u64 },
    /// Write this outcome to the channel, whether or not that succeeds.
    Signal(Outcome),
    /// Wait for the outcome on the channel; report it.
    Await,
    /// Wait until the worker returns; report whether it succeeded.
    JoinWorker,
    /// Exit the process with this status.
    Exit(i32),
    /// Return this result to the caller of the daemonization.
    Return(Result<(), DaemonError>),
}

/// What the originator returns for the outcome that it received.
pub open spec fn spec_report(outcome: Outcome) -> Result<(), DaemonError> {
    match outcome {
        Outcome::Ready => Ok(()),
        Outcome::Failed => Err(DaemonError::StartFailed),
    }
}

/// What the originator returns for the outcome that it received: success
/// for a ready worker and for nothing else.
pub fn report(outcome: Outcome) -> (result: Result<(), DaemonError>)
    ensures
        result == spec_report(outcome),
{
    match outcome {
        Outcome::Ready => Ok(()),
        Outcome::Failed => Err(DaemonError::StartFailed),
    }
}

/// The background process's exit status once the worker, reported ready
/// before, has returned.
pub open spec fn spec_exit_status(worker_ok: bool) -> i32 {
    if worker_ok {
        EXIT_SUCCESS
    } else {
        EXIT_FAILURE
    }
}

/// The background process's exit status once the worker, reported ready
/// before, has returned: the worker's own success or failure.
pub fn exit_status(worker_ok: bool) -> (status: i32)
    ensures
        status == spec_exit_status(worker_ok),
{
    if worker_ok {
        EXIT_SUCCESS
    } else {
        EXIT_FAILURE
    }
}

/// Which process a fork's return value puts the caller in: `None` where the
/// fork failed.  An event of another kind counts as a failed fork.
pub open spec fn spec_fork_role(event: Event) -> Option<Role> {
    match event {
        Event::Returned(pid) => if pid == -1 {
            None
        } else if pid == 0 {
            Some(Role::Background)
        } else {
            Some(Role::Originator)
        },
        _ => None,
    }
}

/// Which process a fork's return value puts the caller in.
pub fn fork_role(event: Event) -> (role: Option<Role>)
    ensures
        role == spec_fork_role(event),
{
    match event {
        Event::Returned(pid) => {
            if pid == -1 {
                None
            } else if pid == 0 {
                Some(Role::Background)
            } else {
                Some(Role::Originator)
            }
        },
        _ => None,
    }
}

/// Whether the event says that the new session exists.  An event of another
/// kind counts as a failure to detach.
pub open spec fn spec_detached(event: Event) -> bool {
    event matches Event::Returned(sid) && sid != -1
}

/// The polling loop's verdict on the event that answers `Action::Observe`.
/// An event of another kind counts as a worker that stopped.
pub open spec fn spec_observed(event: Event, timeout_nanos: u128) -> Verdict {
    match event {
        Event::Observed(observation) => spec_poll(observation, timeout_nanos),
        _ => Verdict::WorkerStopped,
    }
}

/// The outcome that the event that answers `Action::Await` carries.  An
/// event of another kind counts as failure.
pub open spec fn spec_received(event: Event) -> Outcome {
    match event {
        Event::Received(outcome) => outcome,
        _ => Outcome::Failed,
    }
}

/// Whether the event says that the worker returned with success.
pub open spec fn spec_worker_ok(event: Event) -> bool {
    event matches Event::Joined { worker_ok } && worker_ok
}

/// The controller's transition: from where it stands and what the last
/// action brought, to where it stands next and what to do next.
///
/// A phase whose action has no result that matters goes on whatever the
/// event.  The last two phases repeat their action for ever.
pub open spec fn spec_daemonize(timeout_nanos: u128, phase: Phase, event: Event) -> (
    Phase,
    Action,
) {
    match phase {
        Phase::Start => (Phase::OpeningChannel, Action::OpenChannel),
        Phase::OpeningChannel => if event == Event::Returned(0) {
            (Phase::Forking, Action::Fork)
        } else {
            (
                Phase::Finished(Err(DaemonError::ChannelFailed)),
                Action::Return(Err(DaemonError::ChannelFailed)),
            )
        },
        Phase::Forking => match spec_fork_role(event) {
            Some(Role::Background) => (Phase::DroppingRead, Action::CloseRead),
            Some(Role::Originator) => (Phase::DroppingWrite, Action::CloseWrite),
            None => (Phase::AbandoningRead, Action::CloseRead),
        },
        Phase::AbandoningRead => (Phase::AbandoningWrite, Action::CloseWrite),
        Phase::AbandoningWrite => (
            Phase::Finished(Err(DaemonError::ForkFailed)),
            Action::Return(Err(DaemonError::ForkFailed)),
        ),
        Phase::DroppingRead => (Phase::Detaching, Action::Detach),
        Phase::Detaching => if spec_detached(event) {
            (Phase::Redirecting, Action::RedirectStdio)
        } else {
            (Phase::ReportingDetachFailure, Action::Signal(Outcome::Failed))
        },
        Phase::ReportingDetachFailure => (Phase::Exited(EXIT_FAILURE), Action::Exit(EXIT_FAILURE)),
        Phase::Redirecting => (Phase::Spawning, Action::SpawnWorker),
        Phase::Spawning => (Phase::Polling, Action::Observe),
        Phase::Polling => match spec_observed(event, timeout_nanos).spec_outcome() {
            Some(outcome) => (Phase::Signalling(outcome), Action::Signal(outcome)),
            None => (Phase::Sleeping, Action::Sleep { millis: POLL_INTERVAL_MILLIS }),
        },
        Phase::Sleeping => (Phase::Polling, Action::Observe),
        Phase::Signalling(outcome) => (Phase::ClosingWrite(outcome), Action::CloseWrite),
        Phase::ClosingWrite(outcome) => match outcome {
            Outcome::Ready => (Phase::Joining, Action::JoinWorker),
            Outcome::Failed => (Phase::Exited(EXIT_FAILURE), Action::Exit(EXIT_FAILURE)),
        },
        Phase::Joining => (
            Phase::Exited(spec_exit_status(spec_worker_ok(event))),
            Action::Exit(spec_exit_status(spec_worker_ok(event))),
        ),
        Phase::DroppingWrite => (Phase::Awaiting, Action::Await),
        Phase::Awaiting => (Phase::ClosingRead(spec_received(event)), Action::CloseRead),
        Phase::ClosingRead(outcome) => (
            Phase::Finished(spec_report(outcome)),
            Action::Return(spec_report(outcome)),
        ),
        Phase::Exited(status) => (Phase::Exited(status), Action::Exit(status)),
        Phase::Finished(result) => (Phase::Finished(result), Action::Return(result)),
    }
}

/// One step of the daemonization controller.
///
/// Call it first in `Phase::Start` with `Event::Begin`; carry out the action
/// that comes back and call again, in the phase that came back, with the
/// event that the action brought.  `timeout_nanos` is how long the
/// background process polls for readiness before it reports failure; zero
/// makes the first observation decide.
pub fn daemonize(timeout_nanos: u128, phase: Phase, event: Event) -> (next: (Phase, Action))
    ensures
        next == spec_daemonize(timeout_nanos, phase, event),
{
    match phase {
        Phase::Start => (Phase::OpeningChannel, Action::OpenChannel),
        Phase::OpeningChannel => {
            let opened = match event {
                Event::Returned(status) => status == 0,
                _ => false,
            };
            if opened {
                (Phase::Forking, Action::Fork)
            } else {
                (
                    Phase::Finished(Err(DaemonError::ChannelFailed)),
                    Action::Return(Err(DaemonError::ChannelFailed)),
                )
            }
        },
        Phase::Forking => match fork_role(event) {
            Some(Role::Background) => (Phase::DroppingRead, Action::CloseRead),
            Some(Role::Originator) => (Phase::DroppingWrite, Action::CloseWrite),
            None => (Phase::AbandoningRead, Action::CloseRead),
        },
        Phase::AbandoningRead => (Phase::AbandoningWrite, Action::CloseWrite),
        Phase::AbandoningWrite => (
            Phase::Finished(Err(DaemonError::ForkFailed)),
            Action::Return(Err(DaemonError::ForkFailed)),
        ),
        Phase::DroppingRead => (Phase::Detaching, Action::Detach),
        Phase::Detaching => {
            let detached = match event {
                Event::Returned(sid) => sid != -1,
                _ => false,
            };
            if detached {
                (Phase::Redirecting, Action::RedirectStdio)
            } else {
                (Phase::ReportingDetachFailure, Action::Signal(Outcome::Failed))
            }
        },
        Phase::ReportingDetachFailure => (Phase::Exited(EXIT_FAILURE), Action::Exit(EXIT_FAILURE)),
        Phase::Redirecting => (Phase::Spawning, Action::SpawnWorker),
        Phase::Spawning => (Phase::Polling, Action::Observe),
        Phase::Polling => {
            let verdict = match event {
                Event::Observed(observation) => poll(observation, timeout_nanos),
                _ => Verdict::WorkerStopped,
            };
            match verdict.outcome() {
                Some(outcome) => (Phase::Signalling(outcome), Action::Signal(outcome)),
                None => (Phase::Sleeping, Action::Sleep { millis: POLL_INTERVAL_MILLIS }),
            }
        },
        Phase::Sleeping => (Phase::Polling, Action::Observe),
        Phase::Signalling(outcome) => (Phase::ClosingWrite(outcome), Action::CloseWrite),
        Phase::ClosingWrite(outcome) => match outcome {
            Outcome::Ready => (Phase::Joining, Action::JoinWorker),
            Outcome::Failed => (Phase::Exited(EXIT_FAILURE), Action::Exit(EXIT_FAILURE)),
        },
        Phase::Joining => {
            let worker_ok = match event {
                Event::Joined { worker_ok } => worker_ok,
                _ => false,
            };
            let status: i32 = exit_status(worker_ok);
            (Phase::Exited(status), Action::Exit(status))
        },
        Phase::DroppingWrite => (Phase::Awaiting, Action::Await),
        Phase::Awaiting => {
            let outcome = match event {
                Event::Received(outcome) => outcome,
                _ => Outcome::Failed,
            };
            (Phase::ClosingRead(outcome), Action::CloseRead)
        },
        Phase::ClosingRead(outcome) => {
            let result = report(outcome);
            (Phase::Finished(result), Action::Return(result))
        },
        Phase::Exited(status) => (Phase::Exited(status), Action::Exit(status)),
        Phase::Finished(result) => (Phase::Finished(result), Action::Return(result)),
    }
}

/// Where the controller stands after the first `n` of `events`, having
/// begun in `start`.
pub open spec fn phase_after(timeout_nanos: u128, start: Phase, events: Seq<Event>, n: nat) -> Phase
    decreases n,
{
    if n == 0 {
        start
    } else {
        spec_daemonize(
            timeout_nanos,
            phase_after(timeout_nanos, start, events, (n - 1) as nat),
            events[n - 1],
        ).0
    }
}

/// The action with which the controller answers the event at index `i`.
pub open spec fn action_at(timeout_nanos: u128, start: Phase, events: Seq<Event>, i: nat) -> Action {
    spec_daemonize(timeout_nanos, phase_after(timeout_nanos, start, events, i), events[i as int]).1
}

/// The actions with which the controller answers `events`, one for each.
pub open spec fn actions(timeout_nanos: u128, start: Phase, events: Seq<Event>) -> Seq<Action> {
    Seq::new(events.len(), |i: int| action_at(timeout_nanos, start, events, i as nat))
}

/// Where the controller stands after some events does not depend on the
/// events that come later.
proof fn lemma_run_ignores_the_future(
    timeout_nanos: u128,
    start: Phase,
    first: Seq<Event>,
    rest: Seq<Event>,
    n: nat,
)
    requires
        n <= first.len(),
    ensures
        phase_after(timeout_nanos, start, first + rest, n) == phase_after(
            timeout_nanos,
            start,
            first,
            n,
        ),
    decreases n,
{
    if n > 0 {
        lemma_run_ignores_the_future(timeout_nanos, start, first, rest, (n - 1) as nat);
        assert((first + rest)[n - 1] == first[n - 1]);
    }
}

/// A run can be cut anywhere: to the events after the cut the controller
/// gives the answers that it gives when it begins in the phase that the
/// events before the cut led to.
pub proof fn lemma_run_can_be_cut(
    timeout_nanos: u128,
    start: Phase,
    first: Seq<Event>,
    rest: Seq<Event>,
    i: nat,
)
    requires
        i <= rest.len(),
    ensures
        phase_after(timeout_nanos, start, first + rest, first.len() + i) == phase_after(
            timeout_nanos,
            phase_after(timeout_nanos, start, first, first.len()),
            rest,
            i,
        ),
        i < rest.len() ==> action_at(timeout_nanos, start, first + rest, first.len() + i)
            == action_at(
            timeout_nanos,
            phase_after(timeout_nanos, start, first, first.len()),
            rest,
            i,
        ),
    decreases i,
{
    if i == 0 {
        lemma_run_ignores_the_future(timeout_nanos, start, first, rest, first.len());
    } else {
        lemma_run_can_be_cut(timeout_nanos, start, first, rest, (i - 1) as nat);
        assert((first + rest)[first.len() + i - 1] == rest[i - 1]);
    }
    if i < rest.len() {
        assert((first + rest)[(first.len() + i) as int] == rest[i as int]);
    }
}

/// A probe that holds before the deadline has passed and before the worker
/// has returned makes the start succeed: by the first look that finds the
/// probe true the polling has ended, at a look that comes no later than the
/// timeout plus the longest gap between two looks and has the background
/// process report `Ready`, which the originator turns into success.  It does
/// not matter whether the deadline has passed at that look or the worker has
/// returned by then.
pub proof fn lemma_ready_probe_succeeds(
    observations: Seq<Observation>,
    timeout_nanos: u128,
    gap: int,
    j: int,
)
    requires
        0 <= j < observations.len(),
        observations[j].ready,
        forall|i: int|
            0 <= i < j ==> !(#[trigger] observations[i]).worker_finished
                && observations[i].elapsed_nanos < timeout_nanos,
        paced(observations, gap),
    ensures
        exists|k: int|
            {
                &&& 0 <= k <= j
                &&& #[trigger] polling_ends_at(observations, timeout_nanos, k)
                &&& observations[k].elapsed_nanos <= timeout_nanos + gap
                &&& spec_daemonize(
                    timeout_nanos,
                    Phase::Polling,
                    Event::Observed(observations[k]),
                ) == (Phase::Signalling(Outcome::Ready), Action::Signal(Outcome::Ready))
            },
        spec_report(Outcome::Ready) == Ok::<(), DaemonError>(()),
{
    lemma_first_decisive_look(observations, timeout_nanos, j);
    let k: int = choose|k: int| 0 <= k <= j && polling_ends_at(observations, timeout_nanos, k);
    lemma_decision_is_timely(observations, timeout_nanos, gap, k);
    if k < j {
        assert(!observations[k].worker_finished && observations[k].elapsed_nanos < timeout_nanos);
    }
}

/// A probe that never holds makes the start fail, no later than the timeout
/// plus the longest gap between two looks: by the first look at or after the
/// deadline the polling has ended, at a look that comes no later than that
/// and has the background process report `Failed`, which the originator
/// turns into an error.
pub proof fn lemma_never_ready_fails_in_time(
    observations: Seq<Observation>,
    timeout_nanos: u128,
    gap: int,
    j: int,
)
    requires
        forall|i: int| 0 <= i < observations.len() ==> !(#[trigger] observations[i]).ready,
        paced(observations, gap),
        0 <= j < observations.len(),
        observations[j].elapsed_nanos >= timeout_nanos,
    ensures
        exists|k: int|
            {
                &&& 0 <= k <= j
                &&& #[trigger] polling_ends_at(observations, timeout_nanos, k)
                &&& observations[k].elapsed_nanos <= timeout_nanos + gap
                &&& spec_daemonize(
                    timeout_nanos,
                    Phase::Polling,
                    Event::Observed(observations[k]),
                ) == (Phase::Signalling(Outcome::Failed), Action::Signal(Outcome::Failed))
            },
        spec_report(Outcome::Failed) == Err::<(), DaemonError>(DaemonError::StartFailed),
{
    lemma_deadline_ends_polling(observations, timeout_nanos, j);
    let k: int = choose|k: int| 0 <= k <= j && polling_ends_at(observations, timeout_nanos, k);
    lemma_decision_is_timely(observations, timeout_nanos, gap, k);
}

/// A worker that has returned before the probe ever held fails the start at
/// once, however much of the timeout is left: by the first look that finds
/// the worker stopped the polling has ended, and the look that ended it has
/// the background process report `Failed`, which the originator turns into
/// an error.  Where no earlier look ended the polling, it is that very look.
pub proof fn lemma_stopped_worker_fails_at_once(
    observations: Seq<Observation>,
    timeout_nanos: u128,
    j: int,
)
    requires
        0 <= j < observations.len(),
        observations[j].worker_finished,
        forall|i: int| 0 <= i <= j ==> !(#[trigger] observations[i]).ready,
    ensures
        spec_poll(observations[j], timeout_nanos) == Verdict::WorkerStopped,
        exists|k: int|
            {
                &&& 0 <= k <= j
                &&& #[trigger] polling_ends_at(observations, timeout_nanos, k)
                &&& spec_daemonize(
                    timeout_nanos,
                    Phase::Polling,
                    Event::Observed(observations[k]),
                ) == (Phase::Signalling(Outcome::Failed), Action::Signal(Outcome::Failed))
            },
        spec_report(Outcome::Failed) == Err::<(), DaemonError>(DaemonError::StartFailed),
{
    lemma_first_decisive_look(observations, timeout_nanos, j);
    let k: int = choose|k: int| 0 <= k <= j && polling_ends_at(observations, timeout_nanos, k);
    assert(!observations[k].ready);
}

/// Whether `events`, from index `n` on, bring the observations up to the one
/// at index `k`, each but the last followed by the event that ends a sleep.
pub open spec fn brings_observations(
    events: Seq<Event>,
    n: nat,
    observations: Seq<Observation>,
    k: int,
) -> bool {
    &&& 0 <= k < observations.len()
    &&& n + 2 * k < events.len()
    &&& forall|i: int|
        0 <= i <= k ==> events[n + 2 * i] == Event::Observed(#[trigger] observations[i])
}

/// While the looks leave the loop waiting, the controller is back at polling
/// after each look and the sleep that follows it.
proof fn lemma_still_polling(
    timeout_nanos: u128,
    start: Phase,
    events: Seq<Event>,
    n: nat,
    observations: Seq<Observation>,
    k: int,
    i: int,
)
    requires
        phase_after(timeout_nanos, start, events, n) == Phase::Polling,
        polling_ends_at(observations, timeout_nanos, k),
        brings_observations(events, n, observations, k),
        0 <= i <= k,
    ensures
        phase_after(timeout_nanos, start, events, (n + 2 * i) as nat) == Phase::Polling,
    decreases i,
{
    if i > 0 {
        lemma_still_polling(timeout_nanos, start, events, n, observations, k, i - 1);
        let at: nat = (n + 2 * (i - 1)) as nat;
        assert(events[n + 2 * (i - 1)] == Event::Observed(observations[i - 1]));
        assert(spec_poll(observations[i - 1], timeout_nanos) is Wait);
        assert(phase_after(timeout_nanos, start, events, at + 1) == Phase::Sleeping);
        assert(phase_after(timeout_nanos, start, events, at + 2) == Phase::Polling);
    }
}

/// The controller polls as the looks dictate: while they leave the loop
/// waiting it sleeps one interval after each and then looks again, and the
/// look that ends the loop has it write the outcome of that look's verdict.
pub proof fn lemma_polling_follows_the_looks(
    timeout_nanos: u128,
    start: Phase,
    events: Seq<Event>,
    n: nat,
    observations: Seq<Observation>,
    k: int,
)
    requires
        phase_after(timeout_nanos, start, events, n) == Phase::Polling,
        polling_ends_at(observations, timeout_nanos, k),
        brings_observations(events, n, observations, k),
    ensures
        forall|i: int|
            0 <= i < k ==> {
                &&& #[trigger] action_at(timeout_nanos, start, events, (n + 2 * i) as nat)
                    == (Action::Sleep { millis: POLL_INTERVAL_MILLIS })
                &&& action_at(timeout_nanos, start, events, (n + 2 * i + 1) as nat)
                    == Action::Observe
            },
        spec_poll(observations[k], timeout_nanos).spec_outcome() is Some,
        action_at(timeout_nanos, start, events, (n + 2 * k) as nat) == Action::Signal(
            spec_poll(observations[k], timeout_nanos).spec_outcome()->0,
        ),
{
    assert forall|i: int| 0 <= i < k implies {
        &&& #[trigger] action_at(timeout_nanos, start, events, (n + 2 * i) as nat)
            == (Action::Sleep { millis: POLL_INTERVAL_MILLIS })
        &&& action_at(timeout_nanos, start, events, (n + 2 * i + 1) as nat) == Action::Observe
    } by {
        lemma_still_polling(timeout_nanos, start, events, n, observations, k, i);
        let at: nat = (n + 2 * i) as nat;
        assert(events[n + 2 * i] == Event::Observed(observations[i]));
        assert(spec_poll(observations[i], timeout_nanos) is Wait);
        assert(phase_after(timeout_nanos, start, events, at + 1) == Phase::Sleeping);
    }
    lemma_still_polling(timeout_nanos, start, events, n, observations, k, k);
    assert(events[n + 2 * k] == Event::Observed(observations[k]));
}

/// Whether the controller may still ask for the outcome to be written.
pub open spec fn may_signal(phase: Phase) -> bool {
    ||| phase is Start
    ||| phase is OpeningChannel
    ||| phase is Forking
    ||| phase is DroppingRead
    ||| phase is Detaching
    ||| phase is Redirecting
    ||| phase is Spawning
    ||| phase is Polling
    ||| phase is Sleeping
}

/// Whether the controller may still ask for the outcome to be awaited.
pub open spec fn may_await(phase: Phase) -> bool {
    ||| phase is Start
    ||| phase is OpeningChannel
    ||| phase is Forking
    ||| phase is DroppingWrite
}

/// Whether the controller has told the process to exit or to return.
pub open spec fn ended(phase: Phase) -> bool {
    phase is Exited || phase is Finished
}

/// Once the controller can no longer ask for the outcome to be written, it
/// never can again.
proof fn lemma_signal_stays_spent(
    timeout_nanos: u128,
    start: Phase,
    events: Seq<Event>,
    n: nat,
    m: nat,
)
    requires
        n <= m,
        !may_signal(phase_after(timeout_nanos, start, events, n)),
    ensures
        !may_signal(phase_after(timeout_nanos, start, events, m)),
    decreases m,
{
    if n < m {
        lemma_signal_stays_spent(timeout_nanos, start, events, n, (m - 1) as nat);
    }
}

/// Once the controller can no longer ask for the outcome to be awaited, it
/// never can again.
proof fn lemma_await_stays_spent(
    timeout_nanos: u128,
    start: Phase,
    events: Seq<Event>,
    n: nat,
    m: nat,
)
    requires
        n <= m,
        !may_await(phase_after(timeout_nanos, start, events, n)),
    ensures
        !may_await(phase_after(timeout_nanos, start, events, m)),
    decreases m,
{
    if n < m {
        lemma_await_stays_spent(timeout_nanos, start, events, n, (m - 1) as nat);
    }
}

/// Once the controller has told a process to exit or to return, it stays
/// where it is.
proof fn lemma_end_is_final(
    timeout_nanos: u128,
    start: Phase,
    events: Seq<Event>,
    n: nat,
    m: nat,
)
    requires
        n <= m,
        ended(phase_after(timeout_nanos, start, events, n)),
    ensures
        phase_after(timeout_nanos, start, events, m) == phase_after(
            timeout_nanos,
            start,
            events,
            n,
        ),
    decreases m,
{
    if n < m {
        lemma_end_is_final(timeout_nanos, start, events, n, (m - 1) as nat);
    }
}

/// At most one outcome is ever sent: whatever the events, the controller
/// asks at most once for the outcome to be written.
pub proof fn lemma_outcome_is_signalled_at_most_once(
    timeout_nanos: u128,
    start: Phase,
    events: Seq<Event>,
    i: nat,
    j: nat,
)
    requires
        i < j < events.len(),
        action_at(timeout_nanos, start, events, i) is Signal,
    ensures
        action_at(timeout_nanos, start, events, j) !is Signal,
{
    assert(!may_signal(phase_after(timeout_nanos, start, events, i + 1)));
    lemma_signal_stays_spent(timeout_nanos, start, events, i + 1, j);
}

/// The outcome channel is read at most once: whatever the events, the
/// controller asks at most once for the outcome to be awaited.
pub proof fn lemma_outcome_is_awaited_at_most_once(
    timeout_nanos: u128,
    start: Phase,
    events: Seq<Event>,
    i: nat,
    j: nat,
)
    requires
        i < j < events.len(),
        action_at(timeout_nanos, start, events, i) is Await,
    ensures
        action_at(timeout_nanos, start, events, j) !is Await,
{
    assert(!may_await(phase_after(timeout_nanos, start, events, i + 1)));
    lemma_await_stays_spent(timeout_nanos, start, events, i + 1, j);
}

/// No process both reports and awaits: a run in which the controller asks
/// for the outcome to be written holds no request to await it, before or
/// after.
pub proof fn lemma_no_process_reports_and_awaits(
    timeout_nanos: u128,
    start: Phase,
    events: Seq<Event>,
    i: nat,
    j: nat,
)
    requires
        i < events.len(),
        j < events.len(),
        action_at(timeout_nanos, start, events, i) is Signal,
    ensures
        action_at(timeout_nanos, start, events, j) !is Await,
{
    if i < j {
        assert(!may_await(phase_after(timeout_nanos, start, events, i + 1)));
        lemma_await_stays_spent(timeout_nanos, start, events, i + 1, j);
    } else if j < i {
        if action_at(timeout_nanos, start, events, j) is Await {
            assert(!may_signal(phase_after(timeout_nanos, start, events, j + 1)));
            lemma_signal_stays_spent(timeout_nanos, start, events, j + 1, i);
        }
    }
}

/// The report ends the polling for good: after the controller has asked for
/// the outcome to be written, it asks for no further look at the probe, no
/// further sleep, and not for the worker to be started again.
pub proof fn lemma_report_ends_polling(
    timeout_nanos: u128,
    start: Phase,
    events: Seq<Event>,
    i: nat,
    j: nat,
)
    requires
        i < j < events.len(),
        action_at(timeout_nanos, start, events, i) is Signal,
    ensures
        action_at(timeout_nanos, start, events, j) !is Observe,
        action_at(timeout_nanos, start, events, j) !is Sleep,
        action_at(timeout_nanos, start, events, j) !is SpawnWorker,
{
    assert(!may_signal(phase_after(timeout_nanos, start, events, i + 1)));
    lemma_signal_stays_spent(timeout_nanos, start, events, i + 1, j);
}

/// A process that has been told to exit or to return is told nothing else:
/// every later answer of the controller repeats that action.
pub proof fn lemma_last_action_repeats(
    timeout_nanos: u128,
    start: Phase,
    events: Seq<Event>,
    i: nat,
    j: nat,
)
    requires
        i < j < events.len(),
        action_at(timeout_nanos, start, events, i) is Exit || action_at(
            timeout_nanos,
            start,
            events,
            i,
        ) is Return,
    ensures
        action_at(timeout_nanos, start, events, j) == action_at(timeout_nanos, start, events, i),
{
    assert(ended(phase_after(timeout_nanos, start, events, i + 1)));
    lemma_end_is_final(timeout_nanos, start, events, i + 1, j);
}

/// Where the channel cannot be created, nothing else is attempted.
pub proof fn lemma_failed_channel_script(timeout_nanos: u128, status: i32)
    requires
        status != 0,
    ensures
        actions(timeout_nanos, Phase::Start, seq![Event::Begin, Event::Returned(status)]) == seq![
            Action::OpenChannel,
            Action::Return(Err(DaemonError::ChannelFailed)),
        ],
{
    reveal_with_fuel(phase_after, 3);
}

/// Where the process cannot be duplicated, both ends of the channel are
/// closed before the failure is returned.
pub proof fn lemma_failed_fork_script(timeout_nanos: u128)
    ensures
        actions(
            timeout_nanos,
            Phase::Start,
            seq![Event::Begin, Event::Returned(0), Event::Returned(-1i32), Event::Done, Event::Done],
        ) == seq![
            Action::OpenChannel,
            Action::Fork,
            Action::CloseRead,
            Action::CloseWrite,
            Action::Return(Err(DaemonError::ForkFailed)),
        ],
{
    reveal_with_fuel(phase_after, 6);
}

/// The originator's side of a fork that succeeded: it closes the write end,
/// waits once for the outcome, closes the read end, and returns success
/// exactly for `Ready`.
pub proof fn lemma_originator_script(timeout_nanos: u128, pid: i32, outcome: Outcome)
    requires
        pid != 0,
        pid != -1,
    ensures
        actions(
            timeout_nanos,
            Phase::Start,
            seq![
                Event::Begin,
                Event::Returned(0),
                Event::Returned(pid),
                Event::Done,
                Event::Received(outcome),
                Event::Done,
            ],
        ) == seq![
            Action::OpenChannel,
            Action::Fork,
            Action::CloseWrite,
            Action::Await,
            Action::CloseRead,
            Action::Return(spec_report(outcome)),
        ],
{
    reveal_with_fuel(phase_after, 7);
}

/// Where the background process cannot detach, it reports failure at once
/// and exits with the failure status: no worker is started.
pub proof fn lemma_failed_detach_script(timeout_nanos: u128)
    ensures
        actions(
            timeout_nanos,
            Phase::Start,
            seq![
                Event::Begin,
                Event::Returned(0),
                Event::Returned(0),
                Event::Done,
                Event::Returned(-1i32),
                Event::Done,
            ],
        ) == seq![
            Action::OpenChannel,
            Action::Fork,
            Action::CloseRead,
            Action::Detach,
            Action::Signal(Outcome::Failed),
            Action::Exit(EXIT_FAILURE),
        ],
{
    reveal_with_fuel(phase_after, 7);
}

/// The background process's way to the first look: it closes the read end,
/// detaches, redirects the standard streams, and starts the worker.
pub proof fn lemma_background_startup_script(timeout_nanos: u128, sid: i32)
    requires
        sid != -1,
    ensures
        actions(
            timeout_nanos,
            Phase::Start,
            seq![
                Event::Begin,
                Event::Returned(0),
                Event::Returned(0),
                Event::Done,
                Event::Returned(sid),
                Event::Done,
                Event::Done,
            ],
        ) == seq![
            Action::OpenChannel,
            Action::Fork,
            Action::CloseRead,
            Action::Detach,
            Action::RedirectStdio,
            Action::SpawnWorker,
            Action::Observe,
        ],
        phase_after(
            timeout_nanos,
            Phase::Start,
            seq![
                Event::Begin,
                Event::Returned(0),
                Event::Returned(0),
                Event::Done,
                Event::Returned(sid),
                Event::Done,
                Event::Done,
            ],
            7,
        ) == Phase::Polling,
{
    reveal_with_fuel(phase_after, 8);
}

/// After a report of `Ready` the background process closes the write end,
/// waits for the worker to return, and exits with the worker's own status.
pub proof fn lemma_ready_shutdown_script(timeout_nanos: u128, worker_ok: bool)
    ensures
        actions(
            timeout_nanos,
            Phase::Signalling(Outcome::Ready),
            seq![Event::Done, Event::Done, Event::Joined { worker_ok }],
        ) == seq![
            Action::CloseWrite,
            Action::JoinWorker,
            Action::Exit(spec_exit_status(worker_ok)),
        ],
{
    reveal_with_fuel(phase_after, 4);
}

/// After a report of `Failed` the background process closes the write end
/// and exits at once with the failure status; it does not wait for the
/// worker.
pub proof fn lemma_failed_shutdown_script(timeout_nanos: u128)
    ensures
        actions(
            timeout_nanos,
            Phase::Signalling(Outcome::Failed),
            seq![Event::Done, Event::Done],
        ) == seq![Action::CloseWrite, Action::Exit(EXIT_FAILURE)],
{
    reveal_with_fuel(phase_after, 3);
}

} // verus!
