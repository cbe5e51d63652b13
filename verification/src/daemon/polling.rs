//! The polling loop of the background process.
//!
//! Between starting the worker and reporting an outcome the background
//! process looks at the world at a fixed interval: it asks the readiness
//! probe, looks whether the worker has returned, and reads the clock.  Each
//! look either decides the outcome or leaves the loop waiting.

use vstd::prelude::*;
use crate::daemon::channel::Outcome;

verus! {

/// The pause between two looks at the readiness probe, in milliseconds.
pub const POLL_INTERVAL_MILLIS: u64 = 50;

/// One look at the world from the polling loop.
#[derive(Clone, Copy, Debug, PartialEq, Eq, Structural)]
pub struct Observation {
    /// What the readiness probe answered.
    pub ready: bool,
    /// Whether the worker has already returned.
    pub worker_finished: bool,
    /// The time since polling began, in nanoseconds.
    pub elapsed_nanos: u128,
}

/// What the polling loop makes of one observation.
#[derive(Clone, Copy, Debug, PartialEq, Eq, Structural)]
pub enum Verdict {
    /// The probe held: the worker is ready.
    Ready,
    /// The worker returned before the probe ever held.
    WorkerStopped,
    /// The deadline passed before the probe held.
    TimedOut,
    /// Nothing is decided yet: sleep one interval and look again.
    Wait,
}

impl Verdict {
    /// The outcome to report for this verdict, `None` while polling goes on.
    pub open spec fn spec_outcome(self) -> Option<Outcome> {
        match self {
            Verdict::Ready => Some(Outcome::Ready),
            Verdict::WorkerStopped => Some(Outcome::Failed),
            Verdict::TimedOut => Some(Outcome::Failed),
            Verdict::Wait => None,
        }
    }

    /// The outcome to report for this verdict, `None` while polling goes on.
    pub fn outcome(self) -> (outcome: Option<Outcome>)
        ensures
            outcome == self.spec_outcome(),
    {
        match self {
            Verdict::Ready => Some(Outcome::Ready),
            Verdict::WorkerStopped => Some(Outcome::Failed),
            Verdict::TimedOut => Some(Outcome::Failed),
            Verdict::Wait => None,
        }
    }
}

/// The polling loop's verdict on one observation.  The probe is asked first,
/// so a ready worker counts as ready even at or after the deadline; a
/// stopped worker fails the start before the deadline is looked at.
pub open spec fn spec_poll(observation: Observation, timeout_nanos: u128) -> Verdict {
    if observation.ready {
        Verdict::Ready
    } else if observation.worker_finished {
        Verdict::WorkerStopped
    } else if observation.elapsed_nanos >= timeout_nanos {
        Verdict::TimedOut
    } else {
        Verdict::Wait
    }
}

/// Judges one observation of the polling loop against the timeout.
pub fn poll(observation: Observation, timeout_nanos: u128) -> (verdict: Verdict)
    ensures
        verdict == spec_poll(observation, timeout_nanos),
{
    if observation.ready {
        Verdict::Ready
    } else if observation.worker_finished {
        Verdict::WorkerStopped
    } else if observation.elapsed_nanos >= timeout_nanos {
        Verdict::TimedOut
    } else {
        Verdict::Wait
    }
}

/// Whether the polling loop, shown these observations in order, ends at the
/// one at index `k`: every earlier one left it waiting, and this one does
/// not.
pub open spec fn polling_ends_at(observations: Seq<Observation>, timeout_nanos: u128, k: int) -> bool {
    &&& 0 <= k < observations.len()
    &&& forall|i: int| 0 <= i < k ==> spec_poll(#[trigger] observations[i], timeout_nanos) is Wait
    &&& spec_poll(observations[k], timeout_nanos) !is Wait
}

/// Whether the observations were taken at most `gap` nanoseconds apart, the
/// first of them at most `gap` after polling began.  With a clock that
/// charges nothing for a look, the gap is the polling interval.
pub open spec fn paced(observations: Seq<Observation>, gap: int) -> bool {
    &&& observations.len() > 0 ==> observations[0].elapsed_nanos <= gap
    &&& forall|i: int|
        0 <= i < observations.len() - 1 ==> observations[i + 1].elapsed_nanos <= (
        #[trigger] observations[i]).elapsed_nanos + gap
}

/// The look that ends the polling loop comes no later than the timeout plus
/// the longest gap between two looks, whatever it decides.
pub proof fn lemma_decision_is_timely(
    observations: Seq<Observation>,
    timeout_nanos: u128,
    gap: int,
    k: int,
)
    requires
        polling_ends_at(observations, timeout_nanos, k),
        paced(observations, gap),
    ensures
        observations[k].elapsed_nanos <= timeout_nanos + gap,
{
    if k > 0 {
        assert(spec_poll(observations[k - 1], timeout_nanos) is Wait);
        assert(observations[k - 1 + 1].elapsed_nanos <= observations[k - 1].elapsed_nanos + gap);
    }
}

/// Polling has ended by any look that does not leave the loop waiting: at
/// that look or before it there is a first such look.
pub proof fn lemma_first_decisive_look(observations: Seq<Observation>, timeout_nanos: u128, j: int)
    requires
        0 <= j < observations.len(),
        spec_poll(observations[j], timeout_nanos) !is Wait,
    ensures
        exists|k: int| 0 <= k <= j && polling_ends_at(observations, timeout_nanos, k),
    decreases j,
{
    if forall|i: int| 0 <= i < j ==> spec_poll(#[trigger] observations[i], timeout_nanos) is Wait {
        assert(polling_ends_at(observations, timeout_nanos, j));
    } else {
        let i: int = choose|i: int| 0 <= i < j && !(spec_poll(#[trigger] observations[i], timeout_nanos) is Wait);
        lemma_first_decisive_look(observations, timeout_nanos, i);
    }
}

/// Polling does not outlast the deadline: it has ended by the first look at
/// or after it.
pub proof fn lemma_deadline_ends_polling(
    observations: Seq<Observation>,
    timeout_nanos: u128,
    j: int,
)
    requires
        0 <= j < observations.len(),
        observations[j].elapsed_nanos >= timeout_nanos,
    ensures
        exists|k: int| 0 <= k <= j && polling_ends_at(observations, timeout_nanos, k),
{
    lemma_first_decisive_look(observations, timeout_nanos, j);
}

/// With a timeout of zero the first look decides.
pub proof fn lemma_zero_timeout_looks_once(observation: Observation)
    ensures
        spec_poll(observation, 0) !is Wait,
{
}

} // verus!
