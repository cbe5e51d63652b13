//! The outcome channel: a one-shot, one-byte report from the background
//! process to the originator.
//!
//! Both ends use a blocking system call that a signal may interrupt.  Each
//! function here judges the result of one such call; the caller repeats the
//! call for as long as it is told to retry.

use vstd::prelude::*;

verus! {

/// The byte that reports a successful start.
pub const READY_BYTE: u8 = 0;

/// The byte that reports a failed start.
pub const FAILED_BYTE: u8 = 1;

/// What the background process reports about its start.
#[derive(Clone, Copy, Debug, PartialEq, Eq, Structural)]
pub enum Outcome {
    /// The readiness probe held.
    Ready,
    /// The worker stopped early, the deadline passed, or the process could
    /// not detach.
    Failed,
}

impl Outcome {
    /// The byte that stands for this outcome on the channel.
    pub open spec fn spec_byte(self) -> u8 {
        match self {
            Outcome::Ready => READY_BYTE,
            Outcome::Failed => FAILED_BYTE,
        }
    }

    /// The outcome that a byte read from the channel stands for: only the
    /// ready byte means success.
    pub open spec fn spec_from_byte(byte: u8) -> Outcome {
        if byte == READY_BYTE {
            Outcome::Ready
        } else {
            Outcome::Failed
        }
    }

    /// The outcome for a plain success flag.
    pub open spec fn spec_from_flag(success: bool) -> Outcome {
        if success {
            Outcome::Ready
        } else {
            Outcome::Failed
        }
    }

    /// The byte to write for this outcome.
    pub fn byte(self) -> (b: u8)
        ensures
            b == self.spec_byte(),
    {
        match self {
            Outcome::Ready => READY_BYTE,
            Outcome::Failed => FAILED_BYTE,
        }
    }

    /// Decodes a byte that was read from the channel.
    pub fn from_byte(byte: u8) -> (outcome: Outcome)
        ensures
            outcome == Outcome::spec_from_byte(byte),
    {
        if byte == READY_BYTE {
            Outcome::Ready
        } else {
            Outcome::Failed
        }
    }

    /// The outcome for a plain success flag.
    pub fn from_flag(success: bool) -> (outcome: Outcome)
        ensures
            outcome == Outcome::spec_from_flag(success),
    {
        if success {
            Outcome::Ready
        } else {
            Outcome::Failed
        }
    }

    /// Whether this outcome reports success.
    pub fn is_ready(self) -> (ready: bool)
        ensures
            ready == (self == Outcome::Ready),
    {
        match self {
            Outcome::Ready => true,
            Outcome::Failed => false,
        }
    }
}

/// What one call of the system's write on the channel returned.
#[derive(Clone, Copy, Debug, PartialEq, Eq, Structural)]
pub struct WriteResult {
    /// The call's return value: the number of bytes written, or -1.
    pub written: isize,
    /// Whether the system's error, read after a return value of -1, says
    /// that a signal interrupted the call.
    pub interrupted: bool,
}

/// What one call of the system's read on the channel returned.
#[derive(Clone, Copy, Debug, PartialEq, Eq, Structural)]
pub struct ReadResult {
    /// The call's return value: the number of bytes read, or -1.
    pub count: isize,
    /// The first byte of the buffer after the call.
    pub byte: u8,
    /// Whether the system's error, read after a return value of -1, says
    /// that a signal interrupted the call.
    pub interrupted: bool,
}

/// Why the outcome could not be written.
#[derive(Clone, Copy, Debug, PartialEq, Eq, Structural)]
pub enum SendError {
    /// The write failed with an error other than an interruption.
    WriteFailed,
    /// The write returned a count that is neither 1 nor -1.
    UnexpectedCount(isize),
}

impl SendError {
    /// What went wrong, in words.
    pub open spec fn spec_message(self) -> Seq<char> {
        match self {
            SendError::WriteFailed => "Failed to signal parent"@,
            SendError::UnexpectedCount(_) => "Unexpected write result"@,
        }
    }

    /// What went wrong, in words; the system's error, or the count, follows
    /// after a colon.
    pub fn message(self) -> (text: &'static str)
        ensures
            text@ == self.spec_message(),
    {
        match self {
            SendError::WriteFailed => "Failed to signal parent",
            SendError::UnexpectedCount(_) => "Unexpected write result",
        }
    }
}

/// What the sender does after one write.
#[derive(Clone, Copy, Debug, PartialEq, Eq, Structural)]
pub enum SendStep {
    /// The byte is on the channel.
    Sent,
    /// A signal interrupted the call: write again.
    Retry,
    /// Give up.
    Failed(SendError),
}

/// What the receiver does after one read.
#[derive(Clone, Copy, Debug, PartialEq, Eq, Structural)]
pub enum ReceiveStep {
    /// A signal interrupted the call: read again.
    Retry,
    /// The wait is over, with this outcome.
    Done(Outcome),
}

impl WriteResult {
    /// A failed call that only a signal cut short.
    pub open spec fn is_interruption(self) -> bool {
        self.written == -1 && self.interrupted
    }
}

impl ReadResult {
    /// A failed call that only a signal cut short.
    pub open spec fn is_interruption(self) -> bool {
        self.count == -1 && self.interrupted
    }
}

/// The sender's judgement of one write of the outcome byte.
pub open spec fn spec_signal_parent(result: WriteResult) -> SendStep {
    if result.written == 1 {
        SendStep::Sent
    } else if result.is_interruption() {
        SendStep::Retry
    } else if result.written == -1 {
        SendStep::Failed(SendError::WriteFailed)
    } else {
        SendStep::Failed(SendError::UnexpectedCount(result.written))
    }
}

/// The receiver's judgement of one read of a single byte.
///
/// One byte read decides by its value.  An end of file means that the
/// background process went away without a report, which counts as failure,
/// and so does every error but an interruption.
pub open spec fn spec_wait_for_signal(result: ReadResult) -> ReceiveStep {
    if result.count == 1 {
        ReceiveStep::Done(Outcome::spec_from_byte(result.byte))
    } else if result.is_interruption() {
        ReceiveStep::Retry
    } else {
        ReceiveStep::Done(Outcome::Failed)
    }
}

/// Judges one write of the outcome byte on the background side.
pub fn signal_parent(result: WriteResult) -> (step: SendStep)
    ensures
        step == spec_signal_parent(result),
{
    if result.written == 1 {
        SendStep::Sent
    } else if result.written == -1 {
        if result.interrupted {
            SendStep::Retry
        } else {
            SendStep::Failed(SendError::WriteFailed)
        }
    } else {
        SendStep::Failed(SendError::UnexpectedCount(result.written))
    }
}

/// Judges one read of the outcome byte on the originator's side.
pub fn wait_for_signal(result: ReadResult) -> (step: ReceiveStep)
    ensures
        step == spec_wait_for_signal(result),
{
    if result.count == 1 {
        ReceiveStep::Done(Outcome::from_byte(result.byte))
    } else if result.count == 0 {
        ReceiveStep::Done(Outcome::Failed)
    } else if result.count == -1 {
        if result.interrupted {
            ReceiveStep::Retry
        } else {
            ReceiveStep::Done(Outcome::Failed)
        }
    } else {
        ReceiveStep::Done(Outcome::Failed)
    }
}

/// What the sender knows after the writes whose results are `results`, in
/// order: `None` while it still has to write, else whether the byte went out.
pub open spec fn delivered(results: Seq<WriteResult>) -> Option<Result<(), SendError>>
    decreases results.len(),
{
    if results.len() == 0 {
        None
    } else {
        match spec_signal_parent(results[0]) {
            SendStep::Retry => delivered(results.drop_first()),
            SendStep::Sent => Some(Ok(())),
            SendStep::Failed(error) => Some(Err(error)),
        }
    }
}

/// The outcome that the receiver holds after the reads whose results are
/// `results`, in order: `None` while it still has to read.
pub open spec fn received(results: Seq<ReadResult>) -> Option<Outcome>
    decreases results.len(),
{
    if results.len() == 0 {
        None
    } else {
        match spec_wait_for_signal(results[0]) {
            ReceiveStep::Retry => received(results.drop_first()),
            ReceiveStep::Done(outcome) => Some(outcome),
        }
    }
}

/// Decoding the byte of an outcome gives that outcome back.
pub proof fn lemma_byte_round_trip(outcome: Outcome)
    ensures
        Outcome::spec_from_byte(outcome.spec_byte()) == outcome,
{
}

/// A read that returns the byte of an outcome ends the wait with that
/// outcome.
pub proof fn lemma_sent_outcome_is_received(outcome: Outcome, result: ReadResult)
    requires
        result.count == 1,
        result.byte == outcome.spec_byte(),
    ensures
        spec_wait_for_signal(result) == ReceiveStep::Done(outcome),
{
}

/// The receiver reads again only after an interruption: the first result
/// that is none ends the wait, with the outcome that this result alone gives.
pub proof fn lemma_first_answer_decides(results: Seq<ReadResult>, k: int)
    requires
        0 <= k < results.len(),
        forall|i: int| 0 <= i < k ==> (#[trigger] results[i]).is_interruption(),
        !results[k].is_interruption(),
    ensures
        received(results) is Some,
        spec_wait_for_signal(results[k]) == ReceiveStep::Done(received(results)->0),
    decreases k,
{
    if k > 0 {
        let rest = results.drop_first();
        assert(results[0].is_interruption());
        assert forall|i: int| 0 <= i < k - 1 implies (#[trigger] rest[i]).is_interruption() by {
            assert(rest[i] == results[i + 1]);
        }
        assert(rest[k - 1] == results[k]);
        lemma_first_answer_decides(rest, k - 1);
    }
}

/// The receiver is still waiting exactly when every read so far was
/// interrupted.
pub proof fn lemma_waiting_means_interrupted(results: Seq<ReadResult>)
    ensures
        received(results) is None <==> forall|i: int|
            0 <= i < results.len() ==> (#[trigger] results[i]).is_interruption(),
    decreases results.len(),
{
    if results.len() > 0 {
        let rest = results.drop_first();
        lemma_waiting_means_interrupted(rest);
        if results[0].is_interruption() {
            if received(rest) is None {
                assert forall|i: int| 0 <= i < results.len() implies (#[trigger] results[i]).is_interruption() by {
                    if i > 0 {
                        assert(results[i] == rest[i - 1]);
                    }
                }
            } else {
                let j: int = choose|j: int| 0 <= j < rest.len() && !(#[trigger] rest[j]).is_interruption();
                assert(results[j + 1] == rest[j]);
            }
        }
    }
}

/// A channel that closes with nothing written reads as failure: an end of
/// file after any number of interrupted reads ends the wait with `Failed`.
pub proof fn lemma_closed_channel_reads_as_failure(results: Seq<ReadResult>, k: int)
    requires
        0 <= k < results.len(),
        forall|i: int| 0 <= i < k ==> (#[trigger] results[i]).is_interruption(),
        results[k].count == 0,
    ensures
        received(results) == Some(Outcome::Failed),
{
    lemma_first_answer_decides(results, k);
}

/// A signal that interrupts a read does not change what the receiver
/// reports, wherever among the reads it falls.
pub proof fn lemma_interrupted_read_changes_nothing(
    results: Seq<ReadResult>,
    at: int,
    interruption: ReadResult,
)
    requires
        0 <= at <= results.len(),
        interruption.is_interruption(),
    ensures
        received(results.insert(at, interruption)) == received(results),
    decreases at,
{
    let longer = results.insert(at, interruption);
    if at == 0 {
        assert(longer.drop_first() =~= results);
    } else {
        assert(longer[0] == results[0]);
        assert(longer.drop_first() =~= results.drop_first().insert(at - 1, interruption));
        lemma_interrupted_read_changes_nothing(results.drop_first(), at - 1, interruption);
    }
}

/// A signal that interrupts a write does not change whether the outcome
/// goes out, wherever among the writes it falls.
pub proof fn lemma_interrupted_write_changes_nothing(
    results: Seq<WriteResult>,
    at: int,
    interruption: WriteResult,
)
    requires
        0 <= at <= results.len(),
        interruption.is_interruption(),
    ensures
        delivered(results.insert(at, interruption)) == delivered(results),
    decreases at,
{
    let longer = results.insert(at, interruption);
    if at == 0 {
        assert(longer.drop_first() =~= results);
    } else {
        assert(longer[0] == results[0]);
        assert(longer.drop_first() =~= results.drop_first().insert(at - 1, interruption));
        lemma_interrupted_write_changes_nothing(results.drop_first(), at - 1, interruption);
    }
}

} // verus!
