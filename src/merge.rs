use crate::error::RunError;
use crate::outcome::CommandEvent;
use crate::outcome::GatherOutputStatus;
use crate::outcome::StdioEvent;
use crate::outcome::stdio_to_command;
use vstd::prelude::*;

verus! {

/// What one poll of the merged stdio source produced.
#[derive(Debug)]
pub enum StdioPoll {
    /// A chunk from stdout or stderr, or a read error.
    Item(Result<StdioEvent, RunError>),
    /// Both pipes are closed (or were interrupted) and nothing is left.
    Exhausted,
    /// Nothing is available yet.
    Pending,
}

/// What one step of the merger hands to the consumer of the event stream.
#[derive(Debug)]
pub enum MergePoll {
    /// The next item of the stream.
    Ready(Result<CommandEvent, RunError>),
    /// The stream is over: it yields nothing more.
    End,
    /// Nothing is available yet.
    Pending,
}

/// The abstract state of an [`EventMerger`].
#[derive(Clone, Copy)]
pub struct MergeState {
    /// The outcome of the status source, once it completed and until it is emitted.
    pub exit: Option<Result<GatherOutputStatus, RunError>>,
    /// The terminal item has been emitted.
    pub done: bool,
    /// The status source completed; it is never polled again.
    pub status_finished: bool,
    /// The stdio source is exhausted; it is never polled again.
    pub stdio_finished: bool,
}

pub open spec fn initial_merge_state() -> MergeState {
    MergeState { exit: None, done: false, status_finished: false, stdio_finished: false }
}

/// The stream item that carries a stdio item.
pub open spec fn stdio_item(item: Result<StdioEvent, RunError>) -> Result<CommandEvent, RunError> {
    match item {
        Ok(ev) => Ok(stdio_to_command(ev)),
        Err(e) => Err(e),
    }
}

/// The terminal stream item that carries the outcome of the status source.
pub open spec fn exit_item(exit: Result<GatherOutputStatus, RunError>) -> Result<CommandEvent, RunError> {
    match exit {
        Ok(status) => Ok(CommandEvent::Exit(status)),
        Err(e) => Err(e),
    }
}

/// The state after the status source completed with `status`. A source that
/// already completed is fused: a second outcome is ignored, as is any outcome
/// once the stream is done.
pub open spec fn after_status(s: MergeState, status: Result<GatherOutputStatus, RunError>) -> MergeState {
    if s.done || s.status_finished {
        s
    } else {
        MergeState { exit: Some(status), status_finished: true, ..s }
    }
}

/// The state and the result after the stdio source was polled with result
/// `stdio`. A chunk is emitted at once; the terminal item only once stdio is
/// exhausted and the status source has completed.
pub open spec fn after_stdio(s: MergeState, stdio: StdioPoll) -> (MergeState, MergePoll) {
    if s.done {
        (s, MergePoll::End)
    } else if !s.stdio_finished && stdio is Item {
        (s, MergePoll::Ready(stdio_item(stdio->Item_0)))
    } else if !s.stdio_finished && stdio is Pending {
        (s, MergePoll::Pending)
    } else {
        match s.exit {
            Some(exit) => (
                MergeState { exit: None, done: true, stdio_finished: true, ..s },
                MergePoll::Ready(exit_item(exit)),
            ),
            None => (MergeState { stdio_finished: true, ..s }, MergePoll::Pending),
        }
    }
}

/// One poll of the merged stream: the outcome of the status source where it
/// completed during this poll, and what the stdio source gave.
pub type MergeRound = (Option<Result<GatherOutputStatus, RunError>>, StdioPoll);

/// The state and the result of one poll of the merged stream.
pub open spec fn merge_round(s: MergeState, round: MergeRound) -> (MergeState, MergePoll) {
    let s1 = match round.0 {
        Some(status) => after_status(s, status),
        None => s,
    };
    after_stdio(s1, round.1)
}

/// The results of a sequence of polls of the merged stream, starting in `s`.
pub open spec fn merge_run(s: MergeState, rounds: Seq<MergeRound>) -> Seq<MergePoll>
    decreases rounds.len(),
{
    if rounds.len() == 0 {
        Seq::empty()
    } else {
        let (s1, out) = merge_round(s, rounds[0]);
        seq![out] + merge_run(s1, rounds.drop_first())
    }
}

/// The stream item is an exit event.
pub open spec fn is_exit_poll(p: MergePoll) -> bool {
    &&& p is Ready
    &&& p->Ready_0 is Ok
    &&& p->Ready_0->Ok_0 is Exit
}

proof fn lemma_run_len(s: MergeState, rounds: Seq<MergeRound>)
    ensures
        merge_run(s, rounds).len() == rounds.len(),
    decreases rounds.len(),
{
    if rounds.len() > 0 {
        let (s1, out0) = merge_round(s, rounds[0]);
        lemma_run_len(s1, rounds.drop_first());
    }
}

proof fn lemma_done_stays_ended(s: MergeState, rounds: Seq<MergeRound>)
    requires
        s.done,
    ensures
        forall|k: int| 0 <= k < rounds.len() ==> merge_run(s, rounds)[k] == MergePoll::End,
    decreases rounds.len(),
{
    if rounds.len() > 0 {
        lemma_done_stays_ended(s, rounds.drop_first());
        lemma_run_len(s, rounds.drop_first());
        let out = merge_run(s, rounds);
        let rest = merge_run(s, rounds.drop_first());
        assert(out == seq![MergePoll::End] + rest);
        assert forall|k: int| 0 <= k < rounds.len() implies out[k] == MergePoll::End by {
            if k > 0 {
                assert(out[k] == rest[k - 1]);
            }
        }
    }
}

/// Once the stream has yielded its exit event, every later poll reports the
/// end of the stream: the exit event is the last item, and it comes at most
/// once, whatever the sources do afterwards.
pub proof fn law_exit_is_last(s: MergeState, rounds: Seq<MergeRound>, i: int, j: int)
    requires
        0 <= i < j < rounds.len(),
        is_exit_poll(merge_run(s, rounds)[i]),
    ensures
        merge_run(s, rounds)[j] == MergePoll::End,
    decreases rounds.len(),
{
    let (s1, out0) = merge_round(s, rounds[0]);
    let rest = merge_run(s1, rounds.drop_first());
    lemma_run_len(s1, rounds.drop_first());
    assert(merge_run(s, rounds) == seq![out0] + rest);
    if i == 0 {
        lemma_done_stays_ended(s1, rounds.drop_first());
        assert(merge_run(s, rounds)[j] == rest[j - 1]);
    } else {
        assert(merge_run(s, rounds)[i] == rest[i - 1]);
        law_exit_is_last(s1, rounds.drop_first(), i - 1, j - 1);
        assert(merge_run(s, rounds)[j] == rest[j - 1]);
    }
}

/// The exit item comes as soon as both sources are finished: when the status
/// source completes during a poll that also finds stdio exhausted, that poll
/// yields the terminal item carrying the status outcome and ends the stream.
/// With `law_exit_is_last`, the terminal item comes exactly once.
pub proof fn law_exit_follows_completion(s: MergeState, status: Result<GatherOutputStatus, RunError>)
    requires
        !s.done,
        !s.status_finished,
    ensures
        merge_round(s, (Some(status), StdioPoll::Exhausted)) == (
            MergeState { exit: None, done: true, status_finished: true, stdio_finished: true },
            MergePoll::Ready(exit_item(status)),
        ),
{
}

/// The decision core of the merged event stream of one run.
///
/// The caller owns two sources: the status source (the child's exit raced
/// against cancellation) and the merged stdio source. On every poll of the
/// stream it polls the status source while [`EventMerger::wants_status`] holds
/// and hands a completed outcome to [`EventMerger::record_status`]; then it
/// polls the stdio source while [`EventMerger::wants_stdio`] holds and hands
/// the result to [`EventMerger::poll_stdio`], whose answer is the stream's.
pub struct EventMerger {
    exit: Option<Result<GatherOutputStatus, RunError>>,
    done: bool,
    status_finished: bool,
    stdio_finished: bool,
}

impl View for EventMerger {
    type V = MergeState;

    closed spec fn view(&self) -> MergeState {
        MergeState {
            exit: self.exit,
            done: self.done,
            status_finished: self.status_finished,
            stdio_finished: self.stdio_finished,
        }
    }
}

impl EventMerger {
    pub fn new() -> (r: EventMerger)
        ensures
            r@ == initial_merge_state(),
    {
        EventMerger { exit: None, done: false, status_finished: false, stdio_finished: false }
    }

    /// Whether the status source is still to be polled.
    pub fn wants_status(&self) -> (r: bool)
        ensures
            r == (!self@.done && !self@.status_finished),
    {
        !self.done && !self.status_finished
    }

    /// Whether the stdio source is still to be polled.
    pub fn wants_stdio(&self) -> (r: bool)
        ensures
            r == (!self@.done && !self@.stdio_finished),
    {
        !self.done && !self.stdio_finished
    }

    /// Whether the terminal item has been emitted.
    pub fn is_done(&self) -> (r: bool)
        ensures
            r == self@.done,
    {
        self.done
    }

    /// Records the outcome of the status source. Returns true when the outcome
    /// was taken: the run is ending, and the caller must now tell both stdio
    /// readers to stop waiting for more data.
    pub fn record_status(&mut self, status: Result<GatherOutputStatus, RunError>) -> (interrupt: bool)
        ensures
            final(self)@ == after_status(old(self)@, status),
            interrupt == (!old(self)@.done && !old(self)@.status_finished),
    {
        if self.done || self.status_finished {
            false
        } else {
            self.exit = Some(status);
            self.status_finished = true;
            true
        }
    }

    /// Takes the result of polling the stdio source (or `Exhausted` where
    /// [`EventMerger::wants_stdio`] was false) and decides the stream's answer.
    pub fn poll_stdio(&mut self, stdio: StdioPoll) -> (r: MergePoll)
        ensures
            (final(self)@, r) == after_stdio(old(self)@, stdio),
    {
        if self.done {
            return MergePoll::End;
        }
        if !self.stdio_finished {
            match stdio {
                StdioPoll::Item(item) => {
                    let ev = match item {
                        Ok(ev) => Ok(CommandEvent::from(ev)),
                        Err(e) => Err(e),
                    };
                    return MergePoll::Ready(ev);
                },
                StdioPoll::Pending => {
                    return MergePoll::Pending;
                },
                StdioPoll::Exhausted => {},
            }
        }
        self.stdio_finished = true;
        match self.exit.take() {
            Some(exit) => {
                self.done = true;
                let ev = match exit {
                    Ok(status) => Ok(CommandEvent::Exit(status)),
                    Err(e) => Err(e),
                };
                MergePoll::Ready(ev)
            },
            None => MergePoll::Pending,
        }
    }
}

} // verus!
