use crate::error::RunError;
use crate::outcome::CommandEvent;
use crate::outcome::GatherOutputStatus;
use vstd::prelude::*;

verus! {

/// The aggregated result of a run: its outcome, then all of stdout and all of
/// stderr, each in arrival order.
pub type GatheredOutput = (GatherOutputStatus, Vec<u8>, Vec<u8>);

/// The abstract value of a gathered result.
pub open spec fn gathered_view(
    r: Result<GatheredOutput, RunError>,
) -> Result<(GatherOutputStatus, Seq<u8>, Seq<u8>), RunError> {
    match r {
        Ok((status, out, err)) => Ok((status, out@, err@)),
        Err(e) => Err(e),
    }
}

/// What draining `events` yields, given the bytes `out` and `err` already
/// gathered: the first error, or the first exit event with everything
/// gathered before it, or a protocol violation where neither comes.
pub open spec fn drain_from(
    events: Seq<Result<CommandEvent, RunError>>,
    out: Seq<u8>,
    err: Seq<u8>,
) -> Result<(GatherOutputStatus, Seq<u8>, Seq<u8>), RunError>
    decreases events.len(),
{
    if events.len() == 0 {
        Err(RunError::ProtocolViolation)
    } else {
        match events[0] {
            Err(e) => Err(e),
            Ok(CommandEvent::Stdout(bytes)) => drain_from(events.drop_first(), out + bytes@, err),
            Ok(CommandEvent::Stderr(bytes)) => drain_from(events.drop_first(), out, err + bytes@),
            Ok(CommandEvent::Exit(status)) => Ok((status, out, err)),
        }
    }
}

/// What draining a whole event stream yields.
pub open spec fn drain(
    events: Seq<Result<CommandEvent, RunError>>,
) -> Result<(GatherOutputStatus, Seq<u8>, Seq<u8>), RunError> {
    drain_from(events, Seq::empty(), Seq::empty())
}

/// All stdout bytes carried by `events`, concatenated in order.
pub open spec fn stdout_bytes(events: Seq<CommandEvent>) -> Seq<u8>
    decreases events.len(),
{
    if events.len() == 0 {
        Seq::empty()
    } else {
        let head = match events[0] {
            CommandEvent::Stdout(bytes) => bytes@,
            _ => Seq::empty(),
        };
        head + stdout_bytes(events.drop_first())
    }
}

/// All stderr bytes carried by `events`, concatenated in order.
pub open spec fn stderr_bytes(events: Seq<CommandEvent>) -> Seq<u8>
    decreases events.len(),
{
    if events.len() == 0 {
        Seq::empty()
    } else {
        let head = match events[0] {
            CommandEvent::Stderr(bytes) => bytes@,
            _ => Seq::empty(),
        };
        head + stderr_bytes(events.drop_first())
    }
}

/// A complete, error-free event stream: chunks, then exactly one exit event,
/// which comes last.
pub open spec fn is_complete_stream(events: Seq<CommandEvent>) -> bool {
    &&& events.len() > 0
    &&& events.last() is Exit
    &&& forall|i: int| 0 <= i < events.len() - 1 ==> !(#[trigger] events[i] is Exit)
}

/// The items of an error-free stream.
pub open spec fn as_items(events: Seq<CommandEvent>) -> Seq<Result<CommandEvent, RunError>> {
    events.map_values(|e: CommandEvent| Ok::<CommandEvent, RunError>(e))
}

proof fn lemma_drain_complete(events: Seq<CommandEvent>, out: Seq<u8>, err: Seq<u8>)
    requires
        is_complete_stream(events),
    ensures
        drain_from(as_items(events), out, err) == Ok::<
            (GatherOutputStatus, Seq<u8>, Seq<u8>),
            RunError,
        >((events.last()->Exit_0, out + stdout_bytes(events), err + stderr_bytes(events))),
    decreases events.len(),
{
    let items = as_items(events);
    let rest = events.drop_first();
    assert(items.drop_first() =~= as_items(rest));
    if events.len() == 1 {
        assert(events[0] is Exit);
        assert(stdout_bytes(rest) =~= Seq::<u8>::empty());
        assert(stderr_bytes(rest) =~= Seq::<u8>::empty());
        assert(out + stdout_bytes(events) =~= out);
        assert(err + stderr_bytes(events) =~= err);
    } else {
        assert(!(events[0] is Exit));
        assert(is_complete_stream(rest)) by {
            assert forall|i: int| 0 <= i < rest.len() - 1 implies !(#[trigger] rest[i] is Exit) by {
                assert(rest[i] == events[i + 1]);
            }
        }
        match events[0] {
            CommandEvent::Stdout(bytes) => {
                lemma_drain_complete(rest, out + bytes@, err);
                assert(out + bytes@ + stdout_bytes(rest) =~= out + stdout_bytes(events));
                assert(err + stderr_bytes(rest) =~= err + stderr_bytes(events));
            },
            CommandEvent::Stderr(bytes) => {
                lemma_drain_complete(rest, out, err + bytes@);
                assert(out + stdout_bytes(rest) =~= out + stdout_bytes(events));
                assert(err + bytes@ + stderr_bytes(rest) =~= err + stderr_bytes(events));
            },
            CommandEvent::Exit(_) => {},
        }
    }
}

/// Draining a complete stream through the aggregator gives the outcome of its
/// exit event and, per pipe, exactly the concatenation of the chunks that a
/// consumer of the live stream sees.
pub proof fn law_gather_matches_concatenation(events: Seq<CommandEvent>)
    requires
        is_complete_stream(events),
    ensures
        drain(as_items(events)) == Ok::<(GatherOutputStatus, Seq<u8>, Seq<u8>), RunError>(
            (events.last()->Exit_0, stdout_bytes(events), stderr_bytes(events)),
        ),
{
    lemma_drain_complete(events, Seq::empty(), Seq::empty());
    assert(Seq::<u8>::empty() + stdout_bytes(events) =~= stdout_bytes(events));
    assert(Seq::<u8>::empty() + stderr_bytes(events) =~= stderr_bytes(events));
}

/// Gathers a run's event stream one item at a time.
pub struct Aggregator {
    stdout: Vec<u8>,
    stderr: Vec<u8>,
}

/// What feeding one item to an [`Aggregator`] leaves.
pub enum Fed {
    /// The stream goes on: keep feeding.
    More(Aggregator),
    /// The stream's result is known: stop reading it.
    Finished(Result<GatheredOutput, RunError>),
}

impl View for Aggregator {
    type V = (Seq<u8>, Seq<u8>);

    closed spec fn view(&self) -> (Seq<u8>, Seq<u8>) {
        (self.stdout@, self.stderr@)
    }
}

impl Aggregator {
    pub fn new() -> (r: Aggregator)
        ensures
            r@ == (Seq::<u8>::empty(), Seq::<u8>::empty()),
    {
        Aggregator { stdout: Vec::new(), stderr: Vec::new() }
    }

    /// Feeds the next item of the stream: a chunk is appended to the bytes of
    /// its pipe, an error or the exit event finishes the result.
    pub fn feed(self, item: Result<CommandEvent, RunError>) -> (r: Fed)
        ensures
            match item {
                Err(e) => r is Finished && gathered_view(r->Finished_0) == Err::<
                    (GatherOutputStatus, Seq<u8>, Seq<u8>),
                    RunError,
                >(e),
                Ok(CommandEvent::Stdout(bytes)) => r is More && r->More_0@ == (
                    self@.0 + bytes@,
                    self@.1,
                ),
                Ok(CommandEvent::Stderr(bytes)) => r is More && r->More_0@ == (
                    self@.0,
                    self@.1 + bytes@,
                ),
                Ok(CommandEvent::Exit(status)) => r is Finished && gathered_view(r->Finished_0)
                    == Ok::<(GatherOutputStatus, Seq<u8>, Seq<u8>), RunError>(
                    (status, self@.0, self@.1),
                ),
            },
    {
        let Aggregator { mut stdout, mut stderr } = self;
        match item {
            Err(e) => Fed::Finished(Err(e)),
            Ok(CommandEvent::Stdout(bytes)) => {
                let mut bytes = bytes;
                stdout.append(&mut bytes);
                Fed::More(Aggregator { stdout, stderr })
            },
            Ok(CommandEvent::Stderr(bytes)) => {
                let mut bytes = bytes;
                stderr.append(&mut bytes);
                Fed::More(Aggregator { stdout, stderr })
            },
            Ok(CommandEvent::Exit(status)) => Fed::Finished(Ok((status, stdout, stderr))),
        }
    }

    /// The stream ended before its exit event: a protocol violation, never a
    /// partial result.
    pub fn end_of_stream(self) -> (r: Result<GatheredOutput, RunError>)
        ensures
            r == Err::<GatheredOutput, RunError>(RunError::ProtocolViolation),
    {
        Err(RunError::ProtocolViolation)
    }
}

/// Drains a complete event stream into its result: the outcome of the exit
/// event, with the stdout and stderr bytes that came before it; the first
/// error of the stream; or a protocol violation where no exit event comes.
pub fn decode_command_events(events: Vec<Result<CommandEvent, RunError>>) -> (r: Result<
    GatheredOutput,
    RunError,
>)
    ensures
        gathered_view(r) == drain(events@),
{
    let ghost all = events@;
    let mut agg = Aggregator::new();
    proof {
        assert(all.skip(0) =~= all);
    }
    for item in it: events.into_iter()
        invariant
            it.seq() == all,
            drain(all) == drain_from(all.skip(it.index() as int), agg@.0, agg@.1),
    {
        let ghost rest = all.skip(it.index() as int);
        proof {
            assert(rest.drop_first() =~= all.skip(it.index() + 1));
        }
        match agg.feed(item) {
            Fed::More(next) => {
                agg = next;
            },
            Fed::Finished(r) => {
                return r;
            },
        }
    }
    proof {
        assert(all.skip(all.len() as int) =~= Seq::<Result<CommandEvent, RunError>>::empty());
    }
    agg.end_of_stream()
}

} // verus!
