use vstd::prelude::*;

verus! {

/// A wall-clock time as seconds and nanoseconds since the Unix epoch.
#[derive(Debug, Clone, Copy, PartialEq, Eq, Structural)]
pub struct EventTime {
    pub seconds: i64,
    pub nanos: u32,
}

/// The time in nanoseconds since the epoch.
pub open spec fn time_nanos(t: EventTime) -> int {
    t.seconds * 1_000_000_000 + t.nanos
}

/// The event's time was earlier than the first event's, by `nanos`.
#[derive(Debug, Clone, Copy, PartialEq, Eq, Structural)]
pub struct ClockWentBack {
    pub nanos: u128,
}

fn to_nanos(t: EventTime) -> (r: i128)
    ensures
        r == time_nanos(t),
{
    t.seconds as i128 * 1_000_000_000 + t.nanos as i128
}

/// Whether a replay that shows what was open `after_millis` milliseconds into
/// the log stops at an event at time `event`, the log's first event having
/// come at `first`: it stops once strictly more time than that has passed. An
/// event earlier than the first one is an error.
pub fn should_stop_reading(after_millis: u64, event: EventTime, first: EventTime) -> (r: Result<
    bool,
    ClockWentBack,
>)
    ensures
        time_nanos(event) < time_nanos(first) ==> r == Err::<bool, ClockWentBack>(
            ClockWentBack { nanos: (time_nanos(first) - time_nanos(event)) as u128 },
        ),
        time_nanos(event) >= time_nanos(first) ==> r == Ok::<bool, ClockWentBack>(
            time_nanos(event) - time_nanos(first) > after_millis * 1_000_000,
        ),
{
    let e = to_nanos(event);
    let f = to_nanos(first);
    if e < f {
        return Err(ClockWentBack { nanos: (f - e) as u128 });
    }
    let elapsed = e - f;
    Ok(elapsed > after_millis as i128 * 1_000_000)
}

/// The cutoff of a replay: the time of the log's first event, once seen, and
/// how long after it to stop, if at all.
#[derive(Debug, Clone, Copy, PartialEq, Eq, Structural)]
pub struct ReplayCutoff {
    pub after_millis: Option<u64>,
    pub first: Option<EventTime>,
}

impl ReplayCutoff {
    pub fn new(after_millis: Option<u64>) -> (r: ReplayCutoff)
        ensures
            r.after_millis == after_millis,
            r.first is None,
    {
        ReplayCutoff { after_millis, first: None }
    }

    /// Takes the next event's time and says whether the replay stops before
    /// it. The first event seen becomes the reference; without a cutoff the
    /// replay never stops.
    pub fn observe(&mut self, event: EventTime) -> (r: Result<bool, ClockWentBack>)
        ensures
            final(self).after_millis == old(self).after_millis,
            final(self).first == Some(
                match old(self).first {
                    Some(f) => f,
                    None => event,
                },
            ),
            match old(self).after_millis {
                None => r == Ok::<bool, ClockWentBack>(false),
                Some(after) => {
                    let first = final(self).first->Some_0;
                    &&& time_nanos(event) < time_nanos(first) ==> r == Err::<bool, ClockWentBack>(
                        ClockWentBack { nanos: (time_nanos(first) - time_nanos(event)) as u128 },
                    )
                    &&& time_nanos(event) >= time_nanos(first) ==> r == Ok::<bool, ClockWentBack>(
                        time_nanos(event) - time_nanos(first) > after * 1_000_000,
                    )
                },
            },
    {
        let first = match self.first {
            Some(f) => f,
            None => event,
        };
        self.first = Some(first);
        match self.after_millis {
            None => Ok(false),
            Some(after) => should_stop_reading(after, event, first),
        }
    }
}

} // verus!
