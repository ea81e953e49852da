use vstd::prelude::*;

verus! {

/// How many times a spawn refused because the executable was busy is retried.
pub const SPAWN_RETRIES: u32 = 10;

/// How one attempt to spawn the command came out.
#[derive(Debug, Clone, Copy, PartialEq, Eq, Structural)]
pub enum SpawnAttempt {
    Spawned,
    /// The OS refused because the executable is busy (`ETXTBSY`): it is still
    /// open for writing somewhere.
    Busy,
    /// The OS refused for any other reason (a missing executable, say).
    Failed,
}

/// What to do after an attempt.
#[derive(Debug, Clone, Copy, PartialEq, Eq, Structural)]
pub enum SpawnDecision {
    /// Hand this attempt's result to the caller.
    Return,
    /// Wait for the retry delay, then spawn again.
    RetryAfterDelay,
}

/// The retry policy for spawning: a spawn refused because the executable is
/// busy is retried while retries are left; any other result is final.
///
/// The busy condition is a short race in a process that forks a lot: another
/// forked child briefly holds open for writing the file we are about to
/// execute, until it execs in turn and its descriptors close.
#[derive(Debug, Clone, Copy, PartialEq, Eq, Structural)]
pub struct SpawnRetry {
    pub retries_left: u32,
}

/// Whether policy `p` retries after `attempt`.
pub open spec fn retries_after(p: SpawnRetry, attempt: SpawnAttempt) -> bool {
    p.retries_left > 0 && attempt == SpawnAttempt::Busy
}

/// The number of spawns made under policy `p` when the attempts come out as
/// `attempts`, in order; the last one made is the one returned.
pub open spec fn attempts_made(p: SpawnRetry, attempts: Seq<SpawnAttempt>) -> nat
    decreases attempts.len(),
{
    if attempts.len() == 0 {
        0
    } else if retries_after(p, attempts[0]) {
        1 + attempts_made(
            SpawnRetry { retries_left: (p.retries_left - 1) as u32 },
            attempts.drop_first(),
        )
    } else {
        1
    }
}

impl SpawnRetry {
    /// The policy of a fresh spawn: [`SPAWN_RETRIES`] retries.
    pub fn new() -> (r: SpawnRetry)
        ensures
            r.retries_left == SPAWN_RETRIES,
    {
        SpawnRetry { retries_left: SPAWN_RETRIES }
    }

    /// Decides what follows an attempt, and spends one retry on a retry.
    pub fn decide(&mut self, attempt: SpawnAttempt) -> (d: SpawnDecision)
        ensures
            d == SpawnDecision::RetryAfterDelay <==> retries_after(*old(self), attempt),
            d == SpawnDecision::RetryAfterDelay ==> final(self).retries_left == old(
                self,
            ).retries_left - 1,
            d == SpawnDecision::Return ==> *final(self) == *old(self),
    {
        let busy = match attempt {
            SpawnAttempt::Busy => true,
            _ => false,
        };
        if self.retries_left > 0 && busy {
            self.retries_left = self.retries_left - 1;
            SpawnDecision::RetryAfterDelay
        } else {
            SpawnDecision::Return
        }
    }
}

/// A spawn that keeps failing because the executable is busy succeeds once
/// the condition clears within the retry budget: after `k` busy failures,
/// `k` no more than the retries left, the next attempt is made and its result
/// is returned, whatever it is. With `k` zero, a spawn that fails for any
/// other reason (a missing executable) is returned at once, with no delay.
pub proof fn law_busy_spawn_recovers(p: SpawnRetry, attempts: Seq<SpawnAttempt>, k: int)
    requires
        0 <= k <= p.retries_left,
        k < attempts.len(),
        forall|i: int| 0 <= i < k ==> attempts[i] == SpawnAttempt::Busy,
        attempts[k] != SpawnAttempt::Busy,
    ensures
        attempts_made(p, attempts) == k + 1,
    decreases k,
{
    if k > 0 {
        let next = SpawnRetry { retries_left: (p.retries_left - 1) as u32 };
        let rest = attempts.drop_first();
        assert forall|i: int| 0 <= i < k - 1 implies rest[i] == SpawnAttempt::Busy by {
            assert(rest[i] == attempts[i + 1]);
        }
        assert(rest[k - 1] == attempts[k]);
        law_busy_spawn_recovers(next, rest, k - 1);
    }
}

/// However the attempts come out, no more spawns are made than the first
/// one plus the retries.
pub proof fn law_spawns_bounded(p: SpawnRetry, attempts: Seq<SpawnAttempt>)
    ensures
        attempts_made(p, attempts) <= p.retries_left + 1,
    decreases attempts.len(),
{
    if attempts.len() > 0 && retries_after(p, attempts[0]) {
        law_spawns_bounded(
            SpawnRetry { retries_left: (p.retries_left - 1) as u32 },
            attempts.drop_first(),
        );
    }
}

} // verus!
