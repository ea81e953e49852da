use crate::error::Pipe;
use crate::error::RunError;
use crate::outcome::ExitStatus;
use crate::outcome::GatherOutputStatus;
use vstd::prelude::*;

verus! {

#[verifier::external_type_specification]
#[verifier::external_body]
pub struct ExChild(tokio::process::Child);

/// Relies on tokio's `Child::id`: the OS process id of the child while it has
/// not been reaped, `None` once it has.
pub assume_specification[ tokio::process::Child::id ](child: &tokio::process::Child) -> Option<
    u32,
>;

/// How sending a kill signal to a process group failed.
#[derive(Debug, Clone, Copy, PartialEq, Eq, Structural)]
pub enum GroupKillError {
    /// No process is left in the group: it already exited.
    NoSuchGroup,
    /// Any other failure, with the OS's errno.
    Other(i32),
}

/// Relies on nix's `killpg` with `SIGKILL`: sends the kill signal to every
/// process of group `pgid`. `ESRCH` (no process in the group) is told apart
/// from the other errnos.
#[verifier::external_body]
fn send_group_kill(pgid: i32) -> (r: Result<(), GroupKillError>)
    requires
        pgid > 1,
{
    match nix::sys::signal::killpg(nix::unistd::Pid::from_raw(pgid), nix::sys::signal::Signal::SIGKILL) {
        Ok(()) => Ok(()),
        Err(nix::errno::Errno::ESRCH) => Err(GroupKillError::NoSuchGroup),
        Err(errno) => Err(GroupKillError::Other(errno as i32)),
    }
}

/// The largest process id the signal API can name.
pub const MAX_SIGNAL_PID: u32 = 0x7fff_ffff;

/// The process group id the kill signal for process `pid` goes to: the pid
/// itself, where it fits the signal API's integer and names a group of its
/// own (0 and 1 stand for the caller's group and for init).
pub open spec fn group_id_of(pid: u32) -> Option<i32> {
    if 1 < pid && pid <= MAX_SIGNAL_PID {
        Some(pid as i32)
    } else {
        None
    }
}

/// Computes [`group_id_of`].
pub fn signal_group_id(pid: u32) -> (r: Option<i32>)
    ensures
        r == group_id_of(pid),
{
    if 1 < pid && pid <= MAX_SIGNAL_PID {
        Some(pid as i32)
    } else {
        None
    }
}

/// The result of a kill of the group led by `pid`, from what sending the
/// signal gave: a group that is already gone counts as killed; any other
/// failure names the pid and the errno.
pub fn termination_result(pid: u32, sent: Result<(), GroupKillError>) -> (r: Result<(), RunError>)
    ensures
        r == match sent {
            Ok(()) => Ok::<(), RunError>(()),
            Err(GroupKillError::NoSuchGroup) => Ok::<(), RunError>(()),
            Err(GroupKillError::Other(errno)) => Err::<(), RunError>(
                RunError::TerminationFailure { pid, errno },
            ),
        },
{
    match sent {
        Ok(()) => Ok(()),
        Err(GroupKillError::NoSuchGroup) => Ok(()),
        Err(GroupKillError::Other(errno)) => Err(RunError::TerminationFailure { pid, errno }),
    }
}

/// Kills the whole process group led by process `pid`.
///
/// A `pid` with no group id ([`group_id_of`]) is refused before any
/// signal is sent; otherwise the signal goes to group `pid`, and the kill
/// succeeds or fails with an error that names `pid`.
pub fn kill_process_group(pid: u32) -> (r: Result<(), RunError>)
    ensures
        group_id_of(pid) is None <==> r == Err::<(), RunError>(
            RunError::IdentifierOverflow { pid },
        ),
        group_id_of(pid) is Some ==> (r is Ok || (r->Err_0 matches RunError::TerminationFailure {
            pid: p,
            ..
        } && p == pid)),
{
    match signal_group_id(pid) {
        None => Err(RunError::IdentifierOverflow { pid }),
        Some(pgid) => termination_result(pid, send_group_kill(pgid)),
    }
}

/// Kills the process group of a child whose id is `id`. A child that was
/// already reaped has no id any more: there is nothing to kill, and that is
/// no error.
pub fn kill_process_id(id: Option<u32>) -> (r: Result<(), RunError>)
    ensures
        id is None ==> r == Ok::<(), RunError>(()),
        id matches Some(p) ==> (group_id_of(p) is None <==> r == Err::<(), RunError>(
            RunError::IdentifierOverflow { pid: p },
        )),
        id matches Some(p) ==> (group_id_of(p) is Some ==> (r is Ok || (
        r->Err_0 matches RunError::TerminationFailure { pid: q, .. } && q == p))),
{
    match id {
        Some(pid) => kill_process_group(pid),
        None => Ok(()),
    }
}

/// Kills the child's whole process group, by its current id.
pub fn kill_process(child: &tokio::process::Child) -> (r: Result<(), RunError>)
    ensures
        r is Err ==> (r->Err_0 is TerminationFailure || r->Err_0 is IdentifierOverflow),
{
    kill_process_id(child.id())
}

/// The outcome of a run whose cancellation fired with `outcome`, once the
/// child's process group was killed with result `killed`: the cancellation's
/// own outcome, or the kill's error.
pub fn finish_cancelled(outcome: GatherOutputStatus, killed: Result<(), RunError>) -> (r: Result<
    GatherOutputStatus,
    RunError,
>)
    ensures
        r == match killed {
            Ok(()) => Ok::<GatherOutputStatus, RunError>(outcome),
            Err(e) => Err::<GatherOutputStatus, RunError>(e),
        },
{
    match killed {
        Ok(()) => Ok(outcome),
        Err(e) => Err(e),
    }
}

/// Which side of the race between the child's exit and the cancellation
/// source finished first, with what it produced.
#[derive(Debug)]
pub enum RaceWinner {
    /// The child exited on its own (or waiting for it failed).
    Exited(Result<ExitStatus, RunError>),
    /// The cancellation source fired (or failed).
    Cancelled(Result<GatherOutputStatus, RunError>),
}

/// Settles the outcome of a run from the winner of the race.
///
/// A natural exit is reported as `Finished` and nothing is killed. When
/// cancellation wins, the child's process group is killed once, and the
/// cancellation's own outcome is reported (the killed child's exit code is
/// never looked at); a failed kill is reported instead.
pub fn resolve_status(child: &tokio::process::Child, winner: RaceWinner) -> (r: Result<
    GatherOutputStatus,
    RunError,
>)
    ensures
        match winner {
            RaceWinner::Exited(Ok(status)) => r == Ok::<GatherOutputStatus, RunError>(
                GatherOutputStatus::Finished(status),
            ),
            RaceWinner::Exited(Err(e)) => r == Err::<GatherOutputStatus, RunError>(e),
            RaceWinner::Cancelled(Err(e)) => r == Err::<GatherOutputStatus, RunError>(e),
            RaceWinner::Cancelled(Ok(outcome)) => {
                &&& r is Ok ==> r == Ok::<GatherOutputStatus, RunError>(outcome)
                &&& r is Err ==> (r->Err_0 is TerminationFailure || r->Err_0 is IdentifierOverflow)
            },
        },
{
    match winner {
        RaceWinner::Exited(Ok(status)) => Ok(GatherOutputStatus::Finished(status)),
        RaceWinner::Exited(Err(e)) => Err(e),
        RaceWinner::Cancelled(Err(e)) => Err(e),
        RaceWinner::Cancelled(Ok(outcome)) => finish_cancelled(outcome, kill_process(child)),
    }
}

/// Takes the child's two captured pipes; a pipe that was not captured is a
/// setup failure (stdout is checked first).
pub fn take_pipes<O, E>(stdout: Option<O>, stderr: Option<E>) -> (r: Result<(O, E), RunError>)
    ensures
        stdout is None ==> r == Err::<(O, E), RunError>(
            RunError::PipeSetupFailure { pipe: Pipe::Stdout },
        ),
        stdout is Some && stderr is None ==> r == Err::<(O, E), RunError>(
            RunError::PipeSetupFailure { pipe: Pipe::Stderr },
        ),
        stdout is Some && stderr is Some ==> r == Ok::<(O, E), RunError>(
            (stdout->Some_0, stderr->Some_0),
        ),
{
    match stdout {
        None => Err(RunError::PipeSetupFailure { pipe: Pipe::Stdout }),
        Some(out) => match stderr {
            None => Err(RunError::PipeSetupFailure { pipe: Pipe::Stderr }),
            Some(err) => Ok((out, err)),
        },
    }
}

} // verus!
