use std::time::Duration;
use vstd::prelude::*;

verus! {

/// How a child process exited on its own: its exit code, or `None` where the
/// platform reports no code (the process was ended by a signal).
#[derive(Debug, Clone, Copy, PartialEq, Eq, Structural)]
pub struct ExitStatus {
    pub code: Option<i32>,
}

impl ExitStatus {
    pub fn from_code(code: Option<i32>) -> (r: ExitStatus)
        ensures
            r.code == code,
    {
        ExitStatus { code }
    }

    pub fn code(&self) -> (r: Option<i32>)
        ensures
            r == self.code,
    {
        self.code
    }

    pub fn success(&self) -> (r: bool)
        ensures
            r == (self.code == Some(0i32)),
    {
        match self.code {
            Some(c) => c == 0,
            None => false,
        }
    }
}

/// The terminal disposition of one run; exactly one is produced per run.
#[derive(Debug, Clone, Copy)]
pub enum GatherOutputStatus {
    Finished(ExitStatus),
    TimedOut(Duration),
    Cancelled,
}

/// What a cancellation source built from an optional deadline does: with a
/// deadline `t`, it waits `t` and then resolves to `TimedOut(t)`, the
/// configured deadline itself; without one, it never resolves (`None`).
pub fn timeout_plan(timeout: Option<Duration>) -> (r: Option<(Duration, GatherOutputStatus)>)
    ensures
        match timeout {
            None => r is None,
            Some(t) => r == Some((t, GatherOutputStatus::TimedOut(t))),
        },
{
    match timeout {
        Some(t) => Some((t, GatherOutputStatus::TimedOut(t))),
        None => None,
    }
}

/// One unit of the merged event stream of a run.
#[derive(Debug, Clone)]
pub enum CommandEvent {
    Stdout(Vec<u8>),
    Stderr(Vec<u8>),
    Exit(GatherOutputStatus),
}

/// A chunk read from one of the child's two output pipes.
#[derive(Debug, Clone)]
pub enum StdioEvent {
    Stdout(Vec<u8>),
    Stderr(Vec<u8>),
}

/// The stream event that carries a given chunk.
pub open spec fn stdio_to_command(stdio: StdioEvent) -> CommandEvent {
    match stdio {
        StdioEvent::Stdout(bytes) => CommandEvent::Stdout(bytes),
        StdioEvent::Stderr(bytes) => CommandEvent::Stderr(bytes),
    }
}

impl From<StdioEvent> for CommandEvent {
    fn from(stdio: StdioEvent) -> (r: CommandEvent) {
        match stdio {
            StdioEvent::Stdout(bytes) => CommandEvent::Stdout(bytes),
            StdioEvent::Stderr(bytes) => CommandEvent::Stderr(bytes),
        }
    }
}

impl vstd::std_specs::convert::FromSpecImpl<StdioEvent> for CommandEvent {
    open spec fn obeys_from_spec() -> bool {
        true
    }

    open spec fn from_spec(stdio: StdioEvent) -> CommandEvent {
        stdio_to_command(stdio)
    }
}

} // verus!
