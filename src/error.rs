use vstd::prelude::*;

verus! {

/// One of the child's two output pipes.
#[derive(Debug, Clone, Copy, PartialEq, Eq, Structural)]
pub enum Pipe {
    Stdout,
    Stderr,
}

/// Everything that can go wrong while running a command.
///
/// `os_code` fields carry the raw OS error number where the platform gave one.
#[derive(Debug, Clone, Copy, PartialEq, Eq, Structural)]
pub enum RunError {
    /// The OS refused to create the process (after any retries).
    SpawnFailure { os_code: Option<i32> },
    /// The named pipe was not set up to be captured.
    PipeSetupFailure { pipe: Pipe },
    /// Reading from the named pipe failed.
    ReadFailure { pipe: Pipe, os_code: Option<i32> },
    /// Waiting for the child's exit failed.
    WaitFailure { os_code: Option<i32> },
    /// The cancellation source itself failed.
    CancellationFailure,
    /// Sending the kill signal to a live process group failed.
    TerminationFailure { pid: u32, errno: i32 },
    /// The process id cannot name a process group for the signal API: it
    /// does not fit the API's integer width, or it is 0 or 1 (the caller's
    /// own group, and init).
    IdentifierOverflow { pid: u32 },
    /// The event stream ended without an exit event.
    ProtocolViolation,
}

} // verus!
