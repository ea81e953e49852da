//! Subprocess execution core: the decisions behind spawning a command with
//! retries, merging its output into one ordered event stream, terminating its
//! process group, and draining the stream into a single result.
//!
//! The asynchronous plumbing (polling pipes, awaiting the child) lives with the
//! caller; every decision it takes comes from the verified functions here.

pub mod aggregate;
pub mod child;
pub mod error;
pub mod merge;
pub mod outcome;
pub mod replay;
pub mod scribe;
pub mod spawn;

pub use aggregate::Aggregator;
pub use aggregate::Fed;
pub use aggregate::GatheredOutput;
pub use aggregate::decode_command_events;

pub use child::GroupKillError;
pub use child::RaceWinner;
pub use child::finish_cancelled;
pub use child::kill_process;
pub use child::kill_process_group;
pub use child::kill_process_id;
pub use child::signal_group_id;
pub use child::termination_result;
pub use child::resolve_status;
pub use child::take_pipes;

pub use error::Pipe;
pub use error::RunError;

pub use merge::EventMerger;
pub use merge::MergePoll;
pub use merge::StdioPoll;

pub use outcome::CommandEvent;
pub use outcome::ExitStatus;
pub use outcome::GatherOutputStatus;
pub use outcome::StdioEvent;
pub use outcome::timeout_plan;

pub use replay::ClockWentBack;
pub use replay::EventTime;
pub use replay::ReplayCutoff;
pub use replay::should_stop_reading;

pub use scribe::EventLoggingData;
pub use scribe::ScribeSwitch;
pub use scribe::disable;
pub use scribe::is_enabled;
pub use scribe::scribe_category;

pub use spawn::SpawnAttempt;
pub use spawn::SpawnDecision;
pub use spawn::SpawnRetry;
