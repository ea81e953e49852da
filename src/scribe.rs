use vstd::prelude::*;

verus! {

/// Whether this process forwards events to Scribe. Logging is on until it is
/// explicitly disabled, and once disabled it stays off.
#[derive(Debug, Clone, Copy, PartialEq, Eq, Structural)]
pub struct ScribeSwitch {
    pub enabled: bool,
}

impl ScribeSwitch {
    /// The state at process start: enabled.
    pub fn new() -> (r: ScribeSwitch)
        ensures
            r.enabled,
    {
        ScribeSwitch { enabled: true }
    }
}

/// Whether this process should actually write to Scribe.
pub fn is_enabled(switch: &ScribeSwitch) -> (r: bool)
    ensures
        r == switch.enabled,
{
    switch.enabled
}

/// Disables Scribe logging for this process.
pub fn disable(switch: &mut ScribeSwitch)
    ensures
        !final(switch).enabled,
{
    switch.enabled = false;
}

/// The Scribe category used where none is configured.
pub const DEFAULT_SCRIBE_CATEGORY: &'static str = "buck2_events";

/// The Scribe category events go to: the configured one, else the default.
pub fn scribe_category(configured: Option<String>) -> (r: String)
    ensures
        r@ == match configured {
            Some(c) => c@,
            None => DEFAULT_SCRIBE_CATEGORY@,
        },
{
    match configured {
        Some(c) => c,
        None => DEFAULT_SCRIBE_CATEGORY.to_owned(),
    }
}

/// Configuration of event logging.
#[derive(Debug, Clone, Copy, PartialEq, Eq, Structural)]
pub struct EventLoggingData {
    /// The size of the queue for in-flight messages.
    pub buffer_size: usize,
}

} // verus!
