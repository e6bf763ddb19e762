//! Opt-in diagnostic lines.
use vstd::prelude::*;

verus! {

/// The marker that starts every diagnostic line.
pub const DEBUG_MARKER: &'static str = "[CONFIG DEBUG]: ";

/// A diagnostic sink that is switched on or off once, when it is made.
#[derive(Clone, Copy, Debug, PartialEq, Eq, Structural)]
pub struct DebugLog {
    pub enabled: bool,
}

impl DebugLog {
    pub fn new(enabled: bool) -> (r: DebugLog)
        ensures
            r.enabled == enabled,
    {
        DebugLog { enabled }
    }

    /// The line to emit for `message`: the marker then the message when the
    /// sink is on, nothing when it is off.
    pub fn line(&self, message: &str) -> (r: Option<String>)
        ensures
            match r {
                Some(l) => self.enabled && l@ == DEBUG_MARKER@ + message@,
                None => !self.enabled,
            },
    {
        if self.enabled {
            let mut l = String::from_str(DEBUG_MARKER);
            l.append(message);
            Some(l)
        } else {
            None
        }
    }
}

} // verus!
