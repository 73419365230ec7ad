//! The process-wide debug-visualization flag.

use vstd::prelude::*;

verus! {

/// A single flag polled by debug rendering. Toggling it has no effect beyond
/// flipping the flag.
#[derive(Clone, Copy, PartialEq, Eq, Structural, Debug)]
pub struct DebugToggle {
    /// Whether debug visualization is on.
    pub enabled: bool,
}

impl DebugToggle {
    /// The flag starts switched off.
    pub fn new() -> (r: DebugToggle)
        ensures
            !r.enabled,
    {
        DebugToggle { enabled: false }
    }

    /// Flips the flag.
    pub fn toggle(&mut self)
        ensures
            final(self).enabled == !old(self).enabled,
    {
        self.enabled = !self.enabled;
    }
}

} // verus!
