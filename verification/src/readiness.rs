//! The readiness flag the host UI queries.

use vstd::prelude::*;

verus! {

/// Holds the single readiness flag. The supervisor sets it at most once per
/// run, on the first successful probe; nothing ever clears it again.
#[derive(Debug, PartialEq, Eq, Clone, Copy)]
pub struct ReadinessTracker {
    pub ready: bool,
}

impl ReadinessTracker {
    /// A fresh tracker: the server has not been seen alive yet.
    pub fn new() -> (t: ReadinessTracker)
        ensures
            !t.ready,
    {
        ReadinessTracker { ready: false }
    }

    /// Records that the server answered a probe.
    pub fn mark_ready(&mut self)
        ensures
            final(self).ready,
    {
        self.ready = true;
    }

    /// A non-blocking read of the flag, usable from any calling context.
    pub fn is_ready(&self) -> (b: bool)
        ensures
            b == self.ready,
    {
        self.ready
    }
}

} // verus!
