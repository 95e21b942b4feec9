//! Relaying a remote's side-band progress output to an optional callback.

use vstd::prelude::*;

verus! {

/// Whether progress chunks are still handed to the callback: there must be
/// one, and it must not have failed yet (after a failure the remaining
/// chunks are dropped and the failure is reported once the transfer ends).
#[derive(Clone, Copy, Debug, PartialEq, Eq, Structural)]
pub struct ProgressRelay {
    pub has_callback: bool,
    pub failed: bool,
}

impl ProgressRelay {
    /// A relay for a transfer, with or without a callback.
    pub fn new(has_callback: bool) -> (res: ProgressRelay)
        ensures
            res == (ProgressRelay { has_callback, failed: false }),
    {
        ProgressRelay { has_callback, failed: false }
    }

    /// Whether the next chunk goes to the callback.
    pub fn delivers(&self) -> (res: bool)
        ensures
            res == (self.has_callback && !self.failed),
    {
        self.has_callback && !self.failed
    }

    /// Records the outcome of a delivery: a failure stops further deliveries.
    pub fn record(&mut self, delivered_ok: bool)
        ensures
            final(self).has_callback == old(self).has_callback,
            final(self).failed == (old(self).failed || !delivered_ok),
    {
        if !delivered_ok {
            self.failed = true;
        }
    }
}

} // verus!
