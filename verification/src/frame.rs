//! Coalescing of redraw requests.

use vstd::prelude::*;

verus! {

/// A latch that lets any number of redraw requests share one frame.
#[derive(Clone, Copy, Debug, Default, PartialEq, Eq, Structural)]
pub struct FrameGate {
    pub requested: bool,
}

impl FrameGate {
    /// Asks for a frame; `true` exactly when this request is the one that must schedule it.
    pub fn request(&mut self) -> (first: bool)
        ensures
            first == !old(self).requested,
            final(self).requested,
    {
        let first = !self.requested;
        self.requested = true;
        first
    }

    /// Takes the pending request, if any, so that the next request schedules anew.
    pub fn take(&mut self) -> (pending: bool)
        ensures
            pending == old(self).requested,
            !final(self).requested,
    {
        let pending = self.requested;
        self.requested = false;
        pending
    }

    /// Withdraws a request whose frame could not be scheduled.
    pub fn cancel(&mut self)
        ensures
            !final(self).requested,
    {
        self.requested = false;
    }
}

} // verus!
