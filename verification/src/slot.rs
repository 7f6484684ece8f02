//! The render hand-off to the presentation layer: capacity one, latest
//! wins.  When actions land faster than the consumer draws, intermediate
//! snapshots are coalesced — an offer replaces any unconsumed snapshot —
//! which is the session's deliberate backpressure policy.

use vstd::prelude::*;

verus! {

/// A one-place hand-off cell for the newest unconsumed snapshot.
pub struct RenderSlot<T> {
    slot: Option<T>,
}

impl<T> View for RenderSlot<T> {
    type V = Option<T>;

    closed spec fn view(&self) -> Option<T> {
        self.slot
    }
}

impl<T> RenderSlot<T> {
    /// An empty hand-off: nothing to consume yet.
    pub fn new() -> (s: RenderSlot<T>)
        ensures
            s@ is None,
    {
        RenderSlot { slot: Option::None }
    }

    /// Offers a fresh snapshot: whatever was waiting is replaced, so the
    /// consumer only ever sees the latest state.
    pub fn offer(&mut self, t: T)
        ensures
            final(self)@ == Option::Some(t),
    {
        self.slot = Option::Some(t);
    }

    /// Consumes the waiting snapshot, if any, leaving the hand-off empty.
    pub fn take(&mut self) -> (r: Option<T>)
        ensures
            r == old(self)@,
            final(self)@ is None,
    {
        self.slot.take()
    }
}

} // verus!
