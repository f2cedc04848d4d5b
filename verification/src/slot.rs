//! A cell that hands at most one pending value from a writer to a reader.

use vstd::prelude::*;

verus! {

/// A hand-off slot: the writer puts values in, and the reader takes out
/// the latest one that it has not taken yet.
pub struct HandOff<T> {
    pending: Option<T>,
}

impl<T> View for HandOff<T> {
    type V = Option<T>;

    /// The value that waits to be taken, if there is one.
    closed spec fn view(&self) -> Option<T> {
        self.pending
    }
}

impl<T> HandOff<T> {
    /// An empty slot.
    pub fn new() -> (r: HandOff<T>)
        ensures
            r@ is None,
    {
        HandOff { pending: None }
    }

    /// Leaves `value` in the slot. A value that was still waiting is lost:
    /// the latest one wins.
    pub fn put(&mut self, value: T)
        ensures
            final(self)@ == Some(value),
    {
        self.pending = Some(value);
    }

    /// Takes out what waits in the slot and leaves the slot empty.
    pub fn take(&mut self) -> (r: Option<T>)
        ensures
            r == old(self)@,
            final(self)@ is None,
    {
        self.pending.take()
    }

    /// Whether a value waits in the slot.
    pub fn is_pending(&self) -> (r: bool)
        ensures
            r == (self@ is Some),
    {
        self.pending.is_some()
    }
}

} // verus!
