//! Replaceable observer slots.
//!
//! A slot holds at most one currently active callback for one event class
//! (data received, or error). The worker dispatches by *read-and-invoke*:
//! it first fetches the slot's current occupant, then invokes what it
//! fetched. Replacing or clearing the slot therefore takes effect for the
//! next dispatch; a dispatch already in flight keeps the occupant it fetched
//! ("in flight completes" semantics).
//!
//! Callbacks are identified here by an opaque token chosen by the caller;
//! the runtime around the library maps tokens to real callbacks.

use vstd::prelude::*;

verus! {

/// A replaceable holder for at most one active callback token.
#[derive(Clone, Copy, Debug)]
pub struct ObserverSlot {
    current: Option<u64>,
}

impl ObserverSlot {
    /// The token currently occupying the slot, if any.
    pub closed spec fn occupant(self) -> Option<u64> {
        self.current
    }

    /// An empty slot: no callback is registered.
    pub fn empty() -> (r: ObserverSlot)
        ensures
            r.occupant() is None,
    {
        ObserverSlot { current: Option::None }
    }

    /// Install a callback, replacing any previous occupant.
    pub fn install(&mut self, token: u64)
        ensures
            final(self).occupant() == Some(token),
    {
        self.current = Option::Some(token);
    }

    /// Clear the slot; later dispatches find no callback.
    pub fn clear(&mut self)
        ensures
            final(self).occupant() is None,
    {
        self.current = Option::None;
    }

    /// The read point of a read-and-invoke dispatch: fetch the current
    /// occupant without holding the slot for the invocation itself.
    pub fn fetch(&self) -> (r: Option<u64>)
        ensures
            r == self.occupant(),
    {
        self.current
    }
}

} // verus!
