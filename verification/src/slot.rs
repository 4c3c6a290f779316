//! Single-handler slots for the timer and the inter-processor interrupt.

use vstd::prelude::*;
use crate::handler::IrqHandler;

verus! {

/// What `install` does to a slot: the slot afterwards, and whether the
/// handler went in.
pub open spec fn slot_install(slot: Option<IrqHandler>, handler: IrqHandler) -> (Option<IrqHandler>, bool) {
    if slot is None {
        (Some(handler), true)
    } else {
        (slot, false)
    }
}

/// What `remove` does to a slot: the slot afterwards, and what was taken out.
pub open spec fn slot_remove(slot: Option<IrqHandler>) -> (Option<IrqHandler>, Option<IrqHandler>) {
    (None, slot)
}

/// A place for at most one handler.
pub struct HandlerSlot {
    handler: Option<IrqHandler>,
}

impl HandlerSlot {
    /// The handler in the slot, if any.
    pub closed spec fn view(&self) -> Option<IrqHandler> {
        self.handler
    }

    /// An empty slot.
    pub fn new() -> (slot: Self)
        ensures
            slot@ is None,
    {
        HandlerSlot { handler: None }
    }

    /// Puts `handler` in the slot if the slot is empty, and says whether it
    /// did. An occupied slot is left as it is.
    pub fn install(&mut self, handler: IrqHandler) -> (installed: bool)
        ensures
            (final(self)@, installed) == slot_install(old(self)@, handler),
    {
        if self.handler.is_none() {
            self.handler = Some(handler);
            true
        } else {
            false
        }
    }

    /// Empties the slot and returns what was in it.
    pub fn remove(&mut self) -> (removed: Option<IrqHandler>)
        ensures
            (final(self)@, removed) == slot_remove(old(self)@),
    {
        self.handler.take()
    }

    /// Whether a handler is installed.
    pub fn is_occupied(&self) -> (occupied: bool)
        ensures
            occupied == self@.is_some(),
    {
        self.handler.is_some()
    }

    /// Calls the installed handler, if there is one, and says whether it did.
    pub fn invoke_if_present(&self) -> (invoked: bool)
        ensures
            invoked == self@.is_some(),
    {
        match &self.handler {
            Some(handler) => {
                handler.invoke();
                true
            },
            None => false,
        }
    }
}

/// A second install with no removal in between fails and changes nothing:
/// where the first install went in, its handler is still the one in the slot.
pub proof fn lemma_second_install_fails(slot: Option<IrqHandler>, first: IrqHandler, second: IrqHandler)
    ensures
        ({
            let (after_first, first_in) = slot_install(slot, first);
            let (after_second, second_in) = slot_install(after_first, second);
            &&& !second_in
            &&& after_second == after_first
            &&& first_in ==> after_second == Some(first)
        }),
{
}

/// Removing from an empty slot returns nothing and leaves the slot empty.
pub proof fn lemma_remove_from_empty()
    ensures
        slot_remove(None) == (None::<IrqHandler>, None::<IrqHandler>),
{
}

} // verus!
