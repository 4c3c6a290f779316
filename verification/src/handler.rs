//! Interrupt handlers.

use vstd::prelude::*;

verus! {

/// A callback that runs when its interrupt is dispatched.
///
/// It takes no argument and returns nothing. Whoever installs a handler
/// guarantees that it stays callable for as long as the kernel runs; this
/// layer only stores it, hands it back and calls it.
///
/// The type is opaque to the verifier: two handlers are equal in contracts
/// when they are the same function.
#[verifier::external_body]
pub struct IrqHandler(pub axplat::irq::IrqHandler);

impl IrqHandler {
    /// Calls the function behind the handler, once. Nothing is claimed of
    /// what the function does.
    #[verifier::external_body]
    pub(crate) fn invoke(&self) {
        (self.0)()
    }
}

} // verus!
