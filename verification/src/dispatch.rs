//! Registration and dispatch.
//!
//! [`IrqCore`] owns the two single-handler slots and the device table, and
//! routes every request by the category of its cause word. Servicing an
//! external event takes two calls: [`IrqCore::handle`] asks the caller to
//! claim from the controller, and [`IrqCore::service_claim`] takes what the
//! claim returned, runs the handler and hands back the completion to send.
//! Unregistering takes two calls as well: [`IrqCore::begin_unregister`]
//! plans the disabling while the handler is still in place, and
//! [`IrqCore::unregister`] takes the handler out once the line is disabled.

use vstd::prelude::*;
use crate::cause::{cause_of, classify, is_cpu_side, is_recognized, Cause};
use crate::context::{context, context_of, has_context};
use crate::handler::IrqHandler;
use crate::ops::{enable_ops, set_enable, HwOp};
use crate::slot::{slot_install, slot_remove, HandlerSlot};
use crate::table::{
    entries_register, entries_unregister, entry, is_device_source, within_capacity, DeviceTable, HandlerMap,
};

verus! {

/// The handlers that an [`IrqCore`] holds.
pub struct CoreState {
    /// The handler of the timer interrupt.
    pub timer: Option<IrqHandler>,
    /// The handler of the inter-processor interrupt.
    pub ipi: Option<IrqHandler>,
    /// The handlers of the device interrupts, by source number.
    pub devices: HandlerMap,
}

/// What came of an interrupt.
#[derive(Clone, Copy, Debug, PartialEq, Eq, Structural)]
pub struct Outcome {
    /// The device source that was serviced; `None` for an interrupt of the
    /// hart itself and for a claim that found nothing pending.
    pub irq: Option<usize>,
    /// Whether a handler was called.
    pub handled: bool,
    /// The completion that the controller is owed.
    pub complete: Option<HwOp>,
}

/// What the caller of [`IrqCore::handle`] has to do next.
#[derive(Clone, Copy, Debug, PartialEq, Eq, Structural)]
pub enum HandleStep {
    /// The interrupt has been dealt with.
    Done(Outcome),
    /// Claim from the controller for `context` and hand the result to
    /// [`IrqCore::service_claim`].
    Claim { context: usize },
}

/// What a registration does: the handlers afterwards, and whether the
/// handler went in. A registration for the external class itself is always
/// turned down; the handler belongs to a device source. So is one for
/// source 0, which stands for "no interrupt", and one beyond the table.
pub open spec fn register_model(state: CoreState, irq: usize, handler: IrqHandler) -> (CoreState, bool) {
    match cause_of(irq) {
        Cause::Timer => {
            let (timer, installed) = slot_install(state.timer, handler);
            (CoreState { timer, ..state }, installed)
        },
        Cause::InterProcessor => {
            let (ipi, installed) = slot_install(state.ipi, handler);
            (CoreState { ipi, ..state }, installed)
        },
        Cause::ExternalEvent => (state, false),
        Cause::DeviceIrq(source) => {
            let (devices, registered) = entries_register(state.devices, source, handler);
            (CoreState { devices, ..state }, registered)
        },
    }
}

/// What an unregistration does: the handlers afterwards, and the handler
/// that was taken out.
pub open spec fn unregister_model(state: CoreState, irq: usize) -> (CoreState, Option<IrqHandler>) {
    match cause_of(irq) {
        Cause::Timer => {
            let (timer, removed) = slot_remove(state.timer);
            (CoreState { timer, ..state }, removed)
        },
        Cause::InterProcessor => {
            let (ipi, removed) = slot_remove(state.ipi);
            (CoreState { ipi, ..state }, removed)
        },
        Cause::ExternalEvent => (state, None),
        Cause::DeviceIrq(source) => {
            let (devices, removed) = entries_unregister(state.devices, source);
            (CoreState { devices, ..state }, removed)
        },
    }
}

/// The operations that follow a registration: a device source that got its
/// handler is enabled at once.
pub open spec fn registration_ops(irq: usize, registered: bool, hart_id: usize) -> Seq<HwOp> {
    if registered && !is_cpu_side(irq) {
        enable_ops(irq, true, hart_id)
    } else {
        seq![]
    }
}

/// The operations that come before an unregistration: a device source that
/// is about to lose its handler is disabled first.
pub open spec fn removal_ops(irq: usize, installed: bool, hart_id: usize) -> Seq<HwOp> {
    if installed && !is_cpu_side(irq) {
        enable_ops(irq, false, hart_id)
    } else {
        seq![]
    }
}

/// The handler that `state` holds for `irq`, if any.
pub open spec fn installed_handler(state: CoreState, irq: usize) -> Option<IrqHandler> {
    match cause_of(irq) {
        Cause::Timer => state.timer,
        Cause::InterProcessor => state.ipi,
        Cause::ExternalEvent => None,
        Cause::DeviceIrq(source) => entry(state.devices, source),
    }
}

/// The handler that runs when the controller hands out `claimed`. Source 0
/// means that nothing was pending.
pub open spec fn claimed_handler(state: CoreState, claimed: u32) -> Option<IrqHandler> {
    if claimed == 0 {
        None
    } else {
        entry(state.devices, claimed as usize)
    }
}

/// The completion that the controller is owed after a claim on behalf of
/// `hart_id` returned `claimed`: none for a claim that found nothing, else
/// one for the same source and context.
pub open spec fn completion(hart_id: usize, claimed: u32) -> Option<HwOp> {
    if claimed == 0 {
        None
    } else {
        Some(HwOp::Complete { context: context_of(hart_id as int) as usize, irq: claimed })
    }
}

/// What [`IrqCore::handle`] returns.
pub open spec fn handle_model(state: CoreState, cause: usize, hart_id: usize) -> HandleStep {
    match cause_of(cause) {
        Cause::Timer => HandleStep::Done(Outcome { irq: None, handled: state.timer is Some, complete: None }),
        Cause::InterProcessor => HandleStep::Done(
            Outcome { irq: None, handled: state.ipi is Some, complete: None },
        ),
        _ => HandleStep::Claim { context: context_of(hart_id as int) as usize },
    }
}

/// What [`IrqCore::service_claim`] returns.
pub open spec fn service_model(state: CoreState, hart_id: usize, claimed: u32) -> Outcome {
    Outcome {
        irq: if claimed == 0 {
            None
        } else {
            Some(claimed as usize)
        },
        handled: claimed_handler(state, claimed) is Some,
        complete: completion(hart_id, claimed),
    }
}

/// The handler registry of the dispatch layer.
pub struct IrqCore {
    timer: HandlerSlot,
    ipi: HandlerSlot,
    devices: DeviceTable,
}

impl IrqCore {
    /// The handlers that are installed.
    pub closed spec fn view(&self) -> CoreState {
        CoreState { timer: self.timer@, ipi: self.ipi@, devices: self.devices@ }
    }

    /// No registry holds a device source at or beyond the table's capacity.
    pub proof fn lemma_within_capacity(&self)
        ensures
            within_capacity(self@.devices),
    {
        self.devices.lemma_within_capacity();
    }

    /// A registry without handlers.
    pub fn new() -> (core: Self)
        ensures
            core@.timer is None,
            core@.ipi is None,
            core@.devices == HandlerMap::empty(),
    {
        IrqCore { timer: HandlerSlot::new(), ipi: HandlerSlot::new(), devices: DeviceTable::new() }
    }

    /// Registers `handler` for `irq` and says whether it did, together with
    /// the operations that enable the interrupt for the hart `hart_id`.
    ///
    /// The timer and the inter-processor interrupt take one handler each; a
    /// device source, from 1 up to the table's capacity, takes one handler.
    /// Source 0, a source beyond the table and the external class itself
    /// take none. Where the registration fails nothing changes and nothing
    /// is enabled.
    pub fn register(&mut self, irq: usize, handler: IrqHandler, hart_id: usize) -> (result: (bool, Vec<HwOp>))
        requires
            is_recognized(irq),
            has_context(hart_id),
        ensures
            (final(self)@, result.0) == register_model(old(self)@, irq, handler),
            result.1@ == registration_ops(irq, result.0, hart_id),
    {
        match classify(irq) {
            Cause::Timer => {
                let installed = self.timer.install(handler);
                (installed, Vec::new())
            },
            Cause::InterProcessor => {
                let installed = self.ipi.install(handler);
                (installed, Vec::new())
            },
            Cause::ExternalEvent => {
                (false, Vec::new())
            },
            Cause::DeviceIrq(source) => {
                if self.devices.register(source, handler) {
                    (true, set_enable(irq, true, hart_id))
                } else {
                    (false, Vec::new())
                }
            },
        }
    }

    /// Plans the disabling that has to come before `irq` loses its handler,
    /// for the hart `hart_id`, and leaves every handler in place.
    ///
    /// A device source that has a handler is disabled; nothing is planned
    /// for a source without one, nor for the interrupts of the hart itself.
    /// The caller performs the operations and then calls
    /// [`IrqCore::unregister`], so that no line is ever enabled without a
    /// handler.
    pub fn begin_unregister(&mut self, irq: usize, hart_id: usize) -> (ops: Vec<HwOp>)
        requires
            is_recognized(irq),
            has_context(hart_id),
        ensures
            final(self)@ == old(self)@,
            ops@ == removal_ops(irq, installed_handler(old(self)@, irq) is Some, hart_id),
    {
        match classify(irq) {
            Cause::DeviceIrq(source) => {
                if self.devices.is_registered(source) {
                    set_enable(irq, false, hart_id)
                } else {
                    Vec::new()
                }
            },
            _ => Vec::new(),
        }
    }

    /// Takes the handler of `irq` out and returns it.
    pub fn unregister(&mut self, irq: usize) -> (removed: Option<IrqHandler>)
        requires
            is_recognized(irq),
        ensures
            (final(self)@, removed) == unregister_model(old(self)@, irq),
    {
        match classify(irq) {
            Cause::Timer => self.timer.remove(),
            Cause::InterProcessor => self.ipi.remove(),
            Cause::ExternalEvent => None,
            Cause::DeviceIrq(source) => self.devices.unregister(source),
        }
    }

    /// Deals with an interrupt of the hart itself.
    ///
    /// A timer or inter-processor interrupt runs its handler, if one is
    /// installed. An external interrupt needs the controller: the caller is
    /// told to claim for the context of `hart_id`.
    pub fn handle(&self, cause: usize, hart_id: usize) -> (step: HandleStep)
        requires
            is_recognized(cause),
            is_cpu_side(cause),
            has_context(hart_id),
        ensures
            step == handle_model(self@, cause, hart_id),
    {
        match classify(cause) {
            Cause::Timer => {
                let handled = self.timer.invoke_if_present();
                HandleStep::Done(Outcome { irq: None, handled, complete: None })
            },
            Cause::InterProcessor => {
                let handled = self.ipi.invoke_if_present();
                HandleStep::Done(Outcome { irq: None, handled, complete: None })
            },
            _ => HandleStep::Claim { context: context(hart_id) },
        }
    }

    /// Services what a claim on behalf of `hart_id` returned.
    ///
    /// Source 0 means that nothing was pending: no handler runs and nothing
    /// is completed. Any other source has its handler called, if it has one,
    /// and is then owed exactly one completion, for the same context.
    pub fn service_claim(&self, hart_id: usize, claimed: u32) -> (outcome: Outcome)
        requires
            has_context(hart_id),
        ensures
            outcome == service_model(self@, hart_id, claimed),
    {
        if claimed == 0 {
            Outcome { irq: None, handled: false, complete: None }
        } else {
            let source = claimed as usize;
            let handled = self.devices.dispatch(source);
            Outcome {
                irq: Some(source),
                handled,
                complete: Some(HwOp::Complete { context: context(hart_id), irq: claimed }),
            }
        }
    }
}

/// A device source without a handler takes the one that is registered for
/// it: a claim of that source then runs this handler. Unregistering hands
/// the handler back, and a later claim of the source runs nothing.
pub proof fn lemma_register_dispatch_unregister(state: CoreState, irq: usize, handler: IrqHandler)
    requires
        is_device_source(irq),
        installed_handler(state, irq) is None,
    ensures
        ({
            let (registered_state, registered) = register_model(state, irq, handler);
            let (removed_state, removed) = unregister_model(registered_state, irq);
            &&& registered
            &&& claimed_handler(registered_state, irq as u32) == Some(handler)
            &&& removed == Some(handler)
            &&& claimed_handler(removed_state, irq as u32) is None
        }),
{
}

/// Source 0 takes no handler: registering for it fails, changes nothing
/// and enables nothing, whatever the handlers installed.
pub proof fn lemma_source_zero_is_refused(state: CoreState, handler: IrqHandler, hart_id: usize)
    ensures
        register_model(state, 0, handler) == (state, false),
        registration_ops(0, register_model(state, 0, handler).1, hart_id) == Seq::<HwOp>::empty(),
        installed_handler(state, 0) is None,
{
}

/// A device source is disabled before it loses its handler: what is planned
/// ahead of the removal is the disabling of that source for the context of
/// the hart, and nothing else; the removal then hands back the handler that
/// was in place all the while.
pub proof fn lemma_disable_precedes_removal(state: CoreState, irq: usize, hart_id: usize)
    requires
        is_device_source(irq),
        has_context(hart_id),
        installed_handler(state, irq) is Some,
    ensures
        removal_ops(irq, installed_handler(state, irq) is Some, hart_id) == seq![
            HwOp::Disable { irq: irq as u32, context: context_of(hart_id as int) as usize },
        ],
        unregister_model(state, irq).1 == installed_handler(state, irq),
        installed_handler(unregister_model(state, irq).0, irq) is None,
{
}

/// Registering twice for the same interrupt with no unregistration in
/// between: the second registration fails and changes nothing, so that
/// where the first one went in, its handler is still the one installed.
pub proof fn lemma_second_register_fails(state: CoreState, irq: usize, first: IrqHandler, second: IrqHandler)
    ensures
        ({
            let (after_first, first_in) = register_model(state, irq, first);
            let (after_second, second_in) = register_model(after_first, irq, second);
            &&& !second_in
            &&& after_second == after_first
            &&& first_in ==> installed_handler(after_second, irq) == Some(first)
        }),
{
}

/// A claim that found nothing pending runs no handler, reports no source
/// and is owed no completion, whatever handlers are installed.
pub proof fn lemma_spurious_claim(state: CoreState, hart_id: usize)
    ensures
        service_model(state, hart_id, 0) == (Outcome { irq: None, handled: false, complete: None }),
{
}

} // verus!
