//! Hardware operations, as values.
//!
//! This layer decides which operations the hart's interrupt-enable register
//! and the external interrupt controller have to see, and in which order.
//! Performing them is left to the caller.

use vstd::prelude::*;
use crate::cause::{
    cause_of, classify, is_cpu_side, is_recognized, recognizes, Cause, INTC_IRQ_BASE, MAX_IRQ_COUNT,
};
use crate::context::{context, context_of, has_context};

verus! {

/// The priority that an enabled device interrupt is given. A source of
/// priority 0 never signals, whatever its enable bits say.
pub const ENABLE_PRIORITY: u32 = 6;

/// One operation on the interrupt hardware.
#[derive(Clone, Copy, Debug, PartialEq, Eq, Structural)]
pub enum HwOp {
    /// Let this hart take supervisor software interrupts.
    EnableSoftware,
    /// Let this hart take supervisor timer interrupts.
    EnableTimer,
    /// Stop this hart from taking supervisor timer interrupts.
    DisableTimer,
    /// Let this hart take supervisor external interrupts.
    EnableExternal,
    /// Reset the priority threshold of a controller context to 0.
    InitContext { context: usize },
    /// Set the priority of an interrupt source at the controller.
    SetPriority { irq: u32, level: u32 },
    /// Enable an interrupt source for a controller context.
    Enable { irq: u32, context: usize },
    /// Disable an interrupt source for a controller context.
    Disable { irq: u32, context: usize },
    /// Tell the controller that a claimed interrupt has been serviced.
    Complete { context: usize, irq: u32 },
}

/// Whether `irq` names something that can be switched on and off: a
/// recognized hart-side cause, or a number below the table's capacity.
/// Source 0 is among them; switching it does nothing.
pub open spec fn is_switchable(irq: usize) -> bool {
    is_recognized(irq) && (is_cpu_side(irq) || irq < MAX_IRQ_COUNT)
}

/// The operations that enable or disable `irq` for the hart `hart_id`.
///
/// The timer is switched at the hart. The software and external classes stay
/// as they are. A device source is switched at the controller, for the hart's
/// context; enabling it first gives it a priority above 0. Source 0 stands
/// for "no interrupt" and takes no operation.
pub open spec fn enable_ops(irq: usize, enabled: bool, hart_id: usize) -> Seq<HwOp> {
    match cause_of(irq) {
        Cause::Timer => if enabled {
            seq![HwOp::EnableTimer]
        } else {
            seq![HwOp::DisableTimer]
        },
        Cause::InterProcessor => seq![],
        Cause::ExternalEvent => seq![],
        Cause::DeviceIrq(source) => if source == 0 {
            seq![]
        } else if enabled {
            seq![
                HwOp::SetPriority { irq: source as u32, level: ENABLE_PRIORITY },
                HwOp::Enable { irq: source as u32, context: context_of(hart_id as int) as usize },
            ]
        } else {
            seq![HwOp::Disable { irq: source as u32, context: context_of(hart_id as int) as usize }]
        },
    }
}

/// The device source that `op` is about, if it is about one.
pub open spec fn op_source(op: HwOp) -> Option<u32> {
    match op {
        HwOp::SetPriority { irq, level } => Some(irq),
        HwOp::Enable { irq, context } => Some(irq),
        HwOp::Disable { irq, context } => Some(irq),
        HwOp::Complete { context, irq } => Some(irq),
        _ => None,
    }
}

/// The controller context that `op` is about, if it is about one.
pub open spec fn op_context(op: HwOp) -> Option<usize> {
    match op {
        HwOp::InitContext { context } => Some(context),
        HwOp::Enable { irq, context } => Some(context),
        HwOp::Disable { irq, context } => Some(context),
        HwOp::Complete { context, irq } => Some(context),
        _ => None,
    }
}

/// Switching an interrupt touches no source but the one asked for, which is
/// then a device source from 1 up to the table's capacity, and no context
/// but that of the hart asked for.
pub proof fn lemma_enable_ops_stay_on_target(irq: usize, enabled: bool, hart_id: usize)
    requires
        is_switchable(irq),
        has_context(hart_id),
    ensures
        forall|k: int|
            0 <= k < enable_ops(irq, enabled, hart_id).len() ==> {
                let op = #[trigger] enable_ops(irq, enabled, hart_id)[k];
                &&& op_source(op) is Some ==> op_source(op) == Some(irq as u32) && 1 <= irq < MAX_IRQ_COUNT
                &&& op_context(op) is Some ==> op_context(op) == Some(context_of(hart_id as int) as usize)
            },
{
}

/// The operations that prepare the hart `hart_id` for interrupts: the three
/// interrupt classes are enabled at the hart, then the threshold of the
/// hart's controller context is reset.
pub open spec fn init_ops(hart_id: usize) -> Seq<HwOp> {
    seq![
        HwOp::EnableSoftware,
        HwOp::EnableTimer,
        HwOp::EnableExternal,
        HwOp::InitContext { context: context_of(hart_id as int) as usize },
    ]
}

/// Tells whether `irq` can be handed to [`set_enable`].
pub fn can_switch(irq: usize) -> (switchable: bool)
    ensures
        switchable == is_switchable(irq),
{
    recognizes(irq) && (irq >= INTC_IRQ_BASE || irq < MAX_IRQ_COUNT)
}

/// Plans the enabling or disabling of `irq` for the hart `hart_id`.
pub fn set_enable(irq: usize, enabled: bool, hart_id: usize) -> (ops: Vec<HwOp>)
    requires
        is_switchable(irq),
        has_context(hart_id),
    ensures
        ops@ == enable_ops(irq, enabled, hart_id),
{
    match classify(irq) {
        Cause::Timer => {
            if enabled {
                vec![HwOp::EnableTimer]
            } else {
                vec![HwOp::DisableTimer]
            }
        },
        Cause::InterProcessor => Vec::new(),
        Cause::ExternalEvent => Vec::new(),
        Cause::DeviceIrq(source) => {
            if source == 0 {
                Vec::new()
            } else {
                let irq32: u32 = source as u32;
                let ctx = context(hart_id);
                if enabled {
                    vec![
                        HwOp::SetPriority { irq: irq32, level: ENABLE_PRIORITY },
                        HwOp::Enable { irq: irq32, context: ctx },
                    ]
                } else {
                    vec![HwOp::Disable { irq: irq32, context: ctx }]
                }
            }
        },
    }
}

/// Plans the per-hart initialisation of the hart `hart_id`.
pub fn init_percpu(hart_id: usize) -> (ops: Vec<HwOp>)
    requires
        has_context(hart_id),
    ensures
        ops@ == init_ops(hart_id),
{
    vec![
        HwOp::EnableSoftware,
        HwOp::EnableTimer,
        HwOp::EnableExternal,
        HwOp::InitContext { context: context(hart_id) },
    ]
}

} // verus!
