//! The claim/complete protocol of the external interrupt controller.
//!
//! A claim hands a context the next pending source and masks that source
//! until the same context completes it. The protocol asks that a context
//! complete what it claimed, once, before it claims again. Contexts do not
//! affect each other.

use vstd::prelude::*;
use crate::context::{context_of, has_context};
use crate::dispatch::completion;
use crate::ops::HwOp;

verus! {

/// One access to the claim/complete register of a controller context.
pub enum ClaimEvent {
    /// A claim for `context` returned `irq`, where 0 stands for "nothing
    /// pending".
    Claim { context: usize, irq: u32 },
    /// `irq` was completed for `context`.
    Complete { context: usize, irq: u32 },
}

/// The claimed sources that are not completed yet, by context.
pub type Outstanding = Map<usize, u32>;

/// Whether the protocol allows `event` while `outstanding` awaits
/// completion: a claim needs a context with nothing outstanding, a
/// completion needs the very source that its context has outstanding.
pub open spec fn allowed(outstanding: Outstanding, event: ClaimEvent) -> bool {
    match event {
        ClaimEvent::Claim { context, irq } => !outstanding.dom().contains(context),
        ClaimEvent::Complete { context, irq } => outstanding.dom().contains(context) && outstanding[context] == irq,
    }
}

/// What awaits completion once `event` has happened.
pub open spec fn after(outstanding: Outstanding, event: ClaimEvent) -> Outstanding {
    match event {
        ClaimEvent::Claim { context, irq } => if irq == 0 {
            outstanding
        } else {
            outstanding.insert(context, irq)
        },
        ClaimEvent::Complete { context, irq } => outstanding.remove(context),
    }
}

/// Whether every event of `trace` is allowed when its turn comes, starting
/// with `outstanding` awaiting completion.
pub open spec fn respects_protocol(outstanding: Outstanding, trace: Seq<ClaimEvent>) -> bool
    decreases trace.len(),
{
    if trace.len() == 0 {
        true
    } else {
        allowed(outstanding, trace[0]) && respects_protocol(after(outstanding, trace[0]), trace.skip(1))
    }
}

/// What awaits completion once all of `trace` has happened.
pub open spec fn after_all(outstanding: Outstanding, trace: Seq<ClaimEvent>) -> Outstanding
    decreases trace.len(),
{
    if trace.len() == 0 {
        outstanding
    } else {
        after_all(after(outstanding, trace[0]), trace.skip(1))
    }
}

/// The context whose register `event` accesses.
pub open spec fn event_context(event: ClaimEvent) -> usize {
    match event {
        ClaimEvent::Claim { context, irq } => context,
        ClaimEvent::Complete { context, irq } => context,
    }
}

/// The events of `trace` on the register of `context`, in their order.
pub open spec fn on_context(trace: Seq<ClaimEvent>, context: usize) -> Seq<ClaimEvent>
    decreases trace.len(),
{
    if trace.len() == 0 {
        seq![]
    } else if event_context(trace[0]) == context {
        seq![trace[0]] + on_context(trace.skip(1), context)
    } else {
        on_context(trace.skip(1), context)
    }
}

/// What `outstanding` holds for `context`, and nothing else.
pub open spec fn for_context(outstanding: Outstanding, context: usize) -> Outstanding {
    outstanding.restrict(set![context])
}

/// The register accesses of servicing one external interrupt on the hart
/// `hart_id`, where the claim returns `claimed`: the claim, then the
/// completion that [`completion`] asks for.
pub open spec fn service_trace(hart_id: usize, claimed: u32) -> Seq<ClaimEvent> {
    let claim = ClaimEvent::Claim { context: context_of(hart_id as int) as usize, irq: claimed };
    match completion(hart_id, claimed) {
        Some(HwOp::Complete { context, irq }) => seq![claim, ClaimEvent::Complete { context, irq }],
        _ => seq![claim],
    }
}

/// The register accesses of servicing one external interrupt after the
/// other; each element gives the hart and what its claim returned.
pub open spec fn services_trace(services: Seq<(usize, u32)>) -> Seq<ClaimEvent>
    decreases services.len(),
{
    if services.len() == 0 {
        seq![]
    } else {
        service_trace(services[0].0, services[0].1) + services_trace(services.skip(1))
    }
}

/// A trace in two parts respects the protocol exactly if the first part
/// does and the second does from where the first one ends.
pub proof fn lemma_protocol_splits(outstanding: Outstanding, first: Seq<ClaimEvent>, second: Seq<ClaimEvent>)
    ensures
        respects_protocol(outstanding, first + second) == (respects_protocol(outstanding, first)
            && respects_protocol(after_all(outstanding, first), second)),
        after_all(outstanding, first + second) == after_all(after_all(outstanding, first), second),
    decreases first.len(),
{
    if first.len() > 0 {
        assert((first + second).skip(1) =~= first.skip(1) + second);
        lemma_protocol_splits(after(outstanding, first[0]), first.skip(1), second);
    }
}

/// Servicing an external interrupt keeps to the protocol: a claim that
/// returned a source is followed by exactly one completion, of that source
/// and for the claiming context, and by nothing else. Afterwards the same
/// claims await completion as before.
pub proof fn lemma_service_respects_protocol(outstanding: Outstanding, hart_id: usize, claimed: u32)
    requires
        has_context(hart_id),
        !outstanding.dom().contains(context_of(hart_id as int) as usize),
    ensures
        respects_protocol(outstanding, service_trace(hart_id, claimed)),
        after_all(outstanding, service_trace(hart_id, claimed)) == outstanding,
{
    let context = context_of(hart_id as int) as usize;
    let trace = service_trace(hart_id, claimed);
    let claim = ClaimEvent::Claim { context, irq: claimed };
    if claimed == 0 {
        assert(respects_protocol(after(outstanding, claim), trace.skip(1)));
        assert(after_all(after(outstanding, claim), trace.skip(1)) == outstanding);
    } else {
        let complete = ClaimEvent::Complete { context, irq: claimed };
        let claimed_state = after(outstanding, claim);
        assert(respects_protocol(after(claimed_state, complete), trace.skip(1).skip(1)));
        assert(respects_protocol(claimed_state, trace.skip(1)));
        assert(after_all(after(claimed_state, complete), trace.skip(1).skip(1)) == outstanding);
        assert(after_all(claimed_state, trace.skip(1)) == outstanding);
    }
}

/// However many external interrupts are serviced one after the other, on
/// whichever harts and whatever the claims return, the register accesses
/// keep to the protocol and leave nothing awaiting completion.
pub proof fn lemma_services_respect_protocol(services: Seq<(usize, u32)>)
    requires
        forall|k: int| 0 <= k < services.len() ==> has_context(#[trigger] services[k].0),
    ensures
        respects_protocol(Map::empty(), services_trace(services)),
        after_all(Map::empty(), services_trace(services)) == Outstanding::empty(),
    decreases services.len(),
{
    if services.len() > 0 {
        let first = service_trace(services[0].0, services[0].1);
        let rest = services.skip(1);
        assert forall|k: int| 0 <= k < rest.len() implies has_context(#[trigger] rest[k].0) by {}
        lemma_service_respects_protocol(Map::empty(), services[0].0, services[0].1);
        lemma_services_respect_protocol(rest);
        lemma_protocol_splits(Map::empty(), first, services_trace(rest));
    }
}

/// Contexts do not affect each other: a trace respects the protocol exactly
/// if, for every context, the events of that context taken alone do.
pub proof fn lemma_contexts_are_independent(outstanding: Outstanding, trace: Seq<ClaimEvent>)
    ensures
        respects_protocol(outstanding, trace) <==> forall|context: usize|
            respects_protocol(for_context(outstanding, context), #[trigger] on_context(trace, context)),
    decreases trace.len(),
{
    if trace.len() > 0 {
        let event = trace[0];
        let rest = trace.skip(1);
        let here = event_context(event);
        let next = after(outstanding, event);
        lemma_contexts_are_independent(next, rest);
        assert forall|context: usize|
            respects_protocol(for_context(outstanding, context), #[trigger] on_context(trace, context)) == if context
                == here {
                allowed(outstanding, event) && respects_protocol(for_context(next, context), on_context(rest, context))
            } else {
                respects_protocol(for_context(next, context), on_context(rest, context))
            } by {
            if context == here {
                let own = on_context(trace, context);
                assert(own.skip(1) =~= on_context(rest, context));
                assert(after(for_context(outstanding, context), event) =~= for_context(next, context));
            } else {
                assert(for_context(next, context) =~= for_context(outstanding, context));
            }
        }
        if respects_protocol(outstanding, trace) {
            assert forall|context: usize|
                respects_protocol(for_context(outstanding, context), #[trigger] on_context(trace, context)) by {}
        }
        if forall|context: usize|
            respects_protocol(for_context(outstanding, context), #[trigger] on_context(trace, context)) {
            assert(respects_protocol(for_context(outstanding, here), on_context(trace, here)));
            assert forall|context: usize|
                respects_protocol(for_context(next, context), #[trigger] on_context(rest, context)) by {
                assert(respects_protocol(for_context(outstanding, context), on_context(trace, context)));
            }
        }
    }
}

/// Harts that each service their external interrupts one after the other
/// keep to the protocol together, however their register accesses
/// interleave. `services` gives, for each context, the harts and claim
/// results behind the events of that context.
pub proof fn lemma_interleaved_services_respect_protocol(
    trace: Seq<ClaimEvent>,
    services: spec_fn(usize) -> Seq<(usize, u32)>,
)
    requires
        forall|context: usize| #[trigger] on_context(trace, context) == services_trace(services(context)),
        forall|context: usize, k: int|
            0 <= k < services(context).len() ==> has_context(#[trigger] services(context)[k].0),
    ensures
        respects_protocol(Map::empty(), trace),
{
    let nothing = Outstanding::empty();
    assert forall|context: usize|
        respects_protocol(for_context(nothing, context), #[trigger] on_context(trace, context)) by {
        assert(for_context(nothing, context) =~= nothing);
        lemma_services_respect_protocol(services(context));
    }
    lemma_contexts_are_independent(nothing, trace);
}

} // verus!
