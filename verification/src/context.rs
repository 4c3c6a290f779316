//! Controller-context addressing.
//!
//! The external interrupt controller keeps its enable, threshold and claim
//! state once per context. Each hart owns two contexts; the supervisor one is
//! the context that this layer drives.

use vstd::prelude::*;

verus! {

/// The supervisor context of the hart with logical id `hart_id`.
///
/// Context 0 belongs to a mode that this layer does not run in, so the
/// numbering starts one hart further up.
pub open spec fn context_of(hart_id: int) -> int {
    2 * (hart_id + 1)
}

/// Whether the context of `hart_id` fits in a machine word.
pub open spec fn has_context(hart_id: usize) -> bool {
    context_of(hart_id as int) <= usize::MAX
}

/// Computes the supervisor context of a hart.
pub fn context(hart_id: usize) -> (ctx: usize)
    requires
        has_context(hart_id),
    ensures
        ctx == context_of(hart_id as int),
{
    (hart_id + 1) * 2
}

/// Computes the supervisor context of a hart, or `None` where the context
/// number does not fit in a machine word.
pub fn try_context(hart_id: usize) -> (ctx: Option<usize>)
    ensures
        ctx == if has_context(hart_id) { Some(context_of(hart_id as int) as usize) } else { None },
{
    if hart_id < usize::MAX / 2 {
        Some(context(hart_id))
    } else {
        None
    }
}

/// Context addressing is injective, and no hart is given context 0.
pub proof fn lemma_context_injective(a: int, b: int)
    requires
        0 <= a,
        0 <= b,
    ensures
        context_of(a) == context_of(b) ==> a == b,
        context_of(a) >= 2,
        context_of(a) % 2 == 0,
{
}

} // verus!
