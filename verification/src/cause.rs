//! Classification of raw trap-cause words.

use vstd::prelude::*;

verus! {

/// Number of interrupt sources that the device handler table can hold.
pub const MAX_IRQ_COUNT: usize = 1024;

/// The most significant bit of a machine word: set in a cause word that
/// reports an interrupt raised by the hart itself.
pub const INTC_IRQ_BASE: usize = usize::MAX / 2 + 1;

/// Cause word of a supervisor software interrupt.
pub const S_SOFT: usize = INTC_IRQ_BASE + 1;

/// Cause word of a supervisor timer interrupt.
pub const S_TIMER: usize = INTC_IRQ_BASE + 5;

/// Cause word of a supervisor external interrupt.
pub const S_EXT: usize = INTC_IRQ_BASE + 9;

/// What a cause word stands for.
#[derive(Clone, Copy, Debug, PartialEq, Eq, Structural)]
pub enum Cause {
    /// The supervisor timer fired.
    Timer,
    /// Another hart sent an inter-processor interrupt.
    InterProcessor,
    /// The external controller has something pending; the source number has
    /// to be claimed from it.
    ExternalEvent,
    /// A device interrupt whose source number is already known.
    DeviceIrq(usize),
}

/// Whether `cause` reports an interrupt raised by the hart itself.
pub open spec fn is_cpu_side(cause: usize) -> bool {
    cause >= INTC_IRQ_BASE
}

/// `INTC_IRQ_BASE` is the word with the top bit alone, and a cause word is
/// hart-side exactly if it has that bit.
pub proof fn lemma_cpu_side_is_top_bit(cause: usize)
    ensures
        INTC_IRQ_BASE == 1usize << ((usize::BITS - 1) as usize),
        is_cpu_side(cause) <==> cause & INTC_IRQ_BASE != 0,
{
    let top = (usize::BITS - 1) as usize;
    let base = 1usize << top;
    assert(base == INTC_IRQ_BASE) by {
        vstd::arithmetic::power2::lemma2_to64();
        vstd::arithmetic::power2::lemma2_to64_rest();
        vstd::bits::lemma_usize_shl_is_mul(1, top);
    }
    assert(cause >= base <==> cause & base != 0) by (bit_vector)
        requires
            base == 1usize << top,
            top == (usize::BITS - 1) as usize,
    ;
}

/// Whether `cause` is a word that this layer knows how to route.
pub open spec fn is_recognized(cause: usize) -> bool {
    !is_cpu_side(cause) || cause == S_SOFT || cause == S_TIMER || cause == S_EXT
}

/// The category of a recognized cause word.
pub open spec fn cause_of(cause: usize) -> Cause {
    if cause == S_TIMER {
        Cause::Timer
    } else if cause == S_SOFT {
        Cause::InterProcessor
    } else if cause == S_EXT {
        Cause::ExternalEvent
    } else {
        Cause::DeviceIrq(cause)
    }
}

/// Tells whether `cause` can be classified.
pub fn recognizes(cause: usize) -> (known: bool)
    ensures
        known == is_recognized(cause),
{
    cause < INTC_IRQ_BASE || cause == S_SOFT || cause == S_TIMER || cause == S_EXT
}

/// Maps a recognized cause word to its category.
pub fn classify(cause: usize) -> (kind: Cause)
    requires
        is_recognized(cause),
    ensures
        kind == cause_of(cause),
{
    if cause == S_TIMER {
        Cause::Timer
    } else if cause == S_SOFT {
        Cause::InterProcessor
    } else if cause == S_EXT {
        Cause::ExternalEvent
    } else {
        Cause::DeviceIrq(cause)
    }
}

} // verus!
