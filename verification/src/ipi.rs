//! The send side of inter-processor interrupts.
//!
//! An inter-processor interrupt carries no payload. Sending one means asking
//! the firmware to raise a software interrupt on the harts that a hart mask
//! selects; this module works out the masks, one per hart to reach.

use vstd::prelude::*;
use sbi_rt::HartMask;

verus! {

/// The harts that an inter-processor interrupt is meant for.
#[derive(Clone, Copy, Debug, PartialEq, Eq, Structural)]
pub enum IpiTarget {
    /// The sending hart itself.
    Current { cpu_id: usize },
    /// One other hart.
    Other { cpu_id: usize },
    /// Every hart but the sending one, out of `cpu_num` harts.
    AllExceptCurrent { cpu_id: usize, cpu_num: usize },
}

/// The harts below `cpu_num`, in rising order, without `skip`.
pub open spec fn harts_except(cpu_num: int, skip: int) -> Seq<int>
    decreases cpu_num,
{
    if cpu_num <= 0 {
        seq![]
    } else if cpu_num - 1 == skip {
        harts_except(cpu_num - 1, skip)
    } else {
        harts_except(cpu_num - 1, skip).push(cpu_num - 1)
    }
}

/// `harts_except` holds every hart below `cpu_num` but `skip`, and no other;
/// the harts come in strictly rising order, so none comes twice.
pub proof fn lemma_harts_except(cpu_num: int, skip: int)
    ensures
        forall|hart: int| #[trigger]
            harts_except(cpu_num, skip).contains(hart) <==> 0 <= hart < cpu_num && hart != skip,
        harts_except(cpu_num, skip).len() == if cpu_num <= 0 {
            0
        } else if 0 <= skip < cpu_num {
            cpu_num - 1
        } else {
            cpu_num
        },
        forall|i: int, j: int|
            0 <= i < j < harts_except(cpu_num, skip).len() ==> harts_except(cpu_num, skip)[i] < harts_except(
                cpu_num,
                skip,
            )[j],
    decreases cpu_num,
{
    let harts = harts_except(cpu_num, skip);
    if cpu_num > 0 {
        let below = harts_except(cpu_num - 1, skip);
        lemma_harts_except(cpu_num - 1, skip);
        if cpu_num - 1 != skip {
            assert forall|hart: int| #[trigger] harts.contains(hart) <==> 0 <= hart < cpu_num && hart != skip by {
                if harts.contains(hart) {
                    let i = choose|i: int| 0 <= i < harts.len() && harts[i] == hart;
                    if i < below.len() {
                        assert(below.contains(hart));
                    }
                }
                if 0 <= hart < cpu_num && hart != skip {
                    if hart == cpu_num - 1 {
                        assert(harts[below.len() as int] == hart);
                    } else {
                        assert(below.contains(hart));
                        let i = choose|i: int| 0 <= i < below.len() && below[i] == hart;
                        assert(harts[i] == hart);
                    }
                }
            }
            assert forall|i: int, j: int| 0 <= i < j < harts.len() implies harts[i] < harts[j] by {
                if j == below.len() {
                    assert(below.contains(below[i]));
                }
            }
        }
    } else {
        assert forall|hart: int| !#[trigger] harts.contains(hart) by {
            if harts.contains(hart) {
                let i = choose|i: int| 0 <= i < harts.len() && harts[i] == hart;
            }
        }
    }
}

/// The harts that `target` reaches, in the order in which they are signalled.
pub open spec fn target_harts(target: IpiTarget) -> Seq<int> {
    match target {
        IpiTarget::Current { cpu_id } => seq![cpu_id as int],
        IpiTarget::Other { cpu_id } => seq![cpu_id as int],
        IpiTarget::AllExceptCurrent { cpu_id, cpu_num } => harts_except(cpu_num as int, cpu_id as int),
    }
}

/// Whether every hart that `target` reaches has a bit in a mask based at
/// hart 0. For all harts but the sending one that is so where the harts
/// fill no more than a word, or fill one more with the sending hart last.
pub open spec fn is_addressable(target: IpiTarget) -> bool {
    match target {
        IpiTarget::Current { cpu_id } => cpu_id < usize::BITS,
        IpiTarget::Other { cpu_id } => cpu_id < usize::BITS,
        IpiTarget::AllExceptCurrent { cpu_id, cpu_num } => cpu_num <= usize::BITS || (cpu_num == usize::BITS + 1
            && cpu_id == usize::BITS),
    }
}

/// A target is addressable exactly if each hart that it reaches is below
/// the width of a word.
pub proof fn lemma_addressable_harts(target: IpiTarget)
    ensures
        is_addressable(target) <==> forall|hart: int| #[trigger]
            target_harts(target).contains(hart) ==> hart < usize::BITS,
{
    let harts = target_harts(target);
    let bits = usize::BITS as int;
    match target {
        IpiTarget::Current { cpu_id } => {
            assert(harts[0] == cpu_id);
            assert(harts.contains(cpu_id as int));
        },
        IpiTarget::Other { cpu_id } => {
            assert(harts[0] == cpu_id);
            assert(harts.contains(cpu_id as int));
        },
        IpiTarget::AllExceptCurrent { cpu_id, cpu_num } => {
            lemma_harts_except(cpu_num as int, cpu_id as int);
            if is_addressable(target) {
                assert forall|hart: int| #[trigger] harts.contains(hart) implies hart < bits by {}
            } else if cpu_id == bits {
                assert(harts.contains(bits + 1));
            } else {
                assert(harts.contains(bits));
            }
        },
    }
}

/// Whether a mask of `mask` and `base` selects the hart `hart`: either the
/// base is the all-harts marker, or `hart` lies within a word's width above
/// the base and its bit is set.
pub open spec fn selects(mask: usize, base: usize, hart: usize) -> bool {
    ||| base == usize::MAX
    ||| {
        &&& hart >= base
        &&& hart - base < usize::BITS
        &&& mask & (1usize << ((hart - base) as usize)) != 0
    }
}

/// The harts that a mask of `mask` and `base` selects.
pub open spec fn selected_harts(mask: usize, base: usize) -> Set<int> {
    Set::new(|hart: int| 0 <= hart <= usize::MAX && selects(mask, base, hart as usize))
}

/// `HartMask`, the hart selection that a firmware call takes. Nothing is
/// known of a mask but what the functions below state.
#[verifier::external_type_specification]
#[verifier::external_body]
#[verifier::reject_recursive_types(T)]
pub struct ExHartMask<T>(HartMask<T>);

/// The harts that a `HartMask` selects: those for which its `has_bit` holds.
pub uninterp spec fn mask_harts(mask: HartMask<usize>) -> Set<int>;

/// The hart that the lowest bit of a `HartMask` stands for.
pub uninterp spec fn mask_base(mask: HartMask<usize>) -> int;

/// `HartMask::from_mask_base`: the mask based at `base` that selects the
/// harts whose bit, counted from `base`, is set in `mask`, or every hart
/// where `base` is the all-harts marker.
#[verifier::external_body]
fn hart_mask(mask: usize, base: usize) -> (selection: HartMask<usize>)
    ensures
        mask_harts(selection) == selected_harts(mask, base),
        mask_base(selection) == base,
{
    HartMask::from_mask_base(mask, base)
}

/// A mask with the single bit `hart`, based at hart 0, selects `hart` alone.
pub proof fn lemma_single_bit_selects_one(hart: usize)
    requires
        hart < usize::BITS,
    ensures
        selected_harts(1usize << hart, 0) =~= set![hart as int],
{
    assert forall|other: int| #[trigger]
        selected_harts(1usize << hart, 0).contains(other) <==> other == hart as int by {
        if 0 <= other <= usize::MAX {
            let k = other as usize;
            if k < usize::BITS {
                assert(((1usize << hart) & (1usize << k) != 0) <==> hart == k) by (bit_vector)
                    requires
                        hart < usize::BITS,
                        k < usize::BITS,
                ;
            }
        }
    }
}

/// The mask based at hart 0 that selects the hart `hart` alone.
pub fn single_hart_mask(hart: usize) -> (selection: HartMask<usize>)
    requires
        hart < usize::BITS,
    ensures
        mask_harts(selection) == set![hart as int],
        mask_base(selection) == 0,
{
    proof {
        lemma_single_bit_selects_one(hart);
    }
    hart_mask(1usize << hart, 0)
}

/// Tells whether `target` can be handed to [`send_ipi`].
pub fn can_address(target: IpiTarget) -> (addressable: bool)
    ensures
        addressable == is_addressable(target),
{
    let bits = usize::BITS as usize;
    match target {
        IpiTarget::Current { cpu_id } => cpu_id < bits,
        IpiTarget::Other { cpu_id } => cpu_id < bits,
        IpiTarget::AllExceptCurrent { cpu_id, cpu_num } => cpu_num <= bits || (cpu_num - 1 == bits && cpu_id
            == bits),
    }
}

/// Whether `mask` is based at hart 0 and selects the hart `hart` alone.
pub open spec fn is_single_hart_mask(mask: HartMask<usize>, hart: int) -> bool {
    mask_harts(mask) == set![hart] && mask_base(mask) == 0
}

/// Plans the sends that signal `target`: one single-hart mask per hart to
/// reach, in rising order of hart id. A failed send does not stop the
/// caller from making the remaining ones.
pub fn send_ipi(target: IpiTarget) -> (masks: Vec<HartMask<usize>>)
    requires
        is_addressable(target),
    ensures
        masks@.len() == target_harts(target).len(),
        forall|k: int| 0 <= k < masks@.len() ==> is_single_hart_mask(#[trigger] masks@[k], target_harts(target)[k]),
{
    match target {
        IpiTarget::Current { cpu_id } => vec![single_hart_mask(cpu_id)],
        IpiTarget::Other { cpu_id } => vec![single_hart_mask(cpu_id)],
        IpiTarget::AllExceptCurrent { cpu_id, cpu_num } => {
            let mut masks: Vec<HartMask<usize>> = Vec::new();
            let mut hart: usize = 0;
            while hart < cpu_num
                invariant
                    hart <= cpu_num,
                    cpu_num <= usize::BITS || (cpu_num == usize::BITS + 1 && cpu_id == usize::BITS),
                    masks@.len() == harts_except(hart as int, cpu_id as int).len(),
                    forall|k: int|
                        0 <= k < masks@.len() ==> is_single_hart_mask(
                            #[trigger] masks@[k],
                            harts_except(hart as int, cpu_id as int)[k],
                        ),
                decreases cpu_num - hart,
            {
                if hart != cpu_id {
                    let mask = single_hart_mask(hart);
                    masks.push(mask);
                }
                hart += 1;
            }
            masks
        },
    }
}

} // verus!
