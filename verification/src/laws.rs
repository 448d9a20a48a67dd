//! Laws of the measurement policies.
//!
//! The capability's exec methods already pin each result to a pure spec
//! function of the value and the allocator — which is also why measuring the
//! same unmutated value twice yields identical results.  The proofs here
//! state what those spec functions amount to in the situations the policies
//! are designed around: an exclusive owner of a shallow pointee, and a
//! contiguous sequence of shallow elements.

use vstd::prelude::*;

use crate::allocator::UsableSize;
use crate::measure::HeapSizeOf;
use crate::owned::{HeapBox, HeapVec, sum_children};

verus! {

/// Measuring the same unmutated value twice yields identical results: the
/// capability pins every result to `spec_children`, a pure function of the
/// value and the allocator, so any two results of measuring the same value
/// against the same allocator coincide — there is no hidden state to mutate
/// across calls.
pub proof fn lemma_measurement_deterministic<A: UsableSize, T: HeapSizeOf<A>>(
    value: &T,
    a: &A,
    first: usize,
    second: usize,
)
    requires
        first == value.spec_children(a),
        second == value.spec_children(a),
    ensures
        first == second,
{
}

/// A sequence of values that each own no heap sums to no heap.
pub proof fn lemma_sum_children_of_shallow<A: UsableSize, T: HeapSizeOf<A>>(items: Seq<T>, a: &A)
    requires
        forall|i: int| 0 <= i < items.len() ==> (#[trigger] items[i]).spec_children(a) == 0,
    ensures
        sum_children(items, a) == 0,
    decreases items.len(),
{
    if items.len() > 0 {
        assert(forall|i: int|
            0 <= i < items.drop_first().len() ==> items.drop_first()[i] == items[i + 1]);
        lemma_sum_children_of_shallow(items.drop_first(), a);
    }
}

/// An exclusive heap owner wrapping a shallow pointee contributes exactly
/// the allocator's usable-size answer for its block: the pointee adds
/// nothing, and the block is ground truth.
pub proof fn lemma_exclusive_owner_of_shallow<A: UsableSize, T: HeapSizeOf<A>>(
    owner: &HeapBox<T>,
    a: &A,
)
    requires
        (*owner.value).spec_children(a) == 0,
        !owner.ptr.is_sentinel(),
    ensures
        owner.spec_children(a) == a.usable(owner.ptr.addr),
{
}

/// A growable contiguous sequence of elements that each contribute nothing
/// contributes exactly its backing buffer's usable size.
pub proof fn lemma_sequence_of_shallow<A: UsableSize, T: HeapSizeOf<A>>(seq: &HeapVec<T>, a: &A)
    requires
        forall|i: int|
            0 <= i < seq.items@.len() ==> (#[trigger] seq.items@[i]).spec_children(a) == 0,
        !seq.ptr.is_sentinel(),
    ensures
        seq.spec_children(a) == a.usable(seq.ptr.addr),
{
    lemma_sum_children_of_shallow(seq.items@, a);
}

/// An empty sequence whose backing state was never allocated contributes
/// exactly 0: the sentinel short-circuit answers before the allocator is
/// asked, whatever the allocator would say.
pub proof fn lemma_empty_sequence_contributes_nothing<A: UsableSize, T: HeapSizeOf<A>>(
    seq: &HeapVec<T>,
    a: &A,
)
    requires
        seq.items@.len() == 0,
        seq.ptr.is_sentinel(),
    ensures
        seq.spec_children(a) == 0,
{
}

} // verus!
