//! Owning pointers and owned buffers: the accounting policies that consult
//! the allocator, and the shared owners that deliberately do not.
//!
//! An exclusive owner charges the block it frees on destruction, plus
//! whatever the pointee owns.  A shared owner delegates to the referent only:
//! the reference-counting control block is attributed to no owner, which
//! avoids counting it twice across owners at the price of never counting it.
//! A borrowed view sums element children only, since it does not own its
//! buffer.

use vstd::prelude::*;

use crate::allocator::{BlockPtr, UsableSize, do_heap_size_of, spec_block_size};
use crate::measure::HeapSizeOf;
use std::rc::Rc;
use std::sync::Arc;

verus! {

// ---------------------------------------------------------------------------
// Sums of element children.
// ---------------------------------------------------------------------------

/// Every element of `items` satisfies the preconditions of measurement.
pub open spec fn all_measurable<A: UsableSize, T: HeapSizeOf<A>>(items: Seq<T>, a: &A) -> bool {
    forall|i: int| 0 <= i < items.len() ==> #[trigger] items[i].measurable(a)
}

/// The sum of the children sizes of the elements of `items`.
pub open spec fn sum_children<A: UsableSize, T: HeapSizeOf<A>>(items: Seq<T>, a: &A) -> nat
    decreases items.len(),
{
    if items.len() == 0 {
        0
    } else {
        items[0].spec_children(a) + sum_children(items.drop_first(), a)
    }
}

/// Sum the children of the elements of a borrowed slice of values.
///
/// This is the policy of a non-owning view, and the element-wise expansion
/// that generated implementations use for a fixed-size array field: the view
/// does not own its buffer, so no allocator query is made, and each element
/// is measured individually.
pub fn slice_children<A: UsableSize, T: HeapSizeOf<A>>(items: &[T], heap_size_of: &A) -> (size:
    usize)
    requires
        all_measurable(items@, heap_size_of),
        sum_children(items@, heap_size_of) <= usize::MAX,
    ensures
        size == sum_children(items@, heap_size_of),
{
    let ghost total = sum_children(items@, heap_size_of);
    let mut sum: usize = 0;
    let mut i: usize = 0;
    proof {
        assert(items@.skip(0) =~= items@);
    }
    while i < items.len()
        invariant
            i <= items.len(),
            all_measurable(items@, heap_size_of),
            sum + sum_children(items@.skip(i as int), heap_size_of) == total,
            total <= usize::MAX,
        decreases items.len() - i,
    {
        proof {
            assert(items@.skip(i as int)[0] == items@[i as int]);
            assert(items@.skip(i as int).drop_first() =~= items@.skip(i + 1));
        }
        sum = sum + items[i].heap_size_of_children(heap_size_of);
        i = i + 1;
    }
    proof {
        assert(items@.skip(i as int).len() == 0);
    }
    sum
}

/// Sum the children of the elements of a fixed-size array, element by
/// element.
///
/// A fixed-size array has no capability implementation of its own for
/// arbitrary lengths, so an array field is always expanded this way rather
/// than measured through a single wrapped call.
pub fn array_children<A: UsableSize, T: HeapSizeOf<A>, const N: usize>(
    items: &[T; N],
    heap_size_of: &A,
) -> (size: usize)
    requires
        all_measurable(items@, heap_size_of),
        sum_children(items@, heap_size_of) <= usize::MAX,
    ensures
        size == sum_children(items@, heap_size_of),
{
    slice_children(items.as_slice(), heap_size_of)
}

// ---------------------------------------------------------------------------
// The exclusive heap owner.
// ---------------------------------------------------------------------------

/// An exclusive heap owner: one owner of one block, freed on destruction.
///
/// The policy is two-level: the allocator's usable size of the pointee's own
/// block, plus whatever the pointee owns in turn.  `ptr` is the block's
/// address as the allocator knows it; a zero-sized pointee has no block and
/// carries a sentinel address.
pub struct HeapBox<T> {
    /// The address of the block that holds the pointee.
    pub ptr: BlockPtr,
    /// The owned pointee.
    pub value: Box<T>,
}

impl<A: UsableSize, T: HeapSizeOf<A>> HeapSizeOf<A> for HeapBox<T> {
    open spec fn measurable(&self, a: &A) -> bool {
        &&& self.ptr.wf()
        &&& !self.ptr.is_sentinel() ==> a.live(self.ptr.addr)
        &&& (*self.value).measurable(a)
    }

    open spec fn spec_children(&self, a: &A) -> nat {
        (spec_block_size(a, self.ptr) + (*self.value).spec_children(a)) as nat
    }

    fn heap_size_of_children(&self, heap_size_of: &A) -> usize {
        do_heap_size_of(heap_size_of, self.ptr) + (*self.value).heap_size_of_children(
            heap_size_of,
        )
    }
}

// ---------------------------------------------------------------------------
// The owned character buffer.
// ---------------------------------------------------------------------------

/// An owned string: the characters live in one owned backing buffer.
///
/// The contribution is the buffer block's usable size; a never-allocated
/// (empty) string carries a sentinel address and resolves to 0 through the
/// same short-circuit as every other allocation-free state.
pub struct HeapString {
    /// The address of the backing buffer.
    pub ptr: BlockPtr,
    /// The owned characters.
    pub value: String,
}

impl<A: UsableSize> HeapSizeOf<A> for HeapString {
    open spec fn measurable(&self, a: &A) -> bool {
        &&& self.ptr.wf()
        &&& !self.ptr.is_sentinel() ==> a.live(self.ptr.addr)
    }

    open spec fn spec_children(&self, a: &A) -> nat {
        spec_block_size(a, self.ptr) as nat
    }

    fn heap_size_of_children(&self, heap_size_of: &A) -> usize {
        do_heap_size_of(heap_size_of, self.ptr)
    }
}

// ---------------------------------------------------------------------------
// The growable contiguous sequence.
// ---------------------------------------------------------------------------

/// A growable contiguous sequence: one owned backing buffer holding every
/// element inline.
///
/// The contribution is the allocator's usable size of the backing buffer plus
/// the sum of each element's own children.  A never-grown sequence carries a
/// sentinel address and contributes 0 for its buffer.
pub struct HeapVec<T> {
    /// The address of the backing buffer.
    pub ptr: BlockPtr,
    /// The owned elements.
    pub items: Vec<T>,
}

impl<A: UsableSize, T: HeapSizeOf<A>> HeapSizeOf<A> for HeapVec<T> {
    open spec fn measurable(&self, a: &A) -> bool {
        &&& self.ptr.wf()
        &&& !self.ptr.is_sentinel() ==> a.live(self.ptr.addr)
        &&& all_measurable(self.items@, a)
    }

    open spec fn spec_children(&self, a: &A) -> nat {
        (spec_block_size(a, self.ptr) + sum_children(self.items@, a)) as nat
    }

    fn heap_size_of_children(&self, heap_size_of: &A) -> usize {
        let block = do_heap_size_of(heap_size_of, self.ptr);
        let elements = slice_children(self.items.as_slice(), heap_size_of);
        block + elements
    }
}

// ---------------------------------------------------------------------------
// Shared heap owners.
// ---------------------------------------------------------------------------

/// A shared, atomically refcounted owner delegates to its referent only.
///
/// The shared control block is not attributed: counting it at every owner
/// would double-count it, and no owner is distinguished enough to carry it
/// alone, so it is never counted (a documented open issue of the policy).
impl<A: UsableSize, T: HeapSizeOf<A>> HeapSizeOf<A> for Arc<T> {
    open spec fn measurable(&self, a: &A) -> bool {
        (**self).measurable(a)
    }

    open spec fn spec_children(&self, a: &A) -> nat {
        (**self).spec_children(a)
    }

    fn heap_size_of_children(&self, heap_size_of: &A) -> usize {
        (**self).heap_size_of_children(heap_size_of)
    }
}

/// A sequence of shared, non-atomically refcounted owners.
///
/// What a single such shared pointer should be charged is deliberately left
/// undecided, so the pointer type itself has no implementation; a sequence of
/// them still charges the backing buffer that stores the pointers, and
/// nothing behind them (a documented simplification).
pub struct SharedSeq<T> {
    /// The address of the backing buffer that stores the shared pointers.
    pub ptr: BlockPtr,
    /// The owned sequence of shared pointers.
    pub items: Vec<Rc<T>>,
}

impl<A: UsableSize, T> HeapSizeOf<A> for SharedSeq<T> {
    open spec fn measurable(&self, a: &A) -> bool {
        &&& self.ptr.wf()
        &&& !self.ptr.is_sentinel() ==> a.live(self.ptr.addr)
    }

    open spec fn spec_children(&self, a: &A) -> nat {
        spec_block_size(a, self.ptr) as nat
    }

    fn heap_size_of_children(&self, heap_size_of: &A) -> usize {
        do_heap_size_of(heap_size_of, self.ptr)
    }
}

} // verus!
