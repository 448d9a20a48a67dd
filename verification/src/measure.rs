//! The measurement capability, and its implementations for known-shallow
//! leaves and for the plain composite shapes that own no heap of their own.
//!
//! A value's *children size* counts only its heap-owned descendants, never
//! the value's own inline footprint.  The operation is total over the values
//! its precondition admits, infallible, and free of side effects: its result
//! is pinned to a pure function of the value and the allocator, so measuring
//! an unmutated value twice yields the same answer.

use vstd::prelude::*;

use crate::allocator::UsableSize;

verus! {

/// The measurement capability: report the heap size of a value's children.
///
/// `spec_children` is the mathematical children size of the value under a
/// given allocator, and the exec method returns exactly it.  `measurable`
/// collects the policy's preconditions: every owned non-sentinel block
/// address is live in the allocator, and no conflicting borrow is held.
pub trait HeapSizeOf<A: UsableSize>: Sized {
    /// The preconditions of measuring this value against the allocator `a`:
    /// every owned block address is live, transitively.
    spec fn measurable(&self, a: &A) -> bool;

    /// The children size of this value under the allocator `a`: the bytes of
    /// every heap block the value transitively owns.
    spec fn spec_children(&self, a: &A) -> nat;

    /// Measure the size of the heap-allocated structures that hang off this
    /// value, but not the space taken up by the value itself.
    fn heap_size_of_children(&self, heap_size_of: &A) -> (size: usize)
        requires
            self.measurable(heap_size_of),
            self.spec_children(heap_size_of) <= usize::MAX,
        ensures
            size == self.spec_children(heap_size_of),
    ;
}

// ---------------------------------------------------------------------------
// Known-shallow leaves.
//
// Each of these types owns no heap: its contribution is the registered
// constant 0, never computed.  These are the hand-written expansions of the
// batch registration of the primitive leaf types; `register` emits the same
// implementation text for types of other crates.
// ---------------------------------------------------------------------------

/// A known-shallow leaf: its contribution is the registered constant 0.
impl<A: UsableSize> HeapSizeOf<A> for u8 {
    open spec fn measurable(&self, a: &A) -> bool {
        true
    }

    open spec fn spec_children(&self, a: &A) -> nat {
        0
    }

    fn heap_size_of_children(&self, heap_size_of: &A) -> usize {
        0
    }
}

/// A known-shallow leaf: its contribution is the registered constant 0.
impl<A: UsableSize> HeapSizeOf<A> for u16 {
    open spec fn measurable(&self, a: &A) -> bool {
        true
    }

    open spec fn spec_children(&self, a: &A) -> nat {
        0
    }

    fn heap_size_of_children(&self, heap_size_of: &A) -> usize {
        0
    }
}

/// A known-shallow leaf: its contribution is the registered constant 0.
impl<A: UsableSize> HeapSizeOf<A> for u32 {
    open spec fn measurable(&self, a: &A) -> bool {
        true
    }

    open spec fn spec_children(&self, a: &A) -> nat {
        0
    }

    fn heap_size_of_children(&self, heap_size_of: &A) -> usize {
        0
    }
}

/// A known-shallow leaf: its contribution is the registered constant 0.
impl<A: UsableSize> HeapSizeOf<A> for u64 {
    open spec fn measurable(&self, a: &A) -> bool {
        true
    }

    open spec fn spec_children(&self, a: &A) -> nat {
        0
    }

    fn heap_size_of_children(&self, heap_size_of: &A) -> usize {
        0
    }
}

/// A known-shallow leaf: its contribution is the registered constant 0.
impl<A: UsableSize> HeapSizeOf<A> for usize {
    open spec fn measurable(&self, a: &A) -> bool {
        true
    }

    open spec fn spec_children(&self, a: &A) -> nat {
        0
    }

    fn heap_size_of_children(&self, heap_size_of: &A) -> usize {
        0
    }
}

/// A known-shallow leaf: its contribution is the registered constant 0.
impl<A: UsableSize> HeapSizeOf<A> for i8 {
    open spec fn measurable(&self, a: &A) -> bool {
        true
    }

    open spec fn spec_children(&self, a: &A) -> nat {
        0
    }

    fn heap_size_of_children(&self, heap_size_of: &A) -> usize {
        0
    }
}

/// A known-shallow leaf: its contribution is the registered constant 0.
impl<A: UsableSize> HeapSizeOf<A> for i16 {
    open spec fn measurable(&self, a: &A) -> bool {
        true
    }

    open spec fn spec_children(&self, a: &A) -> nat {
        0
    }

    fn heap_size_of_children(&self, heap_size_of: &A) -> usize {
        0
    }
}

/// A known-shallow leaf: its contribution is the registered constant 0.
impl<A: UsableSize> HeapSizeOf<A> for i32 {
    open spec fn measurable(&self, a: &A) -> bool {
        true
    }

    open spec fn spec_children(&self, a: &A) -> nat {
        0
    }

    fn heap_size_of_children(&self, heap_size_of: &A) -> usize {
        0
    }
}

/// A known-shallow leaf: its contribution is the registered constant 0.
impl<A: UsableSize> HeapSizeOf<A> for i64 {
    open spec fn measurable(&self, a: &A) -> bool {
        true
    }

    open spec fn spec_children(&self, a: &A) -> nat {
        0
    }

    fn heap_size_of_children(&self, heap_size_of: &A) -> usize {
        0
    }
}

/// A known-shallow leaf: its contribution is the registered constant 0.
impl<A: UsableSize> HeapSizeOf<A> for isize {
    open spec fn measurable(&self, a: &A) -> bool {
        true
    }

    open spec fn spec_children(&self, a: &A) -> nat {
        0
    }

    fn heap_size_of_children(&self, heap_size_of: &A) -> usize {
        0
    }
}

/// A known-shallow leaf: its contribution is the registered constant 0.
impl<A: UsableSize> HeapSizeOf<A> for bool {
    open spec fn measurable(&self, a: &A) -> bool {
        true
    }

    open spec fn spec_children(&self, a: &A) -> nat {
        0
    }

    fn heap_size_of_children(&self, heap_size_of: &A) -> usize {
        0
    }
}

/// A known-shallow leaf: its contribution is the registered constant 0.
impl<A: UsableSize> HeapSizeOf<A> for char {
    open spec fn measurable(&self, a: &A) -> bool {
        true
    }

    open spec fn spec_children(&self, a: &A) -> nat {
        0
    }

    fn heap_size_of_children(&self, heap_size_of: &A) -> usize {
        0
    }
}

/// A known-shallow leaf: its contribution is the registered constant 0.
impl<A: UsableSize> HeapSizeOf<A> for core::sync::atomic::AtomicBool {
    open spec fn measurable(&self, a: &A) -> bool {
        true
    }

    open spec fn spec_children(&self, a: &A) -> nat {
        0
    }

    fn heap_size_of_children(&self, heap_size_of: &A) -> usize {
        0
    }
}

/// A known-shallow leaf: its contribution is the registered constant 0.
impl<A: UsableSize> HeapSizeOf<A> for core::sync::atomic::AtomicIsize {
    open spec fn measurable(&self, a: &A) -> bool {
        true
    }

    open spec fn spec_children(&self, a: &A) -> nat {
        0
    }

    fn heap_size_of_children(&self, heap_size_of: &A) -> usize {
        0
    }
}

/// A known-shallow leaf: its contribution is the registered constant 0.
impl<A: UsableSize> HeapSizeOf<A> for core::sync::atomic::AtomicUsize {
    open spec fn measurable(&self, a: &A) -> bool {
        true
    }

    open spec fn spec_children(&self, a: &A) -> nat {
        0
    }

    fn heap_size_of_children(&self, heap_size_of: &A) -> usize {
        0
    }
}

// ---------------------------------------------------------------------------
// Inline values with no heap indirection of their own.
// ---------------------------------------------------------------------------

/// The unit type has no components: it contributes 0.
impl<A: UsableSize> HeapSizeOf<A> for () {
    open spec fn measurable(&self, a: &A) -> bool {
        true
    }

    open spec fn spec_children(&self, a: &A) -> nat {
        0
    }

    fn heap_size_of_children(&self, heap_size_of: &A) -> usize {
        0
    }
}

/// A zero-sized marker owns nothing: it contributes 0.
impl<A: UsableSize, T> HeapSizeOf<A> for core::marker::PhantomData<T> {
    open spec fn measurable(&self, a: &A) -> bool {
        true
    }

    open spec fn spec_children(&self, a: &A) -> nat {
        0
    }

    fn heap_size_of_children(&self, heap_size_of: &A) -> usize {
        0
    }
}

// ---------------------------------------------------------------------------
// Borrowed values.
// ---------------------------------------------------------------------------

/// A borrowed reference does not own its referent: whether the referent is a
/// live heap block, and who owns it, is unknown here, so it must never be
/// traversed for sizing.  The contribution is always 0.
impl<'a, A: UsableSize, T> HeapSizeOf<A> for &'a T {
    open spec fn measurable(&self, a: &A) -> bool {
        true
    }

    open spec fn spec_children(&self, a: &A) -> nat {
        0
    }

    fn heap_size_of_children(&self, heap_size_of: &A) -> usize {
        0
    }
}

// ---------------------------------------------------------------------------
// Wrappers that delegate to the alternative they hold.
// ---------------------------------------------------------------------------

/// An optional value delegates to the present alternative; an absent one
/// contributes 0.
impl<A: UsableSize, T: HeapSizeOf<A>> HeapSizeOf<A> for Option<T> {
    open spec fn measurable(&self, a: &A) -> bool {
        match self {
            Some(x) => x.measurable(a),
            None => true,
        }
    }

    open spec fn spec_children(&self, a: &A) -> nat {
        match self {
            Some(x) => x.spec_children(a),
            None => 0,
        }
    }

    fn heap_size_of_children(&self, heap_size_of: &A) -> usize {
        match self {
            Some(x) => x.heap_size_of_children(heap_size_of),
            None => 0,
        }
    }
}

/// A fallible result delegates to whichever alternative is present.
impl<A: UsableSize, T: HeapSizeOf<A>, E: HeapSizeOf<A>> HeapSizeOf<A> for Result<T, E> {
    open spec fn measurable(&self, a: &A) -> bool {
        match self {
            Ok(x) => x.measurable(a),
            Err(e) => e.measurable(a),
        }
    }

    open spec fn spec_children(&self, a: &A) -> nat {
        match self {
            Ok(x) => x.spec_children(a),
            Err(e) => e.spec_children(a),
        }
    }

    fn heap_size_of_children(&self, heap_size_of: &A) -> usize {
        match self {
            Ok(x) => x.heap_size_of_children(heap_size_of),
            Err(e) => e.heap_size_of_children(heap_size_of),
        }
    }
}

/// A copy-on-write wrapper: the borrowed alternative is not owned and
/// contributes 0; the owned alternative delegates to its value.
pub enum MaybeOwned<T> {
    /// The value is borrowed from elsewhere and not owned here.
    Borrowed,
    /// The value is owned, and its children are owned with it.
    Owned(T),
}

impl<A: UsableSize, T: HeapSizeOf<A>> HeapSizeOf<A> for MaybeOwned<T> {
    open spec fn measurable(&self, a: &A) -> bool {
        match self {
            MaybeOwned::Borrowed => true,
            MaybeOwned::Owned(x) => x.measurable(a),
        }
    }

    open spec fn spec_children(&self, a: &A) -> nat {
        match self {
            MaybeOwned::Borrowed => 0,
            MaybeOwned::Owned(x) => x.spec_children(a),
        }
    }

    fn heap_size_of_children(&self, heap_size_of: &A) -> usize {
        match self {
            MaybeOwned::Borrowed => 0,
            MaybeOwned::Owned(x) => x.heap_size_of_children(heap_size_of),
        }
    }
}

// ---------------------------------------------------------------------------
// Fixed tuples: the sum of the components' children.
// ---------------------------------------------------------------------------

impl<A: UsableSize, T1: HeapSizeOf<A>, T2: HeapSizeOf<A>> HeapSizeOf<A> for (T1, T2) {
    open spec fn measurable(&self, a: &A) -> bool {
        self.0.measurable(a) && self.1.measurable(a)
    }

    open spec fn spec_children(&self, a: &A) -> nat {
        self.0.spec_children(a) + self.1.spec_children(a)
    }

    fn heap_size_of_children(&self, heap_size_of: &A) -> usize {
        self.0.heap_size_of_children(heap_size_of) + self.1.heap_size_of_children(heap_size_of)
    }
}

impl<A: UsableSize, T1: HeapSizeOf<A>, T2: HeapSizeOf<A>, T3: HeapSizeOf<A>> HeapSizeOf<A> for (
    T1,
    T2,
    T3,
) {
    open spec fn measurable(&self, a: &A) -> bool {
        self.0.measurable(a) && self.1.measurable(a) && self.2.measurable(a)
    }

    open spec fn spec_children(&self, a: &A) -> nat {
        self.0.spec_children(a) + self.1.spec_children(a) + self.2.spec_children(a)
    }

    fn heap_size_of_children(&self, heap_size_of: &A) -> usize {
        self.0.heap_size_of_children(heap_size_of) + self.1.heap_size_of_children(heap_size_of)
            + self.2.heap_size_of_children(heap_size_of)
    }
}

impl<
    A: UsableSize,
    T1: HeapSizeOf<A>,
    T2: HeapSizeOf<A>,
    T3: HeapSizeOf<A>,
    T4: HeapSizeOf<A>,
> HeapSizeOf<A> for (T1, T2, T3, T4) {
    open spec fn measurable(&self, a: &A) -> bool {
        self.0.measurable(a) && self.1.measurable(a) && self.2.measurable(a) && self.3.measurable(
            a,
        )
    }

    open spec fn spec_children(&self, a: &A) -> nat {
        self.0.spec_children(a) + self.1.spec_children(a) + self.2.spec_children(a)
            + self.3.spec_children(a)
    }

    fn heap_size_of_children(&self, heap_size_of: &A) -> usize {
        self.0.heap_size_of_children(heap_size_of) + self.1.heap_size_of_children(heap_size_of)
            + self.2.heap_size_of_children(heap_size_of) + self.3.heap_size_of_children(
            heap_size_of,
        )
    }
}

impl<
    A: UsableSize,
    T1: HeapSizeOf<A>,
    T2: HeapSizeOf<A>,
    T3: HeapSizeOf<A>,
    T4: HeapSizeOf<A>,
    T5: HeapSizeOf<A>,
> HeapSizeOf<A> for (T1, T2, T3, T4, T5) {
    open spec fn measurable(&self, a: &A) -> bool {
        self.0.measurable(a) && self.1.measurable(a) && self.2.measurable(a) && self.3.measurable(
            a,
        ) && self.4.measurable(a)
    }

    open spec fn spec_children(&self, a: &A) -> nat {
        self.0.spec_children(a) + self.1.spec_children(a) + self.2.spec_children(a)
            + self.3.spec_children(a) + self.4.spec_children(a)
    }

    fn heap_size_of_children(&self, heap_size_of: &A) -> usize {
        self.0.heap_size_of_children(heap_size_of) + self.1.heap_size_of_children(heap_size_of)
            + self.2.heap_size_of_children(heap_size_of) + self.3.heap_size_of_children(
            heap_size_of,
        ) + self.4.heap_size_of_children(heap_size_of)
    }
}

} // verus!
