//! Container accounting policies that estimate rather than query: capacity-
//! based approximations and per-node computed overheads.
//!
//! These mirror containers whose backing layout gives no stable buffer
//! address to hand to the allocator.  Each model holds its elements in a
//! plain sequence together with the capacity the container reported, and its
//! policy is documented as an estimate: a lower bound for the double-ended
//! sequence, a bucket-less approximation for the hashed containers, and a
//! node-overhead formula for the linked sequence; the ordered tree mapping
//! explicitly leaves its internal node overhead out.

use vstd::prelude::*;

use crate::allocator::UsableSize;
use crate::measure::HeapSizeOf;
use crate::owned::{all_measurable, sum_children};
use vstd::layout::size_of;

verus! {

/// A double-ended growable sequence, which exposes no stable buffer pointer.
///
/// The policy is an approximation: `capacity * size_of(element)` for the
/// backing ring, plus the sum of the element children.  It is a documented
/// lower bound, not an exact figure.
pub struct Deque<T> {
    /// The capacity the container reported: at least the element count.
    pub capacity: usize,
    /// The owned elements, front to back.
    pub items: Vec<T>,
}

impl<T> Deque<T> {
    /// The model is well formed when the reported capacity covers the
    /// elements, as the container it stands for guarantees.
    pub open spec fn wf(&self) -> bool {
        self.items@.len() <= self.capacity
    }
}

impl<A: UsableSize, T: HeapSizeOf<A>> HeapSizeOf<A> for Deque<T> {
    open spec fn measurable(&self, a: &A) -> bool {
        self.wf() && all_measurable(self.items@, a)
    }

    open spec fn spec_children(&self, a: &A) -> nat {
        (self.capacity * size_of::<T>() + sum_children(self.items@, a)) as nat
    }

    fn heap_size_of_children(&self, heap_size_of: &A) -> usize {
        let ring = self.capacity * core::mem::size_of::<T>();
        let elements = crate::owned::slice_children(self.items.as_slice(), heap_size_of);
        ring + elements
    }
}

/// A hash-keyed set of values.
///
/// The policy is an approximation that ignores the actual bucket and
/// metadata layout: `capacity * (size_of(value) + size_of(one word))` for
/// the table, plus the sum of the element children.
pub struct HashedSet<T> {
    /// The capacity the container reported: at least the element count.
    pub capacity: usize,
    /// The owned elements, in the table's iteration order.
    pub items: Vec<T>,
}

impl<T> HashedSet<T> {
    /// The model is well formed when the reported capacity covers the
    /// elements, as the container it stands for guarantees.
    pub open spec fn wf(&self) -> bool {
        self.items@.len() <= self.capacity
    }
}

impl<A: UsableSize, T: HeapSizeOf<A>> HeapSizeOf<A> for HashedSet<T> {
    open spec fn measurable(&self, a: &A) -> bool {
        self.wf() && all_measurable(self.items@, a)
    }

    open spec fn spec_children(&self, a: &A) -> nat {
        (self.capacity * (size_of::<T>() + size_of::<usize>()) + sum_children(self.items@, a))
            as nat
    }

    fn heap_size_of_children(&self, heap_size_of: &A) -> usize {
        let table: usize;
        if self.capacity == 0 {
            table = 0;
        } else {
            proof {
                vstd::arithmetic::mul::lemma_mul_inequality(
                    1,
                    self.capacity as int,
                    (size_of::<T>() + size_of::<usize>()) as int,
                );
            }
            let slot = core::mem::size_of::<T>() + core::mem::size_of::<usize>();
            table = self.capacity * slot;
        }
        let elements = crate::owned::slice_children(self.items.as_slice(), heap_size_of);
        table + elements
    }
}

/// A hash-keyed mapping from keys to values.
///
/// The policy is an approximation that ignores the actual bucket and
/// metadata layout: `capacity * (size_of(key) + size_of(value) +
/// size_of(one word))` for the table, plus the children of every key and
/// value.
pub struct HashedMap<K, V> {
    /// The capacity the container reported: at least the entry count.
    pub capacity: usize,
    /// The owned entries, in the table's iteration order.
    pub entries: Vec<(K, V)>,
}

impl<K, V> HashedMap<K, V> {
    /// The model is well formed when the reported capacity covers the
    /// entries, as the container it stands for guarantees.
    pub open spec fn wf(&self) -> bool {
        self.entries@.len() <= self.capacity
    }
}

impl<A: UsableSize, K: HeapSizeOf<A>, V: HeapSizeOf<A>> HeapSizeOf<A> for HashedMap<K, V> {
    open spec fn measurable(&self, a: &A) -> bool {
        self.wf() && all_measurable(self.entries@, a)
    }

    open spec fn spec_children(&self, a: &A) -> nat {
        (self.capacity * (size_of::<K>() + size_of::<V>() + size_of::<usize>()) + sum_children(
            self.entries@,
            a,
        )) as nat
    }

    fn heap_size_of_children(&self, heap_size_of: &A) -> usize {
        let table: usize;
        if self.capacity == 0 {
            table = 0;
        } else {
            proof {
                vstd::arithmetic::mul::lemma_mul_inequality(
                    1,
                    self.capacity as int,
                    (size_of::<K>() + size_of::<V>() + size_of::<usize>()) as int,
                );
            }
            let slot = core::mem::size_of::<K>() + core::mem::size_of::<V>()
                + core::mem::size_of::<usize>();
            table = self.capacity * slot;
        }
        let elements = crate::owned::slice_children(self.entries.as_slice(), heap_size_of);
        table + elements
    }
}

/// The per-element children of a linked sequence: two pointer-words of node
/// overhead, the element's inline size, and the element's own children,
/// summed over all nodes.
pub open spec fn linked_children<A: UsableSize, T: HeapSizeOf<A>>(items: Seq<T>, a: &A) -> nat
    decreases items.len(),
{
    if items.len() == 0 {
        0
    } else {
        (2 * size_of::<usize>() + size_of::<T>() + items[0].spec_children(a) + linked_children(
            items.drop_first(),
            a,
        )) as nat
    }
}

/// A linked sequence: one node allocation per element.
///
/// The policy is a pure computed estimate and never queries the allocator:
/// per node, two pointer-words of overhead plus the element's inline size
/// plus the element's children.
pub struct Linked<T> {
    /// The owned elements, front to back.
    pub items: Vec<T>,
}

impl<A: UsableSize, T: HeapSizeOf<A>> HeapSizeOf<A> for Linked<T> {
    open spec fn measurable(&self, a: &A) -> bool {
        all_measurable(self.items@, a)
    }

    open spec fn spec_children(&self, a: &A) -> nat {
        linked_children(self.items@, a)
    }

    fn heap_size_of_children(&self, heap_size_of: &A) -> usize {
        let ghost total = linked_children(self.items@, heap_size_of);
        let mut sum: usize = 0;
        let mut i: usize = 0;
        proof {
            assert(self.items@.skip(0) =~= self.items@);
        }
        while i < self.items.len()
            invariant
                i <= self.items.len(),
                all_measurable(self.items@, heap_size_of),
                sum + linked_children(self.items@.skip(i as int), heap_size_of) == total,
                total <= usize::MAX,
            decreases self.items.len() - i,
        {
            proof {
                assert(self.items@.skip(i as int)[0] == self.items@[i as int]);
                assert(self.items@.skip(i as int).drop_first() =~= self.items@.skip(i + 1));
            }
            let node = 2 * core::mem::size_of::<usize>() + core::mem::size_of::<T>();
            sum = sum + node + self.items[i].heap_size_of_children(heap_size_of);
            i = i + 1;
        }
        proof {
            assert(self.items@.skip(i as int).len() == 0);
        }
        sum
    }
}

/// The per-entry children of an ordered tree mapping: the inline size of the
/// key-value pair plus the children of the key and of the value, summed over
/// all entries.
pub open spec fn tree_children<A: UsableSize, K: HeapSizeOf<A>, V: HeapSizeOf<A>>(
    entries: Seq<(K, V)>,
    a: &A,
) -> nat
    decreases entries.len(),
{
    if entries.len() == 0 {
        0
    } else {
        (size_of::<(K, V)>() + entries[0].spec_children(a) + tree_children(
            entries.drop_first(),
            a,
        )) as nat
    }
}

/// An ordered tree mapping from keys to values.
///
/// The policy charges, per entry, the inline size of the key-value pair plus
/// the children of the key and of the value.  The tree's internal node
/// overhead is explicitly not accounted for (a documented gap).
pub struct OrderedMap<K, V> {
    /// The owned entries, in key order.
    pub entries: Vec<(K, V)>,
}

impl<A: UsableSize, K: HeapSizeOf<A>, V: HeapSizeOf<A>> HeapSizeOf<A> for OrderedMap<K, V> {
    open spec fn measurable(&self, a: &A) -> bool {
        all_measurable(self.entries@, a)
    }

    open spec fn spec_children(&self, a: &A) -> nat {
        tree_children(self.entries@, a)
    }

    fn heap_size_of_children(&self, heap_size_of: &A) -> usize {
        let ghost total = tree_children(self.entries@, heap_size_of);
        let mut sum: usize = 0;
        let mut i: usize = 0;
        proof {
            assert(self.entries@.skip(0) =~= self.entries@);
        }
        while i < self.entries.len()
            invariant
                i <= self.entries.len(),
                all_measurable(self.entries@, heap_size_of),
                sum + tree_children(self.entries@.skip(i as int), heap_size_of) == total,
                total <= usize::MAX,
            decreases self.entries.len() - i,
        {
            proof {
                assert(self.entries@.skip(i as int)[0] == self.entries@[i as int]);
                assert(self.entries@.skip(i as int).drop_first() =~= self.entries@.skip(i + 1));
            }
            let pair = core::mem::size_of::<(K, V)>();
            sum = sum + pair + self.entries[i].heap_size_of_children(heap_size_of);
            i = i + 1;
        }
        proof {
            assert(self.entries@.skip(i as int).len() == 0);
        }
        sum
    }
}

/// A runtime-checked mutable-borrow cell.
///
/// Measuring reads the cell, so it follows the cell's own borrowing
/// discipline: a cell whose value is exclusively borrowed elsewhere cannot be
/// measured, exactly as any other conflicting borrow would fail, and that
/// state is excluded by the measurement precondition.  Otherwise the cell
/// delegates to the value it guards.
pub struct BorrowCell<T> {
    /// The guarded value.
    pub value: T,
    /// True while the value is exclusively borrowed elsewhere.
    pub mutably_borrowed: bool,
}

impl<A: UsableSize, T: HeapSizeOf<A>> HeapSizeOf<A> for BorrowCell<T> {
    open spec fn measurable(&self, a: &A) -> bool {
        !self.mutably_borrowed && self.value.measurable(a)
    }

    open spec fn spec_children(&self, a: &A) -> nat {
        self.value.spec_children(a)
    }

    fn heap_size_of_children(&self, heap_size_of: &A) -> usize {
        self.value.heap_size_of_children(heap_size_of)
    }
}

} // verus!
