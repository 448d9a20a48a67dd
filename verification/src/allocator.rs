//! The boundary to the allocator: the usable-size query and the sentinel
//! short-circuit that guards it.
//!
//! The allocator's own report of a live block's size is ground truth and is
//! never second-guessed.  Pointer-like owners carry a [`BlockPtr`]: the block's
//! address together with the alignment of the pointee.  An owner whose backing
//! state was never allocated uses a reserved non-null marker address no larger
//! than the alignment, and the query must not be invoked on such an address.

use vstd::prelude::*;

verus! {

/// The reserved marker address that stands for "no allocation" for a pointee
/// of alignment 1 (a byte buffer, for example).  Marker addresses are never
/// larger than the pointee's alignment, so they are recognised by
/// [`BlockPtr::is_sentinel`].
pub const EMPTY: usize = 1;

/// The address of a heap block as its owner knows it, together with the
/// alignment of the pointee.  An address no larger than the alignment is a
/// sentinel: it marks a state with no backing allocation.
#[derive(Clone, Copy, Debug)]
pub struct BlockPtr {
    /// The address of the block, as obtained from the allocator; or a
    /// reserved marker address (at most `align`) when nothing was allocated.
    pub addr: usize,
    /// The alignment of the pointee type.  Alignments are always at least 1,
    /// so a null or marker address never looks like a real block.
    pub align: usize,
}

impl BlockPtr {
    /// A pointer is well formed when its alignment is a real alignment.
    pub open spec fn wf(self) -> bool {
        self.align >= 1
    }

    /// True for the reserved marker addresses, which stand for "no backing
    /// allocation" and must never reach the allocator query.
    pub open spec fn is_sentinel(self) -> bool {
        self.addr <= self.align
    }
}

/// The allocator query: reports the usable size of a live heap block.
///
/// This is the one external collaborator of the measurement protocol.  The
/// query is read-only and deterministic over the allocator's state, which the
/// implementing type stands for.  `live(addr)` says that `addr` is the start
/// of a live allocation of this allocator: querying any other address is out
/// of contract, so the exec method requires it.
pub trait UsableSize: Sized {
    /// True when `addr` is the start of a live allocation of this allocator.
    spec fn live(&self, addr: usize) -> bool;

    /// The allocator's notion of the usable size of the block at `addr`.
    spec fn usable(&self, addr: usize) -> usize;

    /// Query the allocator for the usable size of the live block at `addr`.
    fn usable_size(&self, addr: usize) -> (size: usize)
        requires
            self.live(addr),
        ensures
            size == self.usable(addr),
    ;
}

/// The size of the block behind `ptr`: zero for a sentinel (no allocation),
/// and the allocator's usable-size answer otherwise.
pub open spec fn spec_block_size<A: UsableSize>(heap_size_of: &A, ptr: BlockPtr) -> usize {
    if ptr.is_sentinel() {
        0
    } else {
        heap_size_of.usable(ptr.addr)
    }
}

/// Get the size of a heap block, short-circuiting the reserved marker
/// addresses of allocation-free states to 0 before the allocator is asked.
///
/// The caller must ensure that a non-sentinel address is a live block of the
/// allocator that `heap_size_of` stands for; the sentinel addresses need no
/// such backing, and the query is provably never invoked on them.
pub fn do_heap_size_of<A: UsableSize>(heap_size_of: &A, ptr: BlockPtr) -> (size: usize)
    requires
        !ptr.is_sentinel() ==> heap_size_of.live(ptr.addr),
    ensures
        size == spec_block_size(heap_size_of, ptr),
{
    if ptr.addr <= ptr.align {
        0
    } else {
        heap_size_of.usable_size(ptr.addr)
    }
}

/// A table allocator: an [`UsableSize`] implementation backed by an explicit
/// list of blocks, each an address with its usable size.  Earlier entries win
/// when an address is listed twice.
pub struct AllocTable {
    /// The recorded blocks, each an address with its usable size.
    pub blocks: Vec<(usize, usize)>,
}

/// The first entry of `blocks` with address `addr`, if any, as its size.
pub open spec fn spec_find(blocks: Seq<(usize, usize)>, addr: usize) -> Option<usize>
    decreases blocks.len(),
{
    if blocks.len() == 0 {
        None
    } else if blocks[0].0 == addr {
        Some(blocks[0].1)
    } else {
        spec_find(blocks.drop_first(), addr)
    }
}

impl AllocTable {
    /// A table with no blocks: no address is live.
    pub fn new() -> (table: AllocTable)
        ensures
            forall|addr: usize| !table.live(addr),
    {
        let table = AllocTable { blocks: Vec::new() };
        proof {
            assert(forall|addr: usize| spec_find(table.blocks@, addr) is None);
        }
        table
    }

    /// Record a block: `addr` becomes live with usable size `size`; every
    /// other address keeps its previous state.
    pub fn insert(&mut self, addr: usize, size: usize)
        ensures
            final(self).live(addr),
            final(self).usable(addr) == size,
            forall|other: usize|
                other != addr ==> final(self).live(other) == old(self).live(other),
            forall|other: usize|
                other != addr ==> final(self).usable(other) == old(self).usable(other),
    {
        self.blocks.insert(0, (addr, size));
        proof {
            assert(self.blocks@.drop_first() =~= old(self).blocks@);
        }
    }
}

impl UsableSize for AllocTable {
    open spec fn live(&self, addr: usize) -> bool {
        spec_find(self.blocks@, addr) is Some
    }

    open spec fn usable(&self, addr: usize) -> usize {
        match spec_find(self.blocks@, addr) {
            Some(size) => size,
            None => 0,
        }
    }

    fn usable_size(&self, addr: usize) -> (size: usize) {
        let mut i: usize = 0;
        proof {
            assert(self.blocks@.skip(0) =~= self.blocks@);
        }
        while i < self.blocks.len()
            invariant
                i <= self.blocks.len(),
                spec_find(self.blocks@, addr) == spec_find(self.blocks@.skip(i as int), addr),
                spec_find(self.blocks@, addr) is Some,
            decreases self.blocks.len() - i,
        {
            let (a, s) = self.blocks[i];
            proof {
                assert(self.blocks@.skip(i as int)[0] == self.blocks@[i as int]);
            }
            if a == addr {
                return s;
            }
            proof {
                assert(self.blocks@.skip(i as int).drop_first() =~= self.blocks@.skip(i + 1));
            }
            i = i + 1;
        }
        proof {
            assert(self.blocks@.skip(i as int).len() == 0);
        }
        vstd::pervasive::unreached()
    }
}

} // verus!
