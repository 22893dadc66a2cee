//! The kernel's simple bump allocator over a fixed pool: the fallback
//! allocation path behind the dynamic memory manager.

use vstd::prelude::*;

verus! {

/// Size of the simple allocator's pool in bytes: one megabyte.
pub const SIMPLE_POOL_BYTES: usize = 0x10_0000;

/// Where a bump allocation lands: the cursor rounded up to the alignment.
pub open spec fn aligned_start(next: int, align: int) -> int {
    next + ((align - next % align) % align)
}

/// A bump allocator over a fixed pool: allocation rounds the cursor up to
/// the requested alignment and advances it; deallocation is a no-op, the
/// pool is reclaimed only by `reset`.
pub struct SimpleAllocator {
    pool_size: usize,
    next: usize,
}

impl SimpleAllocator {
    /// Size of the pool in bytes.
    pub closed spec fn spec_pool_size(&self) -> usize {
        self.pool_size
    }

    /// The bump cursor: bytes handed out so far, padding included.
    pub closed spec fn spec_next(&self) -> usize {
        self.next
    }

    /// The cursor stays within the pool.
    pub open spec fn wf(&self) -> bool {
        self.spec_next() <= self.spec_pool_size()
    }

    /// A fresh allocator over the fixed one-megabyte pool.
    pub fn new() -> (a: SimpleAllocator)
        ensures
            a.wf(),
            a.spec_pool_size() == SIMPLE_POOL_BYTES,
            a.spec_next() == 0,
    {
        SimpleAllocator { pool_size: SIMPLE_POOL_BYTES, next: 0 }
    }

    /// Allocates `size` bytes aligned to `align`, returning the pool offset
    /// of the block, or nothing exactly when the aligned block does not fit
    /// the remaining pool (in which case nothing changes).
    pub fn allocate(&mut self, size: usize, align: usize) -> (r: Option<usize>)
        requires
            old(self).wf(),
            align > 0,
        ensures
            final(self).wf(),
            final(self).spec_pool_size() == old(self).spec_pool_size(),
            aligned_start(old(self).spec_next() as int, align as int) + size <= old(
                self,
            ).spec_pool_size() ==> r == Some(
                aligned_start(old(self).spec_next() as int, align as int) as usize,
            ) && final(self).spec_next() == aligned_start(
                old(self).spec_next() as int,
                align as int,
            ) + size,
            aligned_start(old(self).spec_next() as int, align as int) + size > old(
                self,
            ).spec_pool_size() ==> r is None && final(self).spec_next() == old(self).spec_next(),
    {
        let pad = (align - self.next % align) % align;
        if pad <= usize::MAX - self.next {
            let start = self.next + pad;
            if start <= self.pool_size && size <= self.pool_size - start {
                self.next = start + size;
                return Some(start);
            }
        }
        proof {
            let start = aligned_start(old(self).spec_next() as int, align as int);
            assert(start + size > old(self).spec_pool_size());
        }
        None
    }

    /// Deallocation is a no-op: the bump pool reclaims nothing until
    /// `reset`.
    pub fn deallocate(&mut self, offset: usize, size: usize)
        requires
            old(self).wf(),
        ensures
            *final(self) == *old(self),
    {
    }

    /// Returns the whole pool: the cursor goes back to the start.
    pub fn reset(&mut self)
        ensures
            final(self).wf(),
            final(self).spec_next() == 0,
            final(self).spec_pool_size() == old(self).spec_pool_size(),
    {
        self.next = 0;
    }

    /// Bytes of the pool handed out so far.
    pub fn used(&self) -> (n: usize)
        ensures
            n == self.spec_next(),
    {
        self.next
    }
}

} // verus!
