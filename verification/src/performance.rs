//! Performance tooling: an operation timer, a fixed memory pool, optimised
//! algorithms, and an access-counting cache wrapper.

use vstd::prelude::*;
use crate::utils::sorted;

verus! {

/// Accumulates operation timings from the hardware timer, in microseconds.
pub struct PerformanceMonitor {
    start_time: Option<u64>,
    total_operations: u64,
    total_duration: u64,
}

impl PerformanceMonitor {
    /// The timestamp of the running measurement, if one is open.
    pub closed spec fn spec_start(&self) -> Option<u64> {
        self.start_time
    }

    /// How many measurements have completed.
    pub closed spec fn spec_operations(&self) -> u64 {
        self.total_operations
    }

    /// The summed duration of all completed measurements.
    pub closed spec fn spec_total(&self) -> u64 {
        self.total_duration
    }

    /// A monitor with no measurement open and nothing accumulated.
    pub fn new() -> (m: PerformanceMonitor)
        ensures
            m.spec_start() is None,
            m.spec_operations() == 0,
            m.spec_total() == 0,
    {
        PerformanceMonitor { start_time: None, total_operations: 0, total_duration: 0 }
    }

    /// Opens a measurement at the given timer reading.
    pub fn start_timing(&mut self, now: u64)
        ensures
            final(self).spec_start() == Some(now),
            final(self).spec_operations() == old(self).spec_operations(),
            final(self).spec_total() == old(self).spec_total(),
    {
        self.start_time = Some(now);
    }

    /// Closes the open measurement at the given timer reading and returns
    /// its duration; with no measurement open, zero, and nothing changes.
    pub fn stop_timing(&mut self, now: u64) -> (duration: u64)
        requires
            old(self).spec_start() matches Some(start) ==> start <= now && old(self).spec_total()
                + (now - start) <= u64::MAX && old(self).spec_operations() < u64::MAX,
        ensures
            old(self).spec_start() matches Some(start) ==> {
                &&& duration == now - start
                &&& final(self).spec_start() is None
                &&& final(self).spec_operations() == old(self).spec_operations() + 1
                &&& final(self).spec_total() == old(self).spec_total() + duration
            },
            old(self).spec_start() is None ==> duration == 0 && *final(self) == *old(self),
    {
        match self.start_time {
            Some(start) => {
                let duration = now - start;
                self.start_time = None;
                self.total_operations = self.total_operations + 1;
                self.total_duration = self.total_duration + duration;
                duration
            },
            None => 0,
        }
    }

    /// The mean duration of the completed measurements; zero before the
    /// first.
    pub fn average_duration(&self) -> (avg: u64)
        ensures
            self.spec_operations() > 0 ==> avg == self.spec_total() as int / self.spec_operations()
                as int,
            self.spec_operations() == 0 ==> avg == 0,
    {
        if self.total_operations > 0 {
            self.total_duration / self.total_operations
        } else {
            0
        }
    }
}

/// Size of the fixed pool in bytes.
pub const MEMORY_POOL_BYTES: usize = 1024;

/// A fixed pool carved out front to back; `reset` reclaims everything at
/// once.
pub struct MemoryPool {
    used: usize,
}

impl MemoryPool {
    /// Bytes handed out since the last reset.
    pub closed spec fn spec_used(&self) -> usize {
        self.used
    }

    /// The pool never over-commits.
    pub open spec fn wf(&self) -> bool {
        self.spec_used() <= MEMORY_POOL_BYTES
    }

    /// An empty pool.
    pub fn new() -> (p: MemoryPool)
        ensures
            p.wf(),
            p.spec_used() == 0,
    {
        MemoryPool { used: 0 }
    }

    /// Hands out `size` bytes from the front of the free space, returning
    /// the block's offset, or nothing exactly when the pool cannot hold it
    /// (in which case nothing changes).
    pub fn allocate(&mut self, size: usize) -> (r: Option<usize>)
        requires
            old(self).wf(),
        ensures
            final(self).wf(),
            old(self).spec_used() + size <= MEMORY_POOL_BYTES ==> r == Some(old(self).spec_used())
                && final(self).spec_used() == old(self).spec_used() + size,
            old(self).spec_used() + size > MEMORY_POOL_BYTES ==> r is None && final(self).spec_used() == old(self).spec_used(),
    {
        if size <= MEMORY_POOL_BYTES - self.used {
            let offset = self.used;
            self.used = self.used + size;
            Some(offset)
        } else {
            None
        }
    }

    /// Returns the whole pool.
    pub fn reset(&mut self)
        ensures
            final(self).wf(),
            final(self).spec_used() == 0,
    {
        self.used = 0;
    }
}

/// Optimised algorithm implementations.
pub struct AlgorithmOptimizer;

impl AlgorithmOptimizer {
    /// Sorts in ascending order; the result holds exactly the argument's
    /// values.
    pub fn quick_sort(arr: &mut Vec<u64>)
        ensures
            sorted(final(arr)@),
            final(arr)@.to_multiset() == old(arr)@.to_multiset(),
    {
        crate::utils::quick_sort(arr)
    }

    /// Binary search over an ascending vector: the position of the target
    /// when it is present, nothing exactly when it is absent.
    pub fn binary_search(arr: &Vec<u64>, target: u64) -> (r: Option<usize>)
        requires
            sorted(arr@),
        ensures
            match r {
                Some(i) => i < arr@.len() && arr@[i as int] == target,
                None => forall|i: int| 0 <= i < arr@.len() ==> #[trigger] arr@[i] != target,
            },
    {
        let mut left: usize = 0;
        let mut right: usize = arr.len();
        while left < right
            invariant
                sorted(arr@),
                0 <= left <= right <= arr@.len(),
                forall|i: int| 0 <= i < left ==> #[trigger] arr@[i] < target,
                forall|i: int| right <= i < arr@.len() ==> #[trigger] arr@[i] > target,
            decreases right - left,
        {
            let mid = left + (right - left) / 2;
            if arr[mid] == target {
                return Some(mid);
            } else if arr[mid] < target {
                proof {
                    assert forall|i: int| 0 <= i < mid + 1 implies #[trigger] arr@[i]
                        < target by {
                        if i < mid {
                            assert(arr@[i] <= arr@[mid as int]);
                        }
                    }
                }
                left = mid + 1;
            } else {
                proof {
                    assert forall|i: int| mid <= i < arr@.len() implies #[trigger] arr@[i]
                        > target by {
                        if i > mid {
                            assert(arr@[mid as int] <= arr@[i]);
                        }
                    }
                }
                right = mid;
            }
        }
        None
    }
}

/// Wraps a value and counts accesses to it, with the timer reading of the
/// last access.
pub struct CacheOptimized<T> {
    data: T,
    last_access: u64,
    access_count: u32,
}

impl<T> CacheOptimized<T> {
    /// The wrapped value.
    pub closed spec fn spec_data(&self) -> T {
        self.data
    }

    /// The timer reading of the last access.
    pub closed spec fn spec_last_access(&self) -> u64 {
        self.last_access
    }

    /// How many accesses have been counted.
    pub closed spec fn spec_access_count(&self) -> u32 {
        self.access_count
    }

    /// Wraps a value with no accesses counted.
    pub fn new(data: T) -> (c: CacheOptimized<T>)
        ensures
            c.spec_data() == data,
            c.spec_last_access() == 0,
            c.spec_access_count() == 0,
    {
        CacheOptimized { data, last_access: 0, access_count: 0 }
    }

    /// Reads the value, counting the access at the given timer reading.
    pub fn get(&mut self, now: u64) -> (r: &T)
        requires
            old(self).spec_access_count() < u32::MAX,
        ensures
            *r == final(self).spec_data(),
            final(self).spec_data() == old(self).spec_data(),
            final(self).spec_last_access() == now,
            final(self).spec_access_count() == old(self).spec_access_count() + 1,
    {
        self.last_access = now;
        self.access_count = self.access_count + 1;
        &self.data
    }

    /// The last-access timer reading and the access count.
    pub fn access_stats(&self) -> (stats: (u64, u32))
        ensures
            stats.0 == self.spec_last_access(),
            stats.1 == self.spec_access_count(),
    {
        (self.last_access, self.access_count)
    }
}

} // verus!
