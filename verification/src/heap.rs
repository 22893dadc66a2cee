//! Heap accounting: the summary that the kernel's buddy-system heap reports.
//! The heap itself is initialised and queried by the embedding, which hands
//! the raw counters here to be checked and completed.

use vstd::prelude::*;

verus! {

/// Size of the kernel heap in bytes: eight megabytes.
pub const HEAP_SIZE: usize = 0x80_0000;

/// A summary of heap usage: the free size is exactly what the used size
/// leaves of the total.
#[derive(Debug, Clone, Copy, PartialEq, Eq, Structural)]
pub struct HeapInfo {
    pub total_size: usize,
    pub used_size: usize,
    pub free_size: usize,
}

impl HeapInfo {
    /// Assembles a consistent summary from the allocator's counters.
    pub fn new(total_size: usize, used_size: usize) -> (info: HeapInfo)
        requires
            used_size <= total_size,
        ensures
            info.total_size == total_size,
            info.used_size == used_size,
            info.free_size == total_size - used_size,
            info.used_size + info.free_size == info.total_size,
    {
        HeapInfo { total_size, used_size, free_size: total_size - used_size }
    }
}

/// The heap summary from the allocator's total and used byte counters; a
/// used count beyond the total (which a correct allocator never reports) is
/// clamped to the total.
pub fn heap_info(total_size: usize, used_size: usize) -> (info: HeapInfo)
    ensures
        info.total_size == total_size,
        info.used_size == (if used_size <= total_size {
            used_size as int
        } else {
            total_size as int
        }),
        info.used_size + info.free_size == info.total_size,
{
    let used = if used_size <= total_size {
        used_size
    } else {
        total_size
    };
    HeapInfo::new(total_size, used)
}

} // verus!
