//! Strategy-driven dynamic memory management: allocation accounting, live
//! pressure and fragmentation metrics, compression and defragmentation
//! passes, and adaptive strategy selection.

use vstd::prelude::*;
use crate::errors::KernelError;

verus! {

/// How the allocator trades speed against fragmentation.
#[derive(Debug, Clone, Copy, PartialEq, Eq, Structural)]
pub enum AllocationStrategy {
    /// First fit: fastest, may fragment.
    Performance,
    /// Best fit: slower, less fragmentation.
    Efficiency,
    /// Runs a compression pass before allocating.
    Compact,
    /// Adapts among the other three from pressure and fragmentation.
    Balanced,
}

/// Classification attached to each allocation request; not enforced by a
/// hard partition here, the caller owns the distinction.
#[derive(Debug, Clone, Copy, PartialEq, Eq, Structural)]
pub enum MemoryRegionType {
    KernelCode,
    KernelData,
    UserSpace,
    DeviceMemory,
    SharedMemory,
}

/// A snapshot of the allocator's accounting.
#[derive(Debug, Clone, PartialEq, Eq, Structural)]
pub struct DynamicMemoryStats {
    pub total_memory: u64,
    pub used_memory: u64,
    pub allocation_count: u64,
    pub deallocation_count: u64,
    pub fragmentation_level: u32,
    pub memory_pressure: u32,
}

/// Integer percentage of the pool in use.
pub open spec fn usage_pct(used: int, total: int) -> int {
    used * 100 / total
}

/// The pressure metric: `round(0.7 * usage_pct + 0.3 * fragmentation)`,
/// clamped to 0 to 100.
pub open spec fn pressure_of(used: int, total: int, fragmentation: int) -> int {
    let p = (7 * usage_pct(used, total) + 3 * fragmentation + 5) / 10;
    if p > 100 {
        100
    } else {
        p
    }
}

/// Fragmentation after one compression pass: when compression is enabled it
/// shrinks by a fixed decrement of 10, but never below the floor of 20;
/// fragmentation already at or below 20 is left alone.
pub open spec fn compressed_frag(frag: int, enabled: bool) -> int {
    if enabled && frag > 20 {
        if frag - 10 > 20 {
            frag - 10
        } else {
            20
        }
    } else {
        frag
    }
}

/// Fragmentation after one defragmentation pass: halved when it exceeds 30.
pub open spec fn defragmented_frag(frag: int) -> int {
    if frag > 30 {
        frag / 2
    } else {
        frag
    }
}

/// The strategy the `Balanced` policy resolves to: `Compact` under high
/// pressure or high fragmentation, `Performance` when both are low, and
/// `Efficiency` otherwise.
pub open spec fn balanced_choice(pressure: int, fragmentation: int) -> AllocationStrategy {
    if pressure > 70 || fragmentation > 70 {
        AllocationStrategy::Compact
    } else if pressure < 30 && fragmentation < 30 {
        AllocationStrategy::Performance
    } else {
        AllocationStrategy::Efficiency
    }
}

/// The concrete strategy an allocation runs under: `Balanced` resolves by
/// `balanced_choice`, every other strategy stands for itself.
pub open spec fn effective_strategy(
    strategy: AllocationStrategy,
    pressure: int,
    fragmentation: int,
) -> AllocationStrategy {
    if strategy == AllocationStrategy::Balanced {
        balanced_choice(pressure, fragmentation)
    } else {
        strategy
    }
}

/// Where a bump allocation of `size` bytes aligned to `align` lands in a
/// pool of `total` bytes whose cursor stands at `next`: the aligned start
/// and the new cursor, or nothing when the pool cannot hold it.
pub open spec fn bump_result(next: int, total: int, size: int, align: int) -> Option<(int, int)> {
    let start = next + ((align - next % align) % align);
    if start + size <= total {
        Some((start, start + size))
    } else {
        None
    }
}

/// Fragmentation after the compression passes an allocation may run: one
/// pass when pressure exceeds 80 on entry, and one more when the effective
/// strategy is `Compact` and pressure exceeds 50.
pub open spec fn frag_after_alloc_passes(
    strategy: AllocationStrategy,
    pressure: int,
    frag: int,
    compression: bool,
) -> int {
    let f1 = if pressure > 80 {
        compressed_frag(frag, compression)
    } else {
        frag
    };
    if effective_strategy(strategy, pressure, f1) == AllocationStrategy::Compact && pressure > 50 {
        compressed_frag(f1, compression)
    } else {
        f1
    }
}

/// Allocation accounting: `size` more bytes in use, one more allocation.
pub open spec fn alloc_accounting(used: int, allocations: int, size: int) -> (int, int) {
    (used + size, allocations + 1)
}

/// Deallocation accounting: `size` bytes returned, one more deallocation.
pub open spec fn dealloc_accounting(used: int, deallocations: int, size: int) -> (int, int) {
    (used - size, deallocations + 1)
}

/// Allocating and then deallocating the same layout returns the used-memory
/// accounting exactly to its pre-allocation value, and leaves the difference
/// between allocation and deallocation counts unchanged across the pair.
pub proof fn lemma_alloc_dealloc_roundtrip(used: int, allocations: int, deallocations: int, size: int)
    ensures
        ({
            let (u1, a1) = alloc_accounting(used, allocations, size);
            let (u2, d2) = dealloc_accounting(u1, deallocations, size);
            u2 == used && a1 - d2 == allocations - deallocations
        }),
{
}

/// The dynamic memory manager: a bump-allocated pool with live accounting,
/// pressure and fragmentation metrics, and strategy-driven allocation.
pub struct DynamicMemoryManager {
    total_memory: u64,
    used_memory: u64,
    next_offset: u64,
    allocation_count: u64,
    deallocation_count: u64,
    fragmentation_level: u32,
    memory_pressure: u32,
    compression_enabled: bool,
    strategy: AllocationStrategy,
}

impl DynamicMemoryManager {
    /// Size of the managed pool in bytes.
    pub closed spec fn total(&self) -> u64 {
        self.total_memory
    }

    /// Bytes currently accounted as live.
    pub closed spec fn used(&self) -> u64 {
        self.used_memory
    }

    /// The bump cursor: bytes of the pool handed out so far, alignment
    /// padding included.
    pub closed spec fn cursor(&self) -> u64 {
        self.next_offset
    }

    /// Number of allocations served.
    pub closed spec fn allocations(&self) -> u64 {
        self.allocation_count
    }

    /// Number of deallocations served.
    pub closed spec fn deallocations(&self) -> u64 {
        self.deallocation_count
    }

    /// The fragmentation metric, 0 to 100.
    pub closed spec fn fragmentation(&self) -> u32 {
        self.fragmentation_level
    }

    /// The pressure metric, 0 to 100.
    pub closed spec fn pressure(&self) -> u32 {
        self.memory_pressure
    }

    /// Whether compression passes may run.
    pub closed spec fn compression(&self) -> bool {
        self.compression_enabled
    }

    /// The configured allocation strategy.
    pub closed spec fn strategy(&self) -> AllocationStrategy {
        self.strategy
    }

    /// The accounting is consistent: live bytes never exceed the cursor,
    /// the cursor never leaves the pool, and the metrics are percentages.
    pub open spec fn wf(&self) -> bool {
        &&& 0 < self.total() <= u64::MAX as int / 100
        &&& self.used() <= self.cursor() <= self.total()
        &&& self.fragmentation() <= 100
        &&& self.pressure() <= 100
    }

    /// A fresh manager over a pool of `total_memory` bytes: nothing in use,
    /// metrics at zero, compression enabled, `Balanced` strategy.
    pub fn new(total_memory: u64) -> (m: DynamicMemoryManager)
        requires
            0 < total_memory <= u64::MAX / 100,
        ensures
            m.wf(),
            m.total() == total_memory,
            m.used() == 0,
            m.cursor() == 0,
            m.allocations() == 0,
            m.deallocations() == 0,
            m.fragmentation() == 0,
            m.pressure() == 0,
            m.compression(),
            m.strategy() == AllocationStrategy::Balanced,
    {
        DynamicMemoryManager {
            total_memory,
            used_memory: 0,
            next_offset: 0,
            allocation_count: 0,
            deallocation_count: 0,
            fragmentation_level: 0,
            memory_pressure: 0,
            compression_enabled: true,
            strategy: AllocationStrategy::Balanced,
        }
    }

    /// Serves an allocation of `size` bytes aligned to `align`, returning
    /// the pool offset of the block. When pressure exceeds 80 a compression
    /// pass runs first; the request is then served under the effective
    /// strategy (a `Compact` allocation under pressure above 50 compresses
    /// once more); on success the accounting and the pressure are updated.
    /// Fails with `ResourceExhausted`, changing nothing but the
    /// fragmentation the compression passes already reduced, exactly when
    /// the pool cannot hold the aligned block.
    pub fn smart_allocate(&mut self, size: usize, align: usize, region_type: MemoryRegionType)
        -> (r: Result<u64, KernelError>)
        requires
            old(self).wf(),
            align > 0,
            old(self).allocations() < u64::MAX,
        ensures
            final(self).wf(),
            final(self).total() == old(self).total(),
            final(self).deallocations() == old(self).deallocations(),
            final(self).compression() == old(self).compression(),
            final(self).strategy() == old(self).strategy(),
            final(self).fragmentation() == frag_after_alloc_passes(
                old(self).strategy(),
                old(self).pressure() as int,
                old(self).fragmentation() as int,
                old(self).compression(),
            ),
            ({
                let outcome = bump_result(
                    old(self).cursor() as int,
                    old(self).total() as int,
                    size as int,
                    align as int,
                );
                match outcome {
                    Some((start, new_cursor)) => {
                        &&& r == Result::<u64, KernelError>::Ok(start as u64)
                        &&& final(self).cursor() == new_cursor
                        &&& (final(self).used() as int, final(self).allocations() as int)
                            == alloc_accounting(
                            old(self).used() as int,
                            old(self).allocations() as int,
                            size as int,
                        )
                        &&& final(self).pressure() == pressure_of(
                            final(self).used() as int,
                            final(self).total() as int,
                            final(self).fragmentation() as int,
                        )
                    },
                    None => {
                        &&& r == Result::<u64, KernelError>::Err(KernelError::ResourceExhausted)
                        &&& final(self).cursor() == old(self).cursor()
                        &&& final(self).used() == old(self).used()
                        &&& final(self).allocations() == old(self).allocations()
                        &&& final(self).pressure() == old(self).pressure()
                    },
                }
            }),
    {
        if self.memory_pressure > 80 {
            self.perform_memory_compression();
        }
        let strategy = self.get_current_strategy();
        let effective = if matches!(strategy, AllocationStrategy::Balanced) {
            self.balanced_strategy_choice()
        } else {
            strategy
        };
        if matches!(effective, AllocationStrategy::Compact) && self.memory_pressure > 50 {
            self.perform_memory_compression();
        }
        let block = self.bump_allocate(size, align);
        match block {
            Some(start) => {
                self.allocation_count = self.allocation_count + 1;
                self.used_memory = self.used_memory + size as u64;
                self.update_memory_pressure();
                Ok(start)
            },
            None => Err(KernelError::ResourceExhausted),
        }
    }

    /// Returns a block of `size` bytes: the accounting is reversed, a
    /// fragmentation above 60 triggers a defragmentation pass, and the
    /// pressure is recomputed. The block at `ptr` must have been returned by
    /// a matching allocation.
    pub fn smart_deallocate(&mut self, ptr: u64, size: usize)
        requires
            old(self).wf(),
            old(self).deallocations() < u64::MAX,
            size as u64 <= old(self).used(),
        ensures
            final(self).wf(),
            final(self).total() == old(self).total(),
            final(self).cursor() == old(self).cursor(),
            final(self).allocations() == old(self).allocations(),
            final(self).compression() == old(self).compression(),
            final(self).strategy() == old(self).strategy(),
            (final(self).used() as int, final(self).deallocations() as int) == dealloc_accounting(
                old(self).used() as int,
                old(self).deallocations() as int,
                size as int,
            ),
            final(self).fragmentation() == (if old(self).fragmentation() > 60 {
                defragmented_frag(old(self).fragmentation() as int)
            } else {
                old(self).fragmentation() as int
            }),
            final(self).pressure() == pressure_of(
                final(self).used() as int,
                final(self).total() as int,
                final(self).fragmentation() as int,
            ),
    {
        self.deallocation_count = self.deallocation_count + 1;
        self.used_memory = self.used_memory - size as u64;
        if self.fragmentation_level > 60 {
            self.perform_defragmentation();
        }
        self.update_memory_pressure();
    }

    /// The bump step shared by the strategy-specific allocators: aligns the
    /// cursor, hands out the block, advances the cursor. Returns nothing,
    /// and changes nothing, when the pool cannot hold the aligned block.
    fn bump_allocate(&mut self, size: usize, align: usize) -> (r: Option<u64>)
        requires
            old(self).wf(),
            align > 0,
        ensures
            final(self).total() == old(self).total(),
            final(self).used() == old(self).used(),
            final(self).allocations() == old(self).allocations(),
            final(self).deallocations() == old(self).deallocations(),
            final(self).fragmentation() == old(self).fragmentation(),
            final(self).pressure() == old(self).pressure(),
            final(self).compression() == old(self).compression(),
            final(self).strategy() == old(self).strategy(),
            ({
                let outcome = bump_result(
                    old(self).cursor() as int,
                    old(self).total() as int,
                    size as int,
                    align as int,
                );
                match outcome {
                    Some((start, new_cursor)) => r == Option::<u64>::Some(start as u64)
                        && final(self).cursor() == new_cursor,
                    None => r is None && final(self).cursor() == old(self).cursor(),
                }
            }),
    {
        let align64 = align as u64;
        let pad = (align64 - self.next_offset % align64) % align64;
        if pad <= u64::MAX - self.next_offset {
            let start = self.next_offset + pad;
            if start <= self.total_memory && size as u64 <= self.total_memory - start {
                self.next_offset = start + size as u64;
                return Some(start);
            }
        }
        proof {
            let start = old(self).cursor() as int + (
            (align as int - old(self).cursor() as int % align as int) % align as int);
            assert(start + size as int > old(self).total() as int);
        }
        None
    }

    /// One compression pass: with compression enabled, fragmentation above
    /// 20 shrinks by 10, to no less than the floor of 20.
    fn perform_memory_compression(&mut self)
        ensures
            final(self).fragmentation() == compressed_frag(
                old(self).fragmentation() as int,
                old(self).compression(),
            ),
            final(self).total() == old(self).total(),
            final(self).used() == old(self).used(),
            final(self).cursor() == old(self).cursor(),
            final(self).allocations() == old(self).allocations(),
            final(self).deallocations() == old(self).deallocations(),
            final(self).pressure() == old(self).pressure(),
            final(self).compression() == old(self).compression(),
            final(self).strategy() == old(self).strategy(),
    {
        if self.compression_enabled {
            let current = self.fragmentation_level;
            if current > 20 {
                self.fragmentation_level = if current - 10 > 20 {
                    current - 10
                } else {
                    20
                };
            }
        }
    }

    /// One defragmentation pass: fragmentation above 30 is halved.
    fn perform_defragmentation(&mut self)
        ensures
            final(self).fragmentation() == defragmented_frag(old(self).fragmentation() as int),
            final(self).total() == old(self).total(),
            final(self).used() == old(self).used(),
            final(self).cursor() == old(self).cursor(),
            final(self).allocations() == old(self).allocations(),
            final(self).deallocations() == old(self).deallocations(),
            final(self).pressure() == old(self).pressure(),
            final(self).compression() == old(self).compression(),
            final(self).strategy() == old(self).strategy(),
    {
        let current = self.fragmentation_level;
        if current > 30 {
            self.fragmentation_level = current / 2;
        }
    }

    /// Recomputes the pressure metric from the current accounting.
    fn update_memory_pressure(&mut self)
        requires
            0 < old(self).total() <= u64::MAX as int / 100,
            old(self).used() <= old(self).total(),
            old(self).fragmentation() <= 100,
        ensures
            final(self).pressure() == pressure_of(
                old(self).used() as int,
                old(self).total() as int,
                old(self).fragmentation() as int,
            ),
            final(self).total() == old(self).total(),
            final(self).used() == old(self).used(),
            final(self).cursor() == old(self).cursor(),
            final(self).allocations() == old(self).allocations(),
            final(self).deallocations() == old(self).deallocations(),
            final(self).fragmentation() == old(self).fragmentation(),
            final(self).compression() == old(self).compression(),
            final(self).strategy() == old(self).strategy(),
    {
        proof {
            let used = old(self).used() as int;
            let total = old(self).total() as int;
            assert(used * 100 / total <= 100) by (nonlinear_arith)
                requires
                    0 < total,
                    used <= total,
            ;
        }
        let usage = self.used_memory * 100 / self.total_memory;
        let raw = (7 * usage + 3 * self.fragmentation_level as u64 + 5) / 10;
        self.memory_pressure = if raw > 100 {
            100
        } else {
            raw as u32
        };
    }

    /// The strategy the `Balanced` policy currently resolves to.
    fn balanced_strategy_choice(&self) -> (s: AllocationStrategy)
        ensures
            s == balanced_choice(self.pressure() as int, self.fragmentation() as int),
    {
        if self.memory_pressure > 70 || self.fragmentation_level > 70 {
            AllocationStrategy::Compact
        } else if self.memory_pressure < 30 && self.fragmentation_level < 30 {
            AllocationStrategy::Performance
        } else {
            AllocationStrategy::Efficiency
        }
    }

    /// The configured strategy.
    fn get_current_strategy(&self) -> (s: AllocationStrategy)
        ensures
            s == self.strategy(),
    {
        self.strategy
    }

    /// Reconfigures the allocation strategy.
    pub fn set_allocation_strategy(&mut self, strategy: AllocationStrategy)
        requires
            old(self).wf(),
        ensures
            final(self).wf(),
            final(self).strategy() == strategy,
            final(self).total() == old(self).total(),
            final(self).used() == old(self).used(),
            final(self).cursor() == old(self).cursor(),
            final(self).allocations() == old(self).allocations(),
            final(self).deallocations() == old(self).deallocations(),
            final(self).fragmentation() == old(self).fragmentation(),
            final(self).pressure() == old(self).pressure(),
            final(self).compression() == old(self).compression(),
    {
        self.strategy = strategy;
    }

    /// Switches the compression passes on or off.
    pub fn set_compression_enabled(&mut self, enabled: bool)
        requires
            old(self).wf(),
        ensures
            final(self).wf(),
            final(self).compression() == enabled,
            final(self).total() == old(self).total(),
            final(self).used() == old(self).used(),
            final(self).cursor() == old(self).cursor(),
            final(self).allocations() == old(self).allocations(),
            final(self).deallocations() == old(self).deallocations(),
            final(self).fragmentation() == old(self).fragmentation(),
            final(self).pressure() == old(self).pressure(),
            final(self).strategy() == old(self).strategy(),
    {
        self.compression_enabled = enabled;
    }

    /// Records a fragmentation measurement from the telemetry producer and
    /// recomputes the pressure.
    pub fn set_fragmentation_level(&mut self, level: u32)
        requires
            old(self).wf(),
            level <= 100,
        ensures
            final(self).wf(),
            final(self).fragmentation() == level,
            final(self).pressure() == pressure_of(
                old(self).used() as int,
                old(self).total() as int,
                level as int,
            ),
            final(self).total() == old(self).total(),
            final(self).used() == old(self).used(),
            final(self).cursor() == old(self).cursor(),
            final(self).allocations() == old(self).allocations(),
            final(self).deallocations() == old(self).deallocations(),
            final(self).compression() == old(self).compression(),
            final(self).strategy() == old(self).strategy(),
    {
        self.fragmentation_level = level;
        self.update_memory_pressure();
    }

    /// A snapshot of the accounting.
    pub fn get_memory_stats(&self) -> (stats: DynamicMemoryStats)
        ensures
            stats.total_memory == self.total(),
            stats.used_memory == self.used(),
            stats.allocation_count == self.allocations(),
            stats.deallocation_count == self.deallocations(),
            stats.fragmentation_level == self.fragmentation(),
            stats.memory_pressure == self.pressure(),
    {
        DynamicMemoryStats {
            total_memory: self.total_memory,
            used_memory: self.used_memory,
            allocation_count: self.allocation_count,
            deallocation_count: self.deallocation_count,
            fragmentation_level: self.fragmentation_level,
            memory_pressure: self.memory_pressure,
        }
    }
}

/// Size of the boot-time pool in bytes: one gigabyte.
pub const BOOT_POOL_BYTES: u64 = 0x4000_0000;

/// Boot-time construction of the dynamic memory manager over the
/// one-gigabyte kernel pool.
pub fn init_dynamic_memory() -> (m: DynamicMemoryManager)
    ensures
        m.wf(),
        m.total() == BOOT_POOL_BYTES,
        m.used() == 0,
        m.allocations() == 0,
        m.deallocations() == 0,
{
    DynamicMemoryManager::new(BOOT_POOL_BYTES)
}

/// The strategy the `Balanced` policy resolves to for a pressure and
/// fragmentation pair: `Compact` when either exceeds 70, `Performance` when
/// both are under 30, and `Efficiency` otherwise.
pub fn select_balanced_strategy(pressure: u32, fragmentation: u32) -> (s: AllocationStrategy)
    ensures
        s == balanced_choice(pressure as int, fragmentation as int),
{
    if pressure > 70 || fragmentation > 70 {
        AllocationStrategy::Compact
    } else if pressure < 30 && fragmentation < 30 {
        AllocationStrategy::Performance
    } else {
        AllocationStrategy::Efficiency
    }
}

/// Serves an allocation through the given manager; see
/// `DynamicMemoryManager::smart_allocate`.
pub fn smart_allocate(
    manager: &mut DynamicMemoryManager,
    size: usize,
    align: usize,
    region_type: MemoryRegionType,
) -> (r: Result<u64, KernelError>)
    requires
        old(manager).wf(),
        align > 0,
        old(manager).allocations() < u64::MAX,
    ensures
        final(manager).wf(),
        ({
            let outcome = bump_result(
                old(manager).cursor() as int,
                old(manager).total() as int,
                size as int,
                align as int,
            );
            match outcome {
                Some((start, new_cursor)) => r == Result::<u64, KernelError>::Ok(start as u64)
                    && final(manager).used() == old(manager).used() + size,
                None => r == Result::<u64, KernelError>::Err(KernelError::ResourceExhausted)
                    && final(manager).used() == old(manager).used(),
            }
        }),
{
    manager.smart_allocate(size, align, region_type)
}

/// Returns a block through the given manager; see
/// `DynamicMemoryManager::smart_deallocate`.
pub fn smart_deallocate(manager: &mut DynamicMemoryManager, ptr: u64, size: usize)
    requires
        old(manager).wf(),
        old(manager).deallocations() < u64::MAX,
        size as u64 <= old(manager).used(),
    ensures
        final(manager).wf(),
        final(manager).used() == old(manager).used() - size,
{
    manager.smart_deallocate(ptr, size)
}

/// A snapshot of the given manager's accounting.
pub fn get_dynamic_memory_stats(manager: &DynamicMemoryManager) -> (stats: DynamicMemoryStats)
    ensures
        stats.total_memory == manager.total(),
        stats.used_memory == manager.used(),
        stats.allocation_count == manager.allocations(),
        stats.deallocation_count == manager.deallocations(),
        stats.fragmentation_level == manager.fragmentation(),
        stats.memory_pressure == manager.pressure(),
{
    manager.get_memory_stats()
}

} // verus!
