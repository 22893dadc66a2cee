//! Scenario tests for the dynamic allocator, the simple pool allocator, the
//! heap summary and the virtual-memory manager.

use starry_core::dynamic_memory::{
    get_dynamic_memory_stats, init_dynamic_memory, select_balanced_strategy, smart_allocate,
    smart_deallocate, AllocationStrategy, DynamicMemoryManager, MemoryRegionType,
};
use starry_core::errors::KernelError;
use starry_core::heap::{heap_info, HeapInfo, HEAP_SIZE};
use starry_core::memory::SimpleAllocator;
use starry_core::mmu::{
    MemoryAttribute, MemoryPermission, PageTableEntry, PageTableManager, ARENA_TABLES, PAGE_SIZE,
};

#[test]
fn pressure_formula_gives_seventy_one() {
    // usage ratio 80 percent, fragmentation 50: pressure must be 71
    let mut manager = DynamicMemoryManager::new(100);
    let block = manager.smart_allocate(80, 1, MemoryRegionType::KernelData);
    assert!(block.is_ok());
    manager.set_fragmentation_level(50);
    let stats = manager.get_memory_stats();
    assert_eq!(stats.used_memory, 80);
    assert_eq!(stats.fragmentation_level, 50);
    assert_eq!(stats.memory_pressure, 71);
}

#[test]
fn balanced_strategy_resolves_by_pressure_and_fragmentation() {
    assert_eq!(select_balanced_strategy(75, 75), AllocationStrategy::Compact);
    assert_eq!(select_balanced_strategy(20, 10), AllocationStrategy::Performance);
    assert_eq!(select_balanced_strategy(50, 50), AllocationStrategy::Efficiency);
    // either metric above 70 is enough for the compacting allocator
    assert_eq!(select_balanced_strategy(75, 10), AllocationStrategy::Compact);
    assert_eq!(select_balanced_strategy(10, 75), AllocationStrategy::Compact);
    // both must be low for the fast path
    assert_eq!(select_balanced_strategy(29, 30), AllocationStrategy::Efficiency);
}

#[test]
fn balanced_strategy_picks_compact_under_stress() {
    // pressure 75 or fragmentation 75 resolves to the compacting allocator;
    // observable through the compression pass it triggers: fragmentation 75
    // drops by 10 on the pressure-free compact path
    let mut manager = DynamicMemoryManager::new(1000);
    manager.set_fragmentation_level(75);
    let stats = manager.get_memory_stats();
    // pressure = (7*0 + 3*75 + 5)/10 = 23, fragmentation 75 -> Compact
    assert_eq!(stats.memory_pressure, 23);
    let block = manager.smart_allocate(10, 1, MemoryRegionType::KernelData);
    assert!(block.is_ok());
    // the compact path under pressure 23 compresses nothing, so the metric
    // keeps its value; the choice itself is pinned by the library's contract
    let after = manager.get_memory_stats();
    assert_eq!(after.fragmentation_level, 75);
    assert_eq!(after.allocation_count, 1);
}

#[test]
fn compression_runs_before_allocation_under_high_pressure() {
    let mut manager = DynamicMemoryManager::new(100);
    // fill 90 percent of the pool: usage 90, pressure (630+5)/10 = 63
    assert!(manager.smart_allocate(90, 1, MemoryRegionType::KernelData).is_ok());
    manager.set_fragmentation_level(80);
    // pressure = (7*90 + 3*80 + 5)/10 = 87 > 80: the next allocation
    // compresses first (80 -> 70); the balanced policy then resolves to
    // the compacting allocator, which compresses once more (70 -> 60)
    let block = manager.smart_allocate(5, 1, MemoryRegionType::KernelData);
    assert!(block.is_ok());
    let stats = manager.get_memory_stats();
    assert_eq!(stats.fragmentation_level, 60);
}

#[test]
fn allocate_then_deallocate_restores_used_memory() {
    let mut manager = init_dynamic_memory();
    let before = manager.get_memory_stats();
    let block = smart_allocate(&mut manager, 4096, 8, MemoryRegionType::UserSpace);
    let offset = block.expect("boot pool holds a page");
    let mid = get_dynamic_memory_stats(&manager);
    assert_eq!(mid.used_memory, before.used_memory + 4096);
    smart_deallocate(&mut manager, offset, 4096);
    let after = get_dynamic_memory_stats(&manager);
    // used memory returns exactly to its pre-allocation value
    assert_eq!(after.used_memory, before.used_memory);
    // the allocation/deallocation difference is unchanged net of the pair
    assert_eq!(
        after.allocation_count - after.deallocation_count,
        before.allocation_count - before.deallocation_count
    );
}

#[test]
fn exhausted_pool_reports_resource_exhausted() {
    let mut manager = DynamicMemoryManager::new(64);
    assert!(manager.smart_allocate(64, 1, MemoryRegionType::KernelData).is_ok());
    let full = manager.smart_allocate(1, 1, MemoryRegionType::KernelData);
    assert_eq!(full, Err(KernelError::ResourceExhausted));
}

#[test]
fn deallocation_defragments_when_fragmentation_is_high() {
    let mut manager = DynamicMemoryManager::new(1000);
    let block = manager.smart_allocate(100, 1, MemoryRegionType::KernelData).unwrap();
    manager.set_fragmentation_level(80);
    manager.smart_deallocate(block, 100);
    // fragmentation above 60 halves on release: 80 -> 40
    let stats = manager.get_memory_stats();
    assert_eq!(stats.fragmentation_level, 40);
}

#[test]
fn strategy_and_compression_switches_are_recorded() {
    let mut manager = DynamicMemoryManager::new(1000);
    manager.set_allocation_strategy(AllocationStrategy::Performance);
    manager.set_compression_enabled(false);
    manager.set_fragmentation_level(90);
    // with compression off, the high-pressure pass leaves fragmentation alone
    assert!(manager.smart_allocate(900, 1, MemoryRegionType::KernelCode).is_ok());
    manager.set_allocation_strategy(AllocationStrategy::Compact);
    let refused = manager.smart_allocate(500, 1, MemoryRegionType::KernelCode);
    assert_eq!(refused, Err(KernelError::ResourceExhausted));
    let stats = manager.get_memory_stats();
    assert_eq!(stats.fragmentation_level, 90);
}

#[test]
fn aligned_allocations_respect_alignment() {
    let mut manager = DynamicMemoryManager::new(1000);
    let first = manager.smart_allocate(3, 1, MemoryRegionType::KernelData).unwrap();
    assert_eq!(first, 0);
    let second = manager.smart_allocate(8, 16, MemoryRegionType::KernelData).unwrap();
    assert_eq!(second, 16);
}

#[test]
fn simple_allocator_bumps_and_resets() {
    let mut alloc = SimpleAllocator::new();
    let a = alloc.allocate(100, 1).unwrap();
    assert_eq!(a, 0);
    let b = alloc.allocate(50, 64).unwrap();
    assert_eq!(b, 128);
    assert_eq!(alloc.used(), 178);
    alloc.deallocate(a, 100);
    assert_eq!(alloc.used(), 178);
    alloc.reset();
    assert_eq!(alloc.used(), 0);
    // a block larger than the pool is refused
    assert!(alloc.allocate(0x20_0000, 1).is_none());
}

#[test]
fn heap_summary_is_consistent() {
    let info = heap_info(HEAP_SIZE, 1024);
    assert_eq!(info.total_size, HEAP_SIZE);
    assert_eq!(info.used_size, 1024);
    assert_eq!(info.free_size, HEAP_SIZE - 1024);
    let direct = HeapInfo::new(100, 40);
    assert_eq!(direct.free_size, 60);
}

#[test]
fn mapped_page_resolves_to_its_physical_frame() {
    let mut mmu = PageTableManager::new();
    let vaddr: u64 = 0x0000_007F_8012_3000;
    let paddr: u64 = 0x8000_0000;
    mmu.map_page(vaddr, paddr, MemoryAttribute::Normal, MemoryPermission::ReadWrite)
        .expect("fresh arena maps one page");
    let entry = mmu.translate(vaddr).expect("the walk resolves");
    assert!(entry.is_valid());
    assert_eq!(entry.physical_address(), paddr);
    assert_eq!(entry.memory_attribute(), MemoryAttribute::Normal);
    assert_eq!(entry.memory_permission(), MemoryPermission::ReadWrite);
}

#[test]
fn unmapped_page_reports_not_mapped() {
    let mut mmu = PageTableManager::new();
    let vaddr: u64 = 0x4000_2000;
    mmu.map_page(vaddr, 0x9000_1000, MemoryAttribute::Device, MemoryPermission::ReadOnly)
        .unwrap();
    assert!(mmu.translate(vaddr).is_some());
    mmu.unmap_page(vaddr).unwrap();
    assert!(mmu.translate(vaddr).is_none());
    // a second unmap still walks valid intermediate tables and succeeds by
    // zeroing the already-clear leaf
    assert!(mmu.unmap_page(vaddr).is_ok());
    // an address whose upper levels were never built reports no mapping
    assert_eq!(mmu.unmap_page(0x7000_0000_0000), Err(KernelError::NotMapped));
}

#[test]
fn map_region_equals_pagewise_mapping() {
    let size = 3 * PAGE_SIZE;
    let base_v: u64 = 0x1000_0000;
    let base_p: u64 = 0x2000_0000;

    let mut batched = PageTableManager::new();
    batched
        .map_region(base_v, base_p, size, MemoryAttribute::Normal, MemoryPermission::ExecuteRead)
        .unwrap();

    let mut pagewise = PageTableManager::new();
    for i in 0..3u64 {
        pagewise
            .map_page(
                base_v + i * PAGE_SIZE as u64,
                base_p + i * PAGE_SIZE as u64,
                MemoryAttribute::Normal,
                MemoryPermission::ExecuteRead,
            )
            .unwrap();
    }

    for i in 0..3u64 {
        let v = base_v + i * PAGE_SIZE as u64;
        let a = batched.translate(v).unwrap();
        let b = pagewise.translate(v).unwrap();
        assert_eq!(a.physical_address(), b.physical_address());
        assert_eq!(a.physical_address(), base_p + i * PAGE_SIZE as u64);
        assert_eq!(a.memory_attribute(), b.memory_attribute());
        assert_eq!(a.memory_permission(), b.memory_permission());
    }

    // unmapping the region equals unmapping page by page
    batched.unmap_region(base_v, size).unwrap();
    for i in 0..3u64 {
        pagewise.unmap_page(base_v + i * PAGE_SIZE as u64).unwrap();
    }
    for i in 0..3u64 {
        let v = base_v + i * PAGE_SIZE as u64;
        assert!(batched.translate(v).is_none());
        assert!(pagewise.translate(v).is_none());
    }
}

#[test]
fn misaligned_region_is_rejected() {
    let mut mmu = PageTableManager::new();
    let r = mmu.map_region(0x1001, 0x2000, 4096, MemoryAttribute::Normal,
        MemoryPermission::ReadWrite);
    assert_eq!(r, Err(KernelError::InvalidParameter));
    let r2 = mmu.map_page(0x1000, 0x2001, MemoryAttribute::Normal, MemoryPermission::ReadWrite);
    assert_eq!(r2, Err(KernelError::InvalidParameter));
}

#[test]
fn page_table_arena_exhaustion_is_reported() {
    let mut mmu = PageTableManager::new();
    // each mapping in a fresh top-level slot consumes three child tables;
    // the sixteen-table arena holds the root and fifteen children, so the
    // sixth such mapping does not fit
    let mut mapped = 0u64;
    let mut refused = false;
    for i in 0..6u64 {
        let v = i << 39;
        match mmu.map_page(v, 0x1000 * i, MemoryAttribute::Normal, MemoryPermission::ReadWrite) {
            Ok(()) => mapped += 1,
            Err(e) => {
                assert_eq!(e, KernelError::ResourceExhausted);
                refused = true;
            }
        }
    }
    assert_eq!(mapped, 5);
    assert!(refused);
    assert_eq!(ARENA_TABLES, 16);
}

#[test]
fn activation_programs_translation_registers() {
    let mut mmu = PageTableManager::new();
    mmu.map_page(0x1000, 0x2000, MemoryAttribute::Normal, MemoryPermission::ReadWrite).unwrap();
    mmu.activate();
    assert_eq!(mmu.root_table_address(), 0);
    mmu.flush_tlb();
    mmu.flush_tlb();
}

#[test]
fn entry_encoding_distinguishes_attributes_and_permissions() {
    let pa: u64 = 0xABC000;
    let combos = [
        (MemoryAttribute::Normal, MemoryPermission::ReadOnly),
        (MemoryAttribute::Normal, MemoryPermission::ExecuteRead),
        (MemoryAttribute::Device, MemoryPermission::ReadWrite),
        (MemoryAttribute::NonCacheable, MemoryPermission::ExecuteOnly),
    ];
    for (attr, perm) in combos {
        let entry = PageTableEntry::new(pa, attr, perm, true);
        assert!(entry.is_valid());
        assert_eq!(entry.physical_address(), pa);
        assert_eq!(entry.memory_attribute(), attr);
        assert_eq!(entry.memory_permission(), perm);
    }
    let invalid = PageTableEntry::new(pa, MemoryAttribute::Normal, MemoryPermission::ReadOnly,
        false);
    assert!(!invalid.is_valid());
}

#[test]
fn boot_memory_map_installs_and_activates() {
    let manager = starry_core::mmu::init().expect("the boot map fits the arena");
    let code = manager.translate(0x80000).expect("kernel code is mapped");
    assert_eq!(code.physical_address(), 0x80000);
    assert_eq!(code.memory_attribute(), MemoryAttribute::Normal);
    let device = manager.translate(0x0900_0000).expect("console device is mapped");
    assert_eq!(device.memory_attribute(), MemoryAttribute::Device);
}
