//! Virtual-memory management: a four-level page-table tree over a dedicated,
//! 4KB-aligned page-table arena, address translation, region mapping, and
//! the translation-register and TLB model.

use vstd::prelude::*;
use crate::errors::KernelError;

verus! {

/// Size of one page and of one table, in bytes.
pub const PAGE_SIZE: usize = 4096;

/// Entries per table: each level resolves nine bits of the address.
pub const TABLE_ENTRIES: usize = 512;

/// How many tables the dedicated page-table arena can hold.
pub const ARENA_TABLES: usize = 16;

/// One past the largest representable physical address: 48 address bits.
pub const PHYSICAL_LIMIT: u64 = 0x1_0000_0000_0000;

/// Memory attribute of a mapping.
#[derive(Debug, Clone, Copy, PartialEq, Eq, Structural)]
pub enum MemoryAttribute {
    /// Ordinary cacheable memory, inner shareable.
    Normal,
    /// Device memory: non-cacheable, posted writes.
    Device,
    /// Explicitly non-cacheable normal memory, for DMA-visible buffers.
    NonCacheable,
}

/// Access permission of a mapping.
#[derive(Debug, Clone, Copy, PartialEq, Eq, Structural)]
pub enum MemoryPermission {
    ReadOnly,
    ReadWrite,
    ExecuteOnly,
    ExecuteRead,
}

/// The four levels of the translation tree: level 0 spans 512GB per entry
/// down to level 3, whose entries map single 4KB pages.
#[derive(Debug, Clone, Copy, PartialEq, Eq, Structural)]
pub enum PageTableLevel {
    Level0,
    Level1,
    Level2,
    Level3,
}

/// The attribute field of an entry word: bit 2 marks normal memory, bit 4
/// inner-shareable (set for device memory's posted-write gathering as well).
pub open spec fn attr_bits(attribute: MemoryAttribute) -> u64 {
    match attribute {
        MemoryAttribute::Normal => 20,
        MemoryAttribute::Device => 16,
        MemoryAttribute::NonCacheable => 4,
    }
}

/// The permission field of an entry word, at bits 6 and 7.
pub open spec fn perm_bits(permission: MemoryPermission) -> u64 {
    match permission {
        MemoryPermission::ReadOnly => 64,
        MemoryPermission::ReadWrite => 192,
        MemoryPermission::ExecuteOnly => 128,
        MemoryPermission::ExecuteRead => 0,
    }
}

/// The flag field of an entry word: attribute and permission bits, the
/// access flag at bit 10, and the valid bit at bit 0.
pub open spec fn flag_bits(
    attribute: MemoryAttribute,
    permission: MemoryPermission,
    valid: bool,
) -> u64 {
    attr_bits(attribute) | perm_bits(permission) | 1024 | (if valid {
        1u64
    } else {
        0u64
    })
}

/// A full entry word: the 4KB-aligned physical address in bits 12 to 47,
/// with the flag field below.
pub open spec fn entry_bits(
    physical_addr: u64,
    attribute: MemoryAttribute,
    permission: MemoryPermission,
    valid: bool,
) -> u64 {
    physical_addr | flag_bits(attribute, permission, valid)
}

/// Whether an entry word has its valid bit set.
pub open spec fn entry_valid(e: u64) -> bool {
    e & 1 != 0
}

/// The physical-address field of an entry word.
pub open spec fn entry_pa(e: u64) -> u64 {
    e & 0xFFFF_FFFF_F000
}

/// The attribute encoded in an entry word.
pub open spec fn entry_attr(e: u64) -> MemoryAttribute {
    if e & 4 != 0 && e & 16 != 0 {
        MemoryAttribute::Normal
    } else if e & 4 == 0 && e & 16 != 0 {
        MemoryAttribute::Device
    } else if e & 4 != 0 {
        MemoryAttribute::NonCacheable
    } else {
        MemoryAttribute::Device
    }
}

/// The permission encoded in an entry word.
pub open spec fn entry_perm(e: u64) -> MemoryPermission {
    if (e >> 6) & 3 == 1 {
        MemoryPermission::ReadOnly
    } else if (e >> 6) & 3 == 3 {
        MemoryPermission::ReadWrite
    } else if (e >> 6) & 3 == 2 {
        MemoryPermission::ExecuteOnly
    } else {
        MemoryPermission::ExecuteRead
    }
}

/// Adding a flag field below bit 12 to an aligned 48-bit address leaves the
/// address bits, the valid bit, the attribute bits and the permission field
/// each readable on their own.
proof fn lemma_flag_decode(pa: u64, f: u64)
    requires
        pa % 4096 == 0,
        pa < PHYSICAL_LIMIT,
        f < 4096,
    ensures
        (pa | f) & 0xFFFF_FFFF_F000 == pa,
        (pa | f) & 1 == f & 1,
        (pa | f) & 4 == f & 4,
        (pa | f) & 16 == f & 16,
        ((pa | f) >> 6) & 3 == (f >> 6) & 3,
{
    assert((pa % 4096 == 0 && pa < 0x1_0000_0000_0000 && f < 4096) ==> ((pa | f)
        & 0xFFFF_FFFF_F000 == pa && (pa | f) & 1 == f & 1 && (pa | f) & 4 == f & 4 && (pa | f)
        & 16 == f & 16 && ((pa | f) >> 6) & 3 == (f >> 6) & 3)) by (bit_vector);
}

/// The twelve flag-field constants decode to their own bits.
proof fn lemma_flag_constants()
    ensures
        1109u64 & 1 == 1 && 1109u64 & 4 == 4 && 1109u64 & 16 == 16 && (1109u64 >> 6) & 3 == 1,
        1237u64 & 1 == 1 && 1237u64 & 4 == 4 && 1237u64 & 16 == 16 && (1237u64 >> 6) & 3 == 3,
        1173u64 & 1 == 1 && 1173u64 & 4 == 4 && 1173u64 & 16 == 16 && (1173u64 >> 6) & 3 == 2,
        1045u64 & 1 == 1 && 1045u64 & 4 == 4 && 1045u64 & 16 == 16 && (1045u64 >> 6) & 3 == 0,
        1105u64 & 1 == 1 && 1105u64 & 4 == 0 && 1105u64 & 16 == 16 && (1105u64 >> 6) & 3 == 1,
        1233u64 & 1 == 1 && 1233u64 & 4 == 0 && 1233u64 & 16 == 16 && (1233u64 >> 6) & 3 == 3,
        1169u64 & 1 == 1 && 1169u64 & 4 == 0 && 1169u64 & 16 == 16 && (1169u64 >> 6) & 3 == 2,
        1041u64 & 1 == 1 && 1041u64 & 4 == 0 && 1041u64 & 16 == 16 && (1041u64 >> 6) & 3 == 0,
        1093u64 & 1 == 1 && 1093u64 & 4 == 4 && 1093u64 & 16 == 0 && (1093u64 >> 6) & 3 == 1,
        1221u64 & 1 == 1 && 1221u64 & 4 == 4 && 1221u64 & 16 == 0 && (1221u64 >> 6) & 3 == 3,
        1157u64 & 1 == 1 && 1157u64 & 4 == 4 && 1157u64 & 16 == 0 && (1157u64 >> 6) & 3 == 2,
        1029u64 & 1 == 1 && 1029u64 & 4 == 4 && 1029u64 & 16 == 0 && (1029u64 >> 6) & 3 == 0,
        0u64 & 1 == 0,
        20u64 | 64 | 1024 | 1 == 1109,
        20u64 | 192 | 1024 | 1 == 1237,
        20u64 | 128 | 1024 | 1 == 1173,
        20u64 | 0 | 1024 | 1 == 1045,
        16u64 | 64 | 1024 | 1 == 1105,
        16u64 | 192 | 1024 | 1 == 1233,
        16u64 | 128 | 1024 | 1 == 1169,
        16u64 | 0 | 1024 | 1 == 1041,
        4u64 | 64 | 1024 | 1 == 1093,
        4u64 | 192 | 1024 | 1 == 1221,
        4u64 | 128 | 1024 | 1 == 1157,
        4u64 | 0 | 1024 | 1 == 1029,
{
    assert(1109u64 & 1 == 1 && 1109u64 & 4 == 4 && 1109u64 & 16 == 16 && (1109u64 >> 6) & 3 == 1
        && 1237u64 & 1 == 1 && 1237u64 & 4 == 4 && 1237u64 & 16 == 16 && (1237u64 >> 6) & 3 == 3
        && 1173u64 & 1 == 1 && 1173u64 & 4 == 4 && 1173u64 & 16 == 16 && (1173u64 >> 6) & 3 == 2
        && 1045u64 & 1 == 1 && 1045u64 & 4 == 4 && 1045u64 & 16 == 16 && (1045u64 >> 6) & 3 == 0
        && 1105u64 & 1 == 1 && 1105u64 & 4 == 0 && 1105u64 & 16 == 16 && (1105u64 >> 6) & 3 == 1
        && 1233u64 & 1 == 1 && 1233u64 & 4 == 0 && 1233u64 & 16 == 16 && (1233u64 >> 6) & 3 == 3
        && 1169u64 & 1 == 1 && 1169u64 & 4 == 0 && 1169u64 & 16 == 16 && (1169u64 >> 6) & 3 == 2
        && 1041u64 & 1 == 1 && 1041u64 & 4 == 0 && 1041u64 & 16 == 16 && (1041u64 >> 6) & 3 == 0
        && 1093u64 & 1 == 1 && 1093u64 & 4 == 4 && 1093u64 & 16 == 0 && (1093u64 >> 6) & 3 == 1
        && 1221u64 & 1 == 1 && 1221u64 & 4 == 4 && 1221u64 & 16 == 0 && (1221u64 >> 6) & 3 == 3
        && 1157u64 & 1 == 1 && 1157u64 & 4 == 4 && 1157u64 & 16 == 0 && (1157u64 >> 6) & 3 == 2
        && 1029u64 & 1 == 1 && 1029u64 & 4 == 4 && 1029u64 & 16 == 0 && (1029u64 >> 6) & 3 == 0
        && 0u64 & 1 == 0) by (bit_vector);
    assert((20u64 | 64 | 1024 | 1) == 1109 && (20u64 | 192 | 1024 | 1) == 1237 && (20u64 | 128
        | 1024 | 1) == 1173 && (20u64 | 0 | 1024 | 1) == 1045 && (16u64 | 64 | 1024 | 1) == 1105
        && (16u64 | 192 | 1024 | 1) == 1233 && (16u64 | 128 | 1024 | 1) == 1169 && (16u64 | 0
        | 1024 | 1) == 1041 && (4u64 | 64 | 1024 | 1) == 1093 && (4u64 | 192 | 1024 | 1) == 1221
        && (4u64 | 128 | 1024 | 1) == 1157 && (4u64 | 0 | 1024 | 1) == 1029) by (bit_vector);
}

/// An entry built from an aligned 48-bit physical address decodes back to
/// exactly the address, attribute, permission and validity it was built
/// from.
pub proof fn lemma_entry_roundtrip(
    physical_addr: u64,
    attribute: MemoryAttribute,
    permission: MemoryPermission,
)
    requires
        physical_addr % 4096 == 0,
        physical_addr < PHYSICAL_LIMIT,
    ensures
        entry_valid(entry_bits(physical_addr, attribute, permission, true)),
        entry_pa(entry_bits(physical_addr, attribute, permission, true)) == physical_addr,
        entry_attr(entry_bits(physical_addr, attribute, permission, true)) == attribute,
        entry_perm(entry_bits(physical_addr, attribute, permission, true)) == permission,
{
    let f = flag_bits(attribute, permission, true);
    lemma_flag_constants();
    assert(f < 4096);
    lemma_flag_decode(physical_addr, f);
}

/// The level-0 slot of a virtual address: bits 39 to 47.
pub open spec fn l0_index(v: u64) -> int {
    ((v >> 39) & 0x1FF) as int
}

/// The level-1 slot of a virtual address: bits 30 to 38.
pub open spec fn l1_index(v: u64) -> int {
    ((v >> 30) & 0x1FF) as int
}

/// The level-2 slot of a virtual address: bits 21 to 29.
pub open spec fn l2_index(v: u64) -> int {
    ((v >> 21) & 0x1FF) as int
}

/// The level-3 slot of a virtual address: bits 12 to 20.
pub open spec fn l3_index(v: u64) -> int {
    ((v >> 12) & 0x1FF) as int
}

/// A nine-bit field is below 512.
proof fn lemma_nine_bits(x: u64)
    ensures
        x & 0x1FF < 512,
{
    assert(x & 0x1FF < 512) by (bit_vector);
}

/// How many tables the arena holds: it is a flat sequence of entry words,
/// 512 per table.
pub open spec fn table_count(arena: Seq<u64>) -> int {
    arena.len() as int / 512
}

/// The entry word in slot `s` of table `t`.
pub open spec fn ent(arena: Seq<u64>, t: int, s: int) -> u64 {
    arena[t * 512 + s]
}

/// The table a valid non-leaf entry points at: tables live at 4KB-aligned
/// offsets of the arena, so the address field divided by the page size is
/// the table index.
pub open spec fn child_of(e: u64) -> int {
    entry_pa(e) as int / 4096
}

/// A freshly allocated table: 512 invalid entries.
pub open spec fn zero_table() -> Seq<u64> {
    Seq::new(512, |i: int| 0u64)
}

/// The table walk: follow the four index fields of `v` from the root table
/// through the child pointers, and return the leaf entry word when every
/// step is valid.
pub open spec fn resolve(arena: Seq<u64>, v: u64) -> Option<u64> {
    let e0 = ent(arena, 0, l0_index(v));
    if !entry_valid(e0) {
        None
    } else {
        let t1 = child_of(e0);
        if t1 >= table_count(arena) {
            None
        } else {
            let e1 = ent(arena, t1, l1_index(v));
            if !entry_valid(e1) {
                None
            } else {
                let t2 = child_of(e1);
                if t2 >= table_count(arena) {
                    None
                } else {
                    let e2 = ent(arena, t2, l2_index(v));
                    if !entry_valid(e2) {
                        None
                    } else {
                        let t3 = child_of(e2);
                        if t3 >= table_count(arena) {
                            None
                        } else {
                            let e3 = ent(arena, t3, l3_index(v));
                            if entry_valid(e3) {
                                Some(e3)
                            } else {
                                None
                            }
                        }
                    }
                }
            }
        }
    }
}

/// How many fresh child tables a mapping of `v` must allocate: one for each
/// invalid entry along the three non-leaf steps of the walk.
pub open spec fn tables_needed(arena: Seq<u64>, v: u64) -> int {
    let e0 = ent(arena, 0, l0_index(v));
    if !entry_valid(e0) {
        3
    } else {
        let e1 = ent(arena, child_of(e0), l1_index(v));
        if !entry_valid(e1) {
            2
        } else {
            let e2 = ent(arena, child_of(e1), l2_index(v));
            if !entry_valid(e2) {
                1
            } else {
                0
            }
        }
    }
}

/// One walk-or-create step: when the entry in slot `s` of table `t` is
/// valid, follow it; otherwise append a fresh zeroed table to the arena and
/// point the entry at it.
pub open spec fn ensure_child_model(arena: Seq<u64>, t: int, s: int) -> (Seq<u64>, int) {
    let e = ent(arena, t, s);
    if entry_valid(e) {
        (arena, child_of(e))
    } else {
        let c = table_count(arena);
        let pointer = entry_bits(
            (c * 4096) as u64,
            MemoryAttribute::Normal,
            MemoryPermission::ReadWrite,
            true,
        );
        (arena.update(t * 512 + s, pointer) + zero_table(), c)
    }
}

/// The full effect of mapping one page: reject a misaligned or too-large
/// physical address, reject a mapping whose fresh tables would not fit the
/// arena, and otherwise walk the three upper levels (creating children as
/// needed) and write the leaf entry.
pub open spec fn map_page_model(
    arena: Seq<u64>,
    capacity: int,
    v: u64,
    physical_addr: u64,
    attribute: MemoryAttribute,
    permission: MemoryPermission,
) -> (Seq<u64>, Result<(), KernelError>) {
    if physical_addr % 4096 != 0 || physical_addr >= PHYSICAL_LIMIT {
        (arena, Err(KernelError::InvalidParameter))
    } else if table_count(arena) + tables_needed(arena, v) > capacity {
        (arena, Err(KernelError::ResourceExhausted))
    } else {
        let (a1, t1) = ensure_child_model(arena, 0, l0_index(v));
        let (a2, t2) = ensure_child_model(a1, t1, l1_index(v));
        let (a3, t3) = ensure_child_model(a2, t2, l2_index(v));
        let leaf = entry_bits(physical_addr, attribute, permission, true);
        (a3.update(t3 * 512 + l3_index(v), leaf), Ok(()))
    }
}

/// The full effect of unmapping one page: fail with `NotMapped` when any of
/// the three upper levels is invalid, and otherwise zero the leaf entry
/// (whether or not it was valid).
pub open spec fn unmap_page_model(arena: Seq<u64>, v: u64) -> (Seq<u64>, Result<
    (),
    KernelError,
>) {
    let e0 = ent(arena, 0, l0_index(v));
    if !entry_valid(e0) {
        (arena, Err(KernelError::NotMapped))
    } else {
        let t1 = child_of(e0);
        let e1 = ent(arena, t1, l1_index(v));
        if !entry_valid(e1) {
            (arena, Err(KernelError::NotMapped))
        } else {
            let t2 = child_of(e1);
            let e2 = ent(arena, t2, l2_index(v));
            if !entry_valid(e2) {
                (arena, Err(KernelError::NotMapped))
            } else {
                let t3 = child_of(e2);
                (arena.update(t3 * 512 + l3_index(v), 0u64), Ok(()))
            }
        }
    }
}

/// How many pages a region of `size` bytes spans: `size` divided by the
/// page size, rounded up.
pub open spec fn page_count_of(size: int) -> int {
    (size + 4095) / 4096
}

/// Mapping a region is exactly the sequential composition of one
/// `map_page_model` step per page, each 4096 bytes further along both
/// addresses, stopping at the first failure.
pub open spec fn map_pages_model(
    arena: Seq<u64>,
    capacity: int,
    v: u64,
    physical_addr: u64,
    attribute: MemoryAttribute,
    permission: MemoryPermission,
    n: int,
) -> (Seq<u64>, Result<(), KernelError>)
    decreases n,
{
    if n <= 0 {
        (arena, Ok(()))
    } else {
        let (a1, r1) = map_page_model(arena, capacity, v, physical_addr, attribute, permission);
        if r1 is Err {
            (a1, r1)
        } else {
            map_pages_model(
                a1,
                capacity,
                (v + 4096) as u64,
                (physical_addr + 4096) as u64,
                attribute,
                permission,
                n - 1,
            )
        }
    }
}

/// Unmapping a region is exactly the sequential composition of one
/// `unmap_page_model` step per page, stopping at the first failure.
pub open spec fn unmap_pages_model(arena: Seq<u64>, v: u64, n: int) -> (Seq<u64>, Result<
    (),
    KernelError,
>)
    decreases n,
{
    if n <= 0 {
        (arena, Ok(()))
    } else {
        let (a1, r1) = unmap_page_model(arena, v);
        if r1 is Err {
            (a1, r1)
        } else {
            unmap_pages_model(a1, (v + 4096) as u64, n - 1)
        }
    }
}

/// The arena of a fresh manager: one zeroed root table.
pub open spec fn fresh_arena() -> Seq<u64> {
    Seq::new(512, |i: int| 0u64)
}

/// A mapping never needs more than the three intermediate tables of the
/// walk.
pub proof fn lemma_tables_needed_bound(arena: Seq<u64>, v: u64)
    ensures
        0 <= tables_needed(arena, v) <= 3,
{
}

/// What a mapping needs depends only on the three upper index fields of the
/// address: two addresses walking the same path need the same tables.
pub proof fn lemma_tables_needed_same_path(arena: Seq<u64>, a: u64, b: u64)
    requires
        l0_index(a) == l0_index(b),
        l1_index(a) == l1_index(b),
        l2_index(a) == l2_index(b),
    ensures
        tables_needed(arena, a) == tables_needed(arena, b),
{
}

/// Whether `n` consecutive pages starting at `v` share the three upper
/// index fields of their base, so that they all walk through the same
/// intermediate tables.
pub open spec fn same_walk_path(v: u64, n: int) -> bool {
    forall|i: int|
        0 <= i < n ==> {
            &&& #[trigger] l0_index((v + i * 4096) as u64) == l0_index(v)
            &&& l1_index((v + i * 4096) as u64) == l1_index(v)
            &&& l2_index((v + i * 4096) as u64) == l2_index(v)
        }
}

/// A sufficient condition for a region mapping to succeed outright: both
/// addresses aligned, every page's physical address below the 48-bit
/// limit, all pages walking the same intermediate path, and room in the
/// arena for the at most three fresh tables that path can need.
pub open spec fn region_fits_cleanly(
    arena: Seq<u64>,
    capacity: int,
    v: u64,
    p: u64,
    n: int,
) -> bool {
    &&& v % 4096 == 0
    &&& p % 4096 == 0
    &&& p as int + n * 4096 <= PHYSICAL_LIMIT as int
    &&& same_walk_path(v, n)
    &&& table_count(arena) + 3 <= capacity
}

/// A page-table entry word: the physical address in bits 12 to 47, the
/// attribute, permission, access and valid fields below.
#[derive(Debug, Clone, Copy, PartialEq, Eq, Structural)]
pub struct PageTableEntry(u64);

impl PageTableEntry {
    /// The raw entry word.
    pub closed spec fn view(&self) -> u64 {
        self.0
    }

    /// Builds an entry for a 4KB-aligned physical address below the 48-bit
    /// limit, with the access flag set.
    pub fn new(
        physical_addr: u64,
        attribute: MemoryAttribute,
        permission: MemoryPermission,
        valid: bool,
    ) -> (e: PageTableEntry)
        requires
            physical_addr % 4096 == 0,
            physical_addr < PHYSICAL_LIMIT,
        ensures
            e@ == entry_bits(physical_addr, attribute, permission, valid),
    {
        let attr: u64 = match attribute {
            MemoryAttribute::Normal => 20,
            MemoryAttribute::Device => 16,
            MemoryAttribute::NonCacheable => 4,
        };
        let perm: u64 = match permission {
            MemoryPermission::ReadOnly => 64,
            MemoryPermission::ReadWrite => 192,
            MemoryPermission::ExecuteOnly => 128,
            MemoryPermission::ExecuteRead => 0,
        };
        let valid_bit: u64 = if valid {
            1
        } else {
            0
        };
        PageTableEntry(physical_addr | (attr | perm | 1024 | valid_bit))
    }

    /// Whether the valid bit is set.
    pub fn is_valid(&self) -> (r: bool)
        ensures
            r == entry_valid(self@),
    {
        (self.0 & 1) != 0
    }

    /// The physical-address field.
    pub fn physical_address(&self) -> (pa: u64)
        ensures
            pa == entry_pa(self@),
    {
        self.0 & 0xFFFF_FFFF_F000
    }

    /// The memory attribute encoded in the entry.
    pub fn memory_attribute(&self) -> (a: MemoryAttribute)
        ensures
            a == entry_attr(self@),
    {
        if self.0 & 4 != 0 && self.0 & 16 != 0 {
            MemoryAttribute::Normal
        } else if self.0 & 4 == 0 && self.0 & 16 != 0 {
            MemoryAttribute::Device
        } else if self.0 & 4 != 0 {
            MemoryAttribute::NonCacheable
        } else {
            MemoryAttribute::Device
        }
    }

    /// The permission encoded in the entry.
    pub fn memory_permission(&self) -> (p: MemoryPermission)
        ensures
            p == entry_perm(self@),
    {
        let field = (self.0 >> 6) & 3;
        if field == 1 {
            MemoryPermission::ReadOnly
        } else if field == 3 {
            MemoryPermission::ReadWrite
        } else if field == 2 {
            MemoryPermission::ExecuteOnly
        } else {
            MemoryPermission::ExecuteRead
        }
    }
}

/// The page-table manager: the root table and every lazily allocated child
/// table live in one dedicated arena of 4KB tables, table 0 being the level-0
/// root. The ghost `levels` sequence assigns each table its depth; the
/// translation registers and the TLB are modelled as fields.
pub struct PageTableManager {
    tables: Vec<u64>,
    capacity: usize,
    current_asid: u16,
    ttbr0: u64,
    ttbr1: u64,
    tcr: u64,
    mair: u64,
    activated: bool,
    tlb_clean: bool,
    levels: Ghost<Seq<int>>,
}

/// The structural invariant of the arena: a whole number of 512-entry
/// tables, at least the root and at most the capacity; the root is at level
/// 0; and every valid entry of a table above level 3 points at an existing
/// deeper table through a 4KB-aligned arena offset.
pub open spec fn arena_wf(arena: Seq<u64>, levels: Seq<int>, capacity: int) -> bool {
    &&& arena.len() == levels.len() * 512
    &&& 1 <= levels.len() <= capacity
    &&& capacity <= 0x10000
    &&& levels[0] == 0
    &&& forall|t: int| 0 <= t < levels.len() ==> 0 <= #[trigger] levels[t] <= 3
    &&& forall|t: int, s: int|
        0 <= t < levels.len() && 0 <= s < 512 && levels[t] < 3 && entry_valid(
            #[trigger] ent(arena, t, s),
        ) ==> {
            &&& 0 < child_of(ent(arena, t, s)) < levels.len()
            &&& levels[child_of(ent(arena, t, s))] == levels[t] + 1
            &&& entry_pa(ent(arena, t, s)) == child_of(ent(arena, t, s)) * 4096
        }
}

/// The translation-control value the manager programs: 4KB granules,
/// inner-shareable write-back walks, hardware access and dirty management.
pub const TCR_VALUE: u64 = 0x03AB_552B;

/// The memory-attribute-indirection value: normal write-back memory in slot
/// 0, device memory in slot 1, non-cacheable memory in slot 2.
pub const MAIR_VALUE: u64 = 0x0044_04FF;

impl PageTableManager {
    /// The arena of entry words, 512 per table.
    pub closed spec fn arena(&self) -> Seq<u64> {
        self.tables@
    }

    /// The ghost level assignment of the arena's tables.
    pub closed spec fn spec_levels(&self) -> Seq<int> {
        self.levels@
    }

    /// Maximum number of tables the arena can hold.
    pub closed spec fn spec_capacity(&self) -> int {
        self.capacity as int
    }

    /// The address-space identifier.
    pub closed spec fn asid(&self) -> u16 {
        self.current_asid
    }

    /// Whether `activate` has programmed the translation registers.
    pub closed spec fn spec_activated(&self) -> bool {
        self.activated
    }

    /// Whether the TLB holds no entry older than the last structural
    /// change.
    pub closed spec fn spec_tlb_clean(&self) -> bool {
        self.tlb_clean
    }

    /// The manager's invariant.
    pub open spec fn wf(&self) -> bool {
        arena_wf(self.arena(), self.spec_levels(), self.spec_capacity())
    }

    /// A fresh manager: an arena with capacity for `ARENA_TABLES` tables
    /// holding only the zeroed root, so that no address resolves.
    pub fn new() -> (m: PageTableManager)
        ensures
            m.wf(),
            m.arena() == fresh_arena(),
            table_count(m.arena()) == 1,
            m.spec_capacity() == ARENA_TABLES,
            m.asid() == 1,
            !m.spec_activated(),
            m.spec_tlb_clean(),
            forall|v: u64| resolve(m.arena(), v) is None,
    {
        let mut tables: Vec<u64> = Vec::new();
        let mut i: usize = 0;
        while i < 512
            invariant
                0 <= i <= 512,
                tables@.len() == i,
                forall|j: int| 0 <= j < i ==> #[trigger] tables@[j] == 0,
            decreases 512 - i,
        {
            tables.push(0);
            i = i + 1;
        }
        let ghost root_levels: Seq<int> = seq![0int];
        let m = PageTableManager {
            tables,
            capacity: ARENA_TABLES,
            current_asid: 1,
            ttbr0: 0,
            ttbr1: 0,
            tcr: 0,
            mair: 0,
            activated: false,
            tlb_clean: true,
            levels: Ghost(root_levels),
        };
        proof {
            lemma_flag_constants();
            assert(m.arena() =~= fresh_arena());
            assert forall|v: u64| resolve(m.arena(), v) is None by {
                lemma_nine_bits(v >> 39);
                assert(ent(m.arena(), 0, l0_index(v)) == 0);
                assert(!entry_valid(0u64));
            }
            assert(m.wf());
        }
        m
    }

    /// Number of tables currently allocated in the arena.
    fn allocated_tables(&self) -> (n: usize)
        requires
            self.wf(),
        ensures
            n == table_count(self.arena()),
    {
        self.tables.len() / 512
    }

    /// Reads the entry word in slot `s` of table `t`.
    fn read_entry(&self, t: usize, s: usize) -> (e: u64)
        requires
            self.wf(),
            t < table_count(self.arena()),
            s < 512,
        ensures
            e == ent(self.arena(), t as int, s as int),
    {
        proof {
            assert(t * 512 + s < self.arena().len()) by (nonlinear_arith)
                requires
                    0 <= t as int,
                    s < 512,
                    (t as int) < table_count(self.arena()),
                    self.arena().len() == table_count(self.arena()) * 512 + self.arena().len() % 512,
                    self.arena().len() % 512 == 0,
            ;
        }
        self.tables[t * 512 + s]
    }

    /// The child index a valid non-leaf entry points at.
    fn child_index(&self, e: u64) -> (c: usize)
        requires
            self.wf(),
            0 <= child_of(e) < table_count(self.arena()),
        ensures
            c == child_of(e),
    {
        ((e & 0xFFFF_FFFF_F000) / 4096) as usize
    }

    /// Walks the three upper levels of `v` without changing anything and
    /// counts the missing child tables.
    fn count_missing(&self, virtual_addr: u64) -> (n: usize)
        requires
            self.wf(),
        ensures
            n == tables_needed(self.arena(), virtual_addr),
            n <= 3,
    {
        proof {
            lemma_nine_bits(virtual_addr >> 39);
            lemma_nine_bits(virtual_addr >> 30);
            lemma_nine_bits(virtual_addr >> 21);
        }
        let i0 = ((virtual_addr >> 39) & 0x1FF) as usize;
        let e0 = self.read_entry(0, i0);
        if (e0 & 1) == 0 {
            return 3;
        }
        let t1 = self.child_index(e0);
        let i1 = ((virtual_addr >> 30) & 0x1FF) as usize;
        let e1 = self.read_entry(t1, i1);
        if (e1 & 1) == 0 {
            return 2;
        }
        let t2 = self.child_index(e1);
        let i2 = ((virtual_addr >> 21) & 0x1FF) as usize;
        let e2 = self.read_entry(t2, i2);
        if (e2 & 1) == 0 {
            return 1;
        }
        0
    }

    /// Writes the entry word in slot `s` of table `t`.
    fn write_entry(&mut self, t: usize, s: usize, e: u64)
        requires
            old(self).wf(),
            t < table_count(old(self).arena()),
            s < 512,
        ensures
            final(self).tables@ == old(self).tables@.update(t * 512 + s, e),
            final(self).levels == old(self).levels,
            final(self).capacity == old(self).capacity,
            final(self).current_asid == old(self).current_asid,
            final(self).ttbr0 == old(self).ttbr0,
            final(self).ttbr1 == old(self).ttbr1,
            final(self).tcr == old(self).tcr,
            final(self).mair == old(self).mair,
            final(self).activated == old(self).activated,
            final(self).tlb_clean == old(self).tlb_clean,
    {
        proof {
            assert(t * 512 + s < self.arena().len()) by (nonlinear_arith)
                requires
                    0 <= t as int,
                    s < 512,
                    (t as int) < table_count(self.arena()),
                    self.arena().len() == table_count(self.arena()) * 512 + self.arena().len() % 512,
                    self.arena().len() % 512 == 0,
            ;
        }
        self.tables.set(t * 512 + s, e);
    }

    /// One walk-or-create step on slot `s` of table `t`: follow a valid
    /// entry, or allocate a fresh zeroed table from the arena and point the
    /// entry at it.
    fn ensure_child(&mut self, t: usize, s: usize) -> (c: usize)
        requires
            old(self).wf(),
            t < table_count(old(self).arena()),
            s < 512,
            old(self).spec_levels()[t as int] < 3,
            !entry_valid(ent(old(self).arena(), t as int, s as int)) ==> table_count(old(self).arena()) < old(
                self,
            ).spec_capacity(),
        ensures
            final(self).wf(),
            (final(self).arena(), c as int) == ensure_child_model(old(self).arena(), t as int,
                s as int),
            entry_valid(ent(final(self).arena(), t as int, s as int)),
            child_of(ent(final(self).arena(), t as int, s as int)) == c as int,
            forall|u: int, w: int|
                0 <= u < table_count(old(self).arena()) && 0 <= w < 512 && (u != t as int || w
                    != s as int) ==> #[trigger] ent(final(self).arena(), u, w) == ent(
                    old(self).arena(),
                    u,
                    w,
                ),
            !entry_valid(ent(old(self).arena(), t as int, s as int)) ==> forall|w: int|
                0 <= w < 512 ==> !entry_valid(#[trigger] ent(final(self).arena(), c as int, w)),
            c < table_count(final(self).arena()),
            final(self).spec_levels()[c as int] == old(self).spec_levels()[t as int] + 1,
            entry_valid(ent(old(self).arena(), t as int, s as int)) ==> final(self).spec_levels()
                == old(self).spec_levels(),
            !entry_valid(ent(old(self).arena(), t as int, s as int)) ==> final(self).spec_levels()
                == old(self).spec_levels().push(old(self).spec_levels()[t as int] + 1)
                && table_count(final(self).arena()) == table_count(old(self).arena()) + 1,
            final(self).spec_capacity() == old(self).spec_capacity(),
            final(self).current_asid == old(self).current_asid,
            final(self).activated == old(self).activated,
            final(self).tlb_clean == old(self).tlb_clean,
            final(self).ttbr0 == old(self).ttbr0,
            final(self).ttbr1 == old(self).ttbr1,
            final(self).tcr == old(self).tcr,
            final(self).mair == old(self).mair,
            table_count(old(self).arena()) <= table_count(final(self).arena()) <= table_count(
                old(self).arena(),
            ) + 1,
    {
        let e = self.read_entry(t, s);
        if (e & 1) != 0 {
            let c = self.child_index(e);
            proof {
                assert(final(self).spec_levels()[c as int] == old(self).spec_levels()[t as int]
                    + 1);
            }
            c
        } else {
            proof {
                assert(!entry_valid(ent(old(self).arena(), t as int, s as int)));
            }
            let c = self.allocated_tables();
            proof {
                assert(((c * 4096) as u64) % 4096 == 0 && ((c * 4096) as u64) < PHYSICAL_LIMIT)
                    by (nonlinear_arith)
                    requires
                        0 <= c,
                        c < 0x10000,
                ;
            }
            let base = c as u64 * 4096;
            let pointer = base | (20 | 192 | 1024 | 1);
            proof {
                lemma_flag_constants();
                assert(flag_bits(MemoryAttribute::Normal, MemoryPermission::ReadWrite, true)
                    == 1237);
                assert((20u64 | 192 | 1024 | 1) == 1237) by (bit_vector);
                assert(pointer == entry_bits(
                    base,
                    MemoryAttribute::Normal,
                    MemoryPermission::ReadWrite,
                    true,
                ));
            }
            self.write_entry(t, s, pointer);
            let mut k: usize = 0;
            while k < 512
                invariant
                    0 <= k <= 512,
                    self.tables@.len() == old(self).tables@.len() + k,
                    self.tables@.subrange(0, old(self).tables@.len() as int) == old(
                        self,
                    ).tables@.update(
                        t * 512 + s,
                        entry_bits(
                            (c * 4096) as u64,
                            MemoryAttribute::Normal,
                            MemoryPermission::ReadWrite,
                            true,
                        ),
                    ),
                    forall|j: int|
                        old(self).tables@.len() <= j < self.tables@.len()
                            ==> #[trigger] self.tables@[j] == 0,
                    self.levels == old(self).levels,
                    self.capacity == old(self).capacity,
                    self.current_asid == old(self).current_asid,
                    self.ttbr0 == old(self).ttbr0,
                    self.ttbr1 == old(self).ttbr1,
                    self.tcr == old(self).tcr,
                    self.mair == old(self).mair,
                    self.activated == old(self).activated,
                    self.tlb_clean == old(self).tlb_clean,
                decreases 512 - k,
            {
                self.tables.push(0);
                k = k + 1;
            }
            proof {
                let ghost old_levels = self.levels@;
                self.levels@ = self.levels@.push(old_levels[t as int] + 1);
            }
            proof {
                let oa = old(self).arena();
                let na = self.arena();
                let ol = old(self).spec_levels();
                let nl = self.spec_levels();
                let pointer_word = entry_bits(
                    (c * 4096) as u64,
                    MemoryAttribute::Normal,
                    MemoryPermission::ReadWrite,
                    true,
                );
                lemma_entry_roundtrip(
                    (c * 4096) as u64,
                    MemoryAttribute::Normal,
                    MemoryPermission::ReadWrite,
                );
                assert(na =~= oa.update(t * 512 + s, pointer_word) + zero_table());
                assert((na, c as int) == ensure_child_model(oa, t as int, s as int));
                assert(na.len() == nl.len() * 512) by (nonlinear_arith)
                    requires
                        na.len() == oa.len() + 512,
                        oa.len() == ol.len() * 512,
                        nl.len() == ol.len() + 1,
                ;
                let idx = t as int * 512 + s as int;
                assert(0 <= idx && idx < oa.len()) by (nonlinear_arith)
                    requires
                        idx == t as int * 512 + s as int,
                        0 <= t as int,
                        (t as int) < ol.len(),
                        0 <= s as int,
                        (s as int) < 512,
                        oa.len() == ol.len() * 512,
                ;
                assert forall|t2: int, s2: int|
                    0 <= t2 < nl.len() && 0 <= s2 < 512 && nl[t2] < 3 && entry_valid(
                        #[trigger] ent(na, t2, s2),
                    ) implies {
                    &&& 0 < child_of(ent(na, t2, s2)) < nl.len()
                    &&& nl[child_of(ent(na, t2, s2))] == nl[t2] + 1
                    &&& entry_pa(ent(na, t2, s2)) == child_of(ent(na, t2, s2)) * 4096
                } by {
                    let idx2 = t2 * 512 + s2;
                    assert(0 <= idx2 && idx2 < na.len() && (t2 < ol.len() ==> idx2 < oa.len()) && (
                    t2 == ol.len() ==> idx2 >= oa.len()) && ((t2 != t as int || s2 != s as int)
                        ==> idx2 != idx)) by (nonlinear_arith)
                        requires
                            idx == t as int * 512 + s as int,
                            idx2 == t2 * 512 + s2,
                            0 <= t2 < nl.len(),
                            0 <= s2 < 512,
                            0 <= t as int,
                            (t as int) < ol.len(),
                            0 <= s as int,
                            (s as int) < 512,
                            na.len() == nl.len() * 512,
                            oa.len() == ol.len() * 512,
                            nl.len() == ol.len() + 1,
                    ;
                    if t2 == ol.len() {
                        assert(ent(na, t2, s2) == na[idx2]);
                        assert(na[idx2] == 0);
                        assert(!entry_valid(0u64));
                    } else if t2 == t as int && s2 == s as int {
                        assert(ent(na, t2, s2) == na[idx]);
                        assert(na[idx] == pointer_word);
                        assert(child_of(pointer_word) == c as int);
                        assert(nl[c as int] == ol[t as int] + 1);
                        assert(0 < c as int) by (nonlinear_arith)
                            requires
                                (c as int) == ol.len(),
                                ol.len() >= 1,
                        ;
                    } else {
                        assert(ent(na, t2, s2) == na[idx2]);
                        assert(na[idx2] == oa[idx2]);
                        assert(ent(oa, t2, s2) == oa[idx2]);
                        assert(0 < child_of(ent(oa, t2, s2)) < ol.len());
                    }
                }
                assert(self.wf());
                assert(ent(na, t as int, s as int) == na[idx]);
                assert(na[idx] == pointer_word);
                assert(child_of(pointer_word) == c as int);
                assert forall|u: int, w: int|
                    0 <= u < table_count(oa) && 0 <= w < 512 && (u != t as int || w != s as int)
                        implies #[trigger] ent(na, u, w) == ent(oa, u, w) by {
                    let j = u * 512 + w;
                    assert(0 <= j && j < oa.len() && j != idx) by (nonlinear_arith)
                        requires
                            j == u * 512 + w,
                            idx == t as int * 512 + s as int,
                            0 <= u,
                            u < table_count(oa),
                            0 <= w < 512,
                            0 <= t as int,
                            (t as int) < ol.len(),
                            0 <= s as int,
                            (s as int) < 512,
                            oa.len() == ol.len() * 512,
                            table_count(oa) == ol.len(),
                            (u != t as int || w != s as int),
                    ;
                    assert(ent(na, u, w) == na[j]);
                    assert(na[j] == oa[j]);
                }
                assert forall|w: int| 0 <= w < 512 implies !entry_valid(
                    #[trigger] ent(na, c as int, w),
                ) by {
                    let j = c as int * 512 + w;
                    assert(oa.len() <= j && j < na.len()) by (nonlinear_arith)
                        requires
                            j == c as int * 512 + w,
                            0 <= w < 512,
                            (c as int) == ol.len(),
                            oa.len() == ol.len() * 512,
                            na.len() == oa.len() + 512,
                    ;
                    assert(ent(na, c as int, w) == na[j]);
                    assert(na[j] == 0);
                    assert(!entry_valid(0u64));
                }
            }
            c
        }
    }

    /// Maps one 4KB page: walks the four levels of the virtual address,
    /// allocating a fresh child table from the arena wherever an
    /// intermediate entry is invalid, then writes the leaf entry with the
    /// requested attribute and permission and the valid and access bits
    /// set. Fails with `InvalidParameter` for a misaligned or too-large
    /// physical address, and with `ResourceExhausted` when the fresh tables
    /// would not fit the arena; a failed call changes nothing. After a
    /// successful call a table walk at the same virtual address resolves to
    /// exactly the new leaf entry, and the TLB is stale until flushed.
    #[verifier::rlimit(100)]
    pub fn map_page(
        &mut self,
        virtual_addr: u64,
        physical_addr: u64,
        attribute: MemoryAttribute,
        permission: MemoryPermission,
    ) -> (r: Result<(), KernelError>)
        requires
            old(self).wf(),
        ensures
            final(self).wf(),
            (final(self).arena(), r) == map_page_model(
                old(self).arena(),
                old(self).spec_capacity(),
                virtual_addr,
                physical_addr,
                attribute,
                permission,
            ),
            final(self).spec_capacity() == old(self).spec_capacity(),
            final(self).asid() == old(self).asid(),
            final(self).spec_activated() == old(self).spec_activated(),
            (r is Ok) == (physical_addr % 4096 == 0 && physical_addr < PHYSICAL_LIMIT
                && table_count(old(self).arena()) + tables_needed(
                old(self).arena(),
                virtual_addr,
            ) <= old(self).spec_capacity()),
            r is Ok ==> resolve(final(self).arena(), virtual_addr) == Some(
                entry_bits(physical_addr, attribute, permission, true),
            ) && !final(self).spec_tlb_clean(),
            r is Ok ==> tables_needed(final(self).arena(), virtual_addr) == 0 && table_count(
                final(self).arena(),
            ) == table_count(old(self).arena()) + tables_needed(old(self).arena(), virtual_addr),
            r is Err ==> final(self).spec_tlb_clean() == old(self).spec_tlb_clean(),
    {
        if physical_addr % 4096 != 0 || physical_addr >= PHYSICAL_LIMIT {
            return Err(KernelError::InvalidParameter);
        }
        let needed = self.count_missing(virtual_addr);
        let count = self.allocated_tables();
        if self.capacity - count < needed {
            return Err(KernelError::ResourceExhausted);
        }
        proof {
            lemma_nine_bits(virtual_addr >> 39);
            lemma_nine_bits(virtual_addr >> 30);
            lemma_nine_bits(virtual_addr >> 21);
            lemma_nine_bits(virtual_addr >> 12);
        }
        let i0 = ((virtual_addr >> 39) & 0x1FF) as usize;
        let i1 = ((virtual_addr >> 30) & 0x1FF) as usize;
        let i2 = ((virtual_addr >> 21) & 0x1FF) as usize;
        let i3 = ((virtual_addr >> 12) & 0x1FF) as usize;
        let ghost a0 = self.arena();
        let ghost lv0 = self.spec_levels();
        let t1 = self.ensure_child(0, i0);
        let ghost a1 = self.arena();
        proof {
            if entry_valid(ent(a0, 0, i0 as int)) {
                assert(tables_needed(a0, virtual_addr) < 3 ==> true);
            } else {
                assert(tables_needed(a0, virtual_addr) == 3);
            }
            assert(self.spec_levels()[t1 as int] == 1);
            if !entry_valid(ent(a1, t1 as int, i1 as int)) {
                if entry_valid(ent(a0, 0, i0 as int)) {
                    assert(ent(a1, t1 as int, i1 as int) == ent(a0, t1 as int, i1 as int));
                    assert(tables_needed(a0, virtual_addr) == 2);
                } else {
                    assert(table_count(a1) == table_count(a0) + 1);
                }
                assert(table_count(a1) < old(self).spec_capacity());
            }
        }
        let t2 = self.ensure_child(t1, i1);
        let ghost a2 = self.arena();
        proof {
            assert(self.spec_levels()[t2 as int] == 2);
            assert(t1 != 0 && t2 != 0 && t2 != t1);
            if !entry_valid(ent(a2, t2 as int, i2 as int)) {
                if entry_valid(ent(a1, t1 as int, i1 as int)) {
                    if entry_valid(ent(a0, 0, i0 as int)) {
                        assert(ent(a1, t1 as int, i1 as int) == ent(a0, t1 as int, i1 as int));
                        assert(ent(a2, t2 as int, i2 as int) == ent(a1, t2 as int, i2 as int));
                        assert(tables_needed(a0, virtual_addr) == 1);
                        assert(table_count(a2) == table_count(a0));
                    } else {
                        assert(table_count(a2) <= table_count(a0) + 2);
                    }
                } else {
                    assert(table_count(a2) <= table_count(a0) + 2);
                }
                assert(table_count(a2) < old(self).spec_capacity());
            }
        }
        let t3 = self.ensure_child(t2, i2);
        let ghost a3 = self.arena();
        let leaf = PageTableEntry::new(physical_addr, attribute, permission, true);
        let leaf_word = leaf.raw();
        self.write_entry(t3, i3, leaf_word);
        self.tlb_clean = false;
        proof {
            let na = self.arena();
            assert(self.spec_levels()[t3 as int] == 3);
            assert(t3 != 0 && t3 as int != t1 as int && t3 as int != t2 as int);
            lemma_ent_update(a3, table_count(a3), t3 as int, i3 as int, leaf_word);
            assert(na =~= a3.update(t3 as int * 512 + i3 as int, leaf_word));
            assert((na, Result::<(), KernelError>::Ok(())) == map_page_model(
                a0,
                old(self).spec_capacity(),
                virtual_addr,
                physical_addr,
                attribute,
                permission,
            ));
            // the four path entries in the final arena
            assert(ent(na, t3 as int, i3 as int) == leaf_word);
            assert(ent(na, t2 as int, i2 as int) == ent(a3, t2 as int, i2 as int));
            assert(ent(na, t1 as int, i1 as int) == ent(a3, t1 as int, i1 as int));
            assert(ent(na, 0, i0 as int) == ent(a3, 0, i0 as int));
            assert(ent(a3, t2 as int, i2 as int) == ent(a3, t2 as int, i2 as int));
            assert(ent(a3, t1 as int, i1 as int) == ent(a2, t1 as int, i1 as int));
            assert(ent(a3, 0, i0 as int) == ent(a2, 0, i0 as int));
            assert(ent(a2, 0, i0 as int) == ent(a1, 0, i0 as int));
            assert(entry_valid(ent(na, 0, i0 as int)) && child_of(ent(na, 0, i0 as int))
                == t1 as int);
            assert(entry_valid(ent(na, t1 as int, i1 as int)) && child_of(
                ent(na, t1 as int, i1 as int),
            ) == t2 as int);
            assert(entry_valid(ent(na, t2 as int, i2 as int)) && child_of(
                ent(na, t2 as int, i2 as int),
            ) == t3 as int);
            assert(table_count(na) == table_count(a3));
            assert(table_count(a1) <= table_count(a2) <= table_count(a3));
            assert(t1 < table_count(na) && t2 < table_count(na) && t3 < table_count(na));
            lemma_entry_roundtrip(physical_addr, attribute, permission);
            assert(entry_valid(leaf_word));
            assert(resolve(na, virtual_addr) == Some(leaf_word));
            // the tables consumed match what the walk needed, and the path
            // is complete afterwards
            if entry_valid(ent(a0, 0, i0 as int)) {
                assert(a1 == a0);
                if entry_valid(ent(a1, t1 as int, i1 as int)) {
                    assert(a2 == a1);
                    if entry_valid(ent(a2, t2 as int, i2 as int)) {
                        assert(a3 == a2);
                        assert(tables_needed(a0, virtual_addr) == 0);
                    } else {
                        assert(table_count(a3) == table_count(a2) + 1);
                        assert(tables_needed(a0, virtual_addr) == 1);
                    }
                } else {
                    assert(table_count(a2) == table_count(a1) + 1);
                    assert(!entry_valid(ent(a2, t2 as int, i2 as int)));
                    assert(table_count(a3) == table_count(a2) + 1);
                    assert(tables_needed(a0, virtual_addr) == 2);
                }
            } else {
                assert(table_count(a1) == table_count(a0) + 1);
                assert(!entry_valid(ent(a1, t1 as int, i1 as int)));
                assert(table_count(a2) == table_count(a1) + 1);
                assert(!entry_valid(ent(a2, t2 as int, i2 as int)));
                assert(table_count(a3) == table_count(a2) + 1);
                assert(tables_needed(a0, virtual_addr) == 3);
            }
            assert(table_count(na) == table_count(a0) + tables_needed(a0, virtual_addr));
            assert(tables_needed(na, virtual_addr) == 0);
        }
        Ok(())
    }

    /// Unmaps one 4KB page: walks the same path and fails with `NotMapped`,
    /// changing nothing, when any intermediate level is invalid; on success
    /// the leaf entry is zeroed, so the next lookup at this address reports
    /// no mapping, and the TLB is stale until flushed.
    pub fn unmap_page(&mut self, virtual_addr: u64) -> (r: Result<(), KernelError>)
        requires
            old(self).wf(),
        ensures
            final(self).wf(),
            (final(self).arena(), r) == unmap_page_model(old(self).arena(), virtual_addr),
            final(self).spec_capacity() == old(self).spec_capacity(),
            final(self).asid() == old(self).asid(),
            final(self).spec_activated() == old(self).spec_activated(),
            (r is Ok) == (tables_needed(old(self).arena(), virtual_addr) == 0),
            r is Ok ==> tables_needed(final(self).arena(), virtual_addr) == 0,
            r is Ok ==> resolve(final(self).arena(), virtual_addr) is None && !final(self).spec_tlb_clean(),
            r is Err ==> r == Result::<(), KernelError>::Err(KernelError::NotMapped) && final(self).spec_tlb_clean() == old(self).spec_tlb_clean(),
    {
        proof {
            lemma_nine_bits(virtual_addr >> 39);
            lemma_nine_bits(virtual_addr >> 30);
            lemma_nine_bits(virtual_addr >> 21);
            lemma_nine_bits(virtual_addr >> 12);
        }
        let i0 = ((virtual_addr >> 39) & 0x1FF) as usize;
        let i1 = ((virtual_addr >> 30) & 0x1FF) as usize;
        let i2 = ((virtual_addr >> 21) & 0x1FF) as usize;
        let i3 = ((virtual_addr >> 12) & 0x1FF) as usize;
        let e0 = self.read_entry(0, i0);
        if (e0 & 1) == 0 {
            return Err(KernelError::NotMapped);
        }
        let t1 = self.child_index(e0);
        let e1 = self.read_entry(t1, i1);
        if (e1 & 1) == 0 {
            return Err(KernelError::NotMapped);
        }
        let t2 = self.child_index(e1);
        let e2 = self.read_entry(t2, i2);
        if (e2 & 1) == 0 {
            return Err(KernelError::NotMapped);
        }
        let t3 = self.child_index(e2);
        let ghost a0 = self.arena();
        self.write_entry(t3, i3, 0);
        self.tlb_clean = false;
        proof {
            let na = self.arena();
            let lv = self.spec_levels();
            assert(lv[t1 as int] == 1 && lv[t2 as int] == 2 && lv[t3 as int] == 3);
            assert(t3 != 0 && t3 as int != t1 as int && t3 as int != t2 as int);
            lemma_ent_update(a0, table_count(a0), t3 as int, i3 as int, 0u64);
            assert(na =~= a0.update(t3 as int * 512 + i3 as int, 0u64));
            assert(ent(na, 0, i0 as int) == e0);
            assert(ent(na, t1 as int, i1 as int) == e1);
            assert(ent(na, t2 as int, i2 as int) == e2);
            assert(ent(na, t3 as int, i3 as int) == 0);
            lemma_flag_constants();
            assert(!entry_valid(0u64));
            assert(resolve(na, virtual_addr) is None);
            assert(tables_needed(na, virtual_addr) == 0);
            assert(self.wf());
        }
        Ok(())
    }

    /// Maps `ceil(size / 4096)` consecutive pages, page by page: exactly the
    /// sequential composition of one `map_page` per page, 4096 bytes further
    /// along both addresses each time, stopping at the first failure. Fails
    /// with `InvalidParameter`, changing nothing, when either address is not
    /// 4KB-aligned.
    pub fn map_region(
        &mut self,
        virtual_addr: u64,
        physical_addr: u64,
        size: usize,
        attribute: MemoryAttribute,
        permission: MemoryPermission,
    ) -> (r: Result<(), KernelError>)
        requires
            old(self).wf(),
            virtual_addr as int + page_count_of(size as int) * 4096 <= u64::MAX as int + 1,
            physical_addr as int + page_count_of(size as int) * 4096 <= u64::MAX as int + 1,
        ensures
            final(self).wf(),
            final(self).spec_capacity() == old(self).spec_capacity(),
            final(self).asid() == old(self).asid(),
            final(self).spec_activated() == old(self).spec_activated(),
            virtual_addr % 4096 != 0 || physical_addr % 4096 != 0 ==> r == Result::<
                (),
                KernelError,
            >::Err(KernelError::InvalidParameter) && final(self).arena() == old(self).arena(),
            virtual_addr % 4096 == 0 && physical_addr % 4096 == 0 ==> (final(self).arena(), r)
                == map_pages_model(
                old(self).arena(),
                old(self).spec_capacity(),
                virtual_addr,
                physical_addr,
                attribute,
                permission,
                page_count_of(size as int),
            ),
            region_fits_cleanly(
                old(self).arena(),
                old(self).spec_capacity(),
                virtual_addr,
                physical_addr,
                page_count_of(size as int),
            ) ==> r is Ok && table_count(final(self).arena()) <= table_count(old(self).arena())
                + 3,
    {
        if virtual_addr % 4096 != 0 || physical_addr % 4096 != 0 {
            return Err(KernelError::InvalidParameter);
        }
        let page_count = size / 4096 + (if size % 4096 != 0 {
            1
        } else {
            0
        });
        let mut i: usize = 0;
        while i < page_count
            invariant
                self.wf(),
                self.spec_capacity() == old(self).spec_capacity(),
                self.asid() == old(self).asid(),
                self.spec_activated() == old(self).spec_activated(),
                0 <= i <= page_count,
                page_count == page_count_of(size as int),
                virtual_addr % 4096 == 0,
                physical_addr % 4096 == 0,
                virtual_addr as int + page_count * 4096 <= u64::MAX as int + 1,
                physical_addr as int + page_count * 4096 <= u64::MAX as int + 1,
                map_pages_model(
                    old(self).arena(),
                    old(self).spec_capacity(),
                    virtual_addr,
                    physical_addr,
                    attribute,
                    permission,
                    page_count as int,
                ) == map_pages_model(
                    self.arena(),
                    old(self).spec_capacity(),
                    (virtual_addr + i * 4096) as u64,
                    (physical_addr + i * 4096) as u64,
                    attribute,
                    permission,
                    page_count - i,
                ),
                region_fits_cleanly(
                    old(self).arena(),
                    old(self).spec_capacity(),
                    virtual_addr,
                    physical_addr,
                    page_count as int,
                ) ==> {
                    &&& table_count(self.arena()) <= table_count(old(self).arena()) + 3
                    &&& (0 < i < page_count ==> tables_needed(
                        self.arena(),
                        (virtual_addr + i * 4096) as u64,
                    ) == 0)
                    &&& (i == 0 ==> self.arena() == old(self).arena())
                },
            decreases page_count - i,
        {
            let ghost arena_before = self.arena();
            let ghost fits = region_fits_cleanly(
                old(self).arena(),
                old(self).spec_capacity(),
                virtual_addr,
                physical_addr,
                page_count as int,
            );
            proof {
                assert(virtual_addr as int + i as int * 4096 + 4096 <= u64::MAX as int + 1);
                assert(physical_addr as int + i as int * 4096 + 4096 <= u64::MAX as int + 1);
            }
            let vaddr = virtual_addr + (i as u64) * 4096;
            let paddr = physical_addr + (i as u64) * 4096;
            proof {
                if fits {
                    // this page's mapping is owed: its physical address is
                    // aligned and in range, and the arena has room
                    assert((physical_addr as int + i as int * 4096) % 4096 == 0)
                        by (nonlinear_arith)
                        requires
                            physical_addr as int % 4096 == 0,
                            i >= 0,
                    ;
                    assert(paddr % 4096 == 0);
                    assert(paddr < PHYSICAL_LIMIT);
                    if i == 0 {
                        lemma_tables_needed_bound(arena_before, vaddr);
                    } else {
                        assert(tables_needed(arena_before, vaddr) == 0);
                    }
                    assert(table_count(arena_before) + tables_needed(arena_before, vaddr)
                        <= old(self).spec_capacity());
                }
            }
            let step = self.map_page(vaddr, paddr, attribute, permission);
            proof {
                lemma_map_region_composes(
                    arena_before,
                    old(self).spec_capacity(),
                    vaddr,
                    paddr,
                    attribute,
                    permission,
                    page_count - i,
                );
            }
            match step {
                Ok(()) => {},
                Err(e) => {
                    proof {
                        assert(map_pages_model(
                            arena_before,
                            old(self).spec_capacity(),
                            vaddr,
                            paddr,
                            attribute,
                            permission,
                            page_count - i,
                        ) == (self.arena(), Result::<(), KernelError>::Err(e)));
                        if fits {
                            assert(false);
                        }
                    }
                    return Err(e);
                },
            }
            proof {
                assert(map_pages_model(
                    arena_before,
                    old(self).spec_capacity(),
                    vaddr,
                    paddr,
                    attribute,
                    permission,
                    page_count - i,
                ) == map_pages_model(
                    self.arena(),
                    old(self).spec_capacity(),
                    (vaddr + 4096) as u64,
                    (paddr + 4096) as u64,
                    attribute,
                    permission,
                    page_count - i - 1,
                ));
                if fits {
                    assert(tables_needed(self.arena(), vaddr) == 0);
                    assert(table_count(self.arena()) == table_count(arena_before)
                        + tables_needed(arena_before, vaddr));
                    if i == 0 {
                        lemma_tables_needed_bound(arena_before, vaddr);
                    }
                    assert(table_count(self.arena()) <= table_count(old(self).arena()) + 3);
                    if i + 1 < page_count {
                        let next = (virtual_addr + (i + 1) * 4096) as u64;
                        assert(l0_index(next) == l0_index(virtual_addr) && l1_index(next)
                            == l1_index(virtual_addr) && l2_index(next) == l2_index(
                            virtual_addr,
                        ));
                        assert(l0_index(vaddr) == l0_index(virtual_addr) && l1_index(vaddr)
                            == l1_index(virtual_addr) && l2_index(vaddr) == l2_index(
                            virtual_addr,
                        ));
                        lemma_tables_needed_same_path(self.arena(), vaddr, next);
                        assert(tables_needed(self.arena(), next) == 0);
                    }
                }
            }
            i = i + 1;
        }
        proof {
            assert(map_pages_model(
                self.arena(),
                old(self).spec_capacity(),
                (virtual_addr + page_count * 4096) as u64,
                (physical_addr + page_count * 4096) as u64,
                attribute,
                permission,
                0,
            ) == (self.arena(), Result::<(), KernelError>::Ok(())));
        }
        Ok(())
    }

    /// Unmaps `ceil(size / 4096)` consecutive pages, page by page: exactly
    /// the sequential composition of one `unmap_page` per page, stopping at
    /// the first address whose walk fails.
    pub fn unmap_region(&mut self, virtual_addr: u64, size: usize) -> (r: Result<(), KernelError>)
        requires
            old(self).wf(),
            virtual_addr as int + page_count_of(size as int) * 4096 <= u64::MAX as int + 1,
        ensures
            final(self).wf(),
            final(self).spec_capacity() == old(self).spec_capacity(),
            final(self).asid() == old(self).asid(),
            final(self).spec_activated() == old(self).spec_activated(),
            (final(self).arena(), r) == unmap_pages_model(
                old(self).arena(),
                virtual_addr,
                page_count_of(size as int),
            ),
            same_walk_path(virtual_addr, page_count_of(size as int)) && tables_needed(
                old(self).arena(),
                virtual_addr,
            ) == 0 ==> r is Ok,
    {
        let page_count = size / 4096 + (if size % 4096 != 0 {
            1
        } else {
            0
        });
        let mut i: usize = 0;
        while i < page_count
            invariant
                self.wf(),
                self.spec_capacity() == old(self).spec_capacity(),
                self.asid() == old(self).asid(),
                self.spec_activated() == old(self).spec_activated(),
                0 <= i <= page_count,
                page_count == page_count_of(size as int),
                virtual_addr as int + page_count * 4096 <= u64::MAX as int + 1,
                unmap_pages_model(old(self).arena(), virtual_addr, page_count as int)
                    == unmap_pages_model(
                    self.arena(),
                    (virtual_addr + i * 4096) as u64,
                    page_count - i,
                ),
                same_walk_path(virtual_addr, page_count as int) && tables_needed(
                    old(self).arena(),
                    virtual_addr,
                ) == 0 && i < page_count ==> tables_needed(
                    self.arena(),
                    (virtual_addr + i * 4096) as u64,
                ) == 0,
            decreases page_count - i,
        {
            let ghost arena_before = self.arena();
            let ghost walks = same_walk_path(virtual_addr, page_count as int)
                && tables_needed(old(self).arena(), virtual_addr) == 0;
            proof {
                assert(virtual_addr as int + i as int * 4096 + 4096 <= u64::MAX as int + 1);
            }
            let vaddr = virtual_addr + (i as u64) * 4096;
            let step = self.unmap_page(vaddr);
            proof {
                lemma_unmap_region_composes(arena_before, vaddr, page_count - i);
            }
            match step {
                Ok(()) => {},
                Err(e) => {
                    proof {
                        assert(unmap_pages_model(arena_before, vaddr, page_count - i) == (
                        self.arena(),
                        Result::<(), KernelError>::Err(e),
                        ));
                        if walks {
                            assert(false);
                        }
                    }
                    return Err(e);
                },
            }
            proof {
                assert(unmap_pages_model(arena_before, vaddr, page_count - i)
                    == unmap_pages_model(
                    self.arena(),
                    (vaddr + 4096) as u64,
                    page_count - i - 1,
                ));
                if walks && i + 1 < page_count {
                    let next = (virtual_addr + (i + 1) * 4096) as u64;
                    assert(l0_index(next) == l0_index(virtual_addr) && l1_index(next)
                        == l1_index(virtual_addr) && l2_index(next) == l2_index(virtual_addr));
                    assert(l0_index(vaddr) == l0_index(virtual_addr) && l1_index(vaddr)
                        == l1_index(virtual_addr) && l2_index(vaddr) == l2_index(virtual_addr));
                    lemma_tables_needed_same_path(self.arena(), vaddr, next);
                    assert(tables_needed(self.arena(), next) == 0);
                }
            }
            i = i + 1;
        }
        proof {
            assert(unmap_pages_model(
                self.arena(),
                (virtual_addr + page_count * 4096) as u64,
                0,
            ) == (self.arena(), Result::<(), KernelError>::Ok(())));
        }
        Ok(())
    }

    /// Walks the translation tree at a virtual address and returns the leaf
    /// entry it resolves to, if every level of the walk is valid.
    pub fn translate(&self, virtual_addr: u64) -> (r: Option<PageTableEntry>)
        requires
            self.wf(),
        ensures
            match resolve(self.arena(), virtual_addr) {
                Some(e) => r matches Some(entry) && entry@ == e,
                None => r is None,
            },
    {
        proof {
            lemma_nine_bits(virtual_addr >> 39);
            lemma_nine_bits(virtual_addr >> 30);
            lemma_nine_bits(virtual_addr >> 21);
            lemma_nine_bits(virtual_addr >> 12);
        }
        let i0 = ((virtual_addr >> 39) & 0x1FF) as usize;
        let i1 = ((virtual_addr >> 30) & 0x1FF) as usize;
        let i2 = ((virtual_addr >> 21) & 0x1FF) as usize;
        let i3 = ((virtual_addr >> 12) & 0x1FF) as usize;
        let e0 = self.read_entry(0, i0);
        if (e0 & 1) == 0 {
            return None;
        }
        let t1 = self.child_index(e0);
        let e1 = self.read_entry(t1, i1);
        if (e1 & 1) == 0 {
            return None;
        }
        let t2 = self.child_index(e1);
        let e2 = self.read_entry(t2, i2);
        if (e2 & 1) == 0 {
            return None;
        }
        let t3 = self.child_index(e2);
        let e3 = self.read_entry(t3, i3);
        if (e3 & 1) == 0 {
            return None;
        }
        Some(PageTableEntry(e3))
    }

    /// Programs the translation-table-base registers from the root table,
    /// the translation-control register and the memory-attribute-indirection
    /// register, then performs a full TLB invalidation. Must run once after
    /// the first mappings are installed, before any access through them.
    pub fn activate(&mut self)
        requires
            old(self).wf(),
        ensures
            final(self).wf(),
            final(self).arena() == old(self).arena(),
            final(self).spec_capacity() == old(self).spec_capacity(),
            final(self).asid() == old(self).asid(),
            final(self).spec_activated(),
            final(self).spec_tlb_clean(),
            final(self).spec_ttbr0() == 0,
            final(self).spec_tcr() == TCR_VALUE,
            final(self).spec_mair() == MAIR_VALUE,
    {
        let root = self.root_table_address();
        self.ttbr0 = root;
        self.ttbr1 = root;
        self.tcr = TCR_VALUE;
        self.mair = MAIR_VALUE;
        self.activated = true;
        self.flush_tlb();
    }

    /// A full TLB invalidation. Idempotent: the TLB is clean afterwards
    /// whatever its state was, and nothing else changes.
    pub fn flush_tlb(&mut self)
        requires
            old(self).wf(),
        ensures
            final(self).wf(),
            final(self).spec_tlb_clean(),
            final(self).arena() == old(self).arena(),
            final(self).spec_capacity() == old(self).spec_capacity(),
            final(self).asid() == old(self).asid(),
            final(self).spec_activated() == old(self).spec_activated(),
            final(self).spec_ttbr0() == old(self).spec_ttbr0(),
            final(self).spec_tcr() == old(self).spec_tcr(),
            final(self).spec_mair() == old(self).spec_mair(),
    {
        self.tlb_clean = true;
    }

    /// The arena offset of the level-0 root table: tables occupy the 4KB
    /// frames of the dedicated arena in allocation order, the root first.
    pub fn root_table_address(&self) -> (a: u64)
        ensures
            a == 0,
    {
        0
    }

    /// The programmed translation-table base.
    pub closed spec fn spec_ttbr0(&self) -> u64 {
        self.ttbr0
    }

    /// The programmed translation-control value.
    pub closed spec fn spec_tcr(&self) -> u64 {
        self.tcr
    }

    /// The programmed memory-attribute-indirection value.
    pub closed spec fn spec_mair(&self) -> u64 {
        self.mair
    }
}

impl PageTableEntry {
    /// The raw entry word.
    fn raw(&self) -> (e: u64)
        ensures
            e == self@,
    {
        self.0
    }
}

/// Writing one slot of one table changes exactly that entry and no other.
proof fn lemma_ent_update(arena: Seq<u64>, count: int, t: int, s: int, e: u64)
    requires
        arena.len() == count * 512,
        0 <= t < count,
        0 <= s < 512,
    ensures
        forall|u: int, w: int|
            0 <= u < count && 0 <= w < 512 ==> #[trigger] ent(
                arena.update(t * 512 + s, e),
                u,
                w,
            ) == (if u == t && w == s {
                e
            } else {
                ent(arena, u, w)
            }),
{
    assert(0 <= t * 512 + s && t * 512 + s < arena.len()) by (nonlinear_arith)
        requires
            arena.len() == count * 512,
            0 <= t < count,
            0 <= s < 512,
    ;
    assert forall|u: int, w: int| 0 <= u < count && 0 <= w < 512 implies #[trigger] ent(
        arena.update(t * 512 + s, e),
        u,
        w,
    ) == (if u == t && w == s {
        e
    } else {
        ent(arena, u, w)
    }) by {
        let j = u * 512 + w;
        assert(0 <= j && j < arena.len() && ((u != t || w != s) ==> j != t * 512 + s) && (u == t
            && w == s ==> j == t * 512 + s)) by (nonlinear_arith)
            requires
                j == u * 512 + w,
                arena.len() == count * 512,
                0 <= u < count,
                0 <= w < 512,
                0 <= t < count,
                0 <= s < 512,
        ;
    }
}

/// Mapping a region of `n` pages unfolds to one page mapping followed by the
/// region of the remaining `n - 1` pages: the batched form is the sequential
/// composition of the page-by-page form.
pub proof fn lemma_map_region_composes(
    arena: Seq<u64>,
    capacity: int,
    v: u64,
    physical_addr: u64,
    attribute: MemoryAttribute,
    permission: MemoryPermission,
    n: int,
)
    requires
        n > 0,
    ensures
        map_pages_model(arena, capacity, v, physical_addr, attribute, permission, n) == ({
            let (a1, r1) = map_page_model(arena, capacity, v, physical_addr, attribute,
                permission);
            if r1 is Err {
                (a1, r1)
            } else {
                map_pages_model(
                    a1,
                    capacity,
                    (v + 4096) as u64,
                    (physical_addr + 4096) as u64,
                    attribute,
                    permission,
                    n - 1,
                )
            }
        }),
{
}

/// Unmapping a region of `n` pages unfolds to one page unmapping followed by
/// the region of the remaining `n - 1` pages.
pub proof fn lemma_unmap_region_composes(arena: Seq<u64>, v: u64, n: int)
    requires
        n > 0,
    ensures
        unmap_pages_model(arena, v, n) == ({
            let (a1, r1) = unmap_page_model(arena, v);
            if r1 is Err {
                (a1, r1)
            } else {
                unmap_pages_model(a1, (v + 4096) as u64, n - 1)
            }
        }),
{
}

/// Base of the kernel-code region the boot map installs.
pub const KERNEL_CODE_BASE: u64 = 0x80000;

/// Base of the kernel-data region. The data region sits at two megabytes,
/// directly above the megabyte of kernel code that starts at
/// `KERNEL_CODE_BASE`, so the two regions cannot overlap.
pub const KERNEL_DATA_BASE: u64 = 0x20_0000;

/// Base of the console device's register page.
pub const CONSOLE_DEVICE_BASE: u64 = 0x0900_0000;

/// Size of each of the kernel-code and kernel-data regions: one megabyte,
/// 256 pages.
pub const BOOT_REGION_BYTES: usize = 0x10_0000;

/// Size of the console device's register window: one page.
pub const CONSOLE_REGION_BYTES: usize = 0x1000;

/// Every address of the two-megabyte window holding the kernel code walks
/// the first slot of every level.
proof fn lemma_boot_code_path(x: u64)
    requires
        x < 0x20_0000,
    ensures
        l0_index(x) == 0,
        l1_index(x) == 0,
        l2_index(x) == 0,
{
    assert(x < 0x20_0000 ==> ((x >> 39) & 0x1FF == 0 && (x >> 30) & 0x1FF == 0 && (x >> 21)
        & 0x1FF == 0)) by (bit_vector);
}

/// Every address of the kernel-data window walks the second level-2 slot
/// under the first slots of levels 0 and 1.
proof fn lemma_boot_data_path(x: u64)
    requires
        0x20_0000 <= x < 0x40_0000,
    ensures
        l0_index(x) == 0,
        l1_index(x) == 0,
        l2_index(x) == 1,
{
    assert((0x20_0000 <= x && x < 0x40_0000) ==> ((x >> 39) & 0x1FF == 0 && (x >> 30) & 0x1FF
        == 0 && (x >> 21) & 0x1FF == 1)) by (bit_vector);
}

/// The arena the boot map leaves behind: the kernel-code pages mapped
/// execute-read, the kernel-data pages mapped read-write, and the console
/// device page mapped as device memory, installed in that order over the
/// fresh arena.
pub open spec fn boot_arena() -> Seq<u64> {
    map_pages_model(
        map_pages_model(
            map_pages_model(
                fresh_arena(),
                ARENA_TABLES as int,
                KERNEL_CODE_BASE,
                KERNEL_CODE_BASE,
                MemoryAttribute::Normal,
                MemoryPermission::ExecuteRead,
                256,
            ).0,
            ARENA_TABLES as int,
            KERNEL_DATA_BASE,
            KERNEL_DATA_BASE,
            MemoryAttribute::Normal,
            MemoryPermission::ReadWrite,
            256,
        ).0,
        ARENA_TABLES as int,
        CONSOLE_DEVICE_BASE,
        CONSOLE_DEVICE_BASE,
        MemoryAttribute::Device,
        MemoryPermission::ReadWrite,
        1,
    ).0
}

/// Boot-time virtual-memory initialisation: the kernel code mapped
/// execute-read at `KERNEL_CODE_BASE`, the kernel data mapped read-write at
/// `KERNEL_DATA_BASE` (two megabytes, above the code so the regions are
/// disjoint), the console device mapped as device memory, and the
/// translation registers programmed. The three regions provably fit the
/// fresh sixteen-table arena, so initialisation always succeeds and leaves
/// exactly the boot map installed.
pub fn init() -> (r: Result<PageTableManager, KernelError>)
    ensures
        r is Ok,
        r matches Ok(m) ==> {
            &&& m.wf()
            &&& m.spec_activated()
            &&& m.spec_tlb_clean()
            &&& m.arena() == boot_arena()
            &&& m.spec_capacity() == ARENA_TABLES
        },
{
    let mut manager = PageTableManager::new();
    proof {
        assert forall|i: int| 0 <= i < 256 implies {
            &&& #[trigger] l0_index((KERNEL_CODE_BASE + i * 4096) as u64) == l0_index(
                KERNEL_CODE_BASE,
            )
            &&& l1_index((KERNEL_CODE_BASE + i * 4096) as u64) == l1_index(KERNEL_CODE_BASE)
            &&& l2_index((KERNEL_CODE_BASE + i * 4096) as u64) == l2_index(KERNEL_CODE_BASE)
        } by {
            lemma_boot_code_path((KERNEL_CODE_BASE + i * 4096) as u64);
            lemma_boot_code_path(KERNEL_CODE_BASE);
        }
        assert(same_walk_path(KERNEL_CODE_BASE, 256));
        assert(page_count_of(BOOT_REGION_BYTES as int) == 256);
        assert(region_fits_cleanly(
            manager.arena(),
            ARENA_TABLES as int,
            KERNEL_CODE_BASE,
            KERNEL_CODE_BASE,
            256,
        ));
    }
    let code = manager.map_region(
        KERNEL_CODE_BASE,
        KERNEL_CODE_BASE,
        BOOT_REGION_BYTES,
        MemoryAttribute::Normal,
        MemoryPermission::ExecuteRead,
    );
    match code {
        Ok(()) => {},
        Err(e) => {
            proof {
                assert(false);
            }
            return Err(e);
        },
    }
    proof {
        assert forall|i: int| 0 <= i < 256 implies {
            &&& #[trigger] l0_index((KERNEL_DATA_BASE + i * 4096) as u64) == l0_index(
                KERNEL_DATA_BASE,
            )
            &&& l1_index((KERNEL_DATA_BASE + i * 4096) as u64) == l1_index(KERNEL_DATA_BASE)
            &&& l2_index((KERNEL_DATA_BASE + i * 4096) as u64) == l2_index(KERNEL_DATA_BASE)
        } by {
            lemma_boot_data_path((KERNEL_DATA_BASE + i * 4096) as u64);
            lemma_boot_data_path(KERNEL_DATA_BASE);
        }
        assert(same_walk_path(KERNEL_DATA_BASE, 256));
        assert(region_fits_cleanly(
            manager.arena(),
            ARENA_TABLES as int,
            KERNEL_DATA_BASE,
            KERNEL_DATA_BASE,
            256,
        ));
    }
    let data = manager.map_region(
        KERNEL_DATA_BASE,
        KERNEL_DATA_BASE,
        BOOT_REGION_BYTES,
        MemoryAttribute::Normal,
        MemoryPermission::ReadWrite,
    );
    match data {
        Ok(()) => {},
        Err(e) => {
            proof {
                assert(false);
            }
            return Err(e);
        },
    }
    proof {
        assert forall|i: int| 0 <= i < 1 implies {
            &&& #[trigger] l0_index((CONSOLE_DEVICE_BASE + i * 4096) as u64) == l0_index(
                CONSOLE_DEVICE_BASE,
            )
            &&& l1_index((CONSOLE_DEVICE_BASE + i * 4096) as u64) == l1_index(
                CONSOLE_DEVICE_BASE,
            )
            &&& l2_index((CONSOLE_DEVICE_BASE + i * 4096) as u64) == l2_index(
                CONSOLE_DEVICE_BASE,
            )
        } by {
            assert((CONSOLE_DEVICE_BASE + i * 4096) as u64 == CONSOLE_DEVICE_BASE);
        }
        assert(same_walk_path(CONSOLE_DEVICE_BASE, 1));
        assert(page_count_of(CONSOLE_REGION_BYTES as int) == 1);
        assert(region_fits_cleanly(
            manager.arena(),
            ARENA_TABLES as int,
            CONSOLE_DEVICE_BASE,
            CONSOLE_DEVICE_BASE,
            1,
        ));
    }
    let device = manager.map_region(
        CONSOLE_DEVICE_BASE,
        CONSOLE_DEVICE_BASE,
        CONSOLE_REGION_BYTES,
        MemoryAttribute::Device,
        MemoryPermission::ReadWrite,
    );
    match device {
        Ok(()) => {},
        Err(e) => {
            proof {
                assert(false);
            }
            return Err(e);
        },
    }
    proof {
        assert(manager.arena() == boot_arena());
    }
    manager.activate();
    Ok(manager)
}

} // verus!
