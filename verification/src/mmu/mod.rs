//! MMU (Memory Management Unit) translation tables for ARM64.
//!
//! Page size:          4KiB
//! Page table levels:  4 (Level 0 to Level 3)
pub mod attr;
pub mod block_desc;
pub mod desc;
pub mod page_desc;
pub mod page_table;
pub mod table_desc;

use vstd::prelude::*;

use attr::{BlockAndPageDescriptorAttributes, MemoryRegionAttrIndex, ShareabilityAttribute};
use block_desc::BlockDescriptor;
use page_desc::PageDescriptor;
use page_table::{PageTable, all_table_addresses, index_at, is_table_address, same_slots_from};

verus! {

pub const PAGE_SIZE: usize = 4096;
pub const PAGE_TABLE_ENTRIES: usize = 512;
pub const BLOCK_SIZE: usize = 0x20_0000;
pub const ADDR_MASK: u64 = 0x0000_ffff_ffff_f000;

pub const PAGE_SHIFT: usize = 12;
pub const LEVEL_3_SHIFT: usize = 12;
pub const LEVEL_2_SHIFT: usize = 21;
pub const LEVEL_1_SHIFT: usize = 30;
pub const LEVEL_0_SHIFT: usize = 39;

/// The half of the virtual address space an address belongs to.
#[derive(Clone, Copy, Debug, PartialEq, Eq, Structural)]
pub enum VirtualAddressSpace {
    User,
    Kernel,
}

impl VirtualAddressSpace {
    /// Addresses from 0xffff_0000_0000_0000 on are the kernel's (TTBR1), the rest the user's.
    pub fn from(value: usize) -> (s: Self)
        ensures
            s == (if value >= 0xffff_0000_0000_0000 { VirtualAddressSpace::Kernel } else { VirtualAddressSpace::User }),
    {
        if value as u64 >= 0xffff_0000_0000_0000u64 {
            VirtualAddressSpace::Kernel
        } else {
            VirtualAddressSpace::User
        }
    }
}

#[derive(Clone, Copy, Debug, PartialEq, Eq, Structural)]
pub enum TranslationLevel {
    Level0,
    Level1,
    Level2,
    Level3,
}

/// The index (0..512) of the entry of `va` in its level-`shift` table.
pub open spec fn table_index(va: usize, shift: u64) -> usize {
    (((va as u64) >> shift) & 0x1FF) as usize
}

pub fn level_0_index(va: usize) -> (i: usize)
    ensures
        i == table_index(va, 39),
        i < 512,
{
    let i = ((va as u64) >> 39u64) & 0x1FF;
    assert(i < 512) by (bit_vector)
        requires
            i == ((va as u64) >> 39u64) & 0x1FFu64,
    ;
    i as usize
}

pub fn level_1_index(va: usize) -> (i: usize)
    ensures
        i == table_index(va, 30),
        i < 512,
{
    let i = ((va as u64) >> 30u64) & 0x1FF;
    assert(i < 512) by (bit_vector)
        requires
            i == ((va as u64) >> 30u64) & 0x1FFu64,
    ;
    i as usize
}

pub fn level_2_index(va: usize) -> (i: usize)
    ensures
        i == table_index(va, 21),
        i < 512,
{
    let i = ((va as u64) >> 21u64) & 0x1FF;
    assert(i < 512) by (bit_vector)
        requires
            i == ((va as u64) >> 21u64) & 0x1FFu64,
    ;
    i as usize
}

pub fn level_3_index(va: usize) -> (i: usize)
    ensures
        i == table_index(va, 12),
        i < 512,
{
    let i = ((va as u64) >> 12u64) & 0x1FF;
    assert(i < 512) by (bit_vector)
        requires
            i == ((va as u64) >> 12u64) & 0x1FFu64,
    ;
    i as usize
}

/// The attributes of a kernel mapping: inner shareable, accessed, executable or not, and the
/// memory type.
pub open spec fn block_or_page_attrs(v: u64, xn: bool, index: MemoryRegionAttrIndex) -> u64 {
    attr::with_mem_attr_index(
        attr::with_execute_never(
            attr::with_accessed(attr::with_shareability(v, ShareabilityAttribute::InnerShareable), true),
            xn,
        ),
        index,
    )
}

/// The level 1 block descriptor of entry `index` of an identity-mapping table: the 1 GiB block
/// at `index` GiB, inner shareable, accessed, executable, of the given memory type.
pub fn identity_block_descriptor(index: usize, attr_index: MemoryRegionAttrIndex) -> (d: u64)
    requires
        index < 512,
        index * 0x4000_0000 <= usize::MAX,
    ensures
        d == block_or_page_attrs((index * 0x4000_0000) as u64 | 0b01, false, attr_index),
{
    assert((index * 0x4000_0000) % 0x4000_0000 == 0) by (nonlinear_arith);
    let mut block = BlockDescriptor::new_level_1(index * 0x4000_0000);
    block.set_shareability(ShareabilityAttribute::InnerShareable).set_accessed(true).set_execute_never(
        false,
    ).set_mem_attr_index(attr_index);
    block.raw()
}

/// Where the regions of the virtual address space begin: the user half, and the linear map,
/// heap and I/O peripheral regions of the kernel half. Each region has an entry of its own in
/// the level-0 table of its half.
#[derive(Clone, Copy, Debug, PartialEq, Eq, Structural)]
pub struct MemoryLayout {
    pub user_map_offset: usize,
    pub linear_map_offset: usize,
    pub heap_map_offset: usize,
    pub io_peripherals_map_offset: usize,
}

/// The memory type of a kernel page at `va`: normal write-back memory in the heap region,
/// device memory in the I/O region.
pub open spec fn kernel_page_attr_index(layout: MemoryLayout, va: usize) -> MemoryRegionAttrIndex {
    if table_index(va, 39) == table_index(layout.heap_map_offset, 39) {
        MemoryRegionAttrIndex::NormalWriteBackNonTransientReadWriteAlloc
    } else {
        MemoryRegionAttrIndex::DeviceNgnRnE
    }
}

/// The page descriptor that maps the kernel page `va` to `pa`: inner shareable, accessed,
/// never executable, of the memory type of its region.
pub open spec fn kernel_page_descriptor(layout: MemoryLayout, va: usize, pa: usize) -> u64 {
    block_or_page_attrs(pa as u64 | 0b11, true, kernel_page_attr_index(layout, va))
}

/// `va` is a kernel address of the heap or I/O region (not of the linear map) and `pa` is
/// page-aligned: the pages that `map_page` maps.
pub open spec fn can_map_page(layout: MemoryLayout, va: usize, pa: usize) -> bool {
    &&& va >= 0xffff_0000_0000_0000
    &&& table_index(va, 39) != table_index(layout.linear_map_offset, 39)
    &&& (table_index(va, 39) == table_index(layout.heap_map_offset, 39) || table_index(va, 39)
        == table_index(layout.io_peripherals_map_offset, 39))
    &&& pa % 4096 == 0
}

/// The page descriptor of `pa`, inner shareable, accessed, never executable, of the given
/// memory type.
fn page_descriptor(pa: usize, attr_index: MemoryRegionAttrIndex) -> (d: u64)
    requires
        pa % 4096 == 0,
    ensures
        d == block_or_page_attrs(pa as u64 | 0b11, true, attr_index),
{
    let mut page = PageDescriptor::new(pa);
    page.set_shareability(ShareabilityAttribute::InnerShareable).set_accessed(true).set_execute_never(
        true,
    ).set_mem_attr_index(attr_index);
    page.raw()
}

/// Maps the kernel page `va` to the physical page `pa` in the kernel tables rooted at
/// `kernel_table`, creating the missing level 1 to 3 tables from the pages at the end of
/// `free_pages`. Afterwards the walk of `va` ends at the page descriptor of `pa`, and the walk
/// of every address that does not share all four table entries with `va` is unchanged.
pub fn map_page(
    kernel_table: &mut PageTable,
    layout: &MemoryLayout,
    va: usize,
    pa: usize,
    free_pages: &mut Vec<usize>,
)
    requires
        can_map_page(*layout, va, pa),
        old(kernel_table).wf(0),
        old(kernel_table).path_has_no_block(0, va),
        old(free_pages)@.len() >= 3,
        all_table_addresses(old(free_pages)@),
    ensures
        final(kernel_table).wf(0),
        final(kernel_table).walk(0, va) == kernel_page_descriptor(*layout, va, pa),
        forall|va2: usize|
            !same_slots_from(va, va2, 0) ==> #[trigger] final(kernel_table).walk(0, va2) == old(kernel_table).walk(0, va2),
        final(kernel_table).spec_phys() == old(kernel_table).spec_phys(),
        old(free_pages)@.len() - 3 <= final(free_pages)@.len() <= old(free_pages)@.len(),
        final(free_pages)@ == old(free_pages)@.take(final(free_pages)@.len() as int),
{
    let l0 = level_0_index(va);
    let attr_index = if l0 == level_0_index(layout.heap_map_offset) {
        MemoryRegionAttrIndex::NormalWriteBackNonTransientReadWriteAlloc
    } else {
        MemoryRegionAttrIndex::DeviceNgnRnE
    };
    let desc = page_descriptor(pa, attr_index);
    kernel_table.map_in(0, va, desc, free_pages);
}

/// Block and page attributes leave the descriptor type (bits 0 and 1) as it was.
proof fn lemma_attrs_keep_type(v: u64, xn: bool, index: MemoryRegionAttrIndex)
    ensures
        block_or_page_attrs(v, xn, index) & 0b11 == v & 0b11,
{
    let s = ShareabilityAttribute::InnerShareable.spec_bits();
    let m = index.spec_bits();
    assert(m <= 2);
    if xn {
        assert(((((((v & !0x300u64) | (s << 8u64)) | 0x400u64) | 0x0040_0000_0000_0000u64)
            & !0x1cu64) | (m << 2u64)) & 3 == v & 3) by (bit_vector)
            requires
                s == 3,
                m <= 2,
        ;
    } else {
        assert(((((((v & !0x300u64) | (s << 8u64)) | 0x400u64) & !0x0040_0000_0000_0000u64)
            & !0x1cu64) | (m << 2u64)) & 3 == v & 3) by (bit_vector)
            requires
                s == 3,
                m <= 2,
        ;
    }
}

/// The level-1 table that maps the first 512 GiB one to one: entry `i` is the 1 GiB block at
/// `i` GiB, inner shareable, accessed, executable, of the given memory type.
pub open spec fn identity_blocks(attr_index: MemoryRegionAttrIndex) -> Seq<u64> {
    Seq::new(
        512,
        |i: int| block_or_page_attrs((i * 0x4000_0000) as u64 | 0b01, false, attr_index),
    )
}

/// An empty table: 512 invalid entries.
pub open spec fn empty_table() -> Seq<u64> {
    Seq::new(512, |_i: int| 0u64)
}

/// Fills the table with the identity blocks of the first 512 GiB.
fn fill_identity_blocks(table: &mut PageTable, attr_index: MemoryRegionAttrIndex)
    requires
        old(table).has_slots(),
        is_table_address(old(table).spec_phys()),
        forall|i: int| 0 <= i < 512 ==> #[trigger] old(table).child_view(i) is None,
        usize::MAX >= 0x80_0000_0000,
    ensures
        final(table)@ == identity_blocks(attr_index),
        final(table).spec_phys() == old(table).spec_phys(),
        final(table).wf(1),
        forall|i: int| 0 <= i < 512 ==> #[trigger] final(table).child_view(i) is None,
{
    let mut index: usize = 0;
    proof {
        table.lemma_len();
    }
    while index < PAGE_TABLE_ENTRIES
        invariant
            0 <= index <= 512,
            usize::MAX >= 0x80_0000_0000,
            table.has_slots(),
            table.spec_phys() == old(table).spec_phys(),
            is_table_address(table.spec_phys()),
            table@.len() == 512,
            forall|i: int| 0 <= i < 512 ==> #[trigger] table.child_view(i) is None,
            forall|k: int| 0 <= k < index ==> #[trigger] table@[k] == identity_blocks(attr_index)[k],
        decreases 512 - index,
    {
        let d = identity_block_descriptor(index, attr_index);
        table.set_descriptor(index, d);
        index += 1;
    }
    assert(table@ =~= identity_blocks(attr_index));
    assert forall|i: int| 0 <= i < 512 implies #[trigger] table@[i] & 0b11 != 0b11 by {
        let a = (i * 0x4000_0000) as u64;
        let v = a | 0b01;
        lemma_attrs_keep_type(v, false, attr_index);
        assert(a % 4 == 0) by (nonlinear_arith)
            requires
                a == i * 0x4000_0000,
        ;
        assert(v & 0b11 == 0b01) by (bit_vector)
            requires
                v == a | 0b01,
                a % 4 == 0,
        ;
    }
    proof {
        table.lemma_wf_leaf(1);
    }
}

/// The level-0 user table: the entry of the user region points to the level-1 table at
/// `level_1_phys`, every other entry is invalid.
pub open spec fn user_level_0(layout: MemoryLayout, level_1_phys: usize) -> Seq<u64> {
    Seq::new(
        512,
        |i: int|
            if i == table_index(layout.user_map_offset, 39) {
                level_1_phys as u64 | 0b11
            } else {
                0u64
            },
    )
}

/// The level-0 kernel table: the entries of the linear map, heap and I/O regions point to the
/// level-1 tables at `linear`, `heap` and `io` (where two regions share an entry, the later of
/// them in that order), every other entry is invalid.
pub open spec fn kernel_level_0(layout: MemoryLayout, linear: usize, heap: usize, io: usize) -> Seq<
    u64,
> {
    Seq::new(
        512,
        |i: int|
            if i == table_index(layout.io_peripherals_map_offset, 39) {
                io as u64 | 0b11
            } else if i == table_index(layout.heap_map_offset, 39) {
                heap as u64 | 0b11
            } else if i == table_index(layout.linear_map_offset, 39) {
                linear as u64 | 0b11
            } else {
                0u64
            },
    )
}

/// Builds the initial translation tables from six pages taken from the end of `free_pages`,
/// and returns the level-0 user table and the level-0 kernel table.
///
/// The user table maps the first 512 GiB of the user half one to one as device memory. The
/// kernel table maps the linear region one to one as normal memory, and has empty level-1
/// tables for the heap and I/O regions, where `map_page` adds pages.
pub fn setup_page_tables(layout: &MemoryLayout, free_pages: &mut Vec<usize>) -> (tables: (
    PageTable,
    PageTable,
))
    requires
        old(free_pages)@.len() >= 6,
        all_table_addresses(old(free_pages)@),
        usize::MAX >= 0x80_0000_0000,
    ensures
        ({
            let pages = old(free_pages)@;
            let n = pages.len() as int;
            let user = tables.0;
            let kernel = tables.1;
            let u = table_index(layout.user_map_offset, 39) as int;
            let lin = table_index(layout.linear_map_offset, 39) as int;
            let heap = table_index(layout.heap_map_offset, 39) as int;
            let io = table_index(layout.io_peripherals_map_offset, 39) as int;
            &&& final(free_pages)@ == pages.take(n - 6)
            &&& user.wf(0)
            &&& kernel.wf(0)
            &&& user.spec_phys() == pages[n - 1]
            &&& kernel.spec_phys() == pages[n - 2]
            &&& user@ == user_level_0(*layout, pages[n - 3])
            &&& user.child_view(u) == Some(identity_blocks(MemoryRegionAttrIndex::DeviceNgnRnE))
            &&& forall|i: int| 0 <= i < 512 && i != u ==> #[trigger] user.child_view(i) is None
            &&& kernel@ == kernel_level_0(*layout, pages[n - 4], pages[n - 5], pages[n - 6])
            &&& kernel.child_view(io) == Some(empty_table())
            &&& heap != io ==> kernel.child_view(heap) == Some(empty_table())
            &&& lin != heap && lin != io ==> kernel.child_view(lin) == Some(
                identity_blocks(MemoryRegionAttrIndex::NormalWriteBackNonTransientReadWriteAlloc),
            )
            &&& forall|i: int|
                0 <= i < 512 && i != lin && i != heap && i != io ==> #[trigger] kernel.child_view(
                    i,
                ) is None
        }),
{
    let ghost pages = free_pages@;
    let mut user_table_0 = PageTable::new(free_pages.pop().unwrap());
    let mut kernel_table_0 = PageTable::new(free_pages.pop().unwrap());

    // map first 512 GiB of user virtual address space
    let mut user_table_1 = PageTable::new(free_pages.pop().unwrap());
    fill_identity_blocks(&mut user_table_1, MemoryRegionAttrIndex::DeviceNgnRnE);
    let ghost user_1 = user_table_1;
    let u = level_0_index(layout.user_map_offset);
    user_table_0.set_table(u, user_table_1, 0);

    let mut kernel_table_1_linear = PageTable::new(free_pages.pop().unwrap());
    fill_identity_blocks(
        &mut kernel_table_1_linear,
        MemoryRegionAttrIndex::NormalWriteBackNonTransientReadWriteAlloc,
    );
    let kernel_table_1_heap = PageTable::new(free_pages.pop().unwrap());
    let kernel_table_1_io = PageTable::new(free_pages.pop().unwrap());
    let ghost heap_1 = kernel_table_1_heap;
    let ghost io_1 = kernel_table_1_io;
    let lin = level_0_index(layout.linear_map_offset);
    let heap = level_0_index(layout.heap_map_offset);
    let io = level_0_index(layout.io_peripherals_map_offset);
    kernel_table_0.set_table(lin, kernel_table_1_linear, 0);
    kernel_table_0.set_table(heap, kernel_table_1_heap, 0);
    kernel_table_0.set_table(io, kernel_table_1_io, 0);

    proof {
        let n = pages.len() as int;
        assert(free_pages@ =~= pages.take(n - 6));
        assert(user_table_0@ =~= user_level_0(*layout, pages[n - 3]));
        assert(kernel_table_0@ =~= kernel_level_0(*layout, pages[n - 4], pages[n - 5], pages[n - 6]));
        assert(heap_1@ =~= empty_table());
        assert(io_1@ =~= empty_table());
    }
    (user_table_0, kernel_table_0)
}

/// The identity blocks that the early boot code writes before the MMU is on (attributes 0x701:
/// device memory, and 0x709: normal write-back memory) are the identity blocks the kernel tables
/// use.
pub proof fn lemma_early_identity_blocks(i: u64)
    requires
        i < 512,
    ensures
        block_or_page_attrs((i * 0x4000_0000) as u64 | 0b01, false, MemoryRegionAttrIndex::DeviceNgnRnE)
            == (i * 0x4000_0000) as u64 | 0x701,
        block_or_page_attrs(
            (i * 0x4000_0000) as u64 | 0b01,
            false,
            MemoryRegionAttrIndex::NormalWriteBackNonTransientReadWriteAlloc,
        ) == (i * 0x4000_0000) as u64 | 0x709,
{
    let a = (i * 0x4000_0000) as u64;
    assert(a % 0x4000_0000 == 0 && a < 0x80_0000_0000) by (nonlinear_arith)
        requires
            a == i * 0x4000_0000,
            i < 512,
    ;
    assert((((((a | 1) & !0x300u64) | (3u64 << 8u64)) | 0x400u64) & !0x0040_0000_0000_0000u64)
        & !0x1cu64 | (0u64 << 2u64) == a | 0x701) by (bit_vector)
        requires
            a % 0x4000_0000 == 0,
            a < 0x80_0000_0000,
    ;
    assert((((((a | 1) & !0x300u64) | (3u64 << 8u64)) | 0x400u64) & !0x0040_0000_0000_0000u64)
        & !0x1cu64 | (2u64 << 2u64) == a | 0x709) by (bit_vector)
        requires
            a % 0x4000_0000 == 0,
            a < 0x80_0000_0000,
    ;
}

} // verus!
