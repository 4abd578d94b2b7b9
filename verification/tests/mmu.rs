use lib::mmu::attr::{BlockAndPageDescriptorAttributes, MemoryRegionAttrIndex, ShareabilityAttribute};
use lib::mmu::block_desc::BlockDescriptor;
use lib::mmu::desc::Descriptor;
use lib::mmu::page_desc::PageDescriptor;
use lib::mmu::page_table::PageTable;
use lib::mmu::table_desc::TableDescriptor;
use lib::mmu::{
    identity_block_descriptor, level_0_index, level_1_index, level_2_index, level_3_index, map_page,
    setup_page_tables, MemoryLayout, TranslationLevel, VirtualAddressSpace,
};

fn layout() -> MemoryLayout {
    MemoryLayout {
        user_map_offset: 0,
        linear_map_offset: 0xffff_0000_0000_0000,
        heap_map_offset: 0xffff_8000_0000_0000,
        io_peripherals_map_offset: 0xffff_c000_0000_0000,
    }
}

fn pages(n: usize) -> Vec<usize> {
    (1..=n).map(|i| 0x10_0000 + i * 0x1000).collect()
}

#[test]
fn table_indices() {
    let va = 0xffff_8000_4020_3000usize;
    assert_eq!(level_0_index(va), 256);
    assert_eq!(level_1_index(va), 1);
    assert_eq!(level_2_index(va), 1);
    assert_eq!(level_3_index(va), 3);
}

#[test]
fn address_space_split() {
    assert_eq!(VirtualAddressSpace::from(0x1234), VirtualAddressSpace::User);
    assert_eq!(VirtualAddressSpace::from(0xffff_0000_0000_0000), VirtualAddressSpace::Kernel);
}

#[test]
fn descriptor_constructors() {
    assert_eq!(TableDescriptor::new(0x1000).0, 0x1003);
    assert_eq!(TableDescriptor::new(0x1000).next_level_table(), 0x1000);
    assert_eq!(BlockDescriptor::new_level_1(0x4000_0000).0, 0x4000_0001);
    assert_eq!(BlockDescriptor::new_level_2(0x20_0000).0, 0x20_0001);
    assert_eq!(PageDescriptor::new(0x5000).0, 0x5003);
}

#[test]
fn attribute_setters_chain() {
    let mut page = PageDescriptor::new(0x5000);
    page.set_shareability(ShareabilityAttribute::InnerShareable)
        .set_accessed(true)
        .set_execute_never(true)
        .set_mem_attr_index(MemoryRegionAttrIndex::NormalWriteBackNonTransientReadWriteAlloc);
    assert_eq!(page.raw(), 0x0040_0000_0000_5000 | 0x400 | 0x300 | 0x8 | 0x3);
    page.set_execute_never(false);
    assert_eq!(page.raw() & (1 << 54), 0);
}

#[test]
fn descriptor_kinds() {
    assert!(matches!(Descriptor::from(0x1003, &TranslationLevel::Level1), Descriptor::Table));
    assert!(matches!(Descriptor::from(0x1003, &TranslationLevel::Level3), Descriptor::Page));
    assert!(matches!(Descriptor::from(0x4000_0001, &TranslationLevel::Level1), Descriptor::Block));
    assert!(matches!(Descriptor::from(0, &TranslationLevel::Level0), Descriptor::Invalid));
}

#[test]
fn early_identity_blocks_match_boot_tables() {
    for i in [0usize, 1, 511] {
        assert_eq!(
            identity_block_descriptor(i, MemoryRegionAttrIndex::DeviceNgnRnE),
            (i as u64 * 0x4000_0000) | 0x701
        );
        assert_eq!(
            identity_block_descriptor(i, MemoryRegionAttrIndex::NormalWriteBackNonTransientReadWriteAlloc),
            (i as u64 * 0x4000_0000) | 0x709
        );
    }
}

#[test]
fn page_table_basics() {
    let mut t = PageTable::new(0x2000);
    assert_eq!(t.phys_addr(), 0x2000);
    assert_eq!(t.get_descriptor(5), 0);
    t.set_descriptor(5, 0x4000_0001);
    assert_eq!(t.get_descriptor(5), 0x4000_0001);
    assert_eq!(t.as_block_descriptor(5).0, 0x4000_0001);
    assert_eq!(t.as_page_descriptor(5).0, 0x4000_0001);
    assert_eq!(t.as_table_descriptor(4).0, 0);
}

#[test]
fn setup_page_tables_layout() {
    let mut free = pages(6);
    let (user, kernel) = setup_page_tables(&layout(), &mut free);
    assert!(free.is_empty());
    assert_eq!(user.phys_addr(), 0x10_0000 + 6 * 0x1000);
    assert_eq!(kernel.phys_addr(), 0x10_0000 + 5 * 0x1000);
    assert_eq!(user.get_descriptor(0), (0x10_0000 + 4 * 0x1000) as u64 | 3);
    assert_eq!(kernel.get_descriptor(level_0_index(0xffff_0000_0000_0000)), (0x10_0000 + 3 * 0x1000) as u64 | 3);
    assert_eq!(kernel.get_descriptor(level_0_index(0xffff_8000_0000_0000)), (0x10_0000 + 2 * 0x1000) as u64 | 3);
    assert_eq!(kernel.get_descriptor(level_0_index(0xffff_c000_0000_0000)), (0x10_0000 + 0x1000) as u64 | 3);
    assert_eq!(kernel.get_descriptor(1), 0);
}

#[test]
fn map_page_creates_tables_and_maps() {
    let mut free = pages(9);
    let (_user, mut kernel) = setup_page_tables(&layout(), &mut free);
    assert_eq!(free.len(), 3);
    map_page(&mut kernel, &layout(), 0xffff_8000_0000_5000, 0x3000_0000, &mut free);
    // the heap level-1 table existed; levels 2 and 3 came from the free pages
    assert_eq!(free.len(), 1);
    // normal memory, inner shareable, accessed, never executable
    assert_eq!(kernel.lookup(0, 0xffff_8000_0000_5000), 0x0040_0000_3000_0000 | 0x400 | 0x300 | 0x8 | 0x3);
    assert_eq!(kernel.lookup(0, 0xffff_8000_0000_7000), 0);
    let mut free2 = pages(3);
    // a second page in the same level-3 table needs no new table
    map_page(&mut kernel, &layout(), 0xffff_8000_0000_6000, 0x3000_1000, &mut free2);
    assert_eq!(free2.len(), 3);
    // the first mapping is untouched
    assert_eq!(kernel.lookup(0, 0xffff_8000_0000_5000) & 0x0000_ffff_ffff_f000, 0x3000_0000);
    assert_eq!(kernel.lookup(0, 0xffff_8000_0000_6000) & 0x0000_ffff_ffff_f000, 0x3000_1000);
    // mapping the same page again: the last mapping wins
    map_page(&mut kernel, &layout(), 0xffff_8000_0000_6000, 0x3000_2000, &mut free2);
    assert_eq!(kernel.lookup(0, 0xffff_8000_0000_6000) & 0x0000_ffff_ffff_f000, 0x3000_2000);
    // device memory in the I/O region
    let mut free3 = pages(3);
    map_page(&mut kernel, &layout(), 0xffff_c000_0000_0000, 0x3f00_0000, &mut free3);
    assert_eq!(free3.len(), 1);
    assert_eq!(kernel.lookup(0, 0xffff_c000_0000_0000), 0x0040_0000_3f00_0000 | 0x400 | 0x300 | 0x3);
}
