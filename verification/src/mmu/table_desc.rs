//! Table descriptors: point to the translation table of the next level.
use vstd::prelude::*;

use super::attr::TableDescriptorAttributes;
use super::ADDR_MASK;

verus! {

/// A table descriptor: the physical address of the next-level table with type 0b11.
#[derive(Clone, Copy, Debug, PartialEq, Eq, Structural)]
pub struct TableDescriptor(pub u64);

impl TableDescriptor {
    /// The descriptor of the page-aligned next-level table at `next_level_table_addr`.
    pub fn new(next_level_table_addr: usize) -> (d: Self)
        requires
            next_level_table_addr % 4096 == 0,
        ensures
            d.0 == next_level_table_addr as u64 | 0b11,
    {
        Self(next_level_table_addr as u64 | 0b11)
    }

    /// The physical address of the next-level table.
    pub fn next_level_table(&self) -> (addr: u64)
        ensures
            addr == self.0 & ADDR_MASK,
    {
        self.0 & ADDR_MASK
    }
}

impl TableDescriptorAttributes for TableDescriptor {
}

} // verus!
