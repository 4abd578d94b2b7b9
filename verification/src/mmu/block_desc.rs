//! Block descriptors: map a 1 GiB (level 1) or 2 MiB (level 2) region.
use vstd::prelude::*;

use super::attr::BlockAndPageDescriptorAttributes;
use super::{LEVEL_1_SHIFT, LEVEL_2_SHIFT};

verus! {

/// A block descriptor: the output address of the block with descriptor type 0b01.
#[derive(Clone, Copy, Debug, PartialEq, Eq, Structural)]
pub struct BlockDescriptor(pub u64);

impl BlockDescriptor {
    /// The level 1 block descriptor of the 1 GiB aligned `output_addr`.
    pub fn new_level_1(output_addr: usize) -> (d: Self)
        requires
            output_addr % 0x4000_0000 == 0,
        ensures
            d.0 == output_addr as u64 | 0b01,
    {
        Self(output_addr as u64 | 0b01)
    }

    /// The level 2 block descriptor of the 2 MiB aligned `output_addr`.
    pub fn new_level_2(output_addr: usize) -> (d: Self)
        requires
            output_addr % 0x20_0000 == 0,
        ensures
            d.0 == output_addr as u64 | 0b01,
    {
        Self(output_addr as u64 | 0b01)
    }
}

impl BlockAndPageDescriptorAttributes for BlockDescriptor {
    open spec fn value(&self) -> u64 {
        self.0
    }

    fn raw(&self) -> (v: u64) {
        self.0
    }

    fn set_raw(&mut self, v: u64) {
        self.0 = v;
    }
}

} // verus!
