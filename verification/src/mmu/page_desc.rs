//! Page descriptors: map a 4 KiB page at level 3.
use vstd::prelude::*;

use super::attr::BlockAndPageDescriptorAttributes;

verus! {

/// A page descriptor: the output address of the page with descriptor type 0b11.
#[derive(Clone, Copy, Debug, PartialEq, Eq, Structural)]
pub struct PageDescriptor(pub u64);

impl PageDescriptor {
    /// The page descriptor of the page-aligned `output_addr`.
    pub fn new(output_addr: usize) -> (d: Self)
        requires
            output_addr % 4096 == 0,
        ensures
            d.0 == output_addr as u64 | 0b11,
    {
        Self(output_addr as u64 | 0b11)
    }
}

impl BlockAndPageDescriptorAttributes for PageDescriptor {
    open spec fn value(&self) -> u64 {
        self.0
    }

    fn raw(&self) -> (v: u64) {
        self.0
    }

    fn set_raw(&mut self, v: u64) {
        self.0 = v;
    }
}

} // verus!
