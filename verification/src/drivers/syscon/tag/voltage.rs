//! Voltage identifiers of the voltage tags.
use vstd::prelude::*;

verus! {

pub const CORE: u32 = 0x000000001;
pub const SDRAM_C: u32 = 0x000000002;
pub const SDRAM_P: u32 = 0x000000003;
pub const SDRAM_I: u32 = 0x000000004;

} // verus!
