//! Allocation flags of the memory tags.
use vstd::prelude::*;

verus! {

/// Can be resized to 0 at any time; use for cached data.
pub const MEM_FLAG_DISCARDABLE: u32 = 1;

/// Normal allocating alias; don't use from ARM.
pub const MEM_FLAG_NORMAL: u32 = 0;

/// 0xc alias uncached.
pub const MEM_FLAG_DIRECT: u32 = 4;

/// 0x8 alias; non-allocating in L2 but coherent.
pub const MEM_FLAG_COHERENT: u32 = 8;

/// Allocating in L2.
pub const MEM_FLAG_L1_NONALLOCATING: u32 = 12;

/// Initialize buffer to all zeros.
pub const MEM_FLAG_ZERO: u32 = 16;

/// Don't initialize (default is initialize to all ones).
pub const MEM_FLAG_NO_INIT: u32 = 32;

/// Likely to be locked for long periods of time.
pub const MEM_FLAG_HINT_PERMALOCK: u32 = 64;

} // verus!
