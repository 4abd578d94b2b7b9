//! Clock identifiers of the clock tags.
use vstd::prelude::*;

verus! {

pub const EMMC: u32 = 0x00000001;
pub const UART: u32 = 0x00000002;
pub const ARM: u32 = 0x00000003;
pub const CORE: u32 = 0x00000004;
pub const V3D: u32 = 0x00000005;
pub const H264: u32 = 0x00000006;
pub const ISP: u32 = 0x00000007;
pub const SDRAM: u32 = 0x00000008;
pub const PIXEL: u32 = 0x00000009;
pub const PWM: u32 = 0x0000000a;
pub const HEVC: u32 = 0x0000000b;
pub const EMMC2: u32 = 0x0000000c;
pub const M2MC: u32 = 0x0000000d;
pub const PIXEL_BVB: u32 = 0x0000000e;

} // verus!
