//! Device identifiers of the power tags.
use vstd::prelude::*;

verus! {

pub const SD_CARD: u32 = 0x00000000;
pub const UART0: u32 = 0x00000001;
pub const UART1: u32 = 0x00000002;
pub const USB_HCD: u32 = 0x00000003;
pub const I2C0: u32 = 0x00000004;
pub const I2C1: u32 = 0x00000005;
pub const I2C2: u32 = 0x00000006;
pub const SPI: u32 = 0x00000007;
pub const CCP2TX: u32 = 0x00000008;

} // verus!
