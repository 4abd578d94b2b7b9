//! Tag identifiers of the VideoCore mailbox property interface.
pub mod clocks;
pub mod memory;
pub mod power;
pub mod voltage;

use vstd::prelude::*;

verus! {

pub const END_TAG: u32 = 0x00000000;

// VideoCore
pub const VIDEO_CORE_GET_FIRMWARE_REVISION: u32 = 0x00000001;

// Hardware
pub const HARDWARE_GET_BOARD_MODEL: u32 = 0x00010001;
pub const HARDWARE_GET_BOARD_REVISION: u32 = 0x00010002;
pub const HARDWARE_GET_BOARD_MAC_ADDRESS: u32 = 0x00010003;
pub const HARDWARE_GET_BOARD_SERIAL: u32 = 0x00010004;
pub const HARDWARE_GET_ARM_MEMORY: u32 = 0x00010005;
pub const HARDWARE_GET_VC_MEMORY: u32 = 0x00010006;
pub const HARDWARE_GET_CLOCKS: u32 = 0x00010007;

// Config
pub const CONFIG_GET_COMMAND_LINE: u32 = 0x00050001;

// Shared resource management
pub const SHARED_GET_DMA_CHANNELS: u32 = 0x00060001;

// Power
pub const POWER_GET_POWER_STATE: u32 = 0x00020001;
pub const POWER_GET_TIMING: u32 = 0x00020002;
pub const POWER_SET_POWER_STATE: u32 = 0x00028001;

// Clocks
pub const CLOCK_GET_CLOCK_STATE: u32 = 0x00030001;
pub const CLOCK_SET_CLOCK_STATE: u32 = 0x00038001;
pub const CLOCK_GET_CLOCK_RATE: u32 = 0x00030002;
pub const CLOCK_GET_CLOCK_RATE_MEASURED: u32 = 0x00030047;
pub const CLOCK_SET_CLOCK_RATE: u32 = 0x00038002;
pub const CLOCK_GET_MAX_CLOCK_RATE: u32 = 0x00030004;
pub const CLOCK_GET_MIN_CLOCK_RATE: u32 = 0x00030007;
pub const CLOCK_GET_TURBO: u32 = 0x00030009;
pub const CLOCK_SET_TURBO: u32 = 0x00038009;

// LEDs
pub const LED_GET_ONBOARD_LED_STATUS: u32 = 0x00030041;
pub const LED_TEST_ONBOARD_LED_STATUS: u32 = 0x00034041;
pub const LED_SET_ONBOARD_LED_STATUS: u32 = 0x00038041;

// Voltage
pub const VOLTAGE_GET_VOLTAGE: u32 = 0x00030003;
pub const VOLTAGE_SET_VOLTAGE: u32 = 0x00038003;
pub const VOLTAGE_GET_MAX_VOLTAGE: u32 = 0x00030005;
pub const VOLTAGE_GET_MIN_VOLTAGE: u32 = 0x00030008;

// Temperature
pub const TEMPERATURE_GET_TEMPERATURE: u32 = 0x00030006;
pub const TEMPERATURE_GET_MAX_TEMPERATURE: u32 = 0x0003000a;

// Memory management
pub const MEMORY_ALLOCATE_MEMORY: u32 = 0x0003000c;
pub const MEMORY_LOCK_MEMORY: u32 = 0x0003000d;
pub const MEMORY_UNLOCK_MEMORY: u32 = 0x0003000e;
pub const MEMORY_RELEASE_MEMORY: u32 = 0x0003000f;
pub const MEMORY_EXECUTE_CODE: u32 = 0x00030010;
pub const MEMORY_GET_DISPMANX_RESOURCE_MEM_HANDLE: u32 = 0x00030014;
pub const MEMORY_GET_EDID_BLOCK: u32 = 0x00030020;

// Framebuffer
pub const FRAMEBUFFER_ALLOCATE_BUFFER: u32 = 0x00040001;
pub const FRAMEBUFFER_RELEASE_BUFFER: u32 = 0x00048001;
pub const FRAMEBUFFER_BLANK_SCREEN: u32 = 0x00040002;
pub const FRAMEBUFFER_GET_PHYSICAL_WIDTH_HEIGHT: u32 = 0x00040003;
pub const FRAMEBUFFER_TEST_PHYSICAL_WIDTH_HEIGHT: u32 = 0x00044003;
pub const FRAMEBUFFER_SET_PHYSICAL_WIDTH_HEIGHT: u32 = 0x00048003;
pub const FRAMEBUFFER_GET_VIRTUAL_WIDTH_HEIGHT: u32 = 0x00040004;
pub const FRAMEBUFFER_TEST_VIRTUAL_WIDTH_HEIGHT: u32 = 0x00044004;
pub const FRAMEBUFFER_SET_VIRTUAL_WIDTH_HEIGHT: u32 = 0x00048004;
pub const FRAMEBUFFER_GET_DEPTH: u32 = 0x00040005;
pub const FRAMEBUFFER_TEST_DEPTH: u32 = 0x00044005;
pub const FRAMEBUFFER_SET_DEPTH: u32 = 0x00048005;
pub const FRAMEBUFFER_GET_PIXEL_ORDER: u32 = 0x00040006;
pub const FRAMEBUFFER_TEST_PIXEL_ORDER: u32 = 0x00044006;
pub const FRAMEBUFFER_SET_PIXEL_ORDER: u32 = 0x00048006;
pub const FRAMEBUFFER_GET_ALPHA_MODE: u32 = 0x00040007;
pub const FRAMEBUFFER_TEST_ALPHA_MODE: u32 = 0x00044007;
pub const FRAMEBUFFER_SET_ALPHA_MODE: u32 = 0x00048007;
pub const FRAMEBUFFER_GET_PITCH: u32 = 0x00040008;
pub const FRAMEBUFFER_GET_VIRTUAL_OFFSET: u32 = 0x00040009;
pub const FRAMEBUFFER_TEST_VIRTUAL_OFFSET: u32 = 0x00044009;
pub const FRAMEBUFFER_SET_VIRTUAL_OFFSET: u32 = 0x00048009;
pub const FRAMEBUFFER_GET_OVERSCAN: u32 = 0x0004000a;
pub const FRAMEBUFFER_TEST_OVERSCAN: u32 = 0x0004400a;
pub const FRAMEBUFFER_SET_OVERSCAN: u32 = 0x0004800a;
pub const FRAMEBUFFER_GET_PALETTE: u32 = 0x0004000b;
pub const FRAMEBUFFER_TEST_PALETTE: u32 = 0x0004400b;
pub const FRAMEBUFFER_SET_PALETTE: u32 = 0x0004800b;
pub const FRAMEBUFFER_SET_CURSOR_INFO: u32 = 0x00008010;
pub const FRAMEBUFFER_SET_CURSOR_STATE: u32 = 0x00008011;

} // verus!
