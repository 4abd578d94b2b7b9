//! Messages of the VideoCore mailbox property interface, and the decoding of the firmware's
//! responses to them.
use vstd::prelude::*;

use super::tag;

verus! {

/// Mailbox channel 8: property tags from the ARM to the VideoCore.
pub const MBOX_0_CH_8_ARM_VC_TAGS: u32 = 8;

pub const REQUEST_CODE: u32 = 0x00000000;
pub const RESPONSE_CODE_SUCCESS: u32 = 0x80000000;
pub const RESPONSE_CODE_ERROR: u32 = 0x80000001;

/// The identifier of a property tag.
pub struct TagIdentifier(pub u32);

/// One property tag: its identifier, the size of its value buffer in bytes, the request/response
/// code and the value buffer of `WORDS` 32-bit words.
pub struct Tag<const WORDS: usize> {
    pub identifier: TagIdentifier,
    pub value_buffer_size: u32,
    pub req_res_code: u32,
    pub value_buffer: [u32; WORDS],
}

/// The words of a tag as laid out in a message: identifier, value buffer size, request/response
/// code, then the value buffer.
pub open spec fn tag_words(identifier: u32, size: u32, code: u32, buffer: Seq<u32>) -> Seq<u32> {
    seq![identifier, size, code] + buffer
}

/// The words of a message body of `words` words that holds one tag followed by the end tag and
/// zero padding.
pub open spec fn message_words(tag: Seq<u32>, words: nat) -> Seq<u32> {
    tag + seq![tag::END_TAG] + Seq::new((words - tag.len() - 1) as nat, |_i: int| 0u32)
}

/// The body of a request message of `words` words for the tag `identifier` whose value buffer is
/// `payload`.
pub open spec fn request_words(identifier: u32, payload: Seq<u32>, words: nat) -> Seq<u32> {
    message_words(
        tag_words(identifier, (payload.len() * 4) as u32, REQUEST_CODE, payload),
        words,
    )
}

impl<const WORDS: usize> Tag<WORDS> {
    /// A request tag: the value buffer is `WORDS` words long and zeroed.
    pub open spec fn is_fresh(self, identifier: u32) -> bool {
        &&& self.identifier.0 == identifier
        &&& self.value_buffer_size == WORDS * 4
        &&& self.req_res_code == REQUEST_CODE
        &&& self.value_buffer@ == Seq::new(WORDS as nat, |_i: int| 0u32)
    }

    /// The words of this tag as laid out in a message.
    pub open spec fn words(self) -> Seq<u32> {
        tag_words(
            self.identifier.0,
            self.value_buffer_size,
            self.req_res_code,
            self.value_buffer@,
        )
    }

    /// A request tag with the given identifier and a zeroed value buffer.
    pub fn new(identifier: TagIdentifier) -> (t: Self)
        requires
            WORDS * 4 <= u32::MAX,
        ensures
            t.is_fresh(identifier.0),
    {
        let t = Self {
            identifier,
            value_buffer_size: (WORDS * 4) as u32,
            req_res_code: REQUEST_CODE,
            value_buffer: [0u32; WORDS],
        };
        assert(t.value_buffer@ =~= Seq::new(WORDS as nat, |_i: int| 0u32));
        t
    }
}

/// The message structure for communicating with the firmware via the mailbox property interface:
/// its total size in bytes, the request/response code and `WORDS` words of tags.
/// The total size of the message must be a multiple of 64 bytes to avoid cache line issues.
pub struct Message<const WORDS: usize> {
    pub size: u32,
    pub req_res_code: u32,
    pub data: [u32; WORDS],
}

impl<const WORDS: usize> Message<WORDS> {
    /// This message is a request for the tag `identifier` with value buffer `payload`.
    pub open spec fn is_request(self, identifier: u32, payload: Seq<u32>) -> bool {
        &&& self.size == (2 + WORDS) * 4
        &&& self.req_res_code == REQUEST_CODE
        &&& self.data@ == request_words(identifier, payload, WORDS as nat)
    }

    /// The message that carries `tag`, followed by the end tag and zero padding.
    pub fn new<const N: usize>(tag: Tag<N>) -> (m: Self)
        requires
            N + 4 <= WORDS,
            (WORDS + 2) % 16 == 0,
            (WORDS + 2) * 4 <= u32::MAX,
        ensures
            m.size == (2 + WORDS) * 4,
            m.req_res_code == REQUEST_CODE,
            m.data@ == message_words(tag.words(), WORDS as nat),
    {
        let mut data = [0u32; WORDS];

        data[0] = tag.identifier.0;
        data[1] = tag.value_buffer_size;
        data[2] = tag.req_res_code;

        let mut i: usize = 0;
        while i < N
            invariant
                N + 4 <= WORDS,
                0 <= i <= N,
                data@.len() == WORDS,
                data@[0] == tag.identifier.0,
                data@[1] == tag.value_buffer_size,
                data@[2] == tag.req_res_code,
                forall|j: int| 0 <= j < i ==> data@[3 + j] == tag.value_buffer@[j],
                forall|j: int| 3 + i <= j < WORDS ==> data@[j] == 0,
            decreases N - i,
        {
            data[3 + i] = tag.value_buffer[i];
            i += 1;
        }

        data[3 + N] = tag::END_TAG;

        assert(data@ =~= message_words(tag.words(), WORDS as nat));
        Self { size: ((2 + WORDS) * 4) as u32, req_res_code: REQUEST_CODE, data }
    }
}

/// The value buffer of a palette tag: offset, length, then the palette entries (at most 256 of
/// them), the rest unchanged from `buffer`.
pub open spec fn palette_buffer(buffer: Seq<u32>, offset: u32, length: u32, palette: Seq<u32>) -> Seq<u32> {
    Seq::new(
        buffer.len(),
        |i: int|
            if i == 0 {
                offset
            } else if i == 1 {
                length
            } else if i - 2 < palette.len() && i - 2 < buffer.len() - 2 {
                palette[i - 2]
            } else {
                buffer[i]
            },
    )
}

impl Tag<0> {
    /// A request tag for `FRAMEBUFFER_RELEASE_BUFFER` with a zeroed value buffer of 0 word(s).
    pub fn release_buffer() -> (t: Self)
        ensures
            t.is_fresh(tag::FRAMEBUFFER_RELEASE_BUFFER),
    {
        Self::new(TagIdentifier(tag::FRAMEBUFFER_RELEASE_BUFFER))
    }

}

impl Tag<1> {
    /// A request tag for `VIDEO_CORE_GET_FIRMWARE_REVISION` with a zeroed value buffer of 1 word(s).
    pub fn get_firmware_revision() -> (t: Self)
        ensures
            t.is_fresh(tag::VIDEO_CORE_GET_FIRMWARE_REVISION),
    {
        Self::new(TagIdentifier(tag::VIDEO_CORE_GET_FIRMWARE_REVISION))
    }

    /// A request tag for `HARDWARE_GET_BOARD_MODEL` with a zeroed value buffer of 1 word(s).
    pub fn get_board_model() -> (t: Self)
        ensures
            t.is_fresh(tag::HARDWARE_GET_BOARD_MODEL),
    {
        Self::new(TagIdentifier(tag::HARDWARE_GET_BOARD_MODEL))
    }

    /// A request tag for `HARDWARE_GET_BOARD_REVISION` with a zeroed value buffer of 1 word(s).
    pub fn get_board_revision() -> (t: Self)
        ensures
            t.is_fresh(tag::HARDWARE_GET_BOARD_REVISION),
    {
        Self::new(TagIdentifier(tag::HARDWARE_GET_BOARD_REVISION))
    }

    /// A request tag for `SHARED_GET_DMA_CHANNELS` with a zeroed value buffer of 1 word(s).
    pub fn get_dma_channels() -> (t: Self)
        ensures
            t.is_fresh(tag::SHARED_GET_DMA_CHANNELS),
    {
        Self::new(TagIdentifier(tag::SHARED_GET_DMA_CHANNELS))
    }

    /// A request tag for `MEMORY_LOCK_MEMORY` with a zeroed value buffer of 1 word(s).
    pub fn lock_memory() -> (t: Self)
        ensures
            t.is_fresh(tag::MEMORY_LOCK_MEMORY),
    {
        Self::new(TagIdentifier(tag::MEMORY_LOCK_MEMORY))
    }

    /// A request tag for `MEMORY_UNLOCK_MEMORY` with a zeroed value buffer of 1 word(s).
    pub fn unlock_memory() -> (t: Self)
        ensures
            t.is_fresh(tag::MEMORY_UNLOCK_MEMORY),
    {
        Self::new(TagIdentifier(tag::MEMORY_UNLOCK_MEMORY))
    }

    /// A request tag for `MEMORY_RELEASE_MEMORY` with a zeroed value buffer of 1 word(s).
    pub fn release_memory() -> (t: Self)
        ensures
            t.is_fresh(tag::MEMORY_RELEASE_MEMORY),
    {
        Self::new(TagIdentifier(tag::MEMORY_RELEASE_MEMORY))
    }

    /// A request tag for `FRAMEBUFFER_BLANK_SCREEN` with a zeroed value buffer of 1 word(s).
    pub fn blank_screen() -> (t: Self)
        ensures
            t.is_fresh(tag::FRAMEBUFFER_BLANK_SCREEN),
    {
        Self::new(TagIdentifier(tag::FRAMEBUFFER_BLANK_SCREEN))
    }

    /// A request tag for `FRAMEBUFFER_GET_DEPTH` with a zeroed value buffer of 1 word(s).
    pub fn get_depth() -> (t: Self)
        ensures
            t.is_fresh(tag::FRAMEBUFFER_GET_DEPTH),
    {
        Self::new(TagIdentifier(tag::FRAMEBUFFER_GET_DEPTH))
    }

    /// A request tag for `FRAMEBUFFER_TEST_DEPTH` with a zeroed value buffer of 1 word(s).
    pub fn test_depth() -> (t: Self)
        ensures
            t.is_fresh(tag::FRAMEBUFFER_TEST_DEPTH),
    {
        Self::new(TagIdentifier(tag::FRAMEBUFFER_TEST_DEPTH))
    }

    /// A request tag for `FRAMEBUFFER_SET_DEPTH` with a zeroed value buffer of 1 word(s).
    pub fn set_depth() -> (t: Self)
        ensures
            t.is_fresh(tag::FRAMEBUFFER_SET_DEPTH),
    {
        Self::new(TagIdentifier(tag::FRAMEBUFFER_SET_DEPTH))
    }

    /// A request tag for `FRAMEBUFFER_GET_PIXEL_ORDER` with a zeroed value buffer of 1 word(s).
    pub fn get_pixel_order() -> (t: Self)
        ensures
            t.is_fresh(tag::FRAMEBUFFER_GET_PIXEL_ORDER),
    {
        Self::new(TagIdentifier(tag::FRAMEBUFFER_GET_PIXEL_ORDER))
    }

    /// A request tag for `FRAMEBUFFER_TEST_PIXEL_ORDER` with a zeroed value buffer of 1 word(s).
    pub fn test_pixel_order() -> (t: Self)
        ensures
            t.is_fresh(tag::FRAMEBUFFER_TEST_PIXEL_ORDER),
    {
        Self::new(TagIdentifier(tag::FRAMEBUFFER_TEST_PIXEL_ORDER))
    }

    /// A request tag for `FRAMEBUFFER_SET_PIXEL_ORDER` with a zeroed value buffer of 1 word(s).
    pub fn set_pixel_order() -> (t: Self)
        ensures
            t.is_fresh(tag::FRAMEBUFFER_SET_PIXEL_ORDER),
    {
        Self::new(TagIdentifier(tag::FRAMEBUFFER_SET_PIXEL_ORDER))
    }

    /// A request tag for `FRAMEBUFFER_GET_ALPHA_MODE` with a zeroed value buffer of 1 word(s).
    pub fn get_alpha_mode() -> (t: Self)
        ensures
            t.is_fresh(tag::FRAMEBUFFER_GET_ALPHA_MODE),
    {
        Self::new(TagIdentifier(tag::FRAMEBUFFER_GET_ALPHA_MODE))
    }

    /// A request tag for `FRAMEBUFFER_TEST_ALPHA_MODE` with a zeroed value buffer of 1 word(s).
    pub fn test_alpha_mode() -> (t: Self)
        ensures
            t.is_fresh(tag::FRAMEBUFFER_TEST_ALPHA_MODE),
    {
        Self::new(TagIdentifier(tag::FRAMEBUFFER_TEST_ALPHA_MODE))
    }

    /// A request tag for `FRAMEBUFFER_SET_ALPHA_MODE` with a zeroed value buffer of 1 word(s).
    pub fn set_alpha_mode() -> (t: Self)
        ensures
            t.is_fresh(tag::FRAMEBUFFER_SET_ALPHA_MODE),
    {
        Self::new(TagIdentifier(tag::FRAMEBUFFER_SET_ALPHA_MODE))
    }

    /// A request tag for `FRAMEBUFFER_GET_PITCH` with a zeroed value buffer of 1 word(s).
    pub fn get_pitch() -> (t: Self)
        ensures
            t.is_fresh(tag::FRAMEBUFFER_GET_PITCH),
    {
        Self::new(TagIdentifier(tag::FRAMEBUFFER_GET_PITCH))
    }

}

impl Tag<2> {
    /// A request tag for `HARDWARE_GET_BOARD_MAC_ADDRESS` with a zeroed value buffer of 2 word(s).
    pub fn get_board_mac_address() -> (t: Self)
        ensures
            t.is_fresh(tag::HARDWARE_GET_BOARD_MAC_ADDRESS),
    {
        Self::new(TagIdentifier(tag::HARDWARE_GET_BOARD_MAC_ADDRESS))
    }

    /// A request tag for `HARDWARE_GET_BOARD_SERIAL` with a zeroed value buffer of 2 word(s).
    pub fn get_board_serial() -> (t: Self)
        ensures
            t.is_fresh(tag::HARDWARE_GET_BOARD_SERIAL),
    {
        Self::new(TagIdentifier(tag::HARDWARE_GET_BOARD_SERIAL))
    }

    /// A request tag for `HARDWARE_GET_ARM_MEMORY` with a zeroed value buffer of 2 word(s).
    pub fn get_arm_memory() -> (t: Self)
        ensures
            t.is_fresh(tag::HARDWARE_GET_ARM_MEMORY),
    {
        Self::new(TagIdentifier(tag::HARDWARE_GET_ARM_MEMORY))
    }

    /// A request tag for `HARDWARE_GET_VC_MEMORY` with a zeroed value buffer of 2 word(s).
    pub fn get_vc_memory() -> (t: Self)
        ensures
            t.is_fresh(tag::HARDWARE_GET_VC_MEMORY),
    {
        Self::new(TagIdentifier(tag::HARDWARE_GET_VC_MEMORY))
    }

    /// A request tag for `POWER_GET_POWER_STATE` with a zeroed value buffer of 2 word(s).
    pub fn get_power_state() -> (t: Self)
        ensures
            t.is_fresh(tag::POWER_GET_POWER_STATE),
    {
        Self::new(TagIdentifier(tag::POWER_GET_POWER_STATE))
    }

    /// A request tag for `POWER_GET_TIMING` with a zeroed value buffer of 2 word(s).
    pub fn get_timing() -> (t: Self)
        ensures
            t.is_fresh(tag::POWER_GET_TIMING),
    {
        Self::new(TagIdentifier(tag::POWER_GET_TIMING))
    }

    /// A request tag for `POWER_SET_POWER_STATE` with a zeroed value buffer of 2 word(s).
    pub fn set_power_state() -> (t: Self)
        ensures
            t.is_fresh(tag::POWER_SET_POWER_STATE),
    {
        Self::new(TagIdentifier(tag::POWER_SET_POWER_STATE))
    }

    /// A request tag for `CLOCK_GET_CLOCK_STATE` with a zeroed value buffer of 2 word(s).
    pub fn get_clock_state() -> (t: Self)
        ensures
            t.is_fresh(tag::CLOCK_GET_CLOCK_STATE),
    {
        Self::new(TagIdentifier(tag::CLOCK_GET_CLOCK_STATE))
    }

    /// A request tag for `CLOCK_SET_CLOCK_STATE` with a zeroed value buffer of 2 word(s).
    pub fn set_clock_state() -> (t: Self)
        ensures
            t.is_fresh(tag::CLOCK_SET_CLOCK_STATE),
    {
        Self::new(TagIdentifier(tag::CLOCK_SET_CLOCK_STATE))
    }

    /// A request tag for `CLOCK_GET_CLOCK_RATE` with a zeroed value buffer of 2 word(s).
    pub fn get_clock_rate() -> (t: Self)
        ensures
            t.is_fresh(tag::CLOCK_GET_CLOCK_RATE),
    {
        Self::new(TagIdentifier(tag::CLOCK_GET_CLOCK_RATE))
    }

    /// A request tag for `LED_GET_ONBOARD_LED_STATUS` with a zeroed value buffer of 2 word(s).
    pub fn get_onboard_led_status() -> (t: Self)
        ensures
            t.is_fresh(tag::LED_GET_ONBOARD_LED_STATUS),
    {
        Self::new(TagIdentifier(tag::LED_GET_ONBOARD_LED_STATUS))
    }

    /// A request tag for `LED_TEST_ONBOARD_LED_STATUS` with a zeroed value buffer of 2 word(s).
    pub fn test_onboard_led_status() -> (t: Self)
        ensures
            t.is_fresh(tag::LED_TEST_ONBOARD_LED_STATUS),
    {
        Self::new(TagIdentifier(tag::LED_TEST_ONBOARD_LED_STATUS))
    }

    /// A request tag for `LED_SET_ONBOARD_LED_STATUS` with a zeroed value buffer of 2 word(s).
    pub fn set_onboard_led_status() -> (t: Self)
        ensures
            t.is_fresh(tag::LED_SET_ONBOARD_LED_STATUS),
    {
        Self::new(TagIdentifier(tag::LED_SET_ONBOARD_LED_STATUS))
    }

    /// A request tag for `CLOCK_GET_CLOCK_RATE_MEASURED` with a zeroed value buffer of 2 word(s).
    pub fn get_clock_rate_measured() -> (t: Self)
        ensures
            t.is_fresh(tag::CLOCK_GET_CLOCK_RATE_MEASURED),
    {
        Self::new(TagIdentifier(tag::CLOCK_GET_CLOCK_RATE_MEASURED))
    }

    /// A request tag for `CLOCK_GET_MAX_CLOCK_RATE` with a zeroed value buffer of 2 word(s).
    pub fn get_max_clock_rate() -> (t: Self)
        ensures
            t.is_fresh(tag::CLOCK_GET_MAX_CLOCK_RATE),
    {
        Self::new(TagIdentifier(tag::CLOCK_GET_MAX_CLOCK_RATE))
    }

    /// A request tag for `CLOCK_GET_MIN_CLOCK_RATE` with a zeroed value buffer of 2 word(s).
    pub fn get_min_clock_rate() -> (t: Self)
        ensures
            t.is_fresh(tag::CLOCK_GET_MIN_CLOCK_RATE),
    {
        Self::new(TagIdentifier(tag::CLOCK_GET_MIN_CLOCK_RATE))
    }

    /// A request tag for `CLOCK_GET_TURBO` with a zeroed value buffer of 2 word(s).
    pub fn get_turbo() -> (t: Self)
        ensures
            t.is_fresh(tag::CLOCK_GET_TURBO),
    {
        Self::new(TagIdentifier(tag::CLOCK_GET_TURBO))
    }

    /// A request tag for `CLOCK_SET_TURBO` with a zeroed value buffer of 2 word(s).
    pub fn set_turbo() -> (t: Self)
        ensures
            t.is_fresh(tag::CLOCK_SET_TURBO),
    {
        Self::new(TagIdentifier(tag::CLOCK_SET_TURBO))
    }

    /// A request tag for `VOLTAGE_GET_VOLTAGE` with a zeroed value buffer of 2 word(s).
    pub fn get_voltage() -> (t: Self)
        ensures
            t.is_fresh(tag::VOLTAGE_GET_VOLTAGE),
    {
        Self::new(TagIdentifier(tag::VOLTAGE_GET_VOLTAGE))
    }

    /// A request tag for `VOLTAGE_SET_VOLTAGE` with a zeroed value buffer of 2 word(s).
    pub fn set_voltage() -> (t: Self)
        ensures
            t.is_fresh(tag::VOLTAGE_SET_VOLTAGE),
    {
        Self::new(TagIdentifier(tag::VOLTAGE_SET_VOLTAGE))
    }

    /// A request tag for `VOLTAGE_GET_MAX_VOLTAGE` with a zeroed value buffer of 2 word(s).
    pub fn get_max_voltage() -> (t: Self)
        ensures
            t.is_fresh(tag::VOLTAGE_GET_MAX_VOLTAGE),
    {
        Self::new(TagIdentifier(tag::VOLTAGE_GET_MAX_VOLTAGE))
    }

    /// A request tag for `VOLTAGE_GET_MIN_VOLTAGE` with a zeroed value buffer of 2 word(s).
    pub fn get_min_voltage() -> (t: Self)
        ensures
            t.is_fresh(tag::VOLTAGE_GET_MIN_VOLTAGE),
    {
        Self::new(TagIdentifier(tag::VOLTAGE_GET_MIN_VOLTAGE))
    }

    /// A request tag for `TEMPERATURE_GET_TEMPERATURE` with a zeroed value buffer of 2 word(s).
    pub fn get_temperature() -> (t: Self)
        ensures
            t.is_fresh(tag::TEMPERATURE_GET_TEMPERATURE),
    {
        Self::new(TagIdentifier(tag::TEMPERATURE_GET_TEMPERATURE))
    }

    /// A request tag for `TEMPERATURE_GET_MAX_TEMPERATURE` with a zeroed value buffer of 2 word(s).
    pub fn get_max_temperature() -> (t: Self)
        ensures
            t.is_fresh(tag::TEMPERATURE_GET_MAX_TEMPERATURE),
    {
        Self::new(TagIdentifier(tag::TEMPERATURE_GET_MAX_TEMPERATURE))
    }

    /// A request tag for `MEMORY_GET_DISPMANX_RESOURCE_MEM_HANDLE` with a zeroed value buffer of 2 word(s).
    pub fn get_dispmanx_resource_mem_handle() -> (t: Self)
        ensures
            t.is_fresh(tag::MEMORY_GET_DISPMANX_RESOURCE_MEM_HANDLE),
    {
        Self::new(TagIdentifier(tag::MEMORY_GET_DISPMANX_RESOURCE_MEM_HANDLE))
    }

    /// A request tag for `FRAMEBUFFER_ALLOCATE_BUFFER` with a zeroed value buffer of 2 word(s).
    pub fn allocate_buffer() -> (t: Self)
        ensures
            t.is_fresh(tag::FRAMEBUFFER_ALLOCATE_BUFFER),
    {
        Self::new(TagIdentifier(tag::FRAMEBUFFER_ALLOCATE_BUFFER))
    }

    /// A request tag for `FRAMEBUFFER_GET_PHYSICAL_WIDTH_HEIGHT` with a zeroed value buffer of 2 word(s).
    pub fn get_physical_width_height() -> (t: Self)
        ensures
            t.is_fresh(tag::FRAMEBUFFER_GET_PHYSICAL_WIDTH_HEIGHT),
    {
        Self::new(TagIdentifier(tag::FRAMEBUFFER_GET_PHYSICAL_WIDTH_HEIGHT))
    }

    /// A request tag for `FRAMEBUFFER_TEST_PHYSICAL_WIDTH_HEIGHT` with a zeroed value buffer of 2 word(s).
    pub fn test_physical_width_height() -> (t: Self)
        ensures
            t.is_fresh(tag::FRAMEBUFFER_TEST_PHYSICAL_WIDTH_HEIGHT),
    {
        Self::new(TagIdentifier(tag::FRAMEBUFFER_TEST_PHYSICAL_WIDTH_HEIGHT))
    }

    /// A request tag for `FRAMEBUFFER_SET_PHYSICAL_WIDTH_HEIGHT` with a zeroed value buffer of 2 word(s).
    pub fn set_physical_width_height() -> (t: Self)
        ensures
            t.is_fresh(tag::FRAMEBUFFER_SET_PHYSICAL_WIDTH_HEIGHT),
    {
        Self::new(TagIdentifier(tag::FRAMEBUFFER_SET_PHYSICAL_WIDTH_HEIGHT))
    }

    /// A request tag for `FRAMEBUFFER_GET_VIRTUAL_WIDTH_HEIGHT` with a zeroed value buffer of 2 word(s).
    pub fn get_virtual_width_height() -> (t: Self)
        ensures
            t.is_fresh(tag::FRAMEBUFFER_GET_VIRTUAL_WIDTH_HEIGHT),
    {
        Self::new(TagIdentifier(tag::FRAMEBUFFER_GET_VIRTUAL_WIDTH_HEIGHT))
    }

    /// A request tag for `FRAMEBUFFER_TEST_VIRTUAL_WIDTH_HEIGHT` with a zeroed value buffer of 2 word(s).
    pub fn test_virtual_width_height() -> (t: Self)
        ensures
            t.is_fresh(tag::FRAMEBUFFER_TEST_VIRTUAL_WIDTH_HEIGHT),
    {
        Self::new(TagIdentifier(tag::FRAMEBUFFER_TEST_VIRTUAL_WIDTH_HEIGHT))
    }

    /// A request tag for `FRAMEBUFFER_SET_VIRTUAL_WIDTH_HEIGHT` with a zeroed value buffer of 2 word(s).
    pub fn set_virtual_width_height() -> (t: Self)
        ensures
            t.is_fresh(tag::FRAMEBUFFER_SET_VIRTUAL_WIDTH_HEIGHT),
    {
        Self::new(TagIdentifier(tag::FRAMEBUFFER_SET_VIRTUAL_WIDTH_HEIGHT))
    }

    /// A request tag for `FRAMEBUFFER_GET_VIRTUAL_OFFSET` with a zeroed value buffer of 2 word(s).
    pub fn get_virtual_offset() -> (t: Self)
        ensures
            t.is_fresh(tag::FRAMEBUFFER_GET_VIRTUAL_OFFSET),
    {
        Self::new(TagIdentifier(tag::FRAMEBUFFER_GET_VIRTUAL_OFFSET))
    }

    /// A request tag for `FRAMEBUFFER_TEST_VIRTUAL_OFFSET` with a zeroed value buffer of 2 word(s).
    pub fn test_virtual_offset() -> (t: Self)
        ensures
            t.is_fresh(tag::FRAMEBUFFER_TEST_VIRTUAL_OFFSET),
    {
        Self::new(TagIdentifier(tag::FRAMEBUFFER_TEST_VIRTUAL_OFFSET))
    }

    /// A request tag for `FRAMEBUFFER_SET_VIRTUAL_OFFSET` with a zeroed value buffer of 2 word(s).
    pub fn set_virtual_offset() -> (t: Self)
        ensures
            t.is_fresh(tag::FRAMEBUFFER_SET_VIRTUAL_OFFSET),
    {
        Self::new(TagIdentifier(tag::FRAMEBUFFER_SET_VIRTUAL_OFFSET))
    }

}

impl Tag<3> {
    /// A request tag for `CLOCK_SET_CLOCK_RATE` with a zeroed value buffer of 3 word(s).
    pub fn set_clock_rate() -> (t: Self)
        ensures
            t.is_fresh(tag::CLOCK_SET_CLOCK_RATE),
    {
        Self::new(TagIdentifier(tag::CLOCK_SET_CLOCK_RATE))
    }

    /// A request tag for `MEMORY_ALLOCATE_MEMORY` with a zeroed value buffer of 3 word(s).
    pub fn allocate_memory() -> (t: Self)
        ensures
            t.is_fresh(tag::MEMORY_ALLOCATE_MEMORY),
    {
        Self::new(TagIdentifier(tag::MEMORY_ALLOCATE_MEMORY))
    }

}

impl Tag<4> {
    /// A request tag for `FRAMEBUFFER_GET_OVERSCAN` with a zeroed value buffer of 4 word(s).
    pub fn get_overscan() -> (t: Self)
        ensures
            t.is_fresh(tag::FRAMEBUFFER_GET_OVERSCAN),
    {
        Self::new(TagIdentifier(tag::FRAMEBUFFER_GET_OVERSCAN))
    }

    /// A request tag for `FRAMEBUFFER_TEST_OVERSCAN` with a zeroed value buffer of 4 word(s).
    pub fn test_overscan() -> (t: Self)
        ensures
            t.is_fresh(tag::FRAMEBUFFER_TEST_OVERSCAN),
    {
        Self::new(TagIdentifier(tag::FRAMEBUFFER_TEST_OVERSCAN))
    }

    /// A request tag for `FRAMEBUFFER_SET_OVERSCAN` with a zeroed value buffer of 4 word(s).
    pub fn set_overscan() -> (t: Self)
        ensures
            t.is_fresh(tag::FRAMEBUFFER_SET_OVERSCAN),
    {
        Self::new(TagIdentifier(tag::FRAMEBUFFER_SET_OVERSCAN))
    }

    /// A request tag for `FRAMEBUFFER_SET_CURSOR_STATE` with a zeroed value buffer of 4 word(s).
    pub fn set_cursor_state() -> (t: Self)
        ensures
            t.is_fresh(tag::FRAMEBUFFER_SET_CURSOR_STATE),
    {
        Self::new(TagIdentifier(tag::FRAMEBUFFER_SET_CURSOR_STATE))
    }

}

impl Tag<6> {
    /// A request tag for `FRAMEBUFFER_SET_CURSOR_INFO` with a zeroed value buffer of 6 word(s).
    pub fn set_cursor_info() -> (t: Self)
        ensures
            t.is_fresh(tag::FRAMEBUFFER_SET_CURSOR_INFO),
    {
        Self::new(TagIdentifier(tag::FRAMEBUFFER_SET_CURSOR_INFO))
    }

}

impl Tag<7> {
    /// A request tag for `MEMORY_EXECUTE_CODE` with a zeroed value buffer of 7 word(s).
    pub fn execute_code() -> (t: Self)
        ensures
            t.is_fresh(tag::MEMORY_EXECUTE_CODE),
    {
        Self::new(TagIdentifier(tag::MEMORY_EXECUTE_CODE))
    }

}

impl Tag<32> {
    /// A request tag for `HARDWARE_GET_CLOCKS` with a zeroed value buffer of 32 word(s).
    pub fn get_clocks() -> (t: Self)
        ensures
            t.is_fresh(tag::HARDWARE_GET_CLOCKS),
    {
        Self::new(TagIdentifier(tag::HARDWARE_GET_CLOCKS))
    }

}

impl Tag<34> {
    /// A request tag for `MEMORY_GET_EDID_BLOCK` with a zeroed value buffer of 34 word(s).
    pub fn get_edid_block() -> (t: Self)
        ensures
            t.is_fresh(tag::MEMORY_GET_EDID_BLOCK),
    {
        Self::new(TagIdentifier(tag::MEMORY_GET_EDID_BLOCK))
    }

}

impl Tag<256> {
    /// A request tag for `CONFIG_GET_COMMAND_LINE` with a zeroed value buffer of 256 word(s).
    pub fn get_command_line() -> (t: Self)
        ensures
            t.is_fresh(tag::CONFIG_GET_COMMAND_LINE),
    {
        Self::new(TagIdentifier(tag::CONFIG_GET_COMMAND_LINE))
    }

    /// A request tag for `FRAMEBUFFER_GET_PALETTE` with a zeroed value buffer of 256 word(s).
    pub fn get_palette() -> (t: Self)
        ensures
            t.is_fresh(tag::FRAMEBUFFER_GET_PALETTE),
    {
        Self::new(TagIdentifier(tag::FRAMEBUFFER_GET_PALETTE))
    }

}

impl Tag<258> {
    /// A request tag for `FRAMEBUFFER_TEST_PALETTE` with a zeroed value buffer of 258 word(s).
    pub fn test_palette() -> (t: Self)
        ensures
            t.is_fresh(tag::FRAMEBUFFER_TEST_PALETTE),
    {
        Self::new(TagIdentifier(tag::FRAMEBUFFER_TEST_PALETTE))
    }

    /// A request tag for `FRAMEBUFFER_SET_PALETTE` with a zeroed value buffer of 258 word(s).
    pub fn set_palette() -> (t: Self)
        ensures
            t.is_fresh(tag::FRAMEBUFFER_SET_PALETTE),
    {
        Self::new(TagIdentifier(tag::FRAMEBUFFER_SET_PALETTE))
    }

}

impl Message<14> {
    /// The request message of the `get_firmware_revision` property.
    pub fn new_get_firmware_revision() -> (m: Self)
        ensures
            m.is_request(tag::VIDEO_CORE_GET_FIRMWARE_REVISION, seq![0u32]),
    {
        let tag = Tag::get_firmware_revision();
        assert(tag.value_buffer@ =~= seq![0u32]);
        Self::new(tag)
    }

    /// The request message of the `get_board_model` property.
    pub fn new_get_board_model() -> (m: Self)
        ensures
            m.is_request(tag::HARDWARE_GET_BOARD_MODEL, seq![0u32]),
    {
        let tag = Tag::get_board_model();
        assert(tag.value_buffer@ =~= seq![0u32]);
        Self::new(tag)
    }

    /// The request message of the `get_board_revision` property.
    pub fn new_get_board_revision() -> (m: Self)
        ensures
            m.is_request(tag::HARDWARE_GET_BOARD_REVISION, seq![0u32]),
    {
        let tag = Tag::get_board_revision();
        assert(tag.value_buffer@ =~= seq![0u32]);
        Self::new(tag)
    }

    /// The request message of the `get_board_mac_address` property.
    pub fn new_get_board_mac_address() -> (m: Self)
        ensures
            m.is_request(tag::HARDWARE_GET_BOARD_MAC_ADDRESS, seq![0u32, 0u32]),
    {
        let tag = Tag::get_board_mac_address();
        assert(tag.value_buffer@ =~= seq![0u32, 0u32]);
        Self::new(tag)
    }

    /// The request message of the `get_board_serial` property.
    pub fn new_get_board_serial() -> (m: Self)
        ensures
            m.is_request(tag::HARDWARE_GET_BOARD_SERIAL, seq![0u32, 0u32]),
    {
        let tag = Tag::get_board_serial();
        assert(tag.value_buffer@ =~= seq![0u32, 0u32]);
        Self::new(tag)
    }

    /// The request message of the `get_arm_memory` property.
    pub fn new_get_arm_memory() -> (m: Self)
        ensures
            m.is_request(tag::HARDWARE_GET_ARM_MEMORY, seq![0u32, 0u32]),
    {
        let tag = Tag::get_arm_memory();
        assert(tag.value_buffer@ =~= seq![0u32, 0u32]);
        Self::new(tag)
    }

    /// The request message of the `get_vc_memory` property.
    pub fn new_get_vc_memory() -> (m: Self)
        ensures
            m.is_request(tag::HARDWARE_GET_VC_MEMORY, seq![0u32, 0u32]),
    {
        let tag = Tag::get_vc_memory();
        assert(tag.value_buffer@ =~= seq![0u32, 0u32]);
        Self::new(tag)
    }

    /// The request message of the `get_dma_channels` property.
    pub fn new_get_dma_channels() -> (m: Self)
        ensures
            m.is_request(tag::SHARED_GET_DMA_CHANNELS, seq![0u32]),
    {
        let tag = Tag::get_dma_channels();
        assert(tag.value_buffer@ =~= seq![0u32]);
        Self::new(tag)
    }

    /// The request message of the `get_onboard_led_status` property.
    pub fn new_get_onboard_led_status() -> (m: Self)
        ensures
            m.is_request(tag::LED_GET_ONBOARD_LED_STATUS, seq![0u32, 0u32]),
    {
        let tag = Tag::get_onboard_led_status();
        assert(tag.value_buffer@ =~= seq![0u32, 0u32]);
        Self::new(tag)
    }

    /// The request message of the `test_onboard_led_status` property.
    pub fn new_test_onboard_led_status() -> (m: Self)
        ensures
            m.is_request(tag::LED_TEST_ONBOARD_LED_STATUS, seq![0u32, 0u32]),
    {
        let tag = Tag::test_onboard_led_status();
        assert(tag.value_buffer@ =~= seq![0u32, 0u32]);
        Self::new(tag)
    }

    /// The request message of the `set_onboard_led_status` property.
    pub fn new_set_onboard_led_status(pin_number: u32, status: u32) -> (m: Self)
        ensures
            m.is_request(tag::LED_SET_ONBOARD_LED_STATUS, seq![pin_number, status]),
    {
        let mut tag = Tag::set_onboard_led_status();
        tag.value_buffer[0] = pin_number;
        tag.value_buffer[1] = status;
        assert(tag.value_buffer@ =~= seq![pin_number, status]);
        Self::new(tag)
    }

    /// The request message of the `allocate_buffer` property.
    pub fn new_allocate_buffer(alignment: u32) -> (m: Self)
        ensures
            m.is_request(tag::FRAMEBUFFER_ALLOCATE_BUFFER, seq![alignment, 0u32]),
    {
        let mut tag = Tag::allocate_buffer();
        tag.value_buffer[0] = alignment;
        assert(tag.value_buffer@ =~= seq![alignment, 0u32]);
        Self::new(tag)
    }

    /// The request message of the `release_buffer` property.
    pub fn new_release_buffer() -> (m: Self)
        ensures
            m.is_request(tag::FRAMEBUFFER_RELEASE_BUFFER, Seq::<u32>::empty()),
    {
        let tag = Tag::release_buffer();
        assert(tag.value_buffer@ =~= Seq::<u32>::empty());
        Self::new(tag)
    }

    /// The request message of the `blank_screen` property.
    pub fn new_blank_screen(state: u32) -> (m: Self)
        ensures
            m.is_request(tag::FRAMEBUFFER_BLANK_SCREEN, seq![state]),
    {
        let mut tag = Tag::blank_screen();
        tag.value_buffer[0] = state;
        assert(tag.value_buffer@ =~= seq![state]);
        Self::new(tag)
    }

    /// The request message of the `get_physical_width_height` property.
    pub fn new_get_physical_width_height() -> (m: Self)
        ensures
            m.is_request(tag::FRAMEBUFFER_GET_PHYSICAL_WIDTH_HEIGHT, seq![0u32, 0u32]),
    {
        let tag = Tag::get_physical_width_height();
        assert(tag.value_buffer@ =~= seq![0u32, 0u32]);
        Self::new(tag)
    }

    /// The request message of the `test_physical_width_height` property.
    pub fn new_test_physical_width_height(width: u32, height: u32) -> (m: Self)
        ensures
            m.is_request(tag::FRAMEBUFFER_TEST_PHYSICAL_WIDTH_HEIGHT, seq![width, height]),
    {
        let mut tag = Tag::test_physical_width_height();
        tag.value_buffer[0] = width;
        tag.value_buffer[1] = height;
        assert(tag.value_buffer@ =~= seq![width, height]);
        Self::new(tag)
    }

    /// The request message of the `set_physical_width_height` property.
    pub fn new_set_physical_width_height(width: u32, height: u32) -> (m: Self)
        ensures
            m.is_request(tag::FRAMEBUFFER_SET_PHYSICAL_WIDTH_HEIGHT, seq![width, height]),
    {
        let mut tag = Tag::set_physical_width_height();
        tag.value_buffer[0] = width;
        tag.value_buffer[1] = height;
        assert(tag.value_buffer@ =~= seq![width, height]);
        Self::new(tag)
    }

    /// The request message of the `get_virtual_width_height` property.
    pub fn new_get_virtual_width_height() -> (m: Self)
        ensures
            m.is_request(tag::FRAMEBUFFER_GET_VIRTUAL_WIDTH_HEIGHT, seq![0u32, 0u32]),
    {
        let tag = Tag::get_virtual_width_height();
        assert(tag.value_buffer@ =~= seq![0u32, 0u32]);
        Self::new(tag)
    }

    /// The request message of the `test_virtual_width_height` property.
    pub fn new_test_virtual_width_height(width: u32, height: u32) -> (m: Self)
        ensures
            m.is_request(tag::FRAMEBUFFER_TEST_VIRTUAL_WIDTH_HEIGHT, seq![width, height]),
    {
        let mut tag = Tag::test_virtual_width_height();
        tag.value_buffer[0] = width;
        tag.value_buffer[1] = height;
        assert(tag.value_buffer@ =~= seq![width, height]);
        Self::new(tag)
    }

    /// The request message of the `set_virtual_width_height` property.
    pub fn new_set_virtual_width_height(width: u32, height: u32) -> (m: Self)
        ensures
            m.is_request(tag::FRAMEBUFFER_SET_VIRTUAL_WIDTH_HEIGHT, seq![width, height]),
    {
        let mut tag = Tag::set_virtual_width_height();
        tag.value_buffer[0] = width;
        tag.value_buffer[1] = height;
        assert(tag.value_buffer@ =~= seq![width, height]);
        Self::new(tag)
    }

    /// The request message of the `get_depth` property.
    pub fn new_get_depth() -> (m: Self)
        ensures
            m.is_request(tag::FRAMEBUFFER_GET_DEPTH, seq![0u32]),
    {
        let tag = Tag::get_depth();
        assert(tag.value_buffer@ =~= seq![0u32]);
        Self::new(tag)
    }

    /// The request message of the `test_depth` property.
    pub fn new_test_depth(bits_per_pixel: u32) -> (m: Self)
        ensures
            m.is_request(tag::FRAMEBUFFER_TEST_DEPTH, seq![bits_per_pixel]),
    {
        let mut tag = Tag::test_depth();
        tag.value_buffer[0] = bits_per_pixel;
        assert(tag.value_buffer@ =~= seq![bits_per_pixel]);
        Self::new(tag)
    }

    /// The request message of the `set_depth` property.
    pub fn new_set_depth(bits_per_pixel: u32) -> (m: Self)
        ensures
            m.is_request(tag::FRAMEBUFFER_SET_DEPTH, seq![bits_per_pixel]),
    {
        let mut tag = Tag::set_depth();
        tag.value_buffer[0] = bits_per_pixel;
        assert(tag.value_buffer@ =~= seq![bits_per_pixel]);
        Self::new(tag)
    }

    /// The request message of the `get_pixel_order` property.
    pub fn new_get_pixel_order() -> (m: Self)
        ensures
            m.is_request(tag::FRAMEBUFFER_GET_PIXEL_ORDER, seq![0u32]),
    {
        let tag = Tag::get_pixel_order();
        assert(tag.value_buffer@ =~= seq![0u32]);
        Self::new(tag)
    }

    /// The request message of the `test_pixel_order` property.
    pub fn new_test_pixel_order(state: u32) -> (m: Self)
        ensures
            m.is_request(tag::FRAMEBUFFER_TEST_PIXEL_ORDER, seq![state]),
    {
        let mut tag = Tag::test_pixel_order();
        tag.value_buffer[0] = state;
        assert(tag.value_buffer@ =~= seq![state]);
        Self::new(tag)
    }

    /// The request message of the `set_pixel_order` property.
    pub fn new_set_pixel_order(state: u32) -> (m: Self)
        ensures
            m.is_request(tag::FRAMEBUFFER_SET_PIXEL_ORDER, seq![state]),
    {
        let mut tag = Tag::set_pixel_order();
        tag.value_buffer[0] = state;
        assert(tag.value_buffer@ =~= seq![state]);
        Self::new(tag)
    }

    /// The request message of the `get_alpha_mode` property.
    pub fn new_get_alpha_mode() -> (m: Self)
        ensures
            m.is_request(tag::FRAMEBUFFER_GET_ALPHA_MODE, seq![0u32]),
    {
        let tag = Tag::get_alpha_mode();
        assert(tag.value_buffer@ =~= seq![0u32]);
        Self::new(tag)
    }

    /// The request message of the `test_alpha_mode` property.
    pub fn new_test_alpha_mode(state: u32) -> (m: Self)
        ensures
            m.is_request(tag::FRAMEBUFFER_TEST_ALPHA_MODE, seq![state]),
    {
        let mut tag = Tag::test_alpha_mode();
        tag.value_buffer[0] = state;
        assert(tag.value_buffer@ =~= seq![state]);
        Self::new(tag)
    }

    /// The request message of the `set_alpha_mode` property.
    pub fn new_set_alpha_mode(state: u32) -> (m: Self)
        ensures
            m.is_request(tag::FRAMEBUFFER_SET_ALPHA_MODE, seq![state]),
    {
        let mut tag = Tag::set_alpha_mode();
        tag.value_buffer[0] = state;
        assert(tag.value_buffer@ =~= seq![state]);
        Self::new(tag)
    }

    /// The request message of the `get_pitch` property.
    pub fn new_get_pitch() -> (m: Self)
        ensures
            m.is_request(tag::FRAMEBUFFER_GET_PITCH, seq![0u32]),
    {
        let tag = Tag::get_pitch();
        assert(tag.value_buffer@ =~= seq![0u32]);
        Self::new(tag)
    }

    /// The request message of the `get_virtual_offset` property.
    pub fn new_get_virtual_offset() -> (m: Self)
        ensures
            m.is_request(tag::FRAMEBUFFER_GET_VIRTUAL_OFFSET, seq![0u32, 0u32]),
    {
        let tag = Tag::get_virtual_offset();
        assert(tag.value_buffer@ =~= seq![0u32, 0u32]);
        Self::new(tag)
    }

    /// The request message of the `test_virtual_offset` property.
    pub fn new_test_virtual_offset(x: u32, y: u32) -> (m: Self)
        ensures
            m.is_request(tag::FRAMEBUFFER_TEST_VIRTUAL_OFFSET, seq![x, y]),
    {
        let mut tag = Tag::test_virtual_offset();
        tag.value_buffer[0] = x;
        tag.value_buffer[1] = y;
        assert(tag.value_buffer@ =~= seq![x, y]);
        Self::new(tag)
    }

    /// The request message of the `set_virtual_offset` property.
    pub fn new_set_virtual_offset(x: u32, y: u32) -> (m: Self)
        ensures
            m.is_request(tag::FRAMEBUFFER_SET_VIRTUAL_OFFSET, seq![x, y]),
    {
        let mut tag = Tag::set_virtual_offset();
        tag.value_buffer[0] = x;
        tag.value_buffer[1] = y;
        assert(tag.value_buffer@ =~= seq![x, y]);
        Self::new(tag)
    }

    /// The request message of the `get_overscan` property.
    pub fn new_get_overscan() -> (m: Self)
        ensures
            m.is_request(tag::FRAMEBUFFER_GET_OVERSCAN, seq![0u32, 0u32, 0u32, 0u32]),
    {
        let tag = Tag::get_overscan();
        assert(tag.value_buffer@ =~= seq![0u32, 0u32, 0u32, 0u32]);
        Self::new(tag)
    }

    /// The request message of the `test_overscan` property.
    pub fn new_test_overscan(top: u32, bottom: u32, left: u32, right: u32) -> (m: Self)
        ensures
            m.is_request(tag::FRAMEBUFFER_TEST_OVERSCAN, seq![top, bottom, left, right]),
    {
        let mut tag = Tag::test_overscan();
        tag.value_buffer[0] = top;
        tag.value_buffer[1] = bottom;
        tag.value_buffer[2] = left;
        tag.value_buffer[3] = right;
        assert(tag.value_buffer@ =~= seq![top, bottom, left, right]);
        Self::new(tag)
    }

    /// The request message of the `set_overscan` property.
    pub fn new_set_overscan(top: u32, bottom: u32, left: u32, right: u32) -> (m: Self)
        ensures
            m.is_request(tag::FRAMEBUFFER_SET_OVERSCAN, seq![top, bottom, left, right]),
    {
        let mut tag = Tag::set_overscan();
        tag.value_buffer[0] = top;
        tag.value_buffer[1] = bottom;
        tag.value_buffer[2] = left;
        tag.value_buffer[3] = right;
        assert(tag.value_buffer@ =~= seq![top, bottom, left, right]);
        Self::new(tag)
    }

    /// The request message of the `get_power_state` property.
    pub fn new_get_power_state(device_id: u32) -> (m: Self)
        ensures
            m.is_request(tag::POWER_GET_POWER_STATE, seq![device_id, 0u32]),
    {
        let mut tag = Tag::get_power_state();
        tag.value_buffer[0] = device_id;
        assert(tag.value_buffer@ =~= seq![device_id, 0u32]);
        Self::new(tag)
    }

    /// The request message of the `get_timing` property.
    pub fn new_get_timing(device_id: u32) -> (m: Self)
        ensures
            m.is_request(tag::POWER_GET_TIMING, seq![device_id, 0u32]),
    {
        let mut tag = Tag::get_timing();
        tag.value_buffer[0] = device_id;
        assert(tag.value_buffer@ =~= seq![device_id, 0u32]);
        Self::new(tag)
    }

    /// The request message of the `set_power_state` property.
    pub fn new_set_power_state(device_id: u32, state: u32) -> (m: Self)
        ensures
            m.is_request(tag::POWER_SET_POWER_STATE, seq![device_id, state]),
    {
        let mut tag = Tag::set_power_state();
        tag.value_buffer[0] = device_id;
        tag.value_buffer[1] = state;
        assert(tag.value_buffer@ =~= seq![device_id, state]);
        Self::new(tag)
    }

    /// The request message of the `get_clock_state` property.
    pub fn new_get_clock_state(clock_id: u32) -> (m: Self)
        ensures
            m.is_request(tag::CLOCK_GET_CLOCK_STATE, seq![clock_id, 0u32]),
    {
        let mut tag = Tag::get_clock_state();
        tag.value_buffer[0] = clock_id;
        assert(tag.value_buffer@ =~= seq![clock_id, 0u32]);
        Self::new(tag)
    }

    /// The request message of the `set_clock_state` property.
    pub fn new_set_clock_state(clock_id: u32, state: u32) -> (m: Self)
        ensures
            m.is_request(tag::CLOCK_SET_CLOCK_STATE, seq![clock_id, state]),
    {
        let mut tag = Tag::set_clock_state();
        tag.value_buffer[0] = clock_id;
        tag.value_buffer[1] = state;
        assert(tag.value_buffer@ =~= seq![clock_id, state]);
        Self::new(tag)
    }

    /// The request message of the `get_clock_rate` property.
    pub fn new_get_clock_rate(clock_id: u32) -> (m: Self)
        ensures
            m.is_request(tag::CLOCK_GET_CLOCK_RATE, seq![clock_id, 0u32]),
    {
        let mut tag = Tag::get_clock_rate();
        tag.value_buffer[0] = clock_id;
        assert(tag.value_buffer@ =~= seq![clock_id, 0u32]);
        Self::new(tag)
    }

    /// The request message of the `get_clock_rate_measured` property.
    pub fn new_get_clock_rate_measured(clock_id: u32) -> (m: Self)
        ensures
            m.is_request(tag::CLOCK_GET_CLOCK_RATE_MEASURED, seq![clock_id, 0u32]),
    {
        let mut tag = Tag::get_clock_rate_measured();
        tag.value_buffer[0] = clock_id;
        assert(tag.value_buffer@ =~= seq![clock_id, 0u32]);
        Self::new(tag)
    }

    /// The request message of the `set_clock_rate` property.
    pub fn new_set_clock_rate(clock_id: u32, rate: u32, skip_setting_turbo: u32) -> (m: Self)
        ensures
            m.is_request(tag::CLOCK_SET_CLOCK_RATE, seq![clock_id, rate, skip_setting_turbo]),
    {
        let mut tag = Tag::set_clock_rate();
        tag.value_buffer[0] = clock_id;
        tag.value_buffer[1] = rate;
        tag.value_buffer[2] = skip_setting_turbo;
        assert(tag.value_buffer@ =~= seq![clock_id, rate, skip_setting_turbo]);
        Self::new(tag)
    }

    /// The request message of the `get_max_clock_rate` property.
    pub fn new_get_max_clock_rate(clock_id: u32) -> (m: Self)
        ensures
            m.is_request(tag::CLOCK_GET_MAX_CLOCK_RATE, seq![clock_id, 0u32]),
    {
        let mut tag = Tag::get_max_clock_rate();
        tag.value_buffer[0] = clock_id;
        assert(tag.value_buffer@ =~= seq![clock_id, 0u32]);
        Self::new(tag)
    }

    /// The request message of the `get_min_clock_rate` property.
    pub fn new_get_min_clock_rate(clock_id: u32) -> (m: Self)
        ensures
            m.is_request(tag::CLOCK_GET_MIN_CLOCK_RATE, seq![clock_id, 0u32]),
    {
        let mut tag = Tag::get_min_clock_rate();
        tag.value_buffer[0] = clock_id;
        assert(tag.value_buffer@ =~= seq![clock_id, 0u32]);
        Self::new(tag)
    }

    /// The request message of the `get_turbo` property.
    pub fn new_get_turbo(id: u32) -> (m: Self)
        ensures
            m.is_request(tag::CLOCK_GET_TURBO, seq![id, 0u32]),
    {
        let mut tag = Tag::get_turbo();
        tag.value_buffer[0] = id;
        assert(tag.value_buffer@ =~= seq![id, 0u32]);
        Self::new(tag)
    }

    /// The request message of the `set_turbo` property.
    pub fn new_set_turbo(id: u32, level: u32) -> (m: Self)
        ensures
            m.is_request(tag::CLOCK_SET_TURBO, seq![id, level]),
    {
        let mut tag = Tag::set_turbo();
        tag.value_buffer[0] = id;
        tag.value_buffer[1] = level;
        assert(tag.value_buffer@ =~= seq![id, level]);
        Self::new(tag)
    }

    /// The request message of the `get_voltage` property.
    pub fn new_get_voltage(voltage_id: u32) -> (m: Self)
        ensures
            m.is_request(tag::VOLTAGE_GET_VOLTAGE, seq![voltage_id, 0u32]),
    {
        let mut tag = Tag::get_voltage();
        tag.value_buffer[0] = voltage_id;
        assert(tag.value_buffer@ =~= seq![voltage_id, 0u32]);
        Self::new(tag)
    }

    /// The request message of the `set_voltage` property.
    pub fn new_set_voltage(voltage_id: u32, value: u32) -> (m: Self)
        ensures
            m.is_request(tag::VOLTAGE_SET_VOLTAGE, seq![voltage_id, value]),
    {
        let mut tag = Tag::set_voltage();
        tag.value_buffer[0] = voltage_id;
        tag.value_buffer[1] = value;
        assert(tag.value_buffer@ =~= seq![voltage_id, value]);
        Self::new(tag)
    }

    /// The request message of the `get_max_voltage` property.
    pub fn new_get_max_voltage(voltage_id: u32) -> (m: Self)
        ensures
            m.is_request(tag::VOLTAGE_GET_MAX_VOLTAGE, seq![voltage_id, 0u32]),
    {
        let mut tag = Tag::get_max_voltage();
        tag.value_buffer[0] = voltage_id;
        assert(tag.value_buffer@ =~= seq![voltage_id, 0u32]);
        Self::new(tag)
    }

    /// The request message of the `get_min_voltage` property.
    pub fn new_get_min_voltage(voltage_id: u32) -> (m: Self)
        ensures
            m.is_request(tag::VOLTAGE_GET_MIN_VOLTAGE, seq![voltage_id, 0u32]),
    {
        let mut tag = Tag::get_min_voltage();
        tag.value_buffer[0] = voltage_id;
        assert(tag.value_buffer@ =~= seq![voltage_id, 0u32]);
        Self::new(tag)
    }

    /// The request message of the `get_temperature` property.
    pub fn new_get_temperature(temperature_id: u32) -> (m: Self)
        ensures
            m.is_request(tag::TEMPERATURE_GET_TEMPERATURE, seq![temperature_id, 0u32]),
    {
        let mut tag = Tag::get_temperature();
        tag.value_buffer[0] = temperature_id;
        assert(tag.value_buffer@ =~= seq![temperature_id, 0u32]);
        Self::new(tag)
    }

    /// The request message of the `get_max_temperature` property.
    pub fn new_get_max_temperature(temperature_id: u32) -> (m: Self)
        ensures
            m.is_request(tag::TEMPERATURE_GET_MAX_TEMPERATURE, seq![temperature_id, 0u32]),
    {
        let mut tag = Tag::get_max_temperature();
        tag.value_buffer[0] = temperature_id;
        assert(tag.value_buffer@ =~= seq![temperature_id, 0u32]);
        Self::new(tag)
    }

    /// The request message of the `allocate_memory` property.
    pub fn new_allocate_memory(size: u32, alignment: u32, flags: u32) -> (m: Self)
        ensures
            m.is_request(tag::MEMORY_ALLOCATE_MEMORY, seq![size, alignment, flags]),
    {
        let mut tag = Tag::allocate_memory();
        tag.value_buffer[0] = size;
        tag.value_buffer[1] = alignment;
        tag.value_buffer[2] = flags;
        assert(tag.value_buffer@ =~= seq![size, alignment, flags]);
        Self::new(tag)
    }

    /// The request message of the `lock_memory` property.
    pub fn new_lock_memory(handle: u32) -> (m: Self)
        ensures
            m.is_request(tag::MEMORY_LOCK_MEMORY, seq![handle]),
    {
        let mut tag = Tag::lock_memory();
        tag.value_buffer[0] = handle;
        assert(tag.value_buffer@ =~= seq![handle]);
        Self::new(tag)
    }

    /// The request message of the `unlock_memory` property.
    pub fn new_unlock_memory(handle: u32) -> (m: Self)
        ensures
            m.is_request(tag::MEMORY_UNLOCK_MEMORY, seq![handle]),
    {
        let mut tag = Tag::unlock_memory();
        tag.value_buffer[0] = handle;
        assert(tag.value_buffer@ =~= seq![handle]);
        Self::new(tag)
    }

    /// The request message of the `release_memory` property.
    pub fn new_release_memory(handle: u32) -> (m: Self)
        ensures
            m.is_request(tag::MEMORY_RELEASE_MEMORY, seq![handle]),
    {
        let mut tag = Tag::release_memory();
        tag.value_buffer[0] = handle;
        assert(tag.value_buffer@ =~= seq![handle]);
        Self::new(tag)
    }

    /// The request message of the `execute_code` property.
    pub fn new_execute_code(entry_point: u32, r0: u32, r1: u32, r2: u32, r3: u32, r4: u32, r5: u32) -> (m: Self)
        ensures
            m.is_request(tag::MEMORY_EXECUTE_CODE, seq![entry_point, r0, r1, r2, r3, r4, r5]),
    {
        let mut tag = Tag::execute_code();
        tag.value_buffer[0] = entry_point;
        tag.value_buffer[1] = r0;
        tag.value_buffer[2] = r1;
        tag.value_buffer[3] = r2;
        tag.value_buffer[4] = r3;
        tag.value_buffer[5] = r4;
        tag.value_buffer[6] = r5;
        assert(tag.value_buffer@ =~= seq![entry_point, r0, r1, r2, r3, r4, r5]);
        Self::new(tag)
    }

    /// The request message of the `get_dispmanx_resource_mem_handle` property.
    pub fn new_get_dispmanx_resource_mem_handle(handle: u32) -> (m: Self)
        ensures
            m.is_request(tag::MEMORY_GET_DISPMANX_RESOURCE_MEM_HANDLE, seq![handle, 0u32]),
    {
        let mut tag = Tag::get_dispmanx_resource_mem_handle();
        tag.value_buffer[0] = handle;
        assert(tag.value_buffer@ =~= seq![handle, 0u32]);
        Self::new(tag)
    }

    /// The request message of the `set_cursor_info` property.
    pub fn new_set_cursor_info(width: u32, height: u32, pointer_to_pixels: u32, hotspot_x: u32, hotspot_y: u32) -> (m: Self)
        ensures
            m.is_request(tag::FRAMEBUFFER_SET_CURSOR_INFO, seq![width, height, 0u32, pointer_to_pixels, hotspot_x, hotspot_y]),
    {
        let mut tag = Tag::set_cursor_info();
        tag.value_buffer[0] = width;
        tag.value_buffer[1] = height;
        tag.value_buffer[2] = 0; // unused
        tag.value_buffer[3] = pointer_to_pixels;
        tag.value_buffer[4] = hotspot_x;
        tag.value_buffer[5] = hotspot_y;
        assert(tag.value_buffer@ =~= seq![width, height, 0u32, pointer_to_pixels, hotspot_x, hotspot_y]);
        Self::new(tag)
    }

    /// The request message of the `set_cursor_state` property.
    pub fn new_set_cursor_state(enable: u32, x: u32, y: u32, flags: u32) -> (m: Self)
        ensures
            m.is_request(tag::FRAMEBUFFER_SET_CURSOR_STATE, seq![enable, x, y, flags]),
    {
        let mut tag = Tag::set_cursor_state();
        tag.value_buffer[0] = enable;
        tag.value_buffer[1] = x;
        tag.value_buffer[2] = y;
        tag.value_buffer[3] = flags;
        assert(tag.value_buffer@ =~= seq![enable, x, y, flags]);
        Self::new(tag)
    }

}

impl Message<46> {
    /// The request message of the `get_clocks` property.
    pub fn new_get_clocks() -> (m: Self)
        ensures
            m.is_request(tag::HARDWARE_GET_CLOCKS, Seq::new(32, |i: int| 0u32)),
    {
        Self::new(Tag::get_clocks())
    }

    /// The request message of the `get_edid_block` property.
    pub fn new_get_edid_block(block_id: u32) -> (m: Self)
        ensures
            m.is_request(tag::MEMORY_GET_EDID_BLOCK, Seq::new(34, |i: int| if i == 0 { block_id } else { 0u32 })),
    {
        let mut tag = Tag::get_edid_block();
        tag.value_buffer[0] = block_id;
        assert(tag.value_buffer@ =~= Seq::new(34, |i: int| if i == 0 { block_id } else { 0u32 }));
        Self::new(tag)
    }

}
impl Message<318> {
    /// The request message of the `get_palette` property.
    pub fn new_get_palette() -> (m: Self)
        ensures
            m.is_request(tag::FRAMEBUFFER_GET_PALETTE, Seq::new(256, |_i: int| 0u32)),
    {
        Self::new(Tag::get_palette())
    }

    /// The message for a palette tag: offset and length first, then as many palette entries as
    /// fit into the 256 remaining words of the value buffer.
    pub fn palette(offset: u32, length: u32, palette: &[u32], request: Tag<258>) -> (m: Self)
        requires
            request.value_buffer_size == 258 * 4,
            request.req_res_code == REQUEST_CODE,
        ensures
            m.size == 320 * 4,
            m.req_res_code == REQUEST_CODE,
            m.data@ == message_words(
                tag_words(
                    request.identifier.0,
                    request.value_buffer_size,
                    request.req_res_code,
                    palette_buffer(request.value_buffer@, offset, length, palette@),
                ),
                318,
            ),
    {
        let mut tag = request;
        let ghost original = tag.value_buffer@;
        tag.value_buffer[0] = offset;
        tag.value_buffer[1] = length;
        let mut i: usize = 0;

        let len = if palette.len() < 258 - 2 {
            palette.len()
        } else {
            258 - 2
        };

        while i < len
            invariant
                len <= palette@.len(),
                len <= 256,
                0 <= i <= len,
                tag.identifier.0 == request.identifier.0,
                tag.value_buffer_size == request.value_buffer_size,
                tag.req_res_code == request.req_res_code,
                original == request.value_buffer@,
                original.len() == 258,
                tag.value_buffer@.len() == 258,
                tag.value_buffer@[0] == offset,
                tag.value_buffer@[1] == length,
                forall|j: int| 0 <= j < i ==> tag.value_buffer@[2 + j] == palette@[j],
                forall|j: int| 2 + i <= j < 258 ==> tag.value_buffer@[j] == original[j],
            decreases len - i,
        {
            tag.value_buffer[2 + i] = palette[i];
            i += 1;
        }

        assert(tag.value_buffer@ =~= palette_buffer(original, offset, length, palette@));
        let m = Self::new(tag);
        assert(m.data@ =~= message_words(
            tag_words(tag.identifier.0, tag.value_buffer_size, tag.req_res_code,
                palette_buffer(original, offset, length, palette@)), 318));
        m
    }

    /// The request message of the `test_palette` property.
    pub fn new_test_palette(offset: u32, length: u32, palette: &[u32]) -> (m: Self)
        ensures
            m.is_request(
                tag::FRAMEBUFFER_TEST_PALETTE,
                palette_buffer(Seq::new(258, |_i: int| 0u32), offset, length, palette@),
            ),
    {
        let tag = Tag::test_palette();
        Self::palette(offset, length, palette, tag)
    }

    /// The request message of the `set_palette` property.
    pub fn new_set_palette(offset: u32, length: u32, palette: &[u32]) -> (m: Self)
        ensures
            m.is_request(
                tag::FRAMEBUFFER_SET_PALETTE,
                palette_buffer(Seq::new(258, |_i: int| 0u32), offset, length, palette@),
            ),
    {
        let tag = Tag::set_palette();
        Self::palette(offset, length, palette, tag)
    }

    /// The request message of the `get_command_line` property.
    pub fn new_get_command_line() -> (m: Self)
        ensures
            m.is_request(tag::CONFIG_GET_COMMAND_LINE, Seq::new(256, |_i: int| 0u32)),
    {
        Self::new(Tag::get_command_line())
    }
}

} // verus!
