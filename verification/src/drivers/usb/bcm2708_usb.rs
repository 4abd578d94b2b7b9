//! Logic of the BCM2708 (Synopsys DWC OTG) USB host controller driver: the boot keyboard's
//! report handling, the values programmed into a host channel, and the decisions taken on the
//! channel's interrupt status.
use vstd::prelude::*;

use crate::drivers::DriverRegistry;

use super::usb_core::{
    EndpointInfo, InterfaceDescriptor, InterruptInTransfer, UsbDirection, UsbEndpointType, UsbError,
    UsbResult, UsbRoute, UsbSpeed, USB_CLASS_HID, USB_HID_PROTOCOL_KEYBOARD, USB_HID_SUBCLASS_BOOT,
    descriptor_list, endpoint_type_of, find_interface, find_interrupt_in_endpoint, first_interface,
    first_interrupt_in_endpoint, u16_from_le, USB_DESC_HUB,
};
use crate::ring_array::RingArray;

verus! {

pub const USB_POWER_STATE_ON: u32 = 1;
pub const USB_POWER_STATE_WAIT: u32 = 2;
pub const USB_HCD_DEVICE_ID: u32 = 0x0000_0003;

pub const CONTROL_CHANNEL: usize = 0;
pub const INTERRUPT_CHANNEL: usize = 1;
pub const KEYBOARD_REPORT_LEN: usize = 8;
pub const KEYBOARD_QUEUE_LEN: usize = 256;

/// Delay before a held key starts repeating, in nanoseconds (200 ms).
pub const KEYBOARD_REPEAT_DELAY_NS: u64 = 200_000_000;
/// Interval between repeats of a held key, in nanoseconds (40 ms).
pub const KEYBOARD_REPEAT_INTERVAL_NS: u64 = 40_000_000;
/// Longest time a key repeats without a new report, in nanoseconds (10 s).
pub const KEYBOARD_REPEAT_MAX_HOLD_NS: u64 = 10_000_000_000;

pub const SETUP_BUFFER_LEN: usize = 8;
pub const CONTROL_BUFFER_LEN: usize = 1024;

pub const USB_BUS_UNCACHED_ALIAS: u32 = 0xC000_0000;

pub const USB_HOST_CHANNEL_BASE_OFFSET: usize = 0x500;
pub const USB_HOST_CHANNEL_STRIDE: usize = 0x20;

pub const GHWCFG2_ARCHITECTURE_SHIFT: u32 = 3;
pub const GHWCFG2_ARCHITECTURE_MASK: u32 = 0x18;
pub const GHWCFG2_ARCHITECTURE_INT_DMA: u32 = 0x2;
pub const GHWCFG2_NUM_HOST_CHANNELS_SHIFT: u32 = 14;
pub const GHWCFG2_NUM_HOST_CHANNELS_MASK: u32 = 0x3C000;

pub const HPRT_CONNECT: u32 = 1;
pub const HPRT_CONNECT_CHANGED: u32 = 2;
pub const HPRT_ENABLE: u32 = 4;
pub const HPRT_ENABLE_CHANGED: u32 = 8;
pub const HPRT_OVERCURRENT_CHANGED: u32 = 0x20;
pub const HPRT_RESET: u32 = 0x100;
pub const HPRT_POWER: u32 = 0x1000;
pub const HPRT_SPEED_SHIFT: u32 = 17;
pub const HPRT_SPEED_MASK: u32 = 0x60000;
pub const HPRT_SPEED_HIGH: u32 = 0;
pub const HPRT_SPEED_FULL: u32 = 1;
pub const HPRT_SPEED_LOW: u32 = 2;
/// The bits of the port register that are cleared by writing one to them (plus the enable bit,
/// which writing one disables): they are masked off before a read-modify-write.
pub const HPRT_DEFAULT_MASK: u32 = 0x2E; // ENABLE | CONNECT_CHANGED | ENABLE_CHANGED | OVERCURRENT_CHANGED

pub const HCCHAR_MAX_PACKET_SIZE_MASK: u32 = 0x7FF;
pub const HCCHAR_ENDPOINT_NUMBER_SHIFT: u32 = 11;
pub const HCCHAR_ENDPOINT_DIRECTION_IN: u32 = 0x8000;
pub const HCCHAR_LOW_SPEED_DEVICE: u32 = 0x20000;
pub const HCCHAR_ENDPOINT_TYPE_SHIFT: u32 = 18;
pub const HCCHAR_MULTI_COUNT_SHIFT: u32 = 20;
pub const HCCHAR_DEVICE_ADDRESS_SHIFT: u32 = 22;
pub const HCCHAR_ODD_FRAME: u32 = 0x2000_0000;
pub const HCCHAR_DISABLE: u32 = 0x4000_0000;
pub const HCCHAR_ENABLE: u32 = 0x8000_0000;

pub const HCSPLT_PORT_ADDRESS_MASK: u32 = 0x7F;
pub const HCSPLT_HUB_ADDRESS_SHIFT: u32 = 7;
pub const HCSPLT_XACT_POSITION_SHIFT: u32 = 14;
pub const HCSPLT_XACT_POSITION_ALL: u32 = 0x3;
pub const HCSPLT_COMPLETE_SPLIT: u32 = 0x1_0000;
pub const HCSPLT_SPLIT_ENABLE: u32 = 0x8000_0000;

pub const HCINT_XFER_COMPLETE: u32 = 0x1;
pub const HCINT_HALTED: u32 = 0x2;
pub const HCINT_AHB_ERROR: u32 = 0x4;
pub const HCINT_STALL: u32 = 0x8;
pub const HCINT_NAK: u32 = 0x10;
pub const HCINT_ACK: u32 = 0x20;
pub const HCINT_NYET: u32 = 0x40;
pub const HCINT_XACT_ERROR: u32 = 0x80;
pub const HCINT_BABBLE_ERROR: u32 = 0x100;
pub const HCINT_FRAME_OVERRUN: u32 = 0x200;
pub const HCINT_DATA_TOGGLE_ERROR: u32 = 0x400;
/// AHB | STALL | XACT | BABBLE | FRAME_OVERRUN | DATA_TOGGLE
pub const HCINT_ERROR_MASK: u32 = 0x78C;

pub const HCTSIZ_TRANSFER_SIZE_MASK: u32 = 0x7FFFF;
pub const HCTSIZ_PACKET_COUNT_SHIFT: u32 = 19;
pub const HCTSIZ_PID_SHIFT: u32 = 29;

pub const MAX_TRANSACTION_RETRIES: usize = 256;
pub const MAX_SPLIT_COMPLETE_RETRIES: usize = 4;
pub const MAX_INTERRUPT_ERROR_RETRIES: usize = 8;

pub const HUB_PORT_STATUS_CONNECTION: u16 = 1;
pub const HUB_PORT_STATUS_ENABLED: u16 = 2;
pub const HUB_PORT_STATUS_POWERED: u16 = 0x100;
pub const HUB_PORT_STATUS_LOW_SPEED: u16 = 0x200;
pub const HUB_PORT_STATUS_HIGH_SPEED: u16 = 0x400;

pub const HUB_PORT_CHANGE_CONNECTION: u16 = 1;
pub const HUB_PORT_CHANGE_ENABLE: u16 = 2;
pub const HUB_PORT_CHANGE_RESET: u16 = 0x10;

pub const HUB_FEATURE_C_PORT_CONNECTION: u16 = 16;
pub const HUB_FEATURE_C_PORT_ENABLE: u16 = 17;
pub const HUB_FEATURE_C_PORT_RESET: u16 = 20;

pub const HID_MODIFIER_LEFT_SHIFT: u8 = 0x02;
pub const HID_MODIFIER_RIGHT_SHIFT: u8 = 0x20;
pub const HID_MODIFIER_RIGHT_ALT: u8 = 0x40;
pub const HID_USAGE_CAPS_LOCK: u8 = 0x39;

/// The data PID of a transaction.
#[derive(Clone, Copy, Debug, PartialEq, Eq, Structural)]
pub enum PacketId {
    Data0,
    Data1,
    Setup,
}

impl PacketId {
    /// The PID field value: DATA0 = 0, DATA1 = 2, SETUP = 3.
    pub open spec fn spec_bits(self) -> u32 {
        match self {
            PacketId::Data0 => 0,
            PacketId::Data1 => 2,
            PacketId::Setup => 3,
        }
    }

    pub fn bits(self) -> (b: u32)
        ensures
            b == self.spec_bits(),
    {
        match self {
            Self::Data0 => 0,
            Self::Data1 => 2,
            Self::Setup => 3,
        }
    }

    /// The PID of the next data packet: DATA0 and DATA1 alternate; SETUP stays.
    pub open spec fn spec_toggled(self) -> PacketId {
        match self {
            PacketId::Data0 => PacketId::Data1,
            PacketId::Data1 => PacketId::Data0,
            PacketId::Setup => PacketId::Setup,
        }
    }

    pub fn toggled(self) -> (p: Self)
        ensures
            p == self.spec_toggled(),
    {
        match self {
            Self::Data0 => Self::Data1,
            Self::Data1 => Self::Data0,
            Self::Setup => Self::Setup,
        }
    }
}

#[derive(Clone, Copy, Debug, PartialEq, Eq, Structural)]
pub enum SplitPhase {
    Unsplit,
    Start,
    Complete,
}

/// Where an asynchronous interrupt transfer stands.
#[derive(Clone, Copy, Debug, PartialEq, Eq, Structural)]
pub enum InterruptPollPhase {
    Idle,
    InFlight,
    Recovering,
}

/// One transaction to program into a host channel.
#[derive(Clone, Copy, PartialEq, Eq, Structural)]
pub struct ChannelRequest {
    pub route: UsbRoute,
    pub endpoint_number: u8,
    pub endpoint_type: UsbEndpointType,
    pub direction: UsbDirection,
    pub max_packet_size: u16,
    pub packet_id: PacketId,
    pub transfer_size: usize,
    pub odd_frame: bool,
    pub split_phase: SplitPhase,
}

/// The offset of register `offset` of host channel `channel`.
pub fn channel_reg_offset(channel: usize, offset: usize) -> (r: usize)
    requires
        channel < 16,
        offset < USB_HOST_CHANNEL_STRIDE,
    ensures
        r == USB_HOST_CHANNEL_BASE_OFFSET + channel * USB_HOST_CHANNEL_STRIDE + offset,
{
    USB_HOST_CHANNEL_BASE_OFFSET + channel * USB_HOST_CHANNEL_STRIDE + offset
}

/// `d` nanoseconds in ticks of a counter running at `frequency` Hz, truncated to 64 bits.
pub open spec fn ns_to_ticks(d: u64, frequency: u64) -> u64 {
    ((d as int / 1_000_000_000 * frequency as int) + (d as int % 1_000_000_000 * frequency as int
        / 1_000_000_000)) as u64
}

/// Converts a duration of `d` nanoseconds into counter ticks (whole seconds and the remaining
/// nanoseconds separately, as `Duration` arithmetic does); 0 when the counter frequency is
/// unknown (0).
pub fn duration_to_counter_ticks(d: u64, frequency: u64) -> (t: u64)
    ensures
        t == ns_to_ticks(d, frequency),
{
    if frequency == 0 {
        return 0;
    }
    let secs = (d / 1_000_000_000) as u128;
    let nanos = (d % 1_000_000_000) as u128;
    let f = frequency as u128;
    assert(secs * f <= 18_446_744_074u128 * 18_446_744_073_709_551_615u128) by (nonlinear_arith)
        requires
            secs <= 18_446_744_074u128,
            f <= 18_446_744_073_709_551_615u128,
    ;
    assert(nanos * f <= 1_000_000_000u128 * 18_446_744_073_709_551_615u128) by (nonlinear_arith)
        requires
            nanos < 1_000_000_000u128,
            f <= 18_446_744_073_709_551_615u128,
    ;
    let ticks = secs * f + nanos * f / 1_000_000_000;
    #[verifier::truncate]
    (ticks as u64)
}

/// The polling period of an interrupt endpoint in nanoseconds: `2^(bInterval-1)` microframes of
/// 125 µs for a high-speed device (the exponent capped at 16), `bInterval` milliseconds
/// otherwise; a `bInterval` of 0 counts as 1.
pub open spec fn interrupt_interval_ns(speed: UsbSpeed, interval: u8) -> u64 {
    let i = if interval < 1 { 1 } else { interval as int };
    if speed == UsbSpeed::High {
        let e = if i < 16 { i } else { 16 };
        (vstd::arithmetic::power2::pow2((e - 1) as nat) * 125_000) as u64
    } else {
        (i * 1_000_000) as u64
    }
}

/// The polling period of an interrupt endpoint in counter ticks, at least one.
pub fn interrupt_interval_ticks(route: UsbRoute, endpoint: EndpointInfo, frequency: u64) -> (t: u64)
    ensures
        t == (if ns_to_ticks(interrupt_interval_ns(route.speed, endpoint.interval), frequency) < 1 {
            1
        } else {
            ns_to_ticks(interrupt_interval_ns(route.speed, endpoint.interval), frequency)
        }),
{
    let interval = if endpoint.interval < 1 {
        1u8
    } else {
        endpoint.interval
    };
    let duration_ns: u64 = if route.speed() == UsbSpeed::High {
        let exponent = if interval < 16 {
            interval
        } else {
            16u8
        };
        let microframes = 1u64 << ((exponent - 1) as u64);
        proof {
            vstd::arithmetic::power2::lemma2_to64();
            vstd::bits::lemma_u64_shl_is_mul(1u64, (exponent - 1) as u64);
            vstd::arithmetic::power2::lemma_pow2((exponent - 1) as nat);
            assert(microframes == vstd::arithmetic::power2::pow2((exponent - 1) as nat));
        }
        microframes * 125_000
    } else {
        interval as u64 * 1_000_000
    };
    let ticks = duration_to_counter_ticks(duration_ns, frequency);
    if ticks < 1 {
        1
    } else {
        ticks
    }
}

/// The bus address of a physical address in the uncached (0xC...) alias, as the DMA engine of
/// the controller sees it; addresses beyond 32 bits are not reachable.
pub fn bus_address(phys_addr: usize) -> (r: UsbResult<u32>)
    ensures
        phys_addr > u32::MAX ==> r == Err::<u32, UsbError>(UsbError::Unsupported),
        phys_addr <= u32::MAX ==> r == Ok::<u32, UsbError>(
            ((phys_addr as u32) & !USB_BUS_UNCACHED_ALIAS) | USB_BUS_UNCACHED_ALIAS,
        ),
{
    if phys_addr > u32::MAX as usize {
        return Err(UsbError::Unsupported);
    }
    let phys_addr = phys_addr as u32;
    Ok((phys_addr & !USB_BUS_UNCACHED_ALIAS) | USB_BUS_UNCACHED_ALIAS)
}

/// The endpoint type field of the channel characteristics register.
pub open spec fn spec_endpoint_type_bits(endpoint_type: UsbEndpointType) -> u32 {
    match endpoint_type {
        UsbEndpointType::Control => 0,
        UsbEndpointType::Isochronous => 1,
        UsbEndpointType::Bulk => 2,
        UsbEndpointType::Interrupt => 3,
    }
}

pub fn endpoint_type_bits(endpoint_type: UsbEndpointType) -> (b: u32)
    ensures
        b == spec_endpoint_type_bits(endpoint_type),
{
    match endpoint_type {
        UsbEndpointType::Control => 0,
        UsbEndpointType::Isochronous => 1,
        UsbEndpointType::Bulk => 2,
        UsbEndpointType::Interrupt => 3,
    }
}

/// The transfer size programmed for a transaction: a complete-split OUT transaction carries no
/// data, and a split IN transaction asks for a whole packet at least.
pub open spec fn spec_programmed_transfer_size(request: ChannelRequest) -> usize {
    if request.route.spec_uses_split_transactions() && request.split_phase == SplitPhase::Complete
        && request.direction != UsbDirection::In {
        0
    } else if request.route.spec_uses_split_transactions() && request.direction == UsbDirection::In
        && request.transfer_size < request.max_packet_size {
        request.max_packet_size as usize
    } else {
        request.transfer_size
    }
}

pub fn programmed_transfer_size(request: ChannelRequest) -> (n: usize)
    ensures
        n == spec_programmed_transfer_size(request),
{
    if request.route.uses_split_transactions() {
        if request.split_phase == SplitPhase::Complete && request.direction != UsbDirection::In {
            return 0;
        }

        if request.direction == UsbDirection::In {
            let mps = request.max_packet_size as usize;
            return if request.transfer_size < mps {
                mps
            } else {
                request.transfer_size
            };
        }
    }

    request.transfer_size
}

/// The split control register of a transaction: for a split transaction the hub port and hub
/// address, "all" payload position, the complete-split flag in the complete phase, and the
/// enable bit; zero otherwise.
pub open spec fn spec_split_control(request: ChannelRequest) -> u32 {
    if request.route.spec_uses_split_transactions() {
        let base = (request.route.parent_port as u32 & HCSPLT_PORT_ADDRESS_MASK) | ((
        request.route.parent_hub_address as u32) << HCSPLT_HUB_ADDRESS_SHIFT) | (
        HCSPLT_XACT_POSITION_ALL << HCSPLT_XACT_POSITION_SHIFT);
        let with_phase = if request.split_phase == SplitPhase::Complete {
            base | HCSPLT_COMPLETE_SPLIT
        } else {
            base
        };
        with_phase | HCSPLT_SPLIT_ENABLE
    } else {
        0
    }
}

proof fn lemma_hcsplt_bits(port: u32, hub: u32, complete: bool, v: u32)
    requires
        hub < 128,
        v == ({
            let base = (port & 0x7f) | (hub << 7) | (3u32 << 14);
            let p = if complete { base | 0x1_0000 } else { base };
            p | 0x8000_0000
        }),
    ensures
        v & 0x7f == port & 0x7f,
        (v >> 7) & 0x7f == hub,
        (v >> 14) & 3 == 3,
        ((v >> 16) & 1 == 1) == complete,
        v >> 31 == 1,
{
    assert(v & 0x7f == port & 0x7f && (v >> 7) & 0x7f == hub && (v >> 14) & 3 == 3 && ((v >> 16) & 1 == 1)
        == complete && v >> 31 == 1) by (bit_vector)
        requires
            hub < 128,
            v == ({
                let base = (port & 0x7f) | (hub << 7) | (3u32 << 14);
                let p = if complete { base | 0x1_0000 } else { base };
                p | 0x8000_0000
            }),
    ;
}

/// The split control register of a split transaction holds the hub port in bits 0-6, the hub
/// address in bits 7-13, the "all" payload position 3 in bits 14-15, the complete-split flag in
/// bit 16 (set in the complete phase only) and the enable bit 31; a transaction that is not
/// split leaves the register 0.
pub proof fn lemma_split_control_fields(request: ChannelRequest)
    requires
        request.route.parent_hub_address < 128,
    ensures
        ({
            let v = spec_split_control(request);
            &&& request.route.spec_uses_split_transactions() ==> {
                &&& v & 0x7f == request.route.parent_port & 0x7f
                &&& (v >> 7) & 0x7f == request.route.parent_hub_address
                &&& (v >> 14) & 3 == 3
                &&& ((v >> 16) & 1 == 1) == (request.split_phase == SplitPhase::Complete)
                &&& v >> 31 == 1
            }
            &&& !request.route.spec_uses_split_transactions() ==> v == 0
        }),
{
    if request.route.spec_uses_split_transactions() {
        let p8: u8 = request.route.parent_port;
        assert((p8 as u32) & 0x7f == p8 & 0x7f) by (bit_vector);
        lemma_hcsplt_bits(
            request.route.parent_port as u32,
            request.route.parent_hub_address as u32,
            request.split_phase == SplitPhase::Complete,
            spec_split_control(request),
        );
    }
}

proof fn lemma_hctsiz_bits(size: u32, pid: u32, v: u32)
    requires
        pid < 4,
        v == (size & 0x7ffff) | (1u32 << 19) | (pid << 29),
    ensures
        v & 0x7ffff == size & 0x7ffff,
        (v >> 19) & 0x3ff == 1,
        v >> 29 == pid,
{
    assert(v & 0x7ffff == size & 0x7ffff && (v >> 19) & 0x3ff == 1 && v >> 29 == pid) by (bit_vector)
        requires
            pid < 4,
            v == (size & 0x7ffff) | (1u32 << 19) | (pid << 29),
    ;
}

/// The transfer size register holds the programmed size in bits 0-18, a packet count of one in
/// bits 19-28, and the PID in bits 29-30 (DATA0 0, DATA1 2, SETUP 3).
pub proof fn lemma_transfer_size_fields(request: ChannelRequest, v: u32)
    requires
        spec_programmed_transfer_size(request) <= u32::MAX,
        v == ((spec_programmed_transfer_size(request) as u32) & HCTSIZ_TRANSFER_SIZE_MASK) | (1u32
            << HCTSIZ_PACKET_COUNT_SHIFT) | (request.packet_id.spec_bits() << HCTSIZ_PID_SHIFT),
    ensures
        v & 0x7ffff == spec_programmed_transfer_size(request) & 0x7ffff,
        (v >> 19) & 0x3ff == 1,
        v >> 29 == match request.packet_id {
            PacketId::Data0 => 0u32,
            PacketId::Data1 => 2u32,
            PacketId::Setup => 3u32,
        },
{
    let size = spec_programmed_transfer_size(request) as u32;
    let sz: usize = spec_programmed_transfer_size(request);
    assert((sz as u32) & 0x7ffff == sz & 0x7ffff) by (bit_vector)
        requires
            sz <= 0xffff_ffff,
    ;
    lemma_hctsiz_bits(size, request.packet_id.spec_bits(), v);
}

pub fn split_control(request: ChannelRequest) -> (v: u32)
    ensures
        v == spec_split_control(request),
{
    if request.route.uses_split_transactions() {
        let mut split = request.route.parent_port() as u32 & HCSPLT_PORT_ADDRESS_MASK;
        split = split | ((request.route.parent_hub_address() as u32) << HCSPLT_HUB_ADDRESS_SHIFT);
        split = split | (HCSPLT_XACT_POSITION_ALL << HCSPLT_XACT_POSITION_SHIFT);
        if request.split_phase == SplitPhase::Complete {
            split = split | HCSPLT_COMPLETE_SPLIT;
        }
        split | HCSPLT_SPLIT_ENABLE
    } else {
        0
    }
}

/// The transfer size register: the programmed size, one packet, and the PID.
pub fn transfer_size_register(request: ChannelRequest) -> (r: UsbResult<u32>)
    ensures
        spec_programmed_transfer_size(request) > u32::MAX ==> r == Err::<u32, UsbError>(
            UsbError::BufferTooLarge,
        ),
        spec_programmed_transfer_size(request) <= u32::MAX ==> r == Ok::<u32, UsbError>(
            ((spec_programmed_transfer_size(request) as u32) & HCTSIZ_TRANSFER_SIZE_MASK) | (1u32
                << HCTSIZ_PACKET_COUNT_SHIFT) | (request.packet_id.spec_bits() << HCTSIZ_PID_SHIFT),
        ),
        r matches Ok(v) ==> {
            &&& v & 0x7ffff == spec_programmed_transfer_size(request) & 0x7ffff
            &&& (v >> 19) & 0x3ff == 1
            &&& v >> 29 == match request.packet_id {
                PacketId::Data0 => 0u32,
                PacketId::Data1 => 2u32,
                PacketId::Setup => 3u32,
            }
        },
{
    let packet_count = 1u32;
    let programmed = programmed_transfer_size(request);
    if programmed > u32::MAX as usize {
        return Err(UsbError::BufferTooLarge);
    }
    let transfer_size = programmed as u32;
    proof {
        lemma_transfer_size_fields(
            request,
            (transfer_size & HCTSIZ_TRANSFER_SIZE_MASK) | (1u32 << HCTSIZ_PACKET_COUNT_SHIFT) | (
            request.packet_id.spec_bits() << HCTSIZ_PID_SHIFT),
        );
    }
    Ok((transfer_size & HCTSIZ_TRANSFER_SIZE_MASK) | (packet_count << HCTSIZ_PACKET_COUNT_SHIFT) | (
    request.packet_id.bits() << HCTSIZ_PID_SHIFT))
}

/// The channel characteristics register that starts a transaction: packet size, endpoint
/// number, type, one transaction per frame, device address, direction, low-speed flag, odd
/// frame for an interrupt transfer, and the enable bit.
pub open spec fn spec_channel_characteristics(request: ChannelRequest) -> u32 {
    let base = (request.max_packet_size as u32 & HCCHAR_MAX_PACKET_SIZE_MASK) | ((
    request.endpoint_number as u32) << HCCHAR_ENDPOINT_NUMBER_SHIFT) | (spec_endpoint_type_bits(
        request.endpoint_type,
    ) << HCCHAR_ENDPOINT_TYPE_SHIFT) | (1u32 << HCCHAR_MULTI_COUNT_SHIFT) | ((
    request.route.address as u32) << HCCHAR_DEVICE_ADDRESS_SHIFT);
    let dir = if request.direction == UsbDirection::In {
        base | HCCHAR_ENDPOINT_DIRECTION_IN
    } else {
        base
    };
    let speed = if request.route.speed == UsbSpeed::Low {
        dir | HCCHAR_LOW_SPEED_DEVICE
    } else {
        dir
    };
    let odd = if request.endpoint_type == UsbEndpointType::Interrupt && request.odd_frame {
        speed | HCCHAR_ODD_FRAME
    } else {
        speed
    };
    odd | HCCHAR_ENABLE
}

proof fn lemma_hcchar_bits(mps: u32, ep: u32, ty: u32, addr: u32, dir_in: bool, low: bool, odd: bool, v: u32)
    requires
        ep < 16,
        ty < 4,
        addr < 128,
        v == ({
            let base = (mps & 0x7ff) | (ep << 11) | (ty << 18) | (1u32 << 20) | (addr << 22);
            let d = if dir_in { base | 0x8000 } else { base };
            let s = if low { d | 0x20000 } else { d };
            let o = if odd { s | 0x2000_0000 } else { s };
            o | 0x8000_0000
        }),
    ensures
        v & 0x7ff == mps & 0x7ff,
        (v >> 11) & 0xf == ep,
        ((v >> 15) & 1 == 1) == dir_in,
        ((v >> 17) & 1 == 1) == low,
        (v >> 18) & 3 == ty,
        (v >> 20) & 3 == 1,
        (v >> 22) & 0x7f == addr,
        ((v >> 29) & 1 == 1) == odd,
        v >> 31 == 1,
{
    assert(v & 0x7ff == mps & 0x7ff && (v >> 11) & 0xf == ep && ((v >> 15) & 1 == 1) == dir_in && ((v >> 17) & 1
        == 1) == low && (v >> 18) & 3 == ty && (v >> 20) & 3 == 1 && (v >> 22) & 0x7f == addr && ((v >> 29) & 1
        == 1) == odd && v >> 31 == 1) by (bit_vector)
        requires
            ep < 16,
            ty < 4,
            addr < 128,
            v == ({
                let base = (mps & 0x7ff) | (ep << 11) | (ty << 18) | (1u32 << 20) | (addr << 22);
                let d = if dir_in { base | 0x8000 } else { base };
                let s = if low { d | 0x20000 } else { d };
                let o = if odd { s | 0x2000_0000 } else { s };
                o | 0x8000_0000
            }),
    ;
}

/// The channel characteristics register holds each part of the request in its field of the
/// DWC2 HCCHAR layout: the packet size in bits 0-10, the endpoint number in bits 11-14, the
/// IN direction in bit 15, a low-speed device in bit 17, the transfer type in bits 18-19
/// (control 0, isochronous 1, bulk 2, interrupt 3), one transaction per frame in bits 20-21,
/// the device address in bits 22-28, the odd frame of an interrupt transfer in bit 29, and the
/// enable bit 31.
pub proof fn lemma_channel_characteristics_fields(request: ChannelRequest)
    requires
        request.endpoint_number < 16,
        request.route.address < 128,
    ensures
        ({
            let v = spec_channel_characteristics(request);
            &&& v & 0x7ff == request.max_packet_size & 0x7ff
            &&& (v >> 11) & 0xf == request.endpoint_number
            &&& ((v >> 15) & 1 == 1) == (request.direction == UsbDirection::In)
            &&& ((v >> 17) & 1 == 1) == (request.route.speed == UsbSpeed::Low)
            &&& (v >> 18) & 3 == match request.endpoint_type {
                UsbEndpointType::Control => 0u32,
                UsbEndpointType::Isochronous => 1u32,
                UsbEndpointType::Bulk => 2u32,
                UsbEndpointType::Interrupt => 3u32,
            }
            &&& (v >> 20) & 3 == 1
            &&& (v >> 22) & 0x7f == request.route.address
            &&& ((v >> 29) & 1 == 1) == (request.endpoint_type == UsbEndpointType::Interrupt && request.odd_frame)
            &&& v >> 31 == 1
        }),
{
    let mps = request.max_packet_size as u32;
    let m16: u16 = request.max_packet_size;
    assert((m16 as u32) & 0x7ff == m16 & 0x7ff) by (bit_vector);
    lemma_hcchar_bits(
        mps,
        request.endpoint_number as u32,
        spec_endpoint_type_bits(request.endpoint_type),
        request.route.address as u32,
        request.direction == UsbDirection::In,
        request.route.speed == UsbSpeed::Low,
        request.endpoint_type == UsbEndpointType::Interrupt && request.odd_frame,
        spec_channel_characteristics(request),
    );
}

pub fn channel_characteristics(request: ChannelRequest) -> (v: u32)
    ensures
        v == spec_channel_characteristics(request),
{
    let mut hcchar = request.max_packet_size as u32 & HCCHAR_MAX_PACKET_SIZE_MASK;
    hcchar = hcchar | ((request.endpoint_number as u32) << HCCHAR_ENDPOINT_NUMBER_SHIFT);
    hcchar = hcchar | (endpoint_type_bits(request.endpoint_type) << HCCHAR_ENDPOINT_TYPE_SHIFT);
    hcchar = hcchar | (1u32 << HCCHAR_MULTI_COUNT_SHIFT);
    hcchar = hcchar | ((request.route.address() as u32) << HCCHAR_DEVICE_ADDRESS_SHIFT);
    if request.direction == UsbDirection::In {
        hcchar = hcchar | HCCHAR_ENDPOINT_DIRECTION_IN;
    }
    if request.route.speed() == UsbSpeed::Low {
        hcchar = hcchar | HCCHAR_LOW_SPEED_DEVICE;
    }
    if request.endpoint_type == UsbEndpointType::Interrupt && request.odd_frame {
        hcchar = hcchar | HCCHAR_ODD_FRAME;
    }
    hcchar | HCCHAR_ENABLE
}

/// The error a failed transaction reports: a stall, a disconnect, or a hardware fault.
pub open spec fn spec_channel_error(hcint: u32, root_port_connected: bool) -> UsbError {
    if hcint & HCINT_STALL != 0 {
        UsbError::Stall
    } else if !root_port_connected {
        UsbError::Disconnected
    } else {
        UsbError::HardwareFault
    }
}

pub fn translate_channel_error(hcint: u32, root_port_connected: bool) -> (e: UsbError)
    ensures
        e == spec_channel_error(hcint, root_port_connected),
{
    if (hcint & HCINT_STALL) != 0 {
        UsbError::Stall
    } else if !root_port_connected {
        UsbError::Disconnected
    } else {
        UsbError::HardwareFault
    }
}

/// The route of a device after it got `address`.
pub open spec fn addressed_route(route: UsbRoute, address: u8) -> UsbRoute {
    if route.parent_hub_address == 0 || route.parent_port == 0 {
        UsbRoute {
            address,
            speed: route.speed,
            parent_hub_address: 0,
            parent_port: 0,
            parent_hub_speed: UsbSpeed::High,
        }
    } else {
        UsbRoute { address, ..route }
    }
}

/// The route of a device after it got `address`: it stays behind the same hub, or on the root
/// port when no hub (or no port) is recorded.
pub fn route_with_address(route: UsbRoute, address: u8) -> (r: UsbRoute)
    ensures
        r == addressed_route(route, address),
        route.parent_hub_address == 0 || route.parent_port == 0 ==> r == (UsbRoute {
            address,
            speed: route.speed,
            parent_hub_address: 0,
            parent_port: 0,
            parent_hub_speed: UsbSpeed::High,
        }),
        route.parent_hub_address != 0 && route.parent_port != 0 ==> r == (UsbRoute {
            address,
            ..route
        }),
{
    if route.parent_hub_address() == 0 || route.parent_port() == 0 {
        UsbRoute::root(address, route.speed())
    } else {
        UsbRoute::via_hub_with_parent_speed(
            address,
            route.speed(),
            route.parent_hub_address(),
            route.parent_port(),
            route.parent_hub_speed(),
        )
    }
}

/// The speed of the device on a hub port, from the port status: high speed where bit 10 is
/// set, else low speed where bit 9 is set, else full speed.
pub open spec fn spec_hub_port_speed(status: u16) -> UsbSpeed {
    if status & 0x400 != 0 {
        UsbSpeed::High
    } else if status & 0x200 != 0 {
        UsbSpeed::Low
    } else {
        UsbSpeed::Full
    }
}

/// The speed of the device on a hub port, from the port status.
pub fn hub_port_speed(status: u16) -> (s: UsbSpeed)
    ensures
        s == spec_hub_port_speed(status),
        s == (if status & HUB_PORT_STATUS_HIGH_SPEED != 0 {
            UsbSpeed::High
        } else if status & HUB_PORT_STATUS_LOW_SPEED != 0 {
            UsbSpeed::Low
        } else {
            UsbSpeed::Full
        }),
{
    if (status & HUB_PORT_STATUS_HIGH_SPEED) != 0 {
        UsbSpeed::High
    } else if (status & HUB_PORT_STATUS_LOW_SPEED) != 0 {
        UsbSpeed::Low
    } else {
        UsbSpeed::Full
    }
}

/// The HID boot keyboard interface of the configuration `descriptors` and its interrupt IN
/// endpoint: the first boot keyboard interface, with the first interrupt IN endpoint of that
/// interface number.
pub open spec fn keyboard_in(descriptors: Seq<u8>) -> Option<(InterfaceDescriptor, EndpointInfo)> {
    let list = descriptor_list(descriptors, 0);
    let interface = first_interface(list, USB_CLASS_HID, USB_HID_SUBCLASS_BOOT, USB_HID_PROTOCOL_KEYBOARD);
    match interface {
        None => None,
        Some(i) => match first_interrupt_in_endpoint(list, None, i.interface_number) {
            None => None,
            Some(e) => Some((i, e)),
        },
    }
}

/// The HID boot keyboard interface of a configuration and its interrupt IN endpoint.
pub fn find_keyboard_interface(descriptors: &[u8]) -> (r: Option<(InterfaceDescriptor, EndpointInfo)>)
    ensures
        r == keyboard_in(descriptors@),
{
    let interface = match find_interface(
        descriptors,
        USB_CLASS_HID,
        USB_HID_SUBCLASS_BOOT,
        USB_HID_PROTOCOL_KEYBOARD,
    ) {
        Some(i) => i,
        None => return None,
    };
    let endpoint = match find_interrupt_in_endpoint(descriptors, interface.interface_number) {
        Some(e) => e,
        None => return None,
    };
    Some((interface, endpoint))
}

/// The speed of the device on the root port, from the host port register.
pub fn map_port_speed(port: u32) -> (r: UsbResult<UsbSpeed>)
    ensures
        r == (if (port & HPRT_SPEED_MASK) >> HPRT_SPEED_SHIFT == HPRT_SPEED_HIGH {
            Ok(UsbSpeed::High)
        } else if (port & HPRT_SPEED_MASK) >> HPRT_SPEED_SHIFT == HPRT_SPEED_FULL {
            Ok(UsbSpeed::Full)
        } else if (port & HPRT_SPEED_MASK) >> HPRT_SPEED_SHIFT == HPRT_SPEED_LOW {
            Ok(UsbSpeed::Low)
        } else {
            Err(UsbError::Unsupported)
        }),
{
    let speed = (port & HPRT_SPEED_MASK) >> HPRT_SPEED_SHIFT;
    if speed == HPRT_SPEED_HIGH {
        Ok(UsbSpeed::High)
    } else if speed == HPRT_SPEED_FULL {
        Ok(UsbSpeed::Full)
    } else if speed == HPRT_SPEED_LOW {
        Ok(UsbSpeed::Low)
    } else {
        Err(UsbError::Unsupported)
    }
}

/// The value written to the host port register to set `set_bits`, acknowledge `ack_bits` and
/// clear `clear_bits`, from its current value `port`: the write-one-to-clear bits and the enable
/// bit are masked off first so that the write changes nothing else.
pub fn update_host_port_value(port: u32, set_bits: u32, clear_bits: u32, ack_bits: u32) -> (v: u32)
    ensures
        v == (((port & !HPRT_DEFAULT_MASK) | set_bits | ack_bits) & !clear_bits),
{
    let mut port = port & !HPRT_DEFAULT_MASK;
    port = port | set_bits | ack_bits;
    port & !clear_bits
}

/// The change bits of the host port register that need acknowledging.
pub fn host_port_changes(port: u32) -> (ack: u32)
    ensures
        ack == port & (HPRT_CONNECT_CHANGED | HPRT_ENABLE_CHANGED | HPRT_OVERCURRENT_CHANGED),
{
    port & (HPRT_CONNECT_CHANGED | HPRT_ENABLE_CHANGED | HPRT_OVERCURRENT_CHANGED)
}

/// The number of host channels from the second hardware configuration register; the core must
/// use internal DMA and offer two channels at least (one for control, one for interrupt
/// transfers).
pub fn host_channel_count(hw_cfg2: u32) -> (r: UsbResult<usize>)
    ensures
        (hw_cfg2 & GHWCFG2_ARCHITECTURE_MASK) >> GHWCFG2_ARCHITECTURE_SHIFT
            != GHWCFG2_ARCHITECTURE_INT_DMA ==> r == Err::<usize, UsbError>(UsbError::Unsupported),
        (hw_cfg2 & GHWCFG2_ARCHITECTURE_MASK) >> GHWCFG2_ARCHITECTURE_SHIFT
            == GHWCFG2_ARCHITECTURE_INT_DMA ==> {
            let count = ((hw_cfg2 & GHWCFG2_NUM_HOST_CHANNELS_MASK)
                >> GHWCFG2_NUM_HOST_CHANNELS_SHIFT) as int + 1;
            &&& count < 2 ==> r == Err::<usize, UsbError>(UsbError::Unsupported)
            &&& count >= 2 ==> r == Ok::<usize, UsbError>(count as usize)
        },
{
    let architecture = (hw_cfg2 & GHWCFG2_ARCHITECTURE_MASK) >> GHWCFG2_ARCHITECTURE_SHIFT;
    if architecture != GHWCFG2_ARCHITECTURE_INT_DMA {
        return Err(UsbError::Unsupported);
    }
    let field = (hw_cfg2 & GHWCFG2_NUM_HOST_CHANNELS_MASK) >> GHWCFG2_NUM_HOST_CHANNELS_SHIFT;
    assert(field <= 15) by (bit_vector)
        requires
            field == (hw_cfg2 & 0x3C000u32) >> 14u32,
    ;
    let channel_count = field as usize + 1;
    if channel_count < 2 {
        return Err(UsbError::Unsupported);
    }
    Ok(channel_count)
}

/// What a polled transaction came to.
#[derive(Clone, Copy, Debug, PartialEq, Eq, Structural)]
pub enum TransactionStep {
    /// The device is not ready (NAK/NYET or no data yet): try the transaction again.
    Retry,
    /// The transaction completed, moving this many bytes.
    Done(usize),
    /// The transaction failed.
    Failed(UsbError),
}

/// The outcome of one transaction of `request`, from the channel's interrupt status `hcint` and
/// transfer size register `hctsiz` once it halted.
pub open spec fn spec_transaction_step(
    request: ChannelRequest,
    hcint: u32,
    hctsiz: u32,
    root_port_connected: bool,
) -> TransactionStep {
    let split = request.route.spec_uses_split_transactions();
    if hcint & HCINT_ERROR_MASK != 0 {
        TransactionStep::Failed(spec_channel_error(hcint, root_port_connected))
    } else if split && request.split_phase == SplitPhase::Complete && hcint & HCINT_NYET != 0 {
        TransactionStep::Retry
    } else if split && request.split_phase == SplitPhase::Complete && hcint & HCINT_NAK != 0 {
        TransactionStep::Failed(UsbError::Busy)
    } else if hcint & (HCINT_NAK | HCINT_NYET) != 0 {
        TransactionStep::Retry
    } else if request.split_phase == SplitPhase::Start {
        TransactionStep::Done(0)
    } else if request.split_phase == SplitPhase::Complete && request.direction != UsbDirection::In
        && hcint & (HCINT_ACK | HCINT_XFER_COMPLETE) != 0 {
        TransactionStep::Done(request.transfer_size)
    } else {
        let programmed = spec_programmed_transfer_size(request) as int;
        let remaining = (hctsiz & HCTSIZ_TRANSFER_SIZE_MASK) as int;
        let moved = if programmed > remaining { programmed - remaining } else { 0 };
        let actual = if moved < request.transfer_size { moved } else { request.transfer_size as int };
        if hcint & HCINT_XFER_COMPLETE != 0 || request.transfer_size == 0 || actual > 0 {
            TransactionStep::Done(actual as usize)
        } else {
            TransactionStep::Retry
        }
    }
}

pub fn transaction_step(
    request: ChannelRequest,
    hcint: u32,
    hctsiz: u32,
    root_port_connected: bool,
) -> (step: TransactionStep)
    ensures
        step == spec_transaction_step(request, hcint, hctsiz, root_port_connected),
{
    let split = request.route.uses_split_transactions();
    if (hcint & HCINT_ERROR_MASK) != 0 {
        return TransactionStep::Failed(translate_channel_error(hcint, root_port_connected));
    }
    if split && request.split_phase == SplitPhase::Complete && (hcint & HCINT_NYET) != 0 {
        return TransactionStep::Retry;
    }
    if split && request.split_phase == SplitPhase::Complete && (hcint & HCINT_NAK) != 0 {
        return TransactionStep::Failed(UsbError::Busy);
    }
    if (hcint & (HCINT_NAK | HCINT_NYET)) != 0 {
        return TransactionStep::Retry;
    }
    if request.split_phase == SplitPhase::Start {
        return TransactionStep::Done(0);
    }
    if request.split_phase == SplitPhase::Complete && request.direction != UsbDirection::In && (hcint
        & (HCINT_ACK | HCINT_XFER_COMPLETE)) != 0 {
        return TransactionStep::Done(request.transfer_size);
    }
    let programmed = programmed_transfer_size(request);
    let remaining = (hctsiz & HCTSIZ_TRANSFER_SIZE_MASK) as usize;
    let moved = programmed.saturating_sub(remaining);
    let actual = if moved < request.transfer_size {
        moved
    } else {
        request.transfer_size
    };
    if (hcint & HCINT_XFER_COMPLETE) != 0 || request.transfer_size == 0 || actual > 0 {
        return TransactionStep::Done(actual);
    }
    TransactionStep::Retry
}

/// What the driver does after a host-channel interrupt of the interrupt transfer.
#[derive(Clone, Copy, Debug, PartialEq, Eq, Structural)]
pub enum ChannelIrqAction {
    /// The transfer is being recovered by the watchdog: leave the channel alone.
    Leave,
    /// Wait for the next polling interval with the channel interrupt masked.
    IdleAndMask,
    /// Re-arm the channel at once (split-transaction progress).
    Restart,
    /// Hand this many received bytes to the handler (none when 0), then wait for the next
    /// interval with the channel interrupt masked.
    Deliver(usize),
    /// Tear the transfer down with this error.
    Stop(UsbError),
}

/// Whether a channel error is transient transaction noise (CRC/timeout, frame overrun, toggle
/// mismatch) rather than a stall, bus error or babble, on a connected port.
pub open spec fn spec_transient_error(hcint: u32, root_port_connected: bool) -> bool {
    &&& hcint & (HCINT_XACT_ERROR | HCINT_FRAME_OVERRUN | HCINT_DATA_TOGGLE_ERROR) != 0
    &&& hcint & (HCINT_STALL | HCINT_AHB_ERROR | HCINT_BABBLE_ERROR) == 0
    &&& root_port_connected
}

/// The state of the asynchronous interrupt IN transfer (the keyboard's report polling).
pub struct AsyncInterruptState {
    pub transfer: InterruptInTransfer,
    pub packet_id: PacketId,
    pub split_phase: SplitPhase,
    pub poll_phase: InterruptPollPhase,
    pub last_request_len: usize,
    pub interval_ticks: u64,
    pub next_due: u64,
    pub split_complete_retries: usize,
    pub inflight_since: u64,
    pub error_retries: usize,
}

/// The first phase of a transaction on `route`: a start split, or a plain transaction.
pub open spec fn initial_split_phase(route: UsbRoute) -> SplitPhase {
    if route.spec_uses_split_transactions() {
        SplitPhase::Start
    } else {
        SplitPhase::Unsplit
    }
}

/// `now` is at or after `due` on a wrapping 64-bit counter.
pub open spec fn spec_is_due(now: u64, due: u64) -> bool {
    ((now as int - due as int) % 0x1_0000_0000_0000_0000int) < 0x8000_0000_0000_0000int
}

impl AsyncInterruptState {
    /// A transfer that is idle and due at once, starting with DATA0.
    pub fn new(transfer: InterruptInTransfer, interval_ticks: u64, now: u64) -> (s: Self)
        ensures
            s.packet_id == PacketId::Data0,
            s.split_phase == initial_split_phase(transfer.route),
            s.poll_phase == InterruptPollPhase::Idle,
            s.last_request_len == 0,
            s.interval_ticks == interval_ticks,
            s.next_due == now,
            s.split_complete_retries == 0,
            s.inflight_since == now,
            s.error_retries == 0,
            s.transfer == transfer,
    {
        let split_phase = if transfer.route.uses_split_transactions() {
            SplitPhase::Start
        } else {
            SplitPhase::Unsplit
        };

        Self {
            transfer,
            packet_id: PacketId::Data0,
            split_phase,
            poll_phase: InterruptPollPhase::Idle,
            last_request_len: 0,
            interval_ticks,
            next_due: now,
            split_complete_retries: 0,
            inflight_since: now,
            error_retries: 0,
        }
    }

    pub fn reset_split_phase(&mut self)
        ensures
            *final(self) == (Self {
                split_phase: initial_split_phase(old(self).transfer.route),
                split_complete_retries: 0,
                ..*old(self)
            }),
    {
        self.split_phase = if self.transfer.route.uses_split_transactions() {
            SplitPhase::Start
        } else {
            SplitPhase::Unsplit
        };
        self.split_complete_retries = 0;
    }

    /// Goes idle until one polling interval after `now`.
    pub fn mark_idle_until_next_interval(&mut self, now: u64)
        ensures
            *final(self) == (Self {
                poll_phase: InterruptPollPhase::Idle,
                next_due: now.wrapping_add(old(self).interval_ticks),
                split_phase: initial_split_phase(old(self).transfer.route),
                split_complete_retries: 0,
                ..*old(self)
            }),
    {
        self.poll_phase = InterruptPollPhase::Idle;
        self.next_due = now.wrapping_add(self.interval_ticks);
        self.reset_split_phase();
    }

    /// The next poll is due at `now` (the counter wraps around).
    pub fn is_due(&self, now: u64) -> (b: bool)
        ensures
            b == spec_is_due(now, self.next_due),
    {
        now.wrapping_sub(self.next_due) < 0x8000_0000_0000_0000u64
    }

    /// The transaction that polls the endpoint once: a report of at most one packet, into the
    /// transfer's buffer, with the current PID and split phase.
    pub fn prepare_poll(&mut self, odd_frame: bool) -> (request: ChannelRequest)
        ensures
            final(self).last_request_len == (if old(self).transfer.expected_len
                < old(self).transfer.endpoint.max_packet_size {
                old(self).transfer.expected_len
            } else {
                old(self).transfer.endpoint.max_packet_size as usize
            }),
            *final(self) == (Self { last_request_len: final(self).last_request_len, ..*old(self) }),
            request == (ChannelRequest {
                route: old(self).transfer.route,
                endpoint_number: old(self).transfer.endpoint.address.0 & 0x0F,
                endpoint_type: UsbEndpointType::Interrupt,
                direction: UsbDirection::In,
                max_packet_size: old(self).transfer.endpoint.max_packet_size,
                packet_id: old(self).packet_id,
                transfer_size: final(self).last_request_len,
                odd_frame,
                split_phase: old(self).split_phase,
            }),
    {
        let mps = self.transfer.endpoint.max_packet_size as usize;
        let request_len = if self.transfer.expected_len < mps {
            self.transfer.expected_len
        } else {
            mps
        };
        self.last_request_len = request_len;

        ChannelRequest {
            route: self.transfer.route,
            endpoint_number: self.transfer.endpoint.address.number(),
            endpoint_type: UsbEndpointType::Interrupt,
            direction: UsbDirection::In,
            max_packet_size: self.transfer.endpoint.max_packet_size,
            packet_id: self.packet_id,
            transfer_size: request_len,
            odd_frame,
            split_phase: self.split_phase,
        }
    }

    /// The channel was armed at `now`.
    pub fn mark_in_flight(&mut self, now: u64)
        ensures
            *final(self) == (Self {
                poll_phase: InterruptPollPhase::InFlight,
                inflight_since: now,
                ..*old(self)
            }),
    {
        self.poll_phase = InterruptPollPhase::InFlight;
        self.inflight_since = now;
    }

    /// The watchdog halted the wedged channel: the transfer is idle and due at `now`.
    pub fn finish_recovery(&mut self, now: u64)
        ensures
            *final(self) == (Self {
                poll_phase: InterruptPollPhase::Idle,
                next_due: now,
                ..*old(self)
            }),
    {
        self.poll_phase = InterruptPollPhase::Idle;
        self.next_due = now;
    }

    /// Decides what a poll of the transfer at `now` does: nothing while it is recovering, in
    /// flight within `timeout` ticks (0: no watchdog) or not yet due; recovery of a transaction
    /// in flight for longer (the split phase is reset and the phase becomes `Recovering`); a new
    /// transaction when idle and due.
    pub fn poll(&mut self, now: u64, timeout: u64) -> (action: PollAction)
        ensures
            old(self).poll_phase == InterruptPollPhase::Recovering ==> action == PollAction::Nothing
                && *final(self) == *old(self),
            old(self).poll_phase == InterruptPollPhase::InFlight ==> {
                if timeout == 0 || now.wrapping_sub(old(self).inflight_since) < timeout {
                    action == PollAction::Nothing && *final(self) == *old(self)
                } else {
                    action == PollAction::Recover && *final(self) == (Self {
                        poll_phase: InterruptPollPhase::Recovering,
                        split_phase: initial_split_phase(old(self).transfer.route),
                        split_complete_retries: 0,
                        ..*old(self)
                    })
                }
            },
            old(self).poll_phase == InterruptPollPhase::Idle ==> *final(self) == *old(self) && (
            action == if spec_is_due(now, old(self).next_due) {
                PollAction::Start
            } else {
                PollAction::Nothing
            }),
    {
        match self.poll_phase {
            InterruptPollPhase::Recovering => PollAction::Nothing,
            InterruptPollPhase::InFlight => {
                if timeout == 0 || now.wrapping_sub(self.inflight_since) < timeout {
                    return PollAction::Nothing;
                }
                self.reset_split_phase();
                self.poll_phase = InterruptPollPhase::Recovering;
                PollAction::Recover
            },
            InterruptPollPhase::Idle => {
                if !self.is_due(now) {
                    return PollAction::Nothing;
                }
                PollAction::Start
            },
        }
    }

    /// Decides what a host-channel interrupt with status `hcint` does to the transfer, given
    /// whether the root port is connected, the remaining transfer size from `hctsiz`, and the
    /// counter value `now`.
    pub fn on_channel_interrupt(
        &mut self,
        hcint: u32,
        root_port_connected: bool,
        hctsiz: u32,
        now: u64,
    ) -> (action: ChannelIrqAction)
        ensures
            old(self).poll_phase == InterruptPollPhase::Recovering ==> action == ChannelIrqAction::Leave
                && *final(self) == *old(self),
            old(self).poll_phase != InterruptPollPhase::Recovering && hcint & HCINT_ERROR_MASK != 0
                ==> {
                if spec_transient_error(hcint, root_port_connected) && old(self).error_retries
                    < MAX_INTERRUPT_ERROR_RETRIES {
                    &&& action == ChannelIrqAction::IdleAndMask
                    &&& *final(self) == (Self {
                        error_retries: (old(self).error_retries + 1) as usize,
                        poll_phase: InterruptPollPhase::Idle,
                        next_due: now.wrapping_add(old(self).interval_ticks),
                        split_phase: initial_split_phase(old(self).transfer.route),
                        split_complete_retries: 0,
                        ..*old(self)
                    })
                } else {
                    &&& action == ChannelIrqAction::Stop(spec_channel_error(hcint, root_port_connected))
                    &&& *final(self) == *old(self)
                }
            },
            old(self).poll_phase != InterruptPollPhase::Recovering && hcint & HCINT_ERROR_MASK == 0
                && hcint & (HCINT_NAK | HCINT_NYET) != 0 ==> {
                if old(self).transfer.route.spec_uses_split_transactions() && old(self).split_phase
                    == SplitPhase::Complete && hcint & HCINT_NYET != 0
                    && old(self).split_complete_retries < MAX_SPLIT_COMPLETE_RETRIES {
                    &&& action == ChannelIrqAction::Restart
                    &&& *final(self) == (Self {
                        error_retries: 0,
                        split_complete_retries: (old(self).split_complete_retries + 1) as usize,
                        ..*old(self)
                    })
                } else {
                    &&& action == ChannelIrqAction::IdleAndMask
                    &&& *final(self) == (Self {
                        error_retries: 0,
                        poll_phase: InterruptPollPhase::Idle,
                        next_due: now.wrapping_add(old(self).interval_ticks),
                        split_phase: initial_split_phase(old(self).transfer.route),
                        split_complete_retries: 0,
                        ..*old(self)
                    })
                }
            },
            old(self).poll_phase != InterruptPollPhase::Recovering && hcint & HCINT_ERROR_MASK == 0
                && hcint & (HCINT_NAK | HCINT_NYET) == 0
                && old(self).transfer.route.spec_uses_split_transactions() && old(self).split_phase
                == SplitPhase::Start ==> action == ChannelIrqAction::Restart && *final(self) == (Self {
                error_retries: 0,
                split_phase: SplitPhase::Complete,
                split_complete_retries: 0,
                ..*old(self)
            }),
            old(self).poll_phase != InterruptPollPhase::Recovering && hcint & HCINT_ERROR_MASK == 0
                && hcint & (HCINT_NAK | HCINT_NYET) == 0 && !(
            old(self).transfer.route.spec_uses_split_transactions() && old(self).split_phase
                == SplitPhase::Start) ==> {
                let remaining = (hctsiz & HCTSIZ_TRANSFER_SIZE_MASK) as int;
                let moved = if old(self).last_request_len > remaining {
                    old(self).last_request_len - remaining
                } else {
                    0
                };
                let actual = if moved < old(self).transfer.expected_len {
                    moved
                } else {
                    old(self).transfer.expected_len as int
                };
                &&& action == ChannelIrqAction::Deliver(actual as usize)
                &&& *final(self) == (Self {
                    error_retries: 0,
                    packet_id: old(self).packet_id.spec_toggled(),
                    poll_phase: InterruptPollPhase::Idle,
                    next_due: now.wrapping_add(old(self).interval_ticks),
                    split_phase: initial_split_phase(old(self).transfer.route),
                    split_complete_retries: 0,
                    ..*old(self)
                })
            },
    {
        if self.poll_phase == InterruptPollPhase::Recovering {
            return ChannelIrqAction::Leave;
        }

        if (hcint & HCINT_ERROR_MASK) != 0 {
            let error = translate_channel_error(hcint, root_port_connected);
            let transient = (hcint & (HCINT_XACT_ERROR | HCINT_FRAME_OVERRUN
                | HCINT_DATA_TOGGLE_ERROR)) != 0 && (hcint & (HCINT_STALL | HCINT_AHB_ERROR
                | HCINT_BABBLE_ERROR)) == 0 && root_port_connected;

            if transient && self.error_retries < MAX_INTERRUPT_ERROR_RETRIES {
                self.error_retries = self.error_retries + 1;
                self.mark_idle_until_next_interval(now);
                return ChannelIrqAction::IdleAndMask;
            }
            return ChannelIrqAction::Stop(error);
        }

        self.error_retries = 0;

        if (hcint & (HCINT_NAK | HCINT_NYET)) != 0 {
            if self.transfer.route.uses_split_transactions() && self.split_phase
                == SplitPhase::Complete && (hcint & HCINT_NYET) != 0
                && self.split_complete_retries < MAX_SPLIT_COMPLETE_RETRIES {
                self.split_complete_retries = self.split_complete_retries + 1;
                return ChannelIrqAction::Restart;
            }
            self.mark_idle_until_next_interval(now);
            return ChannelIrqAction::IdleAndMask;
        }

        if self.transfer.route.uses_split_transactions() && self.split_phase == SplitPhase::Start {
            self.split_phase = SplitPhase::Complete;
            self.split_complete_retries = 0;
            return ChannelIrqAction::Restart;
        }

        let remaining = (hctsiz & HCTSIZ_TRANSFER_SIZE_MASK) as usize;
        let moved = self.last_request_len.saturating_sub(remaining);
        let actual_len = if moved < self.transfer.expected_len {
            moved
        } else {
            self.transfer.expected_len
        };

        self.packet_id = self.packet_id.toggled();
        self.mark_idle_until_next_interval(now);
        ChannelIrqAction::Deliver(actual_len)
    }
}

/// What a poll of the interrupt transfer does.
#[derive(Clone, Copy, Debug, PartialEq, Eq, Structural)]
pub enum PollAction {
    Nothing,
    /// The channel is wedged: mask its interrupt, halt it, then finish the recovery.
    Recover,
    /// Arm the channel for the next transaction.
    Start,
}

/// The ASCII letter of a keyboard usage (0x04 = 'a'; the layout is German, so 0x1c is 'z' and
/// 0x1d is 'y'), upper case if asked.
pub open spec fn spec_translate_letter(usage: u8, uppercase: bool) -> Option<u8> {
    let letter: int = if 0x04 <= usage <= 0x1b {
        0x61 + (usage - 0x04)
    } else if usage == 0x1c {
        0x7a
    } else if usage == 0x1d {
        0x79
    } else {
        -1
    };
    if letter < 0 {
        None
    } else if uppercase {
        Some((letter - 32) as u8)
    } else {
        Some(letter as u8)
    }
}

pub fn translate_letter(usage: u8, uppercase: bool) -> (r: Option<u8>)
    ensures
        r == spec_translate_letter(usage, uppercase),
{
    let mut letter = if 0x04 <= usage && usage <= 0x1b {
        0x61 + (usage - 0x04)
    } else if usage == 0x1c {
        0x7a
    } else if usage == 0x1d {
        0x79
    } else {
        return None;
    };

    if uppercase {
        letter = letter - 32;
    }

    Some(letter)
}

/// A shifted and an unshifted character.
pub open spec fn shifted(shift: bool, with_shift: u8, without_shift: u8) -> Option<u8> {
    if shift {
        Some(with_shift)
    } else {
        Some(without_shift)
    }
}

/// The byte that a key press yields on the German layout, given the modifier byte of the
/// report and the caps-lock state: AltGr selects the third level; letters follow shift and
/// caps lock; other keys follow shift.
pub open spec fn spec_translate_usage(usage: u8, modifiers: u8, caps_lock: bool) -> Option<u8> {
    let shift = modifiers & (HID_MODIFIER_LEFT_SHIFT | HID_MODIFIER_RIGHT_SHIFT) != 0;
    let alt_gr = modifiers & HID_MODIFIER_RIGHT_ALT != 0;
    if alt_gr {
        if usage == 0x14 { Some(0x40) }
        else if usage == 0x24 { Some(0x7b) }
        else if usage == 0x25 { Some(0x5b) }
        else if usage == 0x26 { Some(0x5d) }
        else if usage == 0x27 { Some(0x7d) }
        else if usage == 0x2d { Some(0x5c) }
        else if usage == 0x30 { Some(0x7e) }
        else if usage == 0x64 { Some(0x7c) }
        else { None }
    } else if 0x04 <= usage <= 0x1d {
        spec_translate_letter(usage, shift != caps_lock)
    } else if usage == 0x1e { shifted(shift, 0x21, 0x31) }
    else if usage == 0x1f { shifted(shift, 0x22, 0x32) }
    else if usage == 0x20 { if shift { None } else { Some(0x33) } }
    else if usage == 0x21 { shifted(shift, 0x24, 0x34) }
    else if usage == 0x22 { shifted(shift, 0x25, 0x35) }
    else if usage == 0x23 { shifted(shift, 0x26, 0x36) }
    else if usage == 0x24 { shifted(shift, 0x2f, 0x37) }
    else if usage == 0x25 { shifted(shift, 0x28, 0x38) }
    else if usage == 0x26 { shifted(shift, 0x29, 0x39) }
    else if usage == 0x27 { shifted(shift, 0x3d, 0x30) }
    else if usage == 0x28 { Some(0x0a) }
    else if usage == 0x29 { Some(0x1b) }
    else if usage == 0x2a { Some(0x08) }
    else if usage == 0x2b { Some(0x09) }
    else if usage == 0x2c { Some(0x20) }
    else if usage == 0x2d { if shift { Some(0x3f) } else { None } }
    else if usage == 0x30 { shifted(shift, 0x2a, 0x2b) }
    else if usage == 0x31 || usage == 0x32 { shifted(shift, 0x27, 0x23) }
    else if usage == 0x35 { if shift { None } else { Some(0x5e) } }
    else if usage == 0x36 { shifted(shift, 0x3b, 0x2c) }
    else if usage == 0x37 { shifted(shift, 0x3a, 0x2e) }
    else if usage == 0x38 { shifted(shift, 0x5f, 0x2d) }
    else if usage == 0x64 { shifted(shift, 0x3e, 0x3c) }
    else { None }
}

/// Neither shift key nor AltGr is held in the modifier byte `m` (bits 1 and 5 are the shift
/// keys, bit 6 is AltGr).
pub open spec fn unmodified(m: u8) -> bool {
    m & 0x22 == 0 && m & 0x40 == 0
}

/// A shift key is held in the modifier byte `m`, and AltGr is not.
pub open spec fn shift_only(m: u8) -> bool {
    m & 0x22 != 0 && m & 0x40 == 0
}

proof fn lemma_modifier_masks(m: u8)
    ensures
        (m & (HID_MODIFIER_LEFT_SHIFT | HID_MODIFIER_RIGHT_SHIFT) != 0) == (m & 0x22 != 0),
        (m & HID_MODIFIER_RIGHT_ALT != 0) == (m & 0x40 != 0),
{
    assert((m & (0x02u8 | 0x20u8) != 0) == (m & 0x22u8 != 0)) by (bit_vector);
}

/// The digit row: without shift or AltGr, keys 0x1e to 0x26 give the digits 1 to 9, and key
/// 0x27 gives 0, whatever the caps-lock state.
pub proof fn lemma_digit_row(usage: u8, m: u8, caps_lock: bool)
    requires
        unmodified(m),
        0x1e <= usage <= 0x27,
    ensures
        spec_translate_usage(usage, m, caps_lock) == Some(if usage == 0x27 { 0x30u8 } else { (0x31 + (usage - 0x1e)) as u8 }),
{
    lemma_modifier_masks(m);
}

/// The digit row with shift on the German layout: `!`, `"`, nothing (`§` is not ASCII), `$`,
/// `%`, `&`, `/`, `(`, `)` and `=` for the keys 1 to 9 and 0.
pub proof fn lemma_shifted_digit_row(usage: u8, m: u8, caps_lock: bool)
    requires
        shift_only(m),
        0x1e <= usage <= 0x27,
    ensures
        spec_translate_usage(usage, m, caps_lock) == seq![
            Some(0x21u8), Some(0x22u8), None, Some(0x24u8), Some(0x25u8), Some(0x26u8), Some(0x2fu8),
            Some(0x28u8), Some(0x29u8), Some(0x3du8),
        ][usage - 0x1e],
{
    lemma_modifier_masks(m);
}

/// The letter keys: without AltGr, key 0x04 + k gives the k-th letter of the alphabet for the
/// keys 0x04 to 0x1b, and the German layout gives `z` for 0x1c and `y` for 0x1d; the letter is
/// upper case exactly when shift or caps lock (but not both) is on.
pub proof fn lemma_letter_keys(usage: u8, m: u8, caps_lock: bool)
    requires
        m & 0x40 == 0,
        0x04 <= usage <= 0x1d,
    ensures
        ({
            let upper = (m & 0x22 != 0) != caps_lock;
            let base: int = if usage == 0x1c { 25 } else if usage == 0x1d { 24 } else { usage - 0x04 };
            spec_translate_usage(usage, m, caps_lock) == Some((if upper { 0x41 + base } else { 0x61 + base }) as u8)
        }),
{
    lemma_modifier_masks(m);
}

/// Caps lock changes only letters: for every other key, and with AltGr, the result is the same
/// with caps lock on or off.
pub proof fn lemma_caps_lock_only_letters(usage: u8, m: u8)
    requires
        !(0x04 <= usage <= 0x1d) || m & 0x40 != 0,
    ensures
        spec_translate_usage(usage, m, true) == spec_translate_usage(usage, m, false),
{
}

/// The control keys, with or without shift: Enter gives a line feed, Escape 0x1b, Backspace
/// 0x08, Tab 0x09 and the space bar a space.
pub proof fn lemma_control_keys(m: u8, caps_lock: bool)
    requires
        m & 0x40 == 0,
    ensures
        spec_translate_usage(0x28, m, caps_lock) == Some(0x0au8),
        spec_translate_usage(0x29, m, caps_lock) == Some(0x1bu8),
        spec_translate_usage(0x2a, m, caps_lock) == Some(0x08u8),
        spec_translate_usage(0x2b, m, caps_lock) == Some(0x09u8),
        spec_translate_usage(0x2c, m, caps_lock) == Some(0x20u8),
{
    lemma_modifier_masks(m);
}

/// The punctuation keys of the German layout, without and with shift: `+`/`*` (0x30), `#`/`'`
/// (0x31 and 0x32), `,`/`;` (0x36), `.`/`:` (0x37), `-`/`_` (0x38), `<`/`>` (0x64), `^` without
/// shift (0x35) and `?` with shift (0x2d).
pub proof fn lemma_punctuation_keys(m: u8, caps_lock: bool)
    requires
        m & 0x40 == 0,
    ensures
        spec_translate_usage(0x30, m, caps_lock) == Some(if m & 0x22 != 0 { 0x2au8 } else { 0x2bu8 }),
        spec_translate_usage(0x31, m, caps_lock) == Some(if m & 0x22 != 0 { 0x27u8 } else { 0x23u8 }),
        spec_translate_usage(0x32, m, caps_lock) == Some(if m & 0x22 != 0 { 0x27u8 } else { 0x23u8 }),
        spec_translate_usage(0x36, m, caps_lock) == Some(if m & 0x22 != 0 { 0x3bu8 } else { 0x2cu8 }),
        spec_translate_usage(0x37, m, caps_lock) == Some(if m & 0x22 != 0 { 0x3au8 } else { 0x2eu8 }),
        spec_translate_usage(0x38, m, caps_lock) == Some(if m & 0x22 != 0 { 0x5fu8 } else { 0x2du8 }),
        spec_translate_usage(0x64, m, caps_lock) == Some(if m & 0x22 != 0 { 0x3eu8 } else { 0x3cu8 }),
        spec_translate_usage(0x35, m, caps_lock) == if m & 0x22 != 0 { None } else { Some(0x5eu8) },
        spec_translate_usage(0x2d, m, caps_lock) == if m & 0x22 != 0 { Some(0x3fu8) } else { None },
{
    lemma_modifier_masks(m);
}

/// With AltGr the German layout gives `@` (0x14), `{` `[` `]` `}` (0x24 to 0x27), `\` (0x2d),
/// `~` (0x30) and `|` (0x64), and nothing for any other key.
pub proof fn lemma_alt_gr_keys(usage: u8, m: u8, caps_lock: bool)
    requires
        m & 0x40 != 0,
    ensures
        spec_translate_usage(usage, m, caps_lock) == if usage == 0x14 {
            Some(0x40u8)
        } else if usage == 0x24 {
            Some(0x7bu8)
        } else if usage == 0x25 {
            Some(0x5bu8)
        } else if usage == 0x26 {
            Some(0x5du8)
        } else if usage == 0x27 {
            Some(0x7du8)
        } else if usage == 0x2d {
            Some(0x5cu8)
        } else if usage == 0x30 {
            Some(0x7eu8)
        } else if usage == 0x64 {
            Some(0x7cu8)
        } else {
            None
        },
{
    lemma_modifier_masks(m);
}

/// Every key gives an ASCII byte, if any.
pub proof fn lemma_translation_is_ascii(usage: u8, m: u8, caps_lock: bool)
    ensures
        spec_translate_usage(usage, m, caps_lock) matches Some(b) ==> b < 0x80,
{
}

fn pick(shift: bool, with_shift: u8, without_shift: u8) -> (r: Option<u8>)
    ensures
        r == shifted(shift, with_shift, without_shift),
{
    if shift {
        Some(with_shift)
    } else {
        Some(without_shift)
    }
}

pub fn translate_usage(usage: u8, modifiers: u8, caps_lock: bool) -> (r: Option<u8>)
    ensures
        r == spec_translate_usage(usage, modifiers, caps_lock),
{
    let shift = (modifiers & (HID_MODIFIER_LEFT_SHIFT | HID_MODIFIER_RIGHT_SHIFT)) != 0;
    let alt_gr = (modifiers & HID_MODIFIER_RIGHT_ALT) != 0;

    if alt_gr {
        return match usage {
            0x14 => Some(0x40),
            0x24 => Some(0x7b),
            0x25 => Some(0x5b),
            0x26 => Some(0x5d),
            0x27 => Some(0x7d),
            0x2d => Some(0x5c),
            0x30 => Some(0x7e),
            0x64 => Some(0x7c),
            _ => None,
        };
    }

    if 0x04 <= usage && usage <= 0x1d {
        return translate_letter(usage, shift != caps_lock);
    }
    match usage {
        0x1e => pick(shift, 0x21, 0x31),
        0x1f => pick(shift, 0x22, 0x32),
        0x20 => if shift {
            None
        } else {
            Some(0x33)
        },
        0x21 => pick(shift, 0x24, 0x34),
        0x22 => pick(shift, 0x25, 0x35),
        0x23 => pick(shift, 0x26, 0x36),
        0x24 => pick(shift, 0x2f, 0x37),
        0x25 => pick(shift, 0x28, 0x38),
        0x26 => pick(shift, 0x29, 0x39),
        0x27 => pick(shift, 0x3d, 0x30),
        0x28 => Some(0x0a),
        0x29 => Some(0x1b),
        0x2a => Some(0x08),
        0x2b => Some(0x09),
        0x2c => Some(0x20),
        0x2d => if shift {
            Some(0x3f)
        } else {
            None
        },
        0x30 => pick(shift, 0x2a, 0x2b),
        0x31 | 0x32 => pick(shift, 0x27, 0x23),
        0x35 => if shift {
            None
        } else {
            Some(0x5e)
        },
        0x36 => pick(shift, 0x3b, 0x2c),
        0x37 => pick(shift, 0x3a, 0x2e),
        0x38 => pick(shift, 0x5f, 0x2d),
        0x64 => pick(shift, 0x3e, 0x3c),
        _ => None,
    }
}

/// A key that auto-repeats while held: its usage and the byte it yields.
#[derive(Clone, Copy, Debug, PartialEq, Eq, Structural)]
pub struct RepeatKey {
    pub usage: u8,
    pub byte: u8,
}

/// `queue` after pushing `x` into a ring buffer of capacity `cap`.
pub open spec fn ring_push(queue: Seq<u8>, x: u8, cap: nat) -> Seq<u8> {
    if queue.len() < cap {
        queue.push(x)
    } else {
        queue.drop_first().push(x)
    }
}

/// `queue` after pushing `items` one by one into a ring buffer of capacity `cap`.
pub open spec fn ring_push_all(queue: Seq<u8>, items: Seq<u8>, cap: nat) -> Seq<u8>
    decreases items.len(),
{
    if items.len() == 0 {
        queue
    } else {
        ring_push(ring_push_all(queue, items.drop_last(), cap), items.last(), cap)
    }
}

/// The key slots (bytes 2 to 7) of a boot keyboard report.
pub open spec fn key_slots(report: Seq<u8>) -> Seq<u8> {
    report.subrange(2, 8)
}

/// Walks the key slots of `report` from slot `k` on, given the previous report: each newly
/// pressed key toggles caps lock (the caps-lock key) or yields a byte, which is queued and
/// becomes the repeating key. Returns the caps-lock state, the bytes queued and the repeating
/// key after the walk.
pub open spec fn scan_report(
    previous: Seq<u8>,
    report: Seq<u8>,
    k: int,
    caps_lock: bool,
    pushed: Seq<u8>,
    repeat: Option<RepeatKey>,
) -> (bool, Seq<u8>, Option<RepeatKey>)
    decreases 8 - k,
{
    if k < 2 || k >= 8 {
        (caps_lock, pushed, repeat)
    } else {
        let usage = report[k];
        if usage == 0 || key_slots(previous).contains(usage) {
            scan_report(previous, report, k + 1, caps_lock, pushed, repeat)
        } else if usage == HID_USAGE_CAPS_LOCK {
            scan_report(previous, report, k + 1, !caps_lock, pushed, repeat)
        } else {
            match spec_translate_usage(usage, report[0], caps_lock) {
                Some(byte) => scan_report(
                    previous,
                    report,
                    k + 1,
                    caps_lock,
                    pushed.push(byte),
                    Some(RepeatKey { usage, byte }),
                ),
                None => scan_report(previous, report, k + 1, caps_lock, pushed, repeat),
            }
        }
    }
}

/// The repeating key after a report: released keys stop repeating; a key still held repeats
/// the byte its current modifiers give (if any).
pub open spec fn repeat_after_report(
    repeat: Option<RepeatKey>,
    report: Seq<u8>,
    caps_lock: bool,
) -> Option<RepeatKey> {
    match repeat {
        None => None,
        Some(r) => if !key_slots(report).contains(r.usage) {
            None
        } else {
            match spec_translate_usage(r.usage, report[0], caps_lock) {
                Some(byte) => Some(RepeatKey { usage: r.usage, byte }),
                None => Some(r),
            }
        },
    }
}

proof fn lemma_scan_without_new_keys(
    previous: Seq<u8>,
    report: Seq<u8>,
    k: int,
    caps_lock: bool,
    pushed: Seq<u8>,
    repeat: Option<RepeatKey>,
)
    requires
        previous.len() == 8,
        report.len() == 8,
        2 <= k <= 8,
        forall|i: int| k <= i < 8 ==> report[i] == 0 || key_slots(previous).contains(#[trigger] report[i]),
    ensures
        scan_report(previous, report, k, caps_lock, pushed, repeat) == (caps_lock, pushed, repeat),
    decreases 8 - k,
{
    if k < 8 {
        lemma_scan_without_new_keys(previous, report, k + 1, caps_lock, pushed, repeat);
    }
}

/// A report in which no key is newly pressed (every key slot is empty or holds a key of the
/// previous report) queues nothing and changes neither caps lock nor the repeating key.
pub proof fn lemma_no_new_key(previous: Seq<u8>, report: Seq<u8>, caps_lock: bool, repeat: Option<RepeatKey>)
    requires
        previous.len() == 8,
        report.len() == 8,
        forall|i: int| 2 <= i < 8 ==> report[i] == 0 || previous.subrange(2, 8).contains(#[trigger] report[i]),
    ensures
        scan_report(previous, report, 2, caps_lock, Seq::empty(), repeat) == (caps_lock, Seq::<u8>::empty(), repeat),
{
    lemma_scan_without_new_keys(previous, report, 2, caps_lock, Seq::empty(), repeat);
}

/// One key newly pressed alone (in the first key slot, the others empty): caps lock (0x39)
/// toggles caps lock and queues nothing; a key with a translation queues that byte and becomes
/// the repeating key; another key changes nothing.
pub proof fn lemma_single_new_key(previous: Seq<u8>, report: Seq<u8>, caps_lock: bool, repeat: Option<RepeatKey>)
    requires
        previous.len() == 8,
        report.len() == 8,
        report[2] != 0,
        !previous.subrange(2, 8).contains(report[2]),
        forall|i: int| 3 <= i < 8 ==> report[i] == 0,
    ensures
        ({
            let usage = report[2];
            let scan = scan_report(previous, report, 2, caps_lock, Seq::empty(), repeat);
            if usage == 0x39 {
                scan == (!caps_lock, Seq::<u8>::empty(), repeat)
            } else {
                match spec_translate_usage(usage, report[0], caps_lock) {
                    Some(b) => scan == (caps_lock, seq![b], Some(RepeatKey { usage, byte: b })),
                    None => scan == (caps_lock, Seq::<u8>::empty(), repeat),
                }
            }
        }),
{
    let usage = report[2];
    assert(key_slots(previous) == previous.subrange(2, 8));
    if usage == 0x39 {
        lemma_scan_without_new_keys(previous, report, 3, !caps_lock, Seq::empty(), repeat);
    } else {
        match spec_translate_usage(usage, report[0], caps_lock) {
            Some(b) => {
                lemma_scan_without_new_keys(previous, report, 3, caps_lock, Seq::empty().push(b), Some(RepeatKey { usage, byte: b }));
                assert(Seq::<u8>::empty().push(b) =~= seq![b]);
            },
            None => {
                lemma_scan_without_new_keys(previous, report, 3, caps_lock, Seq::empty(), repeat);
            },
        }
    }
}

/// A report with an error-rollover code (1 to 3) in a key slot.
pub open spec fn spec_has_error_rollover(report: Seq<u8>) -> bool {
    exists|i: int| 2 <= i < 8 && 1 <= #[trigger] report[i] <= 3
}

/// Whether `usage` is in a key slot of `report`.
fn slots_contain(report: &[u8; 8], usage: u8) -> (b: bool)
    ensures
        b == key_slots(report@).contains(usage),
{
    let mut i: usize = 2;
    while i < 8
        invariant
            2 <= i <= 8,
            forall|j: int| 2 <= j < i ==> report@[j] != usage,
        decreases 8 - i,
    {
        if report[i] == usage {
            assert(key_slots(report@)[i - 2] == usage);
            return true;
        }
        i += 1;
    }
    assert forall|j: int| 0 <= j < 6 implies key_slots(report@)[j] != usage by {
        assert(key_slots(report@)[j] == report@[j + 2]);
    }
    false
}

/// The boot keyboard: the previous report, caps lock, the queue of bytes typed, and the
/// auto-repeat state (times in nanoseconds of uptime).
pub struct KeyboardState {
    pub previous_report: [u8; 8],
    pub caps_lock: bool,
    pub queue: RingArray<u8, 256>,
    pub repeat: Option<RepeatKey>,
    pub repeat_tracked: Option<u8>,
    pub repeat_anchor: u64,
    pub repeat_last_emit: u64,
}

impl KeyboardState {
    /// No key held, caps lock off, nothing queued.
    pub fn new() -> (k: Self)
        ensures
            k.previous_report@ == Seq::new(8, |_i: int| 0u8),
            !k.caps_lock,
            k.queue@ == Seq::<u8>::empty(),
            k.repeat is None,
            k.repeat_tracked is None,
            k.repeat_anchor == 0,
            k.repeat_last_emit == 0,
    {
        let k = Self {
            previous_report: [0u8; 8],
            caps_lock: false,
            queue: RingArray::new(0),
            repeat: None,
            repeat_tracked: None,
            repeat_anchor: 0,
            repeat_last_emit: 0,
        };
        assert(k.previous_report@ =~= Seq::new(8, |_i: int| 0u8));
        k
    }

    /// Whether a key slot of the report holds an error-rollover code (too many keys pressed).
    pub fn has_error_rollover(report: &[u8; 8]) -> (b: bool)
        ensures
            b == spec_has_error_rollover(report@),
    {
        let mut i: usize = 2;
        while i < 8
            invariant
                2 <= i <= 8,
                forall|j: int| 2 <= j < i ==> !(1 <= #[trigger] report@[j] <= 3),
            decreases 8 - i,
        {
            if 0x01 <= report[i] && report[i] <= 0x03 {
                return true;
            }
            i += 1;
        }
        false
    }

    /// Handles one boot keyboard report: newly pressed keys are queued as bytes (or toggle caps
    /// lock) in slot order, the last of them becomes the repeating key, a released repeating
    /// key stops repeating, and the report becomes the previous one. A report with an
    /// error-rollover code is ignored.
    pub fn handle_report(&mut self, report: [u8; 8])
        ensures
            spec_has_error_rollover(report@) ==> *final(self) == *old(self),
            !spec_has_error_rollover(report@) ==> {
                let scan = scan_report(
                    old(self).previous_report@,
                    report@,
                    2,
                    old(self).caps_lock,
                    Seq::empty(),
                    old(self).repeat,
                );
                &&& final(self).caps_lock == scan.0
                &&& final(self).queue@ == ring_push_all(old(self).queue@, scan.1, 256)
                &&& final(self).repeat == repeat_after_report(scan.2, report@, scan.0)
                &&& final(self).previous_report == report
                &&& final(self).repeat_tracked == old(self).repeat_tracked
                &&& final(self).repeat_anchor == old(self).repeat_anchor
                &&& final(self).repeat_last_emit == old(self).repeat_last_emit
            },
    {
        if Self::has_error_rollover(&report) {
            return;
        }

        let ghost goal = scan_report(
            self.previous_report@,
            report@,
            2,
            self.caps_lock,
            Seq::empty(),
            self.repeat,
        );
        let ghost queue0 = self.queue@;
        let ghost mut pushed: Seq<u8> = Seq::empty();
        let modifiers = report[0];
        let mut k: usize = 2;
        while k < 8
            invariant
                2 <= k <= 8,
                modifiers == report@[0],
                goal == scan_report(
                    self.previous_report@,
                    report@,
                    k as int,
                    self.caps_lock,
                    pushed,
                    self.repeat,
                ),
                self.queue@ == ring_push_all(queue0, pushed, 256),
                queue0 == old(self).queue@,
                self.previous_report == old(self).previous_report,
                self.repeat_tracked == old(self).repeat_tracked,
                self.repeat_anchor == old(self).repeat_anchor,
                self.repeat_last_emit == old(self).repeat_last_emit,
                goal == scan_report(
                    old(self).previous_report@,
                    report@,
                    2,
                    old(self).caps_lock,
                    Seq::empty(),
                    old(self).repeat,
                ),
            decreases 8 - k,
        {
            let usage = report[k];
            if usage == 0 || slots_contain(&self.previous_report, usage) {
                k += 1;
                continue;
            }

            if usage == HID_USAGE_CAPS_LOCK {
                self.caps_lock = !self.caps_lock;
                k += 1;
                continue;
            }

            match translate_usage(usage, modifiers, self.caps_lock) {
                Some(byte) => {
                    self.queue.push(byte);
                    proof {
                        let next = pushed.push(byte);
                        assert(next.drop_last() =~= pushed);
                        pushed = next;
                    }
                    self.repeat = Some(RepeatKey { usage, byte });
                },
                None => {},
            }
            k += 1;
        }

        match self.repeat {
            Some(repeat) => {
                if !slots_contain(&report, repeat.usage) {
                    self.repeat = None;
                } else {
                    match translate_usage(repeat.usage, modifiers, self.caps_lock) {
                        Some(byte) => {
                            // The held key is still down but its modifiers (e.g. Shift) may have
                            // changed: keep auto-repeat emitting the currently-correct byte.
                            self.repeat = Some(RepeatKey { usage: repeat.usage, byte });
                        },
                        None => {},
                    }
                }
            },
            None => {},
        }

        self.previous_report = report;
    }

    /// Emits auto-repeat bytes for a held key at uptime `now`: a newly held key starts its
    /// delay; a key held longer than the safety limit stops repeating (its release may have
    /// been lost); after the delay, the byte is queued again once per interval.
    pub fn service_repeat(&mut self, now: u64)
        ensures
            old(self).repeat is None ==> *final(self) == (KeyboardState {
                repeat_tracked: None,
                ..*old(self)
            }),
            old(self).repeat is Some && old(self).repeat_tracked != Some(
                old(self).repeat->Some_0.usage,
            ) ==> *final(self) == (KeyboardState {
                repeat_tracked: Some(old(self).repeat->Some_0.usage),
                repeat_anchor: now,
                repeat_last_emit: now,
                ..*old(self)
            }),
            old(self).repeat is Some && old(self).repeat_tracked == Some(
                old(self).repeat->Some_0.usage,
            ) ==> {
                let held = now.saturating_sub(old(self).repeat_anchor);
                let since_emit = now.saturating_sub(old(self).repeat_last_emit);
                if held >= KEYBOARD_REPEAT_MAX_HOLD_NS {
                    &&& final(self).repeat is None
                    &&& final(self).repeat_tracked is None
                    &&& final(self).previous_report@ == Seq::new(8, |_i: int| 0u8)
                    &&& final(self).queue@ == old(self).queue@
                    &&& final(self).caps_lock == old(self).caps_lock
                } else if held >= KEYBOARD_REPEAT_DELAY_NS && since_emit
                    >= KEYBOARD_REPEAT_INTERVAL_NS {
                    &&& final(self).queue@ == ring_push(
                        old(self).queue@,
                        old(self).repeat->Some_0.byte,
                        256,
                    )
                    &&& final(self).repeat_last_emit == now
                    &&& final(self).repeat == old(self).repeat
                    &&& final(self).repeat_tracked == old(self).repeat_tracked
                    &&& final(self).repeat_anchor == old(self).repeat_anchor
                    &&& final(self).previous_report == old(self).previous_report
                    &&& final(self).caps_lock == old(self).caps_lock
                } else {
                    *final(self) == *old(self)
                }
            },
    {
        let repeat = match self.repeat {
            Some(r) => r,
            None => {
                self.repeat_tracked = None;
                return;
            },
        };

        if self.repeat_tracked != Some(repeat.usage) {
            // New key being held; the initial byte was already emitted by `handle_report`.
            self.repeat_tracked = Some(repeat.usage);
            self.repeat_anchor = now;
            self.repeat_last_emit = now;
            return;
        }

        // Safety fuse: a key release is signalled by a single report edge. If that edge is
        // ever lost, no further reports arrive and the key would repeat forever.
        if now.saturating_sub(self.repeat_anchor) >= KEYBOARD_REPEAT_MAX_HOLD_NS {
            self.stop_repeat();
            return;
        }

        if now.saturating_sub(self.repeat_anchor) >= KEYBOARD_REPEAT_DELAY_NS && now.saturating_sub(
            self.repeat_last_emit,
        ) >= KEYBOARD_REPEAT_INTERVAL_NS {
            self.queue.push(repeat.byte);
            self.repeat_last_emit = now;
        }
    }

    /// Stops any auto-repeat and forgets the previous report (the input state became
    /// unreliable, e.g. the transfer was torn down).
    pub fn stop_repeat(&mut self)
        ensures
            final(self).repeat is None,
            final(self).repeat_tracked is None,
            final(self).previous_report@ == Seq::new(8, |_i: int| 0u8),
            final(self).queue@ == old(self).queue@,
            final(self).caps_lock == old(self).caps_lock,
            final(self).repeat_anchor == old(self).repeat_anchor,
            final(self).repeat_last_emit == old(self).repeat_last_emit,
    {
        self.repeat = None;
        self.repeat_tracked = None;
        self.previous_report = [0u8; 8];
        assert(self.previous_report@ =~= Seq::new(8, |_i: int| 0u8));
    }
}

/// What the driver uses of a hub descriptor: the number of downstream ports and the time from
/// power-on to power-good in milliseconds.
#[derive(Clone, Copy, Debug, PartialEq, Eq, Structural)]
pub struct HubDescriptorInfo {
    pub num_ports: u8,
    pub power_on_to_power_good_ms: u64,
}

/// Decodes the first `len` bytes of a hub descriptor read into `bytes`: seven bytes at least,
/// of the hub descriptor type; the power-good time is given in units of 2 ms.
pub fn parse_hub_descriptor(bytes: &[u8; 16], len: usize) -> (r: UsbResult<HubDescriptorInfo>)
    ensures
        len < 7 || bytes@[1] != USB_DESC_HUB ==> r == Err::<HubDescriptorInfo, UsbError>(
            UsbError::InvalidDescriptor,
        ),
        !(len < 7 || bytes@[1] != USB_DESC_HUB) ==> r == Ok::<HubDescriptorInfo, UsbError>(
            HubDescriptorInfo {
                num_ports: bytes@[2],
                power_on_to_power_good_ms: (bytes@[5] * 2) as u64,
            },
        ),
{
    if len < 7 || bytes[1] != USB_DESC_HUB {
        return Err(UsbError::InvalidDescriptor);
    }
    Ok(HubDescriptorInfo { num_ports: bytes[2], power_on_to_power_good_ms: bytes[5] as u64 * 2 })
}

/// The status and change words of a hub port.
#[derive(Clone, Copy, Debug, PartialEq, Eq, Structural)]
pub struct HubPortStatus {
    pub status: u16,
    pub change: u16,
}

/// Decodes the four bytes of GET_STATUS of a hub port: two little-endian 16-bit words.
pub fn hub_port_status_from(bytes: [u8; 4]) -> (s: HubPortStatus)
    ensures
        s == (HubPortStatus {
            status: u16_from_le(bytes@[0], bytes@[1]),
            change: u16_from_le(bytes@[2], bytes@[3]),
        }),
{
    HubPortStatus {
        status: bytes[0] as u16 + bytes[1] as u16 * 256,
        change: bytes[2] as u16 + bytes[3] as u16 * 256,
    }
}

/// The port features that acknowledge the changes in `change`, in order: connection, enable
/// and reset changes.
pub open spec fn changes_to_clear(change: u16) -> Seq<u16> {
    (if change & HUB_PORT_CHANGE_CONNECTION != 0 {
        seq![HUB_FEATURE_C_PORT_CONNECTION]
    } else {
        Seq::empty()
    }) + (if change & HUB_PORT_CHANGE_ENABLE != 0 {
        seq![HUB_FEATURE_C_PORT_ENABLE]
    } else {
        Seq::empty()
    }) + (if change & HUB_PORT_CHANGE_RESET != 0 {
        seq![HUB_FEATURE_C_PORT_RESET]
    } else {
        Seq::empty()
    })
}

/// The changes of a hub port are acknowledged by clearing C_PORT_CONNECTION (16) for a
/// connection change (bit 0), C_PORT_ENABLE (17) for an enable change (bit 1) and
/// C_PORT_RESET (20) for a reset change (bit 4), in that order, and nothing else.
pub proof fn lemma_changes_to_clear(change: u16)
    ensures
        changes_to_clear(change).len() == (if change & 1 != 0 { 1int } else { 0 }) + (if change & 2 != 0 { 1int } else { 0 })
            + (if change & 0x10 != 0 { 1int } else { 0 }),
        forall|i: int| 0 <= i < changes_to_clear(change).len() ==> {
            let f = #[trigger] changes_to_clear(change)[i];
            &&& (f == 16 && change & 1 != 0) || (f == 17 && change & 2 != 0) || (f == 20 && change & 0x10 != 0)
            &&& forall|j: int| i < j < changes_to_clear(change).len() ==> f < #[trigger] changes_to_clear(change)[j]
        },
{
}

/// The port features to clear (with CLEAR_FEATURE, in this order) to acknowledge the changes
/// reported in `change`: connection, enable and reset changes.
pub fn hub_port_changes_to_clear(change: u16) -> (features: Vec<u16>)
    ensures
        features@ == changes_to_clear(change),
{
    let mut features: Vec<u16> = Vec::new();
    if (change & HUB_PORT_CHANGE_CONNECTION) != 0 {
        features.push(HUB_FEATURE_C_PORT_CONNECTION);
    }
    if (change & HUB_PORT_CHANGE_ENABLE) != 0 {
        features.push(HUB_FEATURE_C_PORT_ENABLE);
    }
    if (change & HUB_PORT_CHANGE_RESET) != 0 {
        features.push(HUB_FEATURE_C_PORT_RESET);
    }
    assert(features@ =~= changes_to_clear(change));
    features
}

/// A hub port whose device can be enumerated after reset: connected, enabled and powered.
pub fn hub_port_ready(status: u16) -> (b: bool)
    ensures
        b == (status & HUB_PORT_STATUS_CONNECTION != 0 && status & HUB_PORT_STATUS_ENABLED != 0
            && status & HUB_PORT_STATUS_POWERED != 0),
{
    (status & HUB_PORT_STATUS_CONNECTION) != 0 && (status & HUB_PORT_STATUS_ENABLED) != 0 && (status
        & HUB_PORT_STATUS_POWERED) != 0
}

/// The size of the next data packet of a control transfer: the rest, or one full packet.
pub fn control_packet_len(remaining: usize, max_packet_size: u16) -> (n: usize)
    ensures
        n == (if remaining < max_packet_size { remaining } else { max_packet_size as usize }),
{
    let mps = max_packet_size as usize;
    if remaining < mps {
        remaining
    } else {
        mps
    }
}

/// Where the data stage of a control transfer stands: the bytes moved so far, the bytes still
/// to move, and the data PID of the next packet.
#[derive(Clone, Copy, Debug, PartialEq, Eq, Structural)]
pub struct DataStage {
    pub transferred: usize,
    pub remaining: usize,
    pub packet_id: PacketId,
}

/// The data stage of `len` bytes before its first packet: nothing moved, DATA1 first.
pub fn data_stage_start(len: usize) -> (s: DataStage)
    ensures
        s == (DataStage { transferred: 0, remaining: len, packet_id: PacketId::Data1 }),
{
    DataStage { transferred: 0, remaining: len, packet_id: PacketId::Data1 }
}

/// The data stage after a packet of `packet_len` bytes moved `actual` bytes, and whether another
/// packet follows: the counts move by `actual`; a full packet toggles the PID and is followed by
/// another while bytes remain, a short packet ends the stage.
pub fn data_stage_step(s: DataStage, packet_len: usize, actual: usize) -> (r: (DataStage, bool))
    requires
        actual <= packet_len,
        packet_len <= s.remaining,
        s.transferred + s.remaining <= usize::MAX,
    ensures
        r.0 == (DataStage {
            transferred: (s.transferred + actual) as usize,
            remaining: (s.remaining - actual) as usize,
            packet_id: if actual < packet_len { s.packet_id } else { s.packet_id.spec_toggled() },
        }),
        r.1 == (actual == packet_len && s.remaining - actual > 0),
{
    let transferred = s.transferred + actual;
    let remaining = s.remaining - actual;
    if actual < packet_len {
        return (DataStage { transferred, remaining, packet_id: s.packet_id }, false);
    }
    (DataStage { transferred, remaining, packet_id: s.packet_id.toggled() }, remaining > 0)
}

/// What one look at a channel's interrupt and characteristics registers decides.
#[derive(Clone, Copy, Debug, PartialEq, Eq, Structural)]
pub enum ChannelWait {
    /// The channel halted (or is no longer enabled): the transaction ended with these
    /// interrupt bits.
    Done(u32),
    /// The wait ran out of time.
    TimedOut,
    /// Look again after a pause.
    Again,
}

/// The interrupt bits that end a wait for a channel's attention.
pub open spec fn channel_attention(hcint: u32) -> bool {
    hcint & (HCINT_HALTED | HCINT_XFER_COMPLETE | HCINT_ERROR_MASK | HCINT_NAK | HCINT_ACK | HCINT_NYET) != 0
}

/// One step of waiting for a channel, from its interrupt bits `hcint` and characteristics
/// `hcchar`, `elapsed` counter ticks into a wait of `wait_ticks` (0 for no limit). Where the
/// channel has something to report and has halted (or is disabled), the wait is done. Where it
/// acknowledged a packet and the caller halts on ACK, the channel is asked to halt once (the
/// first result: the characteristics value to write). Otherwise the wait times out once its
/// time is up.
pub fn channel_wait_step(
    hcint: u32,
    hcchar: u32,
    elapsed: u64,
    wait_ticks: u64,
    halt_on_ack: bool,
    halt_requested: bool,
) -> (r: (Option<u32>, ChannelWait))
    ensures
        ({
            let found = channel_attention(hcint);
            let done = found && (hcint & HCINT_HALTED != 0 || hcchar & HCCHAR_ENABLE == 0);
            let halt = found && !done && halt_on_ack && !halt_requested && hcint & HCINT_ACK != 0;
            &&& r.0 == if halt { Some(hcchar | HCCHAR_DISABLE | HCCHAR_ENABLE) } else { None::<u32> }
            &&& r.1 == if done {
                ChannelWait::Done(hcint)
            } else if wait_ticks != 0 && elapsed >= wait_ticks {
                ChannelWait::TimedOut
            } else {
                ChannelWait::Again
            }
        }),
{
    let found = (hcint & (HCINT_HALTED | HCINT_XFER_COMPLETE | HCINT_ERROR_MASK | HCINT_NAK | HCINT_ACK
        | HCINT_NYET)) != 0;
    if found && ((hcint & HCINT_HALTED) != 0 || (hcchar & HCCHAR_ENABLE) == 0) {
        return (None, ChannelWait::Done(hcint));
    }
    let halt = if found && halt_on_ack && !halt_requested && (hcint & HCINT_ACK) != 0 {
        Some(hcchar | HCCHAR_DISABLE | HCCHAR_ENABLE)
    } else {
        None
    };
    if wait_ticks != 0 && elapsed >= wait_ticks {
        return (halt, ChannelWait::TimedOut);
    }
    (halt, ChannelWait::Again)
}

/// The direction of the status stage of a control transfer: opposite to the data stage, IN
/// when there is none.
pub fn status_stage_direction(data_direction: UsbDirection) -> (d: UsbDirection)
    ensures
        d == (if data_direction == UsbDirection::In { UsbDirection::Out } else { UsbDirection::In }),
{
    if data_direction == UsbDirection::In {
        UsbDirection::Out
    } else {
        UsbDirection::In
    }
}

/// The DWC2 host controller of the BCM2708.
pub struct Bcm2708UsbDevice {
    id: String,
    reg_base: usize,
    virq: u32,
    channel_count: Option<usize>,
    interrupt: Option<AsyncInterruptState>,
}

impl Bcm2708UsbDevice {
    pub closed spec fn spec_id(&self) -> Seq<char> {
        self.id@
    }

    pub closed spec fn spec_reg_base(&self) -> usize {
        self.reg_base
    }

    pub closed spec fn spec_virq(&self) -> u32 {
        self.virq
    }

    pub closed spec fn spec_channel_count(&self) -> Option<usize> {
        self.channel_count
    }

    /// A controller with registers at `reg_base` and interrupt `virq`, its channels not yet
    /// counted and no interrupt transfer scheduled.
    pub fn new(id: String, reg_base: usize, virq: u32) -> (d: Self)
        ensures
            d.spec_id() == id@,
            d.spec_reg_base() == reg_base,
            d.spec_virq() == virq,
            d.spec_channel_count() is None,
    {
        Bcm2708UsbDevice { id, reg_base, virq, channel_count: None, interrupt: None }
    }

    /// The number of host channels, 0 until it has been read from the hardware.
    pub fn channel_count(&self) -> (n: usize)
        ensures
            n == (match self.spec_channel_count() {
                Some(c) => c,
                None => 0usize,
            }),
    {
        match self.channel_count {
            Some(c) => c,
            None => 0,
        }
    }

    /// Records the number of host channels once; a second record is refused.
    pub fn set_channel_count(&mut self, count: usize) -> (r: Result<(), ()>)
        ensures
            r is Ok <==> old(self).spec_channel_count() is None,
            final(self).spec_channel_count() == (if r is Ok {
                Some(count)
            } else {
                old(self).spec_channel_count()
            }),
            final(self).spec_id() == old(self).spec_id(),
            final(self).spec_reg_base() == old(self).spec_reg_base(),
            final(self).spec_virq() == old(self).spec_virq(),
    {
        if self.channel_count.is_some() {
            return Err(());
        }
        self.channel_count = Some(count);
        Ok(())
    }
}

/// The driver of the USB host controller.
pub struct Bcm2708UsbDriver {
    pub dev_registry: DriverRegistry<Bcm2708UsbDevice>,
}

impl Bcm2708UsbDriver {
    pub fn new() -> (d: Self)
        ensures
            d.dev_registry.view() == Map::<Seq<char>, Bcm2708UsbDevice>::empty(),
    {
        Bcm2708UsbDriver { dev_registry: DriverRegistry::new() }
    }

    pub fn compatible(&self) -> (c: &'static str)
        ensures
            c@ == "brcm,bcm2708-usb"@,
    {
        "brcm,bcm2708-usb"
    }
}

/// Toggling the data PID twice gives it back.
pub proof fn lemma_packet_id_toggle_twice(p: PacketId)
    ensures
        p.spec_toggled().spec_toggled() == p,
{
}

} // verus!
