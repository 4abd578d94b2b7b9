//! The BCM2835 DMA controller: control blocks, channel selection, and the reading of the
//! channel status registers.
use vstd::prelude::*;

use super::{Dma2DTransfer, DmaError};
use crate::drivers::DriverRegistry;

verus! {

pub const BCM2835_DMA_CHAN_SIZE: usize = 0x100;
pub const BCM2835_DMA_CS_OFFSET: usize = 0x00;
pub const BCM2835_DMA_ADDR_OFFSET: usize = 0x04;
pub const BCM2835_DMA_DEBUG_OFFSET: usize = 0x20;
pub const BCM2835_DMA_ENABLE_OFFSET: usize = 0xFF0;

pub const BCM2835_DMA_CS_ACTIVE: u32 = 0x1;
pub const BCM2835_DMA_CS_END: u32 = 0x2;
pub const BCM2835_DMA_CS_INT: u32 = 0x4;
pub const BCM2835_DMA_CS_ERR: u32 = 0x100;
pub const BCM2835_DMA_CS_PRIORITY_SHIFT: u32 = 16;
pub const BCM2835_DMA_CS_PANIC_PRIORITY_SHIFT: u32 = 20;
pub const BCM2835_DMA_CS_WAIT_FOR_WRITES: u32 = 0x1000_0000;
pub const BCM2835_DMA_CS_DIS_DEBUG: u32 = 0x2000_0000;
pub const BCM2835_DMA_CS_ABORT: u32 = 0x4000_0000;
pub const BCM2835_DMA_CS_RESET: u32 = 0x8000_0000;

pub const BCM2835_DMA_TI_INT_EN: u32 = 0x1;
pub const BCM2835_DMA_TI_TDMODE: u32 = 0x2;
pub const BCM2835_DMA_TI_D_INC: u32 = 0x10;
pub const BCM2835_DMA_TI_D_WIDTH: u32 = 0x20;
pub const BCM2835_DMA_TI_S_INC: u32 = 0x100;
pub const BCM2835_DMA_TI_S_WIDTH: u32 = 0x200;

pub const BCM2835_DMA_DEBUG_LAST_NOT_SET_ERR: u32 = 0x1;
pub const BCM2835_DMA_DEBUG_FIFO_ERR: u32 = 0x2;
pub const BCM2835_DMA_DEBUG_READ_ERR: u32 = 0x4;
/// The three error flags of the debug register.
pub const BCM2835_DMA_DEBUG_CLEAR_MASK: u32 = 0x7;

pub const DMA_BUS_ALIAS_MASK: u32 = 0xC000_0000;
pub const DMA_BUS_ALIAS_NONALLOCATING: u32 = 0x8000_0000;
pub const DMA_RESET_POLL_LIMIT: usize = 1_000_000;
pub const DMA_WAIT_POLL_LIMIT: usize = 128_000_000;
/// Priority 8, panic priority 8, wait for outstanding writes, debug pause disabled.
pub const DMA_CS_DEFAULTS: u32 = 0x3088_0000;

pub const DMA_ERROR_NONE: u32 = 0;
pub const DMA_ERROR_TIMEOUT: u32 = 1;
pub const DMA_ERROR_FAULT: u32 = 2;
pub const DMA_ERROR_INVALID: u32 = 3;
pub const DMA_ERROR_BUSY: u32 = 4;

/// `x + 1`, wrapping to 0 past `u32::MAX`.
pub open spec fn bump(x: u32) -> u32 {
    if x == u32::MAX {
        0
    } else {
        (x + 1) as u32
    }
}

fn increment(x: u32) -> (r: u32)
    ensures
        r == bump(x),
{
    x.wrapping_add(1)
}

/// Counters of the DMA driver and the registers it read last.
#[derive(Clone, Copy, Debug, PartialEq, Eq, Structural)]
pub struct Bcm2835DmaStats {
    pub transfers_started: u32,
    pub irq_completions: u32,
    pub poll_completions: u32,
    pub timeouts: u32,
    pub faults: u32,
    pub busy_errors: u32,
    pub invalid_errors: u32,
    pub last_cs: u32,
    pub last_debug: u32,
    pub last_error: u32,
}

/// All counters and registers zero, no error recorded.
pub open spec fn zero_dma_stats() -> Bcm2835DmaStats {
    Bcm2835DmaStats {
        transfers_started: 0,
        irq_completions: 0,
        poll_completions: 0,
        timeouts: 0,
        faults: 0,
        busy_errors: 0,
        invalid_errors: 0,
        last_cs: 0,
        last_debug: 0,
        last_error: DMA_ERROR_NONE,
    }
}

/// The name of a recorded DMA error code.
pub open spec fn dma_error_label(code: u32) -> &'static str {
    if code == DMA_ERROR_TIMEOUT {
        "timeout"
    } else if code == DMA_ERROR_FAULT {
        "fault"
    } else if code == DMA_ERROR_INVALID {
        "invalid"
    } else if code == DMA_ERROR_BUSY {
        "busy"
    } else {
        "none"
    }
}

/// The name of a recorded DMA error code.
pub fn dma_error_name(code: u32) -> (s: &'static str)
    ensures
        s == dma_error_label(code),
{
    if code == DMA_ERROR_TIMEOUT {
        "timeout"
    } else if code == DMA_ERROR_FAULT {
        "fault"
    } else if code == DMA_ERROR_INVALID {
        "invalid"
    } else if code == DMA_ERROR_BUSY {
        "busy"
    } else {
        "none"
    }
}

/// A snapshot of the statistics.
pub fn get_stats(stats: &Bcm2835DmaStats) -> (s: Bcm2835DmaStats)
    ensures
        s == *stats,
{
    *stats
}

/// Resets the statistics.
pub fn reset_stats(stats: &mut Bcm2835DmaStats)
    ensures
        *final(stats) == zero_dma_stats(),
{
    *stats = Bcm2835DmaStats {
        transfers_started: 0,
        irq_completions: 0,
        poll_completions: 0,
        timeouts: 0,
        faults: 0,
        busy_errors: 0,
        invalid_errors: 0,
        last_cs: 0,
        last_debug: 0,
        last_error: DMA_ERROR_NONE,
    };
}

impl Bcm2835DmaStats {
    /// A transfer was refused as invalid.
    pub fn record_invalid(&mut self)
        ensures
            *final(self) == (Bcm2835DmaStats {
                invalid_errors: bump(old(self).invalid_errors),
                last_error: DMA_ERROR_INVALID,
                ..*old(self)
            }),
    {
        self.invalid_errors = increment(self.invalid_errors);
        self.last_error = DMA_ERROR_INVALID;
    }

    /// The channel was busy with another transfer.
    pub fn record_busy(&mut self)
        ensures
            *final(self) == (Bcm2835DmaStats {
                busy_errors: bump(old(self).busy_errors),
                last_error: DMA_ERROR_BUSY,
                ..*old(self)
            }),
    {
        self.busy_errors = increment(self.busy_errors);
        self.last_error = DMA_ERROR_BUSY;
    }

    /// A transfer was started.
    pub fn record_started(&mut self)
        ensures
            *final(self) == (Bcm2835DmaStats {
                transfers_started: bump(old(self).transfers_started),
                last_error: DMA_ERROR_NONE,
                ..*old(self)
            }),
    {
        self.transfers_started = increment(self.transfers_started);
        self.last_error = DMA_ERROR_NONE;
    }

    /// A transfer did not finish within the polling limit.
    pub fn record_timeout(&mut self)
        ensures
            *final(self) == (Bcm2835DmaStats {
                timeouts: bump(old(self).timeouts),
                last_error: DMA_ERROR_TIMEOUT,
                ..*old(self)
            }),
    {
        self.timeouts = increment(self.timeouts);
        self.last_error = DMA_ERROR_TIMEOUT;
    }

    /// The interrupt handler reported an error flag.
    pub fn record_fault(&mut self)
        ensures
            *final(self) == (Bcm2835DmaStats {
                faults: bump(old(self).faults),
                last_error: DMA_ERROR_FAULT,
                ..*old(self)
            }),
    {
        self.faults = increment(self.faults);
        self.last_error = DMA_ERROR_FAULT;
    }
}

/// A DMA control block as the controller reads it from memory.
#[derive(Clone, Copy, Debug)]
pub struct DmaControlBlock {
    pub info: u32,
    pub src: u32,
    pub dst: u32,
    pub length: u32,
    pub stride: u32,
    pub next: u32,
    pub pad: [u32; 2],
}

impl DmaControlBlock {
    /// An all-zero control block.
    pub fn new() -> (cb: Self)
        ensures
            cb.info == 0 && cb.src == 0 && cb.dst == 0 && cb.length == 0 && cb.stride == 0
                && cb.next == 0 && cb.pad@ == seq![0u32, 0u32],
    {
        DmaControlBlock { info: 0, src: 0, dst: 0, length: 0, stride: 0, next: 0, pad: [0, 0] }
    }
}

/// The burst length field of the transfer information word.
pub fn burst_length(value: u32) -> (b: u32)
    ensures
        b == (value & 0xF) << 12u32,
{
    (value & 0xF) << 12
}

/// `addr` as the DMA engine addresses it: in the non-allocating (`0x8000_0000`) bus alias.
pub fn dma_bus_addr(addr: u32) -> (b: u32)
    ensures
        b == (addr & !DMA_BUS_ALIAS_MASK) | DMA_BUS_ALIAS_NONALLOCATING,
{
    (addr & !DMA_BUS_ALIAS_MASK) | DMA_BUS_ALIAS_NONALLOCATING
}

/// The bus address of a physical address, which must fit in 32 bits.
pub fn phys_to_dma_bus(pa: usize) -> (r: Result<u32, DmaError>)
    ensures
        pa <= u32::MAX ==> r == Ok::<u32, DmaError>(
            ((pa as u32) & !DMA_BUS_ALIAS_MASK) | DMA_BUS_ALIAS_NONALLOCATING,
        ),
        pa > u32::MAX ==> r == Err::<u32, DmaError>(DmaError::InvalidTransfer),
{
    if pa as u64 > u32::MAX as u64 {
        return Err(DmaError::InvalidTransfer);
    }
    Ok(dma_bus_addr(pa as u32))
}

/// The registers of channel `channel` start `0x100` bytes apart from the controller base.
pub fn channel_base(reg_base: usize, channel: u8) -> (b: usize)
    requires
        reg_base + channel * BCM2835_DMA_CHAN_SIZE <= usize::MAX,
    ensures
        b == reg_base + channel * BCM2835_DMA_CHAN_SIZE,
{
    reg_base + channel as usize * BCM2835_DMA_CHAN_SIZE
}

/// The value of the global enable register that also enables `channel`.
pub fn enable_channel_value(enabled: u32, channel: u8) -> (v: u32)
    requires
        channel < 32,
    ensures
        v == enabled | (1u32 << channel),
{
    enabled | (1u32 << channel)
}

/// The full DMA channels the driver prefers, in order.
pub open spec fn preferred_channels() -> Seq<u8> {
    seq![0u8, 2u8, 4u8, 6u8]
}

/// Channel `c` is usable in the firmware's channel mask.
pub open spec fn channel_usable(mask: u32, c: u8) -> bool {
    mask & (1u32 << c) != 0
}

/// The first preferred channel that the mask of usable channels allows.
pub fn select_channel(mask: u32) -> (c: Option<u8>)
    ensures
        c == (if channel_usable(mask, 0) {
            Some(0u8)
        } else if channel_usable(mask, 2) {
            Some(2u8)
        } else if channel_usable(mask, 4) {
            Some(4u8)
        } else if channel_usable(mask, 6) {
            Some(6u8)
        } else {
            None
        }),
{
    let channels: [u8; 4] = [0, 2, 4, 6];
    let mut i: usize = 0;
    while i < 4
        invariant
            0 <= i <= 4,
            channels@ == preferred_channels(),
            forall|k: int| 0 <= k < i ==> !channel_usable(mask, #[trigger] channels@[k]),
        decreases 4 - i,
    {
        let ch = channels[i];
        if mask & (1u32 << ch) != 0 {
            return Some(ch);
        }
        i += 1;
    }
    None
}

/// A 2D transfer the controller can describe: rows, row length and strides each fit in 16 bits,
/// and neither the row length nor the row count is 0.
pub open spec fn transfer_valid(t: Dma2DTransfer) -> bool {
    &&& t.row_len_bytes != 0
    &&& t.row_count != 0
    &&& t.row_len_bytes <= 0xFFFF
    &&& t.row_count <= 0xFFFF
    &&& t.src_stride <= 0xFFFF
    &&& t.dst_stride <= 0xFFFF
}

/// The transfer information word of a 2D copy: interrupt on completion, 2D mode, incrementing
/// 128-bit reads and writes, and the burst length (8 on channel 0, 2 on the others).
pub open spec fn transfer_info(channel: u8) -> u32 {
    BCM2835_DMA_TI_INT_EN | BCM2835_DMA_TI_TDMODE | BCM2835_DMA_TI_D_INC | BCM2835_DMA_TI_D_WIDTH
        | BCM2835_DMA_TI_S_INC | BCM2835_DMA_TI_S_WIDTH | (((if channel == 0 { 8u32 } else { 2u32 })
        & 0xF) << 12u32)
}

/// The control block of a 2D copy on `channel`, or the refusal of an invalid transfer (which is
/// counted).
pub fn fill_control_block(transfer: Dma2DTransfer, channel: u8, stats: &mut Bcm2835DmaStats) -> (r:
    Result<DmaControlBlock, DmaError>)
    ensures
        r is Ok <==> transfer_valid(transfer),
        r is Err ==> r == Err::<DmaControlBlock, DmaError>(DmaError::InvalidTransfer) && *final(stats)
            == (Bcm2835DmaStats {
            invalid_errors: bump(old(stats).invalid_errors),
            last_error: DMA_ERROR_INVALID,
            ..*old(stats)
        }),
        r matches Ok(cb) ==> {
            &&& cb.info == transfer_info(channel)
            &&& cb.src == (transfer.src_bus_addr & !DMA_BUS_ALIAS_MASK) | DMA_BUS_ALIAS_NONALLOCATING
            &&& cb.dst == (transfer.dst_bus_addr & !DMA_BUS_ALIAS_MASK) | DMA_BUS_ALIAS_NONALLOCATING
            &&& cb.length == transfer.row_len_bytes | (transfer.row_count << 16u32)
            &&& cb.stride == transfer.src_stride | (transfer.dst_stride << 16u32)
            &&& cb.next == 0
            &&& cb.pad@ == seq![0u32, 0u32]
            &&& *final(stats) == *old(stats)
        },
{
    if transfer.row_len_bytes == 0 || transfer.row_count == 0 || transfer.row_len_bytes > 0xFFFF
        || transfer.row_count > 0xFFFF || transfer.src_stride > 0xFFFF || transfer.dst_stride
        > 0xFFFF {
        stats.record_invalid();
        return Err(DmaError::InvalidTransfer);
    }
    let length = transfer.row_len_bytes | (transfer.row_count << 16);
    let stride = transfer.src_stride | (transfer.dst_stride << 16);
    let burst_size: u32 = if channel == 0 {
        8
    } else {
        2
    };
    Ok(
        DmaControlBlock {
            info: BCM2835_DMA_TI_INT_EN | BCM2835_DMA_TI_TDMODE | BCM2835_DMA_TI_D_INC
                | BCM2835_DMA_TI_D_WIDTH | BCM2835_DMA_TI_S_INC | BCM2835_DMA_TI_S_WIDTH
                | burst_length(burst_size),
            src: dma_bus_addr(transfer.src_bus_addr),
            dst: dma_bus_addr(transfer.dst_bus_addr),
            length,
            stride,
            next: 0,
            pad: [0, 0],
        },
    )
}

/// The channel reports an error: the error flag of the status register or an error flag of the
/// debug register.
pub open spec fn channel_faulted(cs: u32, debug: u32) -> bool {
    cs & BCM2835_DMA_CS_ERR != 0 || debug & BCM2835_DMA_DEBUG_CLEAR_MASK != 0
}

/// The channel reports the end of the transfer or its interrupt.
pub open spec fn channel_done(cs: u32) -> bool {
    cs & (BCM2835_DMA_CS_END | BCM2835_DMA_CS_INT) != 0
}

/// The outcome of a poll of the channel registers `cs` and `debug`, which it also records: a
/// fault, a completed transfer, or `None` while the transfer runs.
pub fn poll_transfer_result(cs: u32, debug: u32, stats: &mut Bcm2835DmaStats) -> (r: Option<
    Result<(), DmaError>,
>)
    ensures
        r == (if channel_faulted(cs, debug) {
            Some(Err::<(), DmaError>(DmaError::Fault))
        } else if channel_done(cs) {
            Some(Ok::<(), DmaError>(()))
        } else {
            None
        }),
        *final(stats) == (if channel_faulted(cs, debug) {
            Bcm2835DmaStats {
                last_cs: cs,
                last_debug: debug,
                faults: bump(old(stats).faults),
                last_error: DMA_ERROR_FAULT,
                ..*old(stats)
            }
        } else if channel_done(cs) {
            Bcm2835DmaStats {
                last_cs: cs,
                last_debug: debug,
                poll_completions: bump(old(stats).poll_completions),
                ..*old(stats)
            }
        } else {
            Bcm2835DmaStats { last_cs: cs, last_debug: debug, ..*old(stats) }
        }),
{
    stats.last_cs = cs;
    stats.last_debug = debug;
    if (cs & BCM2835_DMA_CS_ERR) != 0 || (debug & BCM2835_DMA_DEBUG_CLEAR_MASK) != 0 {
        stats.faults = increment(stats.faults);
        stats.last_error = DMA_ERROR_FAULT;
        return Some(Err(DmaError::Fault));
    }
    if (cs & (BCM2835_DMA_CS_END | BCM2835_DMA_CS_INT)) != 0 {
        stats.poll_completions = increment(stats.poll_completions);
        return Some(Ok(()));
    }
    None
}

/// One poll of a wait for a transfer, after `polls` earlier polls: the outcome of the poll
/// (see [`poll_transfer_result`]) where it has one; else a time-out, recorded, where this was
/// the last of the [`DMA_WAIT_POLL_LIMIT`] polls; else `None`, to poll again.
pub fn dma_wait_step(polls: usize, cs: u32, debug: u32, stats: &mut Bcm2835DmaStats) -> (r: Option<
    Result<(), DmaError>,
>)
    requires
        polls < DMA_WAIT_POLL_LIMIT,
    ensures
        r == (if channel_faulted(cs, debug) {
            Some(Err::<(), DmaError>(DmaError::Fault))
        } else if channel_done(cs) {
            Some(Ok::<(), DmaError>(()))
        } else if polls + 1 == DMA_WAIT_POLL_LIMIT {
            Some(Err::<(), DmaError>(DmaError::Timeout))
        } else {
            None
        }),
        *final(stats) == (if channel_faulted(cs, debug) {
            Bcm2835DmaStats {
                last_cs: cs,
                last_debug: debug,
                faults: bump(old(stats).faults),
                last_error: DMA_ERROR_FAULT,
                ..*old(stats)
            }
        } else if channel_done(cs) {
            Bcm2835DmaStats {
                last_cs: cs,
                last_debug: debug,
                poll_completions: bump(old(stats).poll_completions),
                ..*old(stats)
            }
        } else if polls + 1 == DMA_WAIT_POLL_LIMIT {
            Bcm2835DmaStats {
                last_cs: cs,
                last_debug: debug,
                timeouts: bump(old(stats).timeouts),
                last_error: DMA_ERROR_TIMEOUT,
                ..*old(stats)
            }
        } else {
            Bcm2835DmaStats { last_cs: cs, last_debug: debug, ..*old(stats) }
        }),
{
    let r = poll_transfer_result(cs, debug, stats);
    if r.is_some() {
        return r;
    }
    if polls + 1 == DMA_WAIT_POLL_LIMIT {
        stats.record_timeout();
        return Some(Err(DmaError::Timeout));
    }
    None
}

/// What the channel interrupt reported.
#[derive(Clone, Copy, Debug, PartialEq, Eq, Structural)]
pub enum DmaIrqOutcome {
    /// Neither an end, an interrupt nor an error flag: not this channel's interrupt.
    Spurious,
    /// The transfer failed.
    Error,
    /// The transfer completed.
    Complete,
}

/// The outcome of the channel interrupt with status `cs` and debug register `debug`, which it
/// also records.
pub fn handle_irq(cs: u32, debug: u32, stats: &mut Bcm2835DmaStats) -> (o: DmaIrqOutcome)
    ensures
        o == (if !channel_faulted(cs, debug) && !channel_done(cs) {
            DmaIrqOutcome::Spurious
        } else if channel_faulted(cs, debug) {
            DmaIrqOutcome::Error
        } else {
            DmaIrqOutcome::Complete
        }),
        *final(stats) == (if o == DmaIrqOutcome::Error {
            Bcm2835DmaStats { last_cs: cs, last_debug: debug, last_error: DMA_ERROR_FAULT, ..*old(stats) }
        } else if o == DmaIrqOutcome::Complete {
            Bcm2835DmaStats {
                last_cs: cs,
                last_debug: debug,
                irq_completions: bump(old(stats).irq_completions),
                ..*old(stats)
            }
        } else {
            Bcm2835DmaStats { last_cs: cs, last_debug: debug, ..*old(stats) }
        }),
{
    stats.last_cs = cs;
    stats.last_debug = debug;
    let faulted = (cs & BCM2835_DMA_CS_ERR) != 0 || (debug & BCM2835_DMA_DEBUG_CLEAR_MASK) != 0;
    let done = (cs & (BCM2835_DMA_CS_END | BCM2835_DMA_CS_INT)) != 0;
    if !faulted && !done {
        return DmaIrqOutcome::Spurious;
    }
    if faulted {
        stats.last_error = DMA_ERROR_FAULT;
        DmaIrqOutcome::Error
    } else {
        stats.irq_completions = increment(stats.irq_completions);
        DmaIrqOutcome::Complete
    }
}

/// The channel finished its reset: the reset bit of the status register is clear.
pub fn reset_done(cs: u32) -> (b: bool)
    ensures
        b == (cs & BCM2835_DMA_CS_RESET == 0),
{
    (cs & BCM2835_DMA_CS_RESET) == 0
}

/// A DMA channel of the controller.
pub struct Bcm2835Dma {
    pub id: String,
    pub reg_base: usize,
    pub channel: u8,
    pub virq: u32,
    pub control_block_va: usize,
    pub control_block_bus: u32,
}

impl Bcm2835Dma {
    pub fn new(
        id: String,
        reg_base: usize,
        channel: u8,
        virq: u32,
        control_block_va: usize,
        control_block_bus: u32,
    ) -> (d: Self)
        ensures
            d.id == id,
            d.reg_base == reg_base,
            d.channel == channel,
            d.virq == virq,
            d.control_block_va == control_block_va,
            d.control_block_bus == control_block_bus,
    {
        Bcm2835Dma { id, reg_base, channel, virq, control_block_va, control_block_bus }
    }
}

/// The driver of the DMA controller.
pub struct Bcm2835DmaDriver {
    pub dev_registry: DriverRegistry<Bcm2835Dma>,
}

impl Bcm2835DmaDriver {
    pub fn new() -> (d: Self)
        ensures
            d.dev_registry.view() == Map::<Seq<char>, Bcm2835Dma>::empty(),
    {
        Bcm2835DmaDriver { dev_registry: DriverRegistry::new() }
    }

    /// The compatible string of the driver.
    pub fn compatible(&self) -> (c: &'static str)
        ensures
            c@ == "brcm,bcm2835-dma"@,
    {
        "brcm,bcm2835-dma"
    }
}

/// The DMA bus address is in the non-allocating alias, and translating it again changes
/// nothing.
pub proof fn lemma_dma_bus_addr_alias(addr: u32)
    ensures
        ((addr & !DMA_BUS_ALIAS_MASK) | DMA_BUS_ALIAS_NONALLOCATING) & DMA_BUS_ALIAS_MASK
            == DMA_BUS_ALIAS_NONALLOCATING,
        ((((addr & !DMA_BUS_ALIAS_MASK) | DMA_BUS_ALIAS_NONALLOCATING) & !DMA_BUS_ALIAS_MASK)
            | DMA_BUS_ALIAS_NONALLOCATING) == (addr & !DMA_BUS_ALIAS_MASK) | DMA_BUS_ALIAS_NONALLOCATING,
{
    assert(((addr & !0xC000_0000u32) | 0x8000_0000u32) & 0xC000_0000u32 == 0x8000_0000u32)
        by (bit_vector);
    assert(((((addr & !0xC000_0000u32) | 0x8000_0000u32) & !0xC000_0000u32) | 0x8000_0000u32) == (
    addr & !0xC000_0000u32) | 0x8000_0000u32) by (bit_vector);
}

/// The control block of a valid transfer gives the transfer's geometry back: the row length
/// and row count from the low and high halves of the length word, the strides from the stride
/// word.
pub proof fn lemma_control_block_geometry(t: Dma2DTransfer)
    requires
        transfer_valid(t),
    ensures
        (t.row_len_bytes | (t.row_count << 16u32)) & 0xFFFF == t.row_len_bytes,
        (t.row_len_bytes | (t.row_count << 16u32)) >> 16u32 == t.row_count,
        (t.src_stride | (t.dst_stride << 16u32)) & 0xFFFF == t.src_stride,
        (t.src_stride | (t.dst_stride << 16u32)) >> 16u32 == t.dst_stride,
{
    let a = t.row_len_bytes;
    let b = t.row_count;
    let c = t.src_stride;
    let d = t.dst_stride;
    assert((a | (b << 16u32)) & 0xFFFF == a && (a | (b << 16u32)) >> 16u32 == b) by (bit_vector)
        requires
            a <= 0xFFFF,
            b <= 0xFFFF,
    ;
    assert((c | (d << 16u32)) & 0xFFFF == c && (c | (d << 16u32)) >> 16u32 == d) by (bit_vector)
        requires
            c <= 0xFFFF,
            d <= 0xFFFF,
    ;
}

} // verus!
