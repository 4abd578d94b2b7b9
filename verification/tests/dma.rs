use lib::drivers::dma_controller::bcm2835_dma::{
    burst_length, channel_base, dma_wait_step, DMA_WAIT_POLL_LIMIT, dma_bus_addr, enable_channel_value, fill_control_block, get_stats,
    handle_irq, phys_to_dma_bus, poll_transfer_result, reset_done, reset_stats, select_channel,
    Bcm2835Dma, Bcm2835DmaDriver, Bcm2835DmaStats, DmaControlBlock, DmaIrqOutcome,
};
use lib::drivers::dma_controller::{get_dma_engine, register_dma_engine, Dma2DTransfer, DmaError};
use lib::once_slot::OnceSlot;

fn zero() -> Bcm2835DmaStats {
    Bcm2835DmaStats {
        transfers_started: 0,
        irq_completions: 0,
        poll_completions: 0,
        timeouts: 0,
        faults: 0,
        busy_errors: 0,
        invalid_errors: 0,
        last_cs: 0,
        last_debug: 0,
        last_error: 0,
    }
}

fn transfer() -> Dma2DTransfer {
    Dma2DTransfer {
        src_bus_addr: 0xC000_1000,
        dst_bus_addr: 0x4000_0000,
        row_len_bytes: 7680,
        row_count: 1064,
        src_stride: 0,
        dst_stride: 0,
    }
}

#[test]
fn bus_address_helpers() {
    assert_eq!(burst_length(8), 0x8000);
    assert_eq!(burst_length(0x12), 0x2000);
    assert_eq!(dma_bus_addr(0x3c10_0000), 0xbc10_0000);
    assert_eq!(dma_bus_addr(0xC000_1000), 0x8000_1000);
    assert_eq!(phys_to_dma_bus(0x1000), Ok(0x8000_1000));
    assert_eq!(phys_to_dma_bus(0x1_0000_0000), Err(DmaError::InvalidTransfer));
    assert_eq!(channel_base(0x1000, 4), 0x1400);
    assert_eq!(enable_channel_value(0b1, 4), 0b1_0001);
    assert!(reset_done(0));
    assert!(!reset_done(0x8000_0000));
}

#[test]
fn channel_selection_prefers_low_even_channels() {
    assert_eq!(select_channel(0x0001), Some(0));
    assert_eq!(select_channel(0x0014), Some(2));
    assert_eq!(select_channel(0x7f50), Some(4));
    assert_eq!(select_channel(0x0040), Some(6));
    assert_eq!(select_channel(0x00a2), None);
}

#[test]
fn control_block_of_a_scroll() {
    let mut stats = zero();
    let cb: DmaControlBlock = fill_control_block(transfer(), 0, &mut stats).unwrap();
    assert_eq!(cb.info, 0x1 | 0x2 | 0x10 | 0x20 | 0x100 | 0x200 | 0x8000);
    assert_eq!(cb.src, 0x8000_1000);
    assert_eq!(cb.dst, 0x8000_0000);
    assert_eq!(cb.length, 7680 | (1064 << 16));
    assert_eq!(cb.stride, 0);
    assert_eq!(cb.next, 0);
    assert_eq!(stats, zero());
    let cb2 = fill_control_block(transfer(), 2, &mut stats).unwrap();
    assert_eq!(cb2.info & 0xf000, 0x2000);
    let new = DmaControlBlock::new();
    assert_eq!((new.info, new.length, new.pad), (0, 0, [0, 0]));
}

#[test]
fn invalid_transfers_are_counted() {
    let mut stats = zero();
    let mut t = transfer();
    t.row_len_bytes = 0;
    assert!(matches!(fill_control_block(t, 0, &mut stats), Err(DmaError::InvalidTransfer)));
    let mut t = transfer();
    t.src_stride = 0x1_0000;
    assert!(matches!(fill_control_block(t, 0, &mut stats), Err(DmaError::InvalidTransfer)));
    assert_eq!(stats.invalid_errors, 2);
    assert_eq!(stats.last_error, 3);
}

#[test]
fn poll_and_irq_outcomes() {
    let mut stats = zero();
    assert_eq!(poll_transfer_result(0x1, 0, &mut stats), None);
    assert_eq!(poll_transfer_result(0x2, 0, &mut stats), Some(Ok(())));
    assert_eq!(poll_transfer_result(0x100, 0, &mut stats), Some(Err(DmaError::Fault)));
    assert_eq!(poll_transfer_result(0x2, 0x4, &mut stats), Some(Err(DmaError::Fault)));
    assert_eq!(stats.poll_completions, 1);
    assert_eq!(stats.faults, 2);
    assert_eq!(stats.last_cs, 0x2);
    assert_eq!(stats.last_debug, 0x4);
    assert_eq!(handle_irq(0x1, 0, &mut stats), DmaIrqOutcome::Spurious);
    assert_eq!(handle_irq(0x4, 0, &mut stats), DmaIrqOutcome::Complete);
    assert_eq!(handle_irq(0x6, 0x2, &mut stats), DmaIrqOutcome::Error);
    assert_eq!(stats.irq_completions, 1);
    assert_eq!(stats.last_error, 2);
}

#[test]
fn stats_counters_and_reset() {
    let mut stats = zero();
    stats.record_started();
    stats.record_busy();
    stats.record_timeout();
    stats.record_fault();
    stats.record_invalid();
    let snap = get_stats(&stats);
    assert_eq!((snap.transfers_started, snap.busy_errors, snap.timeouts, snap.faults, snap.invalid_errors), (1, 1, 1, 1, 1));
    assert_eq!(snap.last_error, 3);
    stats.transfers_started = u32::MAX;
    stats.record_started();
    assert_eq!(stats.transfers_started, 0);
    reset_stats(&mut stats);
    assert_eq!(stats, zero());
}

#[test]
fn dma_device_and_driver() {
    let d = Bcm2835Dma::new("/soc/dma".to_string(), 0x7e00_7000, 2, 40, 0x1000, 0x8000_1000);
    assert_eq!((d.channel, d.virq, d.control_block_bus), (2, 40, 0x8000_1000));
    let driver = Bcm2835DmaDriver::new();
    assert_eq!(driver.compatible(), "brcm,bcm2835-dma");
    let mut slot: OnceSlot<u8> = OnceSlot::new();
    assert_eq!(register_dma_engine(&mut slot, 3), Ok(()));
    assert_eq!(register_dma_engine(&mut slot, 4), Err(()));
    assert_eq!(get_dma_engine(&slot), Some(&3));
}

#[test]
fn dma_wait_times_out_on_the_last_poll() {
    let mut stats = zero();
    assert_eq!(dma_wait_step(0, 0x1, 0, &mut stats), None);
    assert_eq!(dma_wait_step(5, 0x2, 0, &mut stats), Some(Ok(())));
    assert_eq!(dma_wait_step(5, 0x100, 0, &mut stats), Some(Err(DmaError::Fault)));
    assert_eq!(stats.faults, 1);
    assert_eq!(dma_wait_step(DMA_WAIT_POLL_LIMIT - 2, 0x1, 0, &mut stats), None);
    assert_eq!(dma_wait_step(DMA_WAIT_POLL_LIMIT - 1, 0x1, 0, &mut stats), Some(Err(DmaError::Timeout)));
    assert_eq!(stats.timeouts, 1);
    assert_eq!(stats.last_error, 1);
}
