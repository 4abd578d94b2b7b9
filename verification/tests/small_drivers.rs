use lib::drivers::rng::bcm2835_rng::{rng_poll_step, RngPoll};
use lib::drivers::clock_controller::bcm2835_aux::{check_node, ClockDevice, ClockDriver};
use lib::drivers::clock_controller::fixed_clock::{node_frequency, FixedClockDevice, FixedClockDriver};
use lib::drivers::clock_controller::ClockError;
use lib::drivers::interrupt_controller::RegisterWrite;
use lib::drivers::mini_uart::MiniUart;
use lib::drivers::platform::brcm::bcm2835_aux_uart::static_init;
use lib::drivers::rng::bcm2835_rng::{available_bytes, has_unsupported_props, keep_waiting, RngDevice, RngDriver};
use lib::drivers::serial::bcm2835_aux_uart::{console_bytes, tx_ready, MiniUartDevice, MiniUartDriver};
use lib::drivers::timer::arm_generic_timer::{GenericTimerDevice, GenericTimerDriver};
use lib::drivers::timer::bcm2835_system_timer::{timer_rate, TimerDevice, TimerDriver};
use lib::drivers::display::FrameBufferMemory;
use lib::drivers::video::framebuffer::Framebuffer;
use lib::drivers::watchdog::bcm2835_pm::{check_reg_count, pm_reg_index, WatchdogTimerAndPowerDriver, WatchdogTimerDevice};
use lib::drivers::watchdog::bcm2835_wdt::bcm2835_wdt_disable;
use lib::drivers::DriverInitError;

#[test]
fn generic_timer() {
    let mut t = GenericTimerDevice::new("/timer".to_string(), 0, 30);
    t.set_counter_frequency(0);
    assert_eq!(t.frequency_hz(), 0);
    t.set_counter_frequency(19_200_000);
    assert_eq!(t.frequency_hz(), 19_200_000);
    assert_eq!(t.max_ticks(), u32::MAX as u64);
    assert_eq!(t.virq(), 30);
    assert_eq!((t.schedule_control(), t.cancel_control()), (1, 2));
    assert_eq!(lib::drivers::timer::arm_generic_timer::node_frequency(None), 0);
    assert_eq!(GenericTimerDriver::new().compatible(), "arm,armv7-timer");
}

#[test]
fn system_timer() {
    let t = TimerDevice::new("/st".to_string(), 0x3f00_3000, 1_000_000, 3);
    assert_eq!(t.counter(0xdead_beef), 0xdead_beef);
    assert_eq!(t.schedule_at(1234), RegisterWrite { offset: 0x18, value: 1234 });
    assert_eq!(t.cancel(), RegisterWrite { offset: 0x0, value: 0x8 });
    assert_eq!(t.global_setup().len(), 2);
    assert_eq!(timer_rate(None), 1_000_000);
    assert_eq!(timer_rate(Some(54_000_000)), 54_000_000);
    assert_eq!((t.frequency_hz(), t.max_ticks(), t.virq()), (1_000_000, u32::MAX as u64, 3));
    assert_eq!(TimerDriver::new().compatible(), "brcm,bcm2835-system-timer");
}

#[test]
fn watchdog_registers() {
    let mut w = WatchdogTimerDevice::new("/wdt".to_string(), 0);
    assert_eq!(w.get_default_timeout(), 15);
    assert_eq!(w.timeout_ticks(), 15 * 65536);
    let (wdog, rstc) = w.start(0xffff_ffff);
    assert_eq!(wdog, RegisterWrite { offset: 0x24, value: (15 * 65536) | 0x5a00_0000 });
    assert_eq!(rstc, RegisterWrite { offset: 0x1c, value: (0xffff_ffcf | 0x20 | 0x5a00_0000) });
    assert_eq!(w.stop(), RegisterWrite { offset: 0x1c, value: 0x5a00_0102 });
    w.set_timeout(2);
    assert_eq!(w.acknowledge(), RegisterWrite { offset: 0x24, value: 0x2_0000 | 0x5a00_0000 });
    assert!(w.is_running(0x20));
    assert!(!w.is_running(0x10));
    assert_eq!(w.ticks_to_duration(65536), 1_000_000_000);
    assert_eq!(w.ticks_to_duration(0xfff0_0000 | 32768), 500_000_000);
    w.configure_timeout(Some(7));
    assert_eq!(w.get_default_timeout(), 7);
    w.configure_timeout(None);
    assert_eq!(w.get_default_timeout(), 7);
    assert_eq!((w.get_min_timeout(), w.get_max_timeout()), (1, 15));
    assert_eq!(check_reg_count(Some(2)), Ok(()));
    assert_eq!(check_reg_count(Some(4)), Err(DriverInitError::DeviceTreeError));
    assert_eq!(check_reg_count(None), Err(DriverInitError::DeviceTreeError));
    let names = vec!["asb".to_string(), "pm".to_string()];
    assert_eq!(pm_reg_index(Some(&names)), 1);
    assert_eq!(pm_reg_index(Some(&vec!["x".to_string()])), 0);
    assert_eq!(pm_reg_index(None), 0);
    assert_eq!(WatchdogTimerAndPowerDriver::new().compatible(), "brcm,bcm2835-pm");
    let (rstc, wdog) = bcm2835_wdt_disable(0x22);
    assert_eq!(rstc, RegisterWrite { offset: 0x1c, value: 0x5a00_0002 });
    assert_eq!(wdog, RegisterWrite { offset: 0x24, value: 0x5a00_0000 });
}

#[test]
fn rng_copy_and_waiting() {
    let dev = RngDevice::new("/rng".to_string(), 0);
    assert_eq!(dev.name(), "/rng");
    assert_eq!(dev.enable(0).len(), 2);
    assert_eq!(dev.enable(1).len(), 0);
    assert_eq!(dev.disable(), RegisterWrite { offset: 0, value: 0 });
    assert_eq!(available_bytes(0x0300_0000), 12);
    assert!(keep_waiting(0, true, 5));
    assert!(!keep_waiting(4, true, 5));
    assert!(!keep_waiting(0, false, 5));
    assert!(!keep_waiting(0, true, 0));
    let mut buf = [0u8; 6];
    let n = dev.read(&mut buf, &vec![0x4433_2211, 0x8877_6655], 8);
    assert_eq!(n, 6);
    assert_eq!(buf, [0x11, 0x22, 0x33, 0x44, 0x55, 0x66]);
    let mut buf = [9u8; 4];
    assert_eq!(dev.read(&mut buf, &vec![0xaabb_ccdd], 2), 2);
    assert_eq!(buf, [0xdd, 0xcc, 9, 9]);
    assert!(has_unsupported_props(&vec!["reg".to_string(), "clocks".to_string()]));
    assert!(!has_unsupported_props(&vec!["reg".to_string(), "interrupts".to_string()]));
    assert_eq!(RngDriver::new().compatible(), "brcm,bcm2835-rng");
}

#[test]
fn clocks() {
    let fixed = FixedClockDevice::new("/osc".to_string(), 19_200_000);
    assert_eq!(fixed.get_rate(), 19_200_000);
    assert_eq!(fixed.set_rate(19_200_000), Ok(()));
    assert_eq!(fixed.set_rate(1), Err(ClockError::RateNotSupported));
    assert_eq!((fixed.startup(), fixed.shutdown(), fixed.enable(), fixed.disable()), (Ok(()), Ok(()), Ok(()), Ok(())));
    assert_eq!(fixed.name(), "/osc");
    assert_eq!(node_frequency(Some(Some(0)), Some(Some(5))), Ok(5));
    assert_eq!(node_frequency(Some(Some(1)), Some(Some(5))), Err(DriverInitError::DeviceTreeError));
    assert_eq!(node_frequency(None, Some(Some(5))), Err(DriverInitError::DeviceTreeError));
    assert_eq!(node_frequency(Some(Some(0)), None), Err(DriverInitError::DeviceTreeError));
    assert_eq!(node_frequency(Some(Some(0)), Some(None)), Err(DriverInitError::DeviceFailed));
    assert_eq!(FixedClockDriver::new().compatible(), "fixed-clock");
    let aux = ClockDevice::new("/aux".to_string(), 0);
    assert_eq!(aux.name(), "/aux");
    assert_eq!(check_node(Some(1), Some(1)), Ok(()));
    assert_eq!(check_node(Some(0), Some(1)), Err(DriverInitError::DeviceTreeError));
    assert_eq!(ClockDriver::new().compatible(), "brcm,bcm2835-aux");
}

#[test]
fn serial_line_endings() {
    assert_eq!(console_bytes(b"a\nb\n"), b"a\r\nb\r\n".to_vec());
    assert_eq!(console_bytes(b""), Vec::<u8>::new());
    assert!(tx_ready(0x20));
    assert!(!tx_ready(0x1f));
    assert_eq!(MiniUart.write_str("ok\n"), b"ok\r\n".to_vec());
    assert!(MiniUart.tx_empty(0x60));
    let dev = MiniUartDevice::new("/uart".to_string(), 0);
    assert_eq!(dev.id(), "/uart");
    let mut d = MiniUartDriver::new();
    assert!(d.early_init(0x3f21_5040));
    assert!(!d.early_init(0x1234));
    assert_eq!(d.early_reg_base(), 0x3f21_5040);
    assert_eq!(d.compatible(), "brcm,bcm2835-aux-uart");
    assert_eq!(lib::drivers::serial::bcm2835_aux_uart::check_reg_count(Some(1)), Ok(()));
    assert_eq!(lib::drivers::serial::bcm2835_aux_uart::check_reg_count(Some(2)), Err(DriverInitError::DeviceTreeError));
}

#[test]
fn uart_address_through_ranges() {
    // /soc maps the 0x7e000000 bus to 0x3f000000, / has no ranges
    let levels = vec![vec![(0x7e00_0000usize, 0x3f00_0000usize, 0x0100_0000usize)], vec![]];
    assert_eq!(static_init(0x7e21_5040, &levels), 0x3f21_5040);
    // outside every range the address stays
    assert_eq!(static_init(0x1000, &levels), 0x1000);
    // the first containing range wins
    let two = vec![vec![(0, 0x100, 0x10), (0, 0x200, 0x10)]];
    assert_eq!(static_init(4, &two), 0x104);
}

#[test]
fn legacy_framebuffer() {
    let msg = Framebuffer::request_message(640, 480);
    assert_eq!(msg[0], 140);
    assert_eq!((msg[5], msg[6], msg[10], msg[11]), (640, 480, 640, 480));
    assert_eq!(msg[34], 0);
    let mut reply = msg;
    reply[28] = 0xC000_1000;
    reply[33] = 2560;
    let fb = Framebuffer::new(true, &reply).unwrap();
    assert_eq!((fb.width, fb.height, fb.pitch, fb.buffer_addr), (640, 480, 2560, 0x1000));
    assert!(Framebuffer::new(false, &reply).is_err());
    assert!(Framebuffer::new(true, &msg).is_err());
}

#[test]
fn platform_uart_and_usb_registration() {
    let levels = vec![vec![(0x7e00_0000usize, 0x3f00_0000usize, 0x0100_0000usize)]];
    assert_eq!(lib::drivers::platform::brcm::bcm2835_aux_uart::MiniUart.static_init(0x7e21_5040, &levels), 0x3f21_5040);
    assert_eq!(lib::drivers::platform::brcm::bcm2835_aux_uart::MiniUart.compatible(), "brcm,bcm2835-aux-uart");
    let mut slot: lib::once_slot::OnceSlot<u8> = lib::once_slot::OnceSlot::new();
    assert_eq!(lib::drivers::usb::get_host_controller(&slot), None);
    assert_eq!(lib::drivers::usb::register_host_controller(&mut slot, 1), Ok(()));
    assert_eq!(lib::drivers::usb::register_host_controller(&mut slot, 2), Err(()));
    assert_eq!(lib::drivers::usb::get_host_controller(&slot), Some(&1));
}

#[test]
fn legacy_framebuffer_prints_glyphs() {
    let fb = Framebuffer { width: 32, height: 16, pitch: 128, buffer_addr: 0x1000 };
    let mut mem = FrameBufferMemory::new(32, 16, 128, 0x1000).unwrap();
    // a font of 128 glyphs: 'A' lights the left-most pixel of each scanline, 'B' the third
    let mut font = vec![0u8; 128 * 16];
    for row in 0..16 {
        font[0x41 * 16 + row] = 0b0000_0001;
        font[0x42 * 16 + row] = 0b0000_0100;
    }
    fb.print(&mut mem, &font, "AB", 4, 0, 7);
    let px = |mem: &FrameBufferMemory, x: u32, y: u32| mem.read_word((y * 32 + x) as usize);
    assert_eq!(px(&mem, 4, 0), 7);
    assert_eq!(px(&mem, 4, 15), 7);
    assert_eq!(px(&mem, 5, 0), 0);
    assert_eq!(px(&mem, 12, 3), 0);
    assert_eq!(px(&mem, 14, 3), 7);
    assert_eq!(px(&mem, 3, 0), 0);
    fb.put_char(&mut mem, &font, 'B', 20, 0, 9);
    assert_eq!(px(&mem, 22, 7), 9);
    assert_eq!(px(&mem, 20, 7), 0);
}

#[test]
fn rng_poll_waits_then_reads() {
    assert_eq!(rng_poll_step(3, 0, true, 10), RngPoll::Wait { retries: 2 });
    assert_eq!(rng_poll_step(0, 0, true, 10), RngPoll::Read { bytes: 0, words: 0 });
    assert_eq!(rng_poll_step(3, 0, false, 10), RngPoll::Read { bytes: 0, words: 0 });
    // two FIFO words: eight bytes available, a ten-byte buffer takes all of them
    assert_eq!(rng_poll_step(3, 2 << 24, true, 10), RngPoll::Read { bytes: 8, words: 2 });
    // a five-byte buffer takes five, from two words
    assert_eq!(rng_poll_step(3, 2 << 24, true, 5), RngPoll::Read { bytes: 5, words: 2 });
}
