use lib::drivers::usb::bcm2708_usb::{channel_wait_step, data_stage_start, data_stage_step, ChannelWait, DataStage};
use lib::drivers::usb::bcm2708_usb::{
    control_packet_len, duration_to_counter_ticks, find_keyboard_interface, host_channel_count,
    hub_port_changes_to_clear, hub_port_ready, hub_port_status_from, map_port_speed, parse_hub_descriptor,
    status_stage_direction, translate_usage, Bcm2708UsbDevice, Bcm2708UsbDriver, KeyboardState, PacketId,
};
use lib::drivers::usb::usb_core::{
    descriptor_iter, parse_endpoint_descriptor, parse_interface_descriptor, SetupPacket, UsbDirection, UsbEndpointType,
    UsbError, UsbSpeed,
};

#[test]
fn directions_and_types() {
    assert_eq!(UsbDirection::from_request_type(0x80), UsbDirection::In);
    assert_eq!(UsbDirection::from_request_type(0x21), UsbDirection::Out);
    assert_eq!(UsbDirection::from_endpoint_address(0x81), UsbDirection::In);
    assert_eq!(UsbEndpointType::from_attributes(0x03), UsbEndpointType::Interrupt);
    assert_eq!(UsbEndpointType::from_attributes(0x02), UsbEndpointType::Bulk);
    assert_eq!(status_stage_direction(UsbDirection::In), UsbDirection::Out);
    assert_eq!(status_stage_direction(UsbDirection::Out), UsbDirection::In);
}

#[test]
fn setup_packet_encoding() {
    let p = SetupPacket::new(0x80, 6, 0x0100, 0, 18);
    assert_eq!(p.encode(), [0x80, 6, 0x00, 0x01, 0, 0, 18, 0]);
    assert_eq!(p.direction(), UsbDirection::In);
}

#[test]
fn descriptor_parsing() {
    let ep = parse_endpoint_descriptor(&[7, 5, 0x81, 3, 8, 0, 10]).unwrap();
    assert_eq!(ep.address.raw(), 0x81);
    assert_eq!(ep.max_packet_size, 8);
    assert_eq!(ep.interval, 10);
    assert_eq!(parse_endpoint_descriptor(&[7, 4, 0x81, 3, 8, 0, 10]), Err(UsbError::InvalidDescriptor));
    assert_eq!(parse_endpoint_descriptor(&[6, 5, 0x81, 3, 8, 0]), Err(UsbError::InvalidDescriptor));
    let intf = parse_interface_descriptor(&[9, 4, 0, 0, 1, 3, 1, 1, 0]).unwrap();
    assert_eq!((intf.interface_class, intf.interface_subclass, intf.interface_protocol), (3, 1, 1));
}

#[test]
fn boot_keyboard_is_found() {
    let config = [
        9, 2, 34, 0, 1, 1, 0, 0xa0, 50, // configuration
        9, 4, 0, 0, 1, 3, 1, 1, 0, // HID boot keyboard interface
        9, 0x21, 0x11, 1, 0, 1, 0x22, 63, 0, // HID descriptor
        7, 5, 0x81, 3, 8, 0, 10, // interrupt IN endpoint
    ];
    let (intf, ep) = find_keyboard_interface(&config).unwrap();
    assert_eq!(intf.interface_number, 0);
    assert_eq!(ep.address.raw(), 0x81);
    assert!(find_keyboard_interface(&config[..18]).is_none());
}

#[test]
fn packet_ids_alternate() {
    assert_eq!(PacketId::Data0.toggled(), PacketId::Data1);
    assert_eq!(PacketId::Data1.toggled().toggled(), PacketId::Data1);
    assert_eq!(PacketId::Setup.toggled(), PacketId::Setup);
    assert_eq!((PacketId::Data0.bits(), PacketId::Data1.bits(), PacketId::Setup.bits()), (0, 2, 3));
}

#[test]
fn host_port_and_channels() {
    assert_eq!(map_port_speed(0 << 17), Ok(UsbSpeed::High));
    assert_eq!(map_port_speed(1 << 17), Ok(UsbSpeed::Full));
    assert_eq!(map_port_speed(2 << 17), Ok(UsbSpeed::Low));
    assert_eq!(map_port_speed(3 << 17), Err(UsbError::Unsupported));
    assert_eq!(host_channel_count((2 << 3) | (7 << 14)), Ok(8));
    assert_eq!(host_channel_count(7 << 14), Err(UsbError::Unsupported));
    assert_eq!(host_channel_count(2 << 3), Err(UsbError::Unsupported));
}

#[test]
fn hub_helpers() {
    let mut d = [0u8; 16];
    d[0] = 9;
    d[1] = 0x29;
    d[2] = 4;
    d[5] = 50;
    let info = parse_hub_descriptor(&d, 9).unwrap();
    assert_eq!((info.num_ports, info.power_on_to_power_good_ms), (4, 100));
    assert_eq!(parse_hub_descriptor(&d, 6), Err(UsbError::InvalidDescriptor));
    let s = hub_port_status_from([0x03, 0x01, 0x11, 0x00]);
    assert_eq!((s.status, s.change), (0x0103, 0x0011));
    assert!(hub_port_ready(s.status));
    assert!(!hub_port_ready(0x0003));
    assert_eq!(hub_port_changes_to_clear(0x13), vec![16, 17, 20]);
    assert_eq!(hub_port_changes_to_clear(0), Vec::<u16>::new());
    assert_eq!(control_packet_len(100, 64), 64);
    assert_eq!(control_packet_len(10, 64), 10);
}

#[test]
fn timing() {
    assert_eq!(duration_to_counter_ticks(1_000_000_000, 19_200_000), 19_200_000);
    assert_eq!(duration_to_counter_ticks(500_000, 1_000_000), 500);
    assert_eq!(duration_to_counter_ticks(123, 0), 0);
}

#[test]
fn german_keyboard_layout() {
    assert_eq!(translate_usage(0x04, 0, false), Some(b'a'));
    assert_eq!(translate_usage(0x04, 0x02, false), Some(b'A'));
    assert_eq!(translate_usage(0x04, 0, true), Some(b'A'));
    assert_eq!(translate_usage(0x1c, 0, false), Some(b'z'));
    assert_eq!(translate_usage(0x1d, 0, false), Some(b'y'));
    assert_eq!(translate_usage(0x14, 0x40, false), Some(b'@'));
    assert_eq!(translate_usage(0x1e, 0x20, false), Some(b'!'));
    assert_eq!(translate_usage(0x28, 0, false), Some(b'\n'));
    assert_eq!(translate_usage(0x64, 0, false), Some(b'<'));
    assert_eq!(translate_usage(0x3a, 0, false), None);
}

#[test]
fn keyboard_reports_queue_characters() {
    let mut k = KeyboardState::new();
    k.handle_report([0, 0, 0x0b, 0, 0, 0, 0, 0]);
    k.handle_report([0, 0, 0x0b, 0x0c, 0, 0, 0, 0]);
    k.handle_report([0, 0, 0, 0, 0, 0, 0, 0]);
    let mut out = [0u8; 4];
    let n = k.queue.drain(&mut out);
    assert_eq!(&out[..n], b"hi");
    // error rollover reports change nothing
    assert!(KeyboardState::has_error_rollover(&[0, 0, 1, 1, 1, 1, 1, 1]));
    k.handle_report([0, 0, 1, 1, 1, 1, 1, 1]);
    assert!(k.queue.is_empty());
}

#[test]
fn usb_device_and_driver() {
    let mut d = Bcm2708UsbDevice::new("/soc/usb".to_string(), 0x3f98_0000, 9);
    assert_eq!(d.channel_count(), 0);
    assert_eq!(d.set_channel_count(8), Ok(()));
    assert_eq!(d.set_channel_count(4), Err(()));
    assert_eq!(d.channel_count(), 8);
    assert_eq!(Bcm2708UsbDriver::new().compatible(), "brcm,bcm2708-usb");
}

#[test]
fn control_data_stage_and_channel_wait_steps() {
    let s = data_stage_start(18);
    assert_eq!(s, DataStage { transferred: 0, remaining: 18, packet_id: PacketId::Data1 });
    let (s, more) = data_stage_step(s, 8, 8);
    assert_eq!((s, more), (DataStage { transferred: 8, remaining: 10, packet_id: PacketId::Data0 }, true));
    // a short packet ends the stage without toggling
    let (s, more) = data_stage_step(s, 8, 3);
    assert_eq!((s, more), (DataStage { transferred: 11, remaining: 7, packet_id: PacketId::Data0 }, false));
    let (s, more) = data_stage_step(DataStage { transferred: 16, remaining: 2, packet_id: PacketId::Data1 }, 2, 2);
    assert_eq!((s.remaining, s.packet_id, more), (0, PacketId::Data0, false));
    // halted: done
    assert_eq!(channel_wait_step(0x23, 0x8000_0000, 0, 10, true, false), (None, ChannelWait::Done(0x23)));
    // ACK on an enabled channel with halt-on-ACK: ask once to halt, keep waiting
    assert_eq!(channel_wait_step(0x20, 0x8000_0001, 1, 10, true, false), (Some(0xC000_0001), ChannelWait::Again));
    assert_eq!(channel_wait_step(0x20, 0x8000_0001, 1, 10, true, true), (None, ChannelWait::Again));
    // nothing to report and the time is up
    assert_eq!(channel_wait_step(0, 0x8000_0000, 10, 10, false, false), (None, ChannelWait::TimedOut));
    assert_eq!(channel_wait_step(0, 0x8000_0000, 99, 0, false, false), (None, ChannelWait::Again));
}

#[test]
fn descriptor_walk_tiles_the_bytes_it_walks() {
    // A configuration header, an interface, then a descriptor whose length byte is too small.
    let bytes: [u8; 23] = [
        9, 2, 25, 0, 1, 1, 0, 0xa0, 50, 9, 4, 0, 0, 1, 3, 1, 1, 0, 1, 0, 7, 5, 0x81,
    ];
    let mut walk = descriptor_iter(&bytes);
    let mut laid_end_to_end: Vec<u8> = Vec::new();
    let mut lengths: Vec<usize> = Vec::new();
    while let Some(d) = walk.next() {
        assert!(d.length() >= 2);
        assert_eq!(d.bytes()[0] as usize, d.length());
        lengths.push(d.length());
        laid_end_to_end.extend_from_slice(d.bytes());
    }
    assert_eq!(lengths, vec![9, 9]);
    assert_eq!(&laid_end_to_end[..], &bytes[..18]);
    assert!(walk.next().is_none());
}
