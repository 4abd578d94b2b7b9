use std::cell::RefCell;

use lib::drivers::usb::enumeration::{
    address_device, clear_hub_port_changes, enumerate_boot_keyboard, configure_device, configure_keyboard_interface,
    hub_port_connected, hub_port_route, is_hub_like, power_hub_ports, read_hub_descriptor,
    ready_port_route, reset_hub_port,
};
use lib::drivers::usb::bcm2708_usb::HubDescriptorInfo;
use lib::drivers::usb::usb_core::{
    no_data_result, ControlTransferData, EndpointAddress, InterruptInTransfer, SetupPacket, UsbError, UsbHostController,
    UsbResult, UsbRoute, UsbSpeed,
};
use lib::drivers::Device;

/// A controller that answers from a script and records the setup packets it was given.
struct Scripted {
    answers: RefCell<Vec<UsbResult<Vec<u8>>>>,
    sent: RefCell<Vec<(u8, u8, u16, u16, u16, u8)>>,
}

impl Scripted {
    fn new(answers: Vec<UsbResult<Vec<u8>>>) -> Self {
        Scripted { answers: RefCell::new(answers), sent: RefCell::new(Vec::new()) }
    }
}

impl Device for Scripted {
    fn global_setup(&self) {}
    fn local_setup(&self) {}
    fn path(&self) -> &str {
        "/usb"
    }
}

impl UsbHostController for Scripted {
    fn root_port_connected(&self) -> bool {
        true
    }
    fn reset_root_port(&self) -> UsbResult<UsbSpeed> {
        Ok(UsbSpeed::High)
    }
    fn control_transfer(
        &self,
        route: UsbRoute,
        _max_packet_size: u16,
        setup: &SetupPacket,
        data: ControlTransferData<'_>,
    ) -> UsbResult<usize> {
        self.sent.borrow_mut().push((
            setup.request_type,
            setup.request,
            setup.value,
            setup.index,
            setup.length,
            route.address(),
        ));
        let answer = self.answers.borrow_mut().remove(0)?;
        match data {
            ControlTransferData::In(buffer) => {
                let n = answer.len().min(buffer.len());
                buffer[..n].copy_from_slice(&answer[..n]);
                Ok(n)
            }
            _ => Ok(0),
        }
    }
    fn submit_interrupt_in(&self, _transfer: InterruptInTransfer) -> UsbResult<()> {
        Ok(())
    }
    fn cancel_interrupt_in(&self, _route: UsbRoute, _endpoint: EndpointAddress) -> UsbResult<()> {
        Ok(())
    }
    fn poll_interrupt_transfers(&self) {}
}

const DEVICE: [u8; 18] = [18, 1, 0, 2, 9, 0, 1, 64, 0x24, 0x04, 0x14, 0x25, 0, 1, 0, 0, 0, 1];
const CONFIG: [u8; 25] = [
    9, 2, 25, 0, 1, 1, 0, 0xe0, 1, // configuration
    9, 4, 0, 0, 1, 9, 0, 0, 0, // hub interface
    7, 5, 0x81, 3, 1, 0, 12, // interrupt IN endpoint
];

#[test]
fn enumeration_addresses_and_configures() {
    let c = Scripted::new(vec![
        Ok(DEVICE[..8].to_vec()),
        Ok(vec![]),
        Ok(DEVICE.to_vec()),
        Ok(CONFIG[..9].to_vec()),
        Ok(CONFIG.to_vec()),
        Ok(vec![]),
    ]);
    let route = UsbRoute::root(0, UsbSpeed::High);
    assert_eq!(address_device(&c, route, 1), Ok(64));
    let d = configure_device(&c, route, 1, 64).unwrap();
    assert_eq!((d.route.address(), d.max_packet_size0), (1, 64));
    assert_eq!(d.device_descriptor.device_class, 9);
    assert_eq!(d.configuration_bytes, CONFIG.to_vec());
    assert!(is_hub_like(&d));
    let sent = c.sent.borrow();
    // GET_DESCRIPTOR(device, 8) at address 0, then SET_ADDRESS(1)
    assert_eq!(sent[0], (0x80, 6, 0x0100, 0, 8, 0));
    assert_eq!(sent[1], (0x00, 5, 1, 0, 0, 0));
    // the rest at address 1: device, configuration header, whole configuration, SET_CONFIGURATION(1)
    assert_eq!(sent[2], (0x80, 6, 0x0100, 0, 18, 1));
    assert_eq!(sent[3], (0x80, 6, 0x0200, 0, 9, 1));
    assert_eq!(sent[4], (0x80, 6, 0x0200, 0, 25, 1));
    assert_eq!(sent[5], (0x00, 9, 1, 0, 0, 1));
}

#[test]
fn enumeration_stops_at_a_bad_descriptor() {
    let c = Scripted::new(vec![Ok(vec![18, 2, 0, 2, 0, 0, 0, 64])]);
    assert_eq!(address_device(&c, UsbRoute::root(0, UsbSpeed::Full), 1), Err(UsbError::InvalidDescriptor));
    assert_eq!(c.sent.borrow().len(), 1);
}

#[test]
fn hub_ports_are_powered_reset_and_routed() {
    let c = Scripted::new(vec![Ok(vec![9, 0x29, 2, 0, 0, 50, 0, 0, 0xff])]);
    let root = UsbRoute::root(1, UsbSpeed::High);
    let info = read_hub_descriptor(&c, root, 64).unwrap();
    assert_eq!((info.num_ports, info.power_on_to_power_good_ms), (2, 100));
    assert_eq!(c.sent.borrow()[0], (0xa0, 6, 0x2900, 0, 16, 1));

    let c = Scripted::new(vec![Ok(vec![]), Ok(vec![])]);
    assert_eq!(power_hub_ports(&c, root, 64, &info), Ok(100));
    assert_eq!(c.sent.borrow().clone(), vec![(0x23, 3, 8, 1, 0, 1), (0x23, 3, 8, 2, 0, 1)]);

    // connection and reset changes are cleared, in order
    let c = Scripted::new(vec![Ok(vec![]), Ok(vec![])]);
    assert_eq!(clear_hub_port_changes(&c, root, 64, 3, 0x0011), Ok(()));
    assert_eq!(c.sent.borrow().clone(), vec![(0x23, 1, 16, 3, 0, 1), (0x23, 1, 20, 3, 0, 1)]);

    let hub = {
        let c = Scripted::new(vec![
            Ok(DEVICE[..8].to_vec()),
            Ok(vec![]),
            Ok(DEVICE.to_vec()),
            Ok(CONFIG[..9].to_vec()),
            Ok(CONFIG.to_vec()),
            Ok(vec![]),
        ]);
        let r = UsbRoute::root(0, UsbSpeed::High);
        address_device(&c, r, 1).unwrap();
        configure_device(&c, r, 1, 64).unwrap()
    };
    // a connected port (status 0x0001, change 0x0001) is reset
    let c = Scripted::new(vec![Ok(vec![1, 0, 1, 0]), Ok(vec![]), Ok(vec![])]);
    assert_eq!(reset_hub_port(&c, &hub, 1), Ok(true));
    assert_eq!(c.sent.borrow()[2], (0x23, 3, 4, 1, 0, 1));
    // an empty port is left alone
    let c = Scripted::new(vec![Ok(vec![0, 0, 0, 0])]);
    assert_eq!(reset_hub_port(&c, &hub, 2), Ok(false));
    // after the reset: connected, enabled, powered, low speed
    let c = Scripted::new(vec![Ok(vec![0x03, 0x03, 0x10, 0]), Ok(vec![])]);
    let route = hub_port_route(&c, &hub, 1).unwrap().unwrap();
    assert_eq!(c.sent.borrow().len(), 2);
    assert_eq!((route.address(), route.speed(), route.parent_hub_address(), route.parent_port()), (0, UsbSpeed::Low, 1, 1));
    let c = Scripted::new(vec![Ok(vec![0x01, 0, 0, 0])]);
    assert!(hub_port_route(&c, &hub, 1).unwrap().is_none());
}

#[test]
fn keyboard_interface_is_prepared() {
    let hub_device = {
        let c = Scripted::new(vec![
            Ok(DEVICE.to_vec()),
            Ok(CONFIG[..9].to_vec()),
            Ok(CONFIG.to_vec()),
            Ok(vec![]),
        ]);
        configure_device(&c, UsbRoute::root(0, UsbSpeed::Full), 2, 8).unwrap()
    };
    let interface = lib::drivers::usb::usb_core::parse_interface_descriptor(&[9, 4, 1, 2, 1, 3, 1, 1, 0]).unwrap();
    // SET_INTERFACE, SET_PROTOCOL(boot), SET_IDLE (refused, which is ignored)
    let c = Scripted::new(vec![Ok(vec![]), Ok(vec![]), Err(UsbError::Stall)]);
    assert_eq!(configure_keyboard_interface(&c, &hub_device, interface), Ok(()));
    assert_eq!(
        c.sent.borrow().clone(),
        vec![(0x01, 11, 2, 1, 0, 2), (0x21, 11, 0, 1, 0, 2), (0x21, 10, 25 << 8, 1, 0, 2)]
    );
}

#[test]
fn hub_port_decisions_without_requests() {
    let root = UsbRoute::root(1, UsbSpeed::High);
    // no change to acknowledge and no port to power: nothing is sent
    let c = Scripted::new(vec![]);
    assert_eq!(clear_hub_port_changes(&c, root, 64, 1, 0x0100), Ok(()));
    let none = HubDescriptorInfo { num_ports: 0, power_on_to_power_good_ms: 6 };
    assert_eq!(power_hub_ports(&c, root, 64, &none), Ok(6));
    assert!(c.sent.borrow().is_empty());
    assert!(hub_port_connected(0x0001));
    assert!(!hub_port_connected(0x0100));
    let r = ready_port_route(root, 3, 0x0503).unwrap();
    assert_eq!((r.address(), r.speed(), r.parent_hub_address(), r.parent_port()), (0, UsbSpeed::High, 1, 3));
    assert!(ready_port_route(root, 3, 0x0003).is_none());
    assert_eq!(no_data_result(Ok(5)), Ok(()));
    assert_eq!(no_data_result(Err(UsbError::Stall)), Err(UsbError::Stall));
}

#[test]
fn a_boot_keyboard_on_the_root_port_is_found_and_prepared() {
    let device: [u8; 18] = [18, 1, 0, 2, 0, 0, 0, 8, 0x6d, 0x04, 0x1c, 0xc3, 0, 1, 1, 2, 0, 1];
    let config: [u8; 25] = [
        9, 2, 25, 0, 1, 1, 0, 0xa0, 50, // configuration
        9, 4, 0, 0, 1, 3, 1, 1, 0, // boot keyboard interface
        7, 5, 0x81, 3, 8, 0, 10, // interrupt IN endpoint
    ];
    let c = Scripted::new(vec![
        Ok(device[..8].to_vec()),
        Ok(vec![]),
        Ok(device.to_vec()),
        Ok(config[..9].to_vec()),
        Ok(config.to_vec()),
        Ok(vec![]),
        Ok(vec![]),
        Ok(vec![]),
    ]);
    let slept = RefCell::new(Vec::new());
    let sleep = |ms: u64| slept.borrow_mut().push(ms);
    let keyboard = enumerate_boot_keyboard(&c, &sleep).unwrap().unwrap();
    assert_eq!(keyboard.device.route.address(), 1);
    assert_eq!(keyboard.device.max_packet_size0, 8);
    assert_eq!(keyboard.interface.interface_number, 0);
    assert_eq!(keyboard.endpoint.address, EndpointAddress(0x81));
    assert_eq!(*slept.borrow(), vec![10, 10]);
    let sent = c.sent.borrow();
    // SET_PROTOCOL(boot) and SET_IDLE(100 ms) on interface 0
    assert_eq!(sent[6], (0x21, 0x0b, 0, 0, 0, 1));
    assert_eq!(sent[7], (0x21, 0x0a, 25 << 8, 0, 0, 1));
}
