//! Enumeration through a host controller: reading a device's descriptors, giving it an address
//! and a configuration, driving the ports of a hub, and preparing a boot keyboard.
//!
//! The steps are split where the USB specification asks the host to wait: each step returns and
//! the caller sleeps before the next one (10 ms after SET_ADDRESS and after SET_CONFIGURATION,
//! 60 ms after a port reset, the hub's power-good time after powering its ports).
use vstd::prelude::*;

use super::bcm2708_usb::{
    addressed_route, spec_hub_port_speed, find_keyboard_interface, keyboard_in, changes_to_clear, hub_port_changes_to_clear, hub_port_ready, hub_port_speed, hub_port_status_from,
    parse_hub_descriptor, route_with_address, HubDescriptorInfo, HubPortStatus,
    HUB_PORT_CHANGE_CONNECTION, HUB_PORT_CHANGE_ENABLE, HUB_PORT_CHANGE_RESET,
    HUB_PORT_STATUS_CONNECTION, HUB_PORT_STATUS_ENABLED, HUB_PORT_STATUS_HIGH_SPEED,
    HUB_PORT_STATUS_LOW_SPEED, HUB_PORT_STATUS_POWERED,
};
use super::usb_core::{
    clear_feature, control_in, first_interface, descriptor_list, find_interface, get_descriptor,
    get_status, parse_configuration_descriptor, parse_device_descriptor,
    parse_device_descriptor_header, spec_parse_configuration_descriptor, spec_parse_device_descriptor,
    spec_parse_device_descriptor_header, u16_from_le, in_setup, no_data_answered, no_data_of,
    out_setup, SetupPacket, set_address, set_configuration, set_feature, set_idle,
    set_interface, set_protocol, DeviceDescriptor, EndpointInfo, InterfaceDescriptor, UsbError, UsbHostController,
    UsbResult, UsbRoute, UsbSpeed, USB_CLASS_HUB, USB_DESC_CONFIGURATION, USB_DESC_DEVICE, USB_DESC_HUB,
    USB_HID_PROTOCOL_BOOT, USB_HUB_PORT_POWER, USB_HUB_PORT_RESET, USB_REQ_GET_DESCRIPTOR,
    USB_REQ_RECIP_DEVICE, USB_REQ_RECIP_INTERFACE, USB_REQ_RECIP_OTHER, USB_REQ_TYPE_CLASS,
    USB_REQ_TYPE_STANDARD, USB_REQ_GET_STATUS, USB_REQ_SET_FEATURE, USB_REQ_CLEAR_FEATURE,
    USB_REQ_SET_ADDRESS, USB_REQ_SET_CONFIGURATION, USB_REQ_SET_INTERFACE, USB_HID_SET_PROTOCOL,
    USB_HID_SET_IDLE,
};

verus! {

/// Milliseconds a device needs after SET_ADDRESS and after SET_CONFIGURATION.
pub const SET_ADDRESS_RECOVERY_MS: u64 = 10;
/// Milliseconds a hub port needs after a port reset.
pub const PORT_RESET_MS: u64 = 60;
/// The idle rate asked of a boot keyboard, in units of 4 ms (100 ms).
pub const KEYBOARD_IDLE_RATE: u8 = 25;

/// A device that has an address and a configuration.
pub struct EnumeratedDevice {
    pub route: UsbRoute,
    pub max_packet_size0: u16,
    pub device_descriptor: DeviceDescriptor,
    pub configuration_bytes: Vec<u8>,
}

/// `controller` may answer the request `setup` to `route`, which sends no data, with success.
pub open spec fn request_ok<C: UsbHostController + ?Sized>(
    controller: &C,
    route: UsbRoute,
    max_packet_size: u16,
    setup: SetupPacket,
) -> bool {
    exists|n: usize| #[trigger] controller.control_outcome(route, max_packet_size, setup, Seq::empty(), Seq::empty(), Ok(n))
}

/// `controller` may answer some request to `route` that sends no data with the error `e`.
pub open spec fn request_failed<C: UsbHostController + ?Sized>(
    controller: &C,
    route: UsbRoute,
    max_packet_size: u16,
    e: UsbError,
) -> bool {
    exists|setup: SetupPacket, received: Seq<u8>|
        #[trigger] controller.control_outcome(route, max_packet_size, setup, Seq::empty(), received, Err(e))
}

/// What a request without data stage came to, as success or failure of the controller.
proof fn lemma_no_data<C: UsbHostController + ?Sized>(
    controller: &C,
    route: UsbRoute,
    max_packet_size: u16,
    setup: SetupPacket,
    r: UsbResult<()>,
)
    requires
        no_data_answered(controller, route, max_packet_size, setup, r),
    ensures
        r is Ok ==> request_ok(controller, route, max_packet_size, setup),
        r matches Err(e) ==> request_failed(controller, route, max_packet_size, e),
{
    let reported = choose|reported: UsbResult<usize>|
        #[trigger] controller.control_outcome(route, max_packet_size, setup, Seq::empty(), Seq::empty(), reported)
            && r == no_data_of(reported);
    match reported {
        Ok(n) => {
            assert(controller.control_outcome(route, max_packet_size, setup, Seq::empty(), Seq::empty(), Ok(n)));
        },
        Err(e) => {
            assert(controller.control_outcome(route, max_packet_size, setup, Seq::empty(), Seq::empty(), Err(e)));
        },
    }
}

/// GET_DESCRIPTOR of a hub descriptor, 16 bytes.
pub open spec fn hub_descriptor_request() -> SetupPacket {
    in_setup(USB_REQ_TYPE_CLASS | USB_REQ_RECIP_DEVICE, USB_REQ_GET_DESCRIPTOR, 0x2900, 0, 16)
}

/// GET_STATUS of hub port `port`, 4 bytes.
pub open spec fn port_status_request(port: u8) -> SetupPacket {
    in_setup(USB_REQ_TYPE_CLASS | USB_REQ_RECIP_OTHER, USB_REQ_GET_STATUS, 0, port as u16, 4)
}

/// SET_FEATURE (where `set`) or CLEAR_FEATURE of `feature` on hub port `port`.
pub open spec fn port_feature_request(set: bool, feature: u16, port: int) -> SetupPacket {
    out_setup(
        USB_REQ_TYPE_CLASS | USB_REQ_RECIP_OTHER,
        if set { USB_REQ_SET_FEATURE } else { USB_REQ_CLEAR_FEATURE },
        feature,
        port as u16,
        0,
    )
}

/// GET_DESCRIPTOR (standard) of the descriptor of type `descriptor_type`, `len` bytes.
pub open spec fn descriptor_request(descriptor_type: u8, len: nat) -> SetupPacket {
    in_setup(
        USB_REQ_TYPE_STANDARD | USB_REQ_RECIP_DEVICE,
        USB_REQ_GET_DESCRIPTOR,
        (descriptor_type * 256) as u16,
        0,
        len,
    )
}

/// A standard request without data stage to the device.
pub open spec fn device_request(request: u8, value: u16) -> SetupPacket {
    out_setup(USB_REQ_TYPE_STANDARD | USB_REQ_RECIP_DEVICE, request, value, 0, 0)
}

/// A request without data stage to interface `interface_number` of the given type.
pub open spec fn interface_request(request_type: u8, request: u8, value: u16, interface_number: u8) -> SetupPacket {
    out_setup(request_type | USB_REQ_RECIP_INTERFACE, request, value, interface_number as u16, 0)
}

/// The status and change words of four GET_STATUS bytes.
pub open spec fn port_status_of(b: Seq<u8>) -> HubPortStatus {
    HubPortStatus { status: u16_from_le(b[0], b[1]), change: u16_from_le(b[2], b[3]) }
}

/// The hub descriptor of the first `len` of 16 bytes read.
pub open spec fn hub_descriptor_of(b: Seq<u8>, len: usize) -> UsbResult<HubDescriptorInfo> {
    if len < 7 || b[1] != USB_DESC_HUB {
        Err(UsbError::InvalidDescriptor)
    } else {
        Ok(HubDescriptorInfo { num_ports: b[2], power_on_to_power_good_ms: (b[5] * 2) as u64 })
    }
}

/// A hub descriptor is read from the USB 2.0 hub layout: it is accepted exactly when at least
/// seven bytes were read and the type byte is 0x29, and then the number of ports is byte 2 and
/// the power-on to power-good time byte 5 in units of 2 ms.
pub proof fn lemma_hub_descriptor_layout(b: Seq<u8>, len: usize)
    requires
        b.len() >= 16,
    ensures
        hub_descriptor_of(b, len) is Ok <==> (len >= 7 && b[1] == 0x29),
        hub_descriptor_of(b, len) matches Ok(h) ==> h.num_ports == b[2] && h.power_on_to_power_good_ms == 2 * b[5],
{
}

/// The four GET_STATUS bytes of a hub port hold the status word in bytes 0-1 and the change
/// word in bytes 2-3, little-endian.
pub proof fn lemma_port_status_layout(b: Seq<u8>)
    requires
        b.len() >= 4,
    ensures
        port_status_of(b).status == b[0] + 256 * b[1],
        port_status_of(b).change == b[2] + 256 * b[3],
{
}

/// Reads the hub descriptor of the hub at `route` (a class request of 16 bytes): the
/// controller's error, or the decoding of the 16 bytes it left in the buffer, of which it
/// reported the first `n` read ([`hub_descriptor_of`]).
pub fn read_hub_descriptor<C: UsbHostController + ?Sized>(
    controller: &C,
    route: UsbRoute,
    max_packet_size0: u16,
) -> (r: UsbResult<HubDescriptorInfo>)
    ensures
        r matches Ok(info) ==> info.power_on_to_power_good_ms % 2 == 0
            && info.power_on_to_power_good_ms <= 510,
        exists|b: Seq<u8>, reported: UsbResult<usize>|
            #[trigger] controller.control_outcome(route, max_packet_size0, hub_descriptor_request(), Seq::empty(), b, reported)
                && b.len() == 16 && r == match reported {
                    Ok(n) => hub_descriptor_of(b, n),
                    Err(e) => Err(e),
                },
{
    let mut bytes = [0u8; 16];
    let answer = control_in(
        controller,
        route,
        max_packet_size0,
        USB_REQ_TYPE_CLASS | USB_REQ_RECIP_DEVICE,
        USB_REQ_GET_DESCRIPTOR,
        USB_DESC_HUB as u16 * 256,
        0,
        vstd::array::ref_mut_array_unsizing_coercion(&mut bytes),
    );
    assert(bytes@.len() == 16);
    assert(controller.control_outcome(route, max_packet_size0, hub_descriptor_request(), Seq::empty(), bytes@, answer));
    let len = match answer {
        Ok(n) => n,
        Err(e) => {
            return Err(e);
        },
    };
    let r = parse_hub_descriptor(&bytes, len);
    assert(hub_descriptor_of(bytes@, len) == r);
    r
}

/// Reads the status and change words of hub port `port`: the controller's error, or the
/// decoding of the four bytes it left in the buffer.
pub fn get_hub_port_status<C: UsbHostController + ?Sized>(
    controller: &C,
    route: UsbRoute,
    max_packet_size0: u16,
    port: u8,
) -> (r: UsbResult<HubPortStatus>)
    ensures
        exists|b: Seq<u8>, reported: UsbResult<usize>|
            #[trigger] controller.control_outcome(route, max_packet_size0, port_status_request(port), Seq::empty(), b, reported)
                && b.len() == 4 && r == match reported {
                    Ok(_) => Ok(port_status_of(b)),
                    Err(e) => Err(e),
                },
{
    let mut bytes = [0u8; 4];
    let answer = get_status(
        controller,
        route,
        max_packet_size0,
        USB_REQ_TYPE_CLASS | USB_REQ_RECIP_OTHER,
        port as u16,
        &mut bytes,
    );
    assert(bytes@.len() == 4);
    assert(controller.control_outcome(route, max_packet_size0, port_status_request(port), Seq::empty(), bytes@, answer));
    match answer {
        Ok(n) => {
            let st = hub_port_status_from(bytes);
            assert(st == port_status_of(bytes@));
            Ok(st)
        },
        Err(e) => Err(e),
    }
}

/// A read of a hub port's status that the controller answered as `get_hub_port_status` states:
/// a success decodes four bytes the controller answered with success, a failure is an error
/// the controller answered.
proof fn lemma_port_status_read<C: UsbHostController + ?Sized>(
    controller: &C,
    route: UsbRoute,
    max_packet_size0: u16,
    port: u8,
    r: UsbResult<HubPortStatus>,
)
    requires
        exists|b: Seq<u8>, reported: UsbResult<usize>|
            #[trigger] controller.control_outcome(route, max_packet_size0, port_status_request(port), Seq::empty(), b, reported)
                && b.len() == 4 && r == match reported {
                    Ok(_) => Ok(port_status_of(b)),
                    Err(e) => Err(e),
                },
    ensures
        r matches Ok(st) ==> exists|b: Seq<u8>, n: usize|
            #![trigger controller.control_outcome(route, max_packet_size0, port_status_request(port), Seq::empty(), b, Ok(n)), port_status_of(b)]
            b.len() == 4 && controller.control_outcome(route, max_packet_size0, port_status_request(port), Seq::empty(), b, Ok(n))
                && st == port_status_of(b),
        r matches Err(e) ==> request_failed(controller, route, max_packet_size0, e),
{
    let (b, reported) = choose|b: Seq<u8>, reported: UsbResult<usize>|
        #[trigger] controller.control_outcome(route, max_packet_size0, port_status_request(port), Seq::empty(), b, reported)
            && b.len() == 4 && r == match reported {
                Ok(_) => Ok(port_status_of(b)),
                Err(e) => Err(e),
            };
    match reported {
        Ok(n) => {
            assert(controller.control_outcome(route, max_packet_size0, port_status_request(port), Seq::empty(), b, Ok(n)));
            assert(port_status_of(b) == port_status_of(b));
        },
        Err(e) => {
            assert(controller.control_outcome(route, max_packet_size0, port_status_request(port), Seq::empty(), b, Err(e)));
        },
    }
}

/// Acknowledges the changes of hub port `port`: clears each change feature that
/// [`hub_port_changes_to_clear`] names, in order, and stops at the first failure.
pub fn clear_hub_port_changes<C: UsbHostController + ?Sized>(
    controller: &C,
    route: UsbRoute,
    max_packet_size0: u16,
    port: u8,
    change: u16,
) -> (r: UsbResult<()>)
    ensures
        !has_port_changes(change) ==> r == Ok::<(), UsbError>(()),
        r is Ok ==> forall|k: int|
            0 <= k < changes_to_clear(change).len() ==> request_ok(
                controller,
                route,
                max_packet_size0,
                port_feature_request(false, #[trigger] changes_to_clear(change)[k], port as int),
            ),
        r matches Err(e) ==> request_failed(controller, route, max_packet_size0, e),
{
    let features = hub_port_changes_to_clear(change);
    proof {
        if !has_port_changes(change) {
            assert(features@.len() == 0);
        }
    }
    let mut i: usize = 0;
    while i < features.len()
        invariant
            0 <= i <= features@.len(),
            features@ == changes_to_clear(change),
            !has_port_changes(change) ==> features@.len() == 0,
            forall|k: int|
                0 <= k < i ==> request_ok(
                    controller,
                    route,
                    max_packet_size0,
                    port_feature_request(false, #[trigger] features@[k], port as int),
                ),
        decreases features@.len() - i,
    {
        let answer = clear_feature(
            controller,
            route,
            max_packet_size0,
            USB_REQ_TYPE_CLASS | USB_REQ_RECIP_OTHER,
            features[i],
            port as u16,
        );
        proof {
            lemma_no_data(
                controller,
                route,
                max_packet_size0,
                port_feature_request(false, features@[i as int], port as int),
                answer,
            );
        }
        match answer {
            Ok(_) => {},
            Err(e) => {
                return Err(e);
            },
        }
        i += 1;
    }
    Ok(())
}

/// Powers the ports 1 to `num_ports` of a hub, in order, and stops at the first failure.
/// Returns the time, in milliseconds, the ports need before they are used.
pub fn power_hub_ports<C: UsbHostController + ?Sized>(
    controller: &C,
    route: UsbRoute,
    max_packet_size0: u16,
    descriptor: &HubDescriptorInfo,
) -> (r: UsbResult<u64>)
    ensures
        r matches Ok(ms) ==> ms == descriptor.power_on_to_power_good_ms,
        descriptor.num_ports == 0 ==> r == Ok::<u64, UsbError>(descriptor.power_on_to_power_good_ms),
        r is Ok ==> forall|p: int|
            1 <= p <= descriptor.num_ports ==> request_ok(
                controller,
                route,
                max_packet_size0,
                #[trigger] port_feature_request(true, USB_HUB_PORT_POWER, p),
            ),
        r matches Err(e) ==> request_failed(controller, route, max_packet_size0, e),
{
    let mut port: u8 = 1;
    while port <= descriptor.num_ports
        invariant_except_break
            1 <= port,
            port <= descriptor.num_ports + 1,
            forall|p: int|
                1 <= p < port ==> request_ok(
                    controller,
                    route,
                    max_packet_size0,
                    #[trigger] port_feature_request(true, USB_HUB_PORT_POWER, p),
                ),
        ensures
            forall|p: int|
                1 <= p <= descriptor.num_ports ==> request_ok(
                    controller,
                    route,
                    max_packet_size0,
                    #[trigger] port_feature_request(true, USB_HUB_PORT_POWER, p),
                ),
        decreases descriptor.num_ports + 1 - port,
    {
        let answer = set_feature(
            controller,
            route,
            max_packet_size0,
            USB_REQ_TYPE_CLASS | USB_REQ_RECIP_OTHER,
            USB_HUB_PORT_POWER,
            port as u16,
        );
        proof {
            lemma_no_data(
                controller,
                route,
                max_packet_size0,
                port_feature_request(true, USB_HUB_PORT_POWER, port as int),
                answer,
            );
        }
        match answer {
            Ok(_) => {},
            Err(e) => {
                return Err(e);
            },
        }
        if port == u8::MAX {
            break;
        }
        port += 1;
    }
    Ok(descriptor.power_on_to_power_good_ms)
}

/// What the first step of enumeration comes to, from the header bytes `header` the controller
/// left in the buffer, its report `reported` of that read, and its answer `set_address` to
/// SET_ADDRESS: the first failure, else the packet size of endpoint 0 that the header gives.
pub open spec fn address_outcome(header: Seq<u8>, reported: UsbResult<usize>, set_address: UsbResult<()>) -> UsbResult<u16> {
    match reported {
        Err(e) => Err(e),
        Ok(_) => match spec_parse_device_descriptor_header(header) {
            Err(e) => Err(e),
            Ok(h) => match set_address {
                Err(e) => Err(e),
                Ok(_) => Ok(h.max_packet_size0 as u16),
            },
        },
    }
}

/// The controller answered the read of the 8-byte device descriptor header at `route` with
/// `header` and `reported`, and, where that read gave a good header, SET_ADDRESS of `address`
/// with `set_address`.
pub open spec fn address_trace<C: UsbHostController + ?Sized>(
    controller: &C,
    route: UsbRoute,
    address: u8,
    header: Seq<u8>,
    reported: UsbResult<usize>,
    set_address: UsbResult<()>,
) -> bool {
    &&& controller.control_outcome(route, 8, descriptor_request(USB_DESC_DEVICE, 8), Seq::empty(), header, reported)
    &&& (reported is Ok && spec_parse_device_descriptor_header(header) is Ok ==> no_data_answered(
        controller,
        route,
        8,
        device_request(USB_REQ_SET_ADDRESS, address as u16),
        set_address,
    ))
}

/// The first step of enumeration at `route` with `address` may come to `r`: `r` is the
/// [`address_outcome`] of answers the controller may give ([`address_trace`]).
pub open spec fn address_answered<C: UsbHostController + ?Sized>(
    controller: &C,
    route: UsbRoute,
    address: u8,
    r: UsbResult<u16>,
) -> bool {
    exists|header: Seq<u8>, reported: UsbResult<usize>, set_address: UsbResult<()>|
        #[trigger] address_trace(controller, route, address, header, reported, set_address) && r
            == address_outcome(header, reported, set_address)
}

/// The first step of enumeration: reads the first eight bytes of the device descriptor of the
/// device at `route` (still at address 0) and gives it `address`. Returns the packet size of
/// its endpoint 0 that the header the device sent gives (see [`address_answered`]). The device
/// needs [`SET_ADDRESS_RECOVERY_MS`] before the next step.
pub fn address_device<C: UsbHostController + ?Sized>(
    controller: &C,
    route: UsbRoute,
    address: u8,
) -> (r: UsbResult<u16>)
    ensures
        address_answered(controller, route, address, r),
{
    let mut header_bytes: Vec<u8> = vec![0u8; 8];
    let answer = get_descriptor(controller, route, 8, USB_DESC_DEVICE, 0, 0, header_bytes.as_mut_slice());
    let ghost header = header_bytes@;
    let ghost reported = answer;
    let ghost none: UsbResult<()> = Err(UsbError::Timeout);
    assert(controller.control_outcome(route, 8, descriptor_request(USB_DESC_DEVICE, 8), Seq::empty(), header, reported));
    if answer.is_err() {
        assert(address_trace(controller, route, address, header, reported, none));
        return match answer {
            Ok(_) => Err(UsbError::Timeout),
            Err(e) => Err(e),
        };
    }
    let parsed = parse_device_descriptor_header(header_bytes.as_slice());
    let header_info = match parsed {
        Ok(h) => h,
        Err(e) => {
            assert(address_trace(controller, route, address, header, reported, none));
            return Err(e);
        },
    };
    let answer2 = set_address(controller, route, 8, address);
    assert(address_trace(controller, route, address, header, reported, answer2));
    match answer2 {
        Ok(_) => Ok(header_info.max_packet_size0 as u16),
        Err(e) => Err(e),
    }
}

/// The controller answered, at the addressed `route`, the read of the 18-byte device
/// descriptor with `device` and `r1`; where that gave a good descriptor, the read of the 9-byte
/// configuration header with `header` and `r2`; where that gave a good header, the read of the
/// whole configuration (`total_length` bytes) with `configuration` and `r3`; and where that
/// succeeded, SET_CONFIGURATION of the configuration's value with `set_configuration`.
pub open spec fn configure_trace<C: UsbHostController + ?Sized>(
    controller: &C,
    route: UsbRoute,
    max_packet_size0: u16,
    device: Seq<u8>,
    r1: UsbResult<usize>,
    header: Seq<u8>,
    r2: UsbResult<usize>,
    configuration: Seq<u8>,
    r3: UsbResult<usize>,
    set_configuration: UsbResult<()>,
) -> bool {
    &&& controller.control_outcome(route, max_packet_size0, descriptor_request(USB_DESC_DEVICE, 18), Seq::empty(), device, r1)
    &&& (r1 is Ok && spec_parse_device_descriptor(device) is Ok ==> controller.control_outcome(
        route,
        max_packet_size0,
        descriptor_request(USB_DESC_CONFIGURATION, 9),
        Seq::empty(),
        header,
        r2,
    ))
    &&& (r1 is Ok && spec_parse_device_descriptor(device) is Ok && r2 is Ok ==> match spec_parse_configuration_descriptor(header) {
        Ok(c) => {
            &&& controller.control_outcome(
                route,
                max_packet_size0,
                descriptor_request(USB_DESC_CONFIGURATION, c.total_length as nat),
                Seq::empty(),
                configuration,
                r3,
            )
            &&& (r3 is Ok ==> no_data_answered(
                controller,
                route,
                max_packet_size0,
                device_request(USB_REQ_SET_CONFIGURATION, c.configuration_value as u16),
                set_configuration,
            ))
        },
        Err(_) => true,
    })
}

/// The first failure of the second step of enumeration, from the answers of
/// [`configure_trace`]; `None` where every step succeeded.
pub open spec fn configure_failure(
    device: Seq<u8>,
    r1: UsbResult<usize>,
    header: Seq<u8>,
    r2: UsbResult<usize>,
    r3: UsbResult<usize>,
    set_configuration: UsbResult<()>,
) -> Option<UsbError> {
    match r1 {
        Err(e) => Some(e),
        Ok(_) => match spec_parse_device_descriptor(device) {
            Err(e) => Some(e),
            Ok(_) => match r2 {
                Err(e) => Some(e),
                Ok(_) => match spec_parse_configuration_descriptor(header) {
                    Err(e) => Some(e),
                    Ok(_) => match r3 {
                        Err(e) => Some(e),
                        Ok(_) => match set_configuration {
                            Err(e) => Some(e),
                            Ok(_) => None,
                        },
                    },
                },
            },
        },
    }
}

/// The second step of enumeration of the device at `route` that now has `address` may come to
/// `r`: for answers the controller may give ([`configure_trace`]), the first failure, or the
/// device at its addressed route with the descriptor parsed from the bytes it sent and the
/// configuration bytes it sent.
pub open spec fn configure_answered<C: UsbHostController + ?Sized>(
    controller: &C,
    route: UsbRoute,
    address: u8,
    max_packet_size0: u16,
    r: UsbResult<EnumeratedDevice>,
) -> bool {
    let addressed = addressed_route(route, address);
    exists|
        device: Seq<u8>,
        r1: UsbResult<usize>,
        header: Seq<u8>,
        r2: UsbResult<usize>,
        configuration: Seq<u8>,
        r3: UsbResult<usize>,
        set_configuration: UsbResult<()>,
    |
        #[trigger] configure_trace(
            controller,
            addressed,
            max_packet_size0,
            device,
            r1,
            header,
            r2,
            configuration,
            r3,
            set_configuration,
        ) && match configure_failure(device, r1, header, r2, r3, set_configuration) {
            Some(e) => r == Err::<EnumeratedDevice, UsbError>(e),
            None => r matches Ok(d) && d.route == addressed && d.max_packet_size0 == max_packet_size0
                && spec_parse_device_descriptor(device) == Ok::<DeviceDescriptor, UsbError>(d.device_descriptor)
                && d.configuration_bytes@ == configuration,
        }
}

/// The second step of enumeration: reads the device descriptor and the whole first
/// configuration of the device that now has `address`, and selects that configuration (see
/// [`configure_answered`]). The device needs [`SET_ADDRESS_RECOVERY_MS`] before it is used.
pub fn configure_device<C: UsbHostController + ?Sized>(
    controller: &C,
    route: UsbRoute,
    address: u8,
    max_packet_size0: u16,
) -> (r: UsbResult<EnumeratedDevice>)
    ensures
        r matches Ok(d) ==> d.max_packet_size0 == max_packet_size0 && d.route == addressed_route(route, address),
        configure_answered(controller, route, address, max_packet_size0, r),
{
    let addressed = route_with_address(route, address);
    let ghost none_n: UsbResult<usize> = Err(UsbError::Timeout);
    let ghost none_u: UsbResult<()> = Err(UsbError::Timeout);
    let ghost empty: Seq<u8> = Seq::empty();
    let mut device_bytes: Vec<u8> = vec![0u8; 18];
    let answer = get_descriptor(controller, addressed, max_packet_size0, USB_DESC_DEVICE, 0, 0, device_bytes.as_mut_slice());
    let ghost dv = device_bytes@;
    let ghost r1 = answer;
    assert(controller.control_outcome(addressed, max_packet_size0, descriptor_request(USB_DESC_DEVICE, 18), Seq::empty(), dv, r1));
    if answer.is_err() {
        assert(configure_trace(controller, addressed, max_packet_size0, dv, r1, empty, none_n, empty, none_n, none_u));
        return match answer {
            Ok(_) => Err(UsbError::Timeout),
            Err(e) => Err(e),
        };
    }
    let device_descriptor = match parse_device_descriptor(device_bytes.as_slice()) {
        Ok(dd) => dd,
        Err(e) => {
            assert(configure_trace(controller, addressed, max_packet_size0, dv, r1, empty, none_n, empty, none_n, none_u));
            return Err(e);
        },
    };
    let mut configuration_header: Vec<u8> = vec![0u8; 9];
    let answer = get_descriptor(
        controller,
        addressed,
        max_packet_size0,
        USB_DESC_CONFIGURATION,
        0,
        0,
        configuration_header.as_mut_slice(),
    );
    let ghost hv = configuration_header@;
    let ghost r2 = answer;
    assert(controller.control_outcome(addressed, max_packet_size0, descriptor_request(USB_DESC_CONFIGURATION, 9), Seq::empty(), hv, r2));
    if answer.is_err() {
        assert(configure_trace(controller, addressed, max_packet_size0, dv, r1, hv, r2, empty, none_n, none_u));
        return match answer {
            Ok(_) => Err(UsbError::Timeout),
            Err(e) => Err(e),
        };
    }
    let configuration = match parse_configuration_descriptor(configuration_header.as_slice()) {
        Ok(c) => c,
        Err(e) => {
            assert(configure_trace(controller, addressed, max_packet_size0, dv, r1, hv, r2, empty, none_n, none_u));
            return Err(e);
        },
    };
    let configuration_len = configuration.total_length as usize;
    let mut configuration_bytes: Vec<u8> = vec![0u8; configuration_len];
    let answer = get_descriptor(
        controller,
        addressed,
        max_packet_size0,
        USB_DESC_CONFIGURATION,
        0,
        0,
        configuration_bytes.as_mut_slice(),
    );
    let ghost cv = configuration_bytes@;
    let ghost r3 = answer;
    assert(controller.control_outcome(
        addressed,
        max_packet_size0,
        descriptor_request(USB_DESC_CONFIGURATION, configuration.total_length as nat),
        Seq::empty(),
        cv,
        r3,
    ));
    if answer.is_err() {
        assert(configure_trace(controller, addressed, max_packet_size0, dv, r1, hv, r2, cv, r3, none_u));
        return match answer {
            Ok(_) => Err(UsbError::Timeout),
            Err(e) => Err(e),
        };
    }
    let answer4 = set_configuration(controller, addressed, max_packet_size0, configuration.configuration_value);
    assert(configure_trace(controller, addressed, max_packet_size0, dv, r1, hv, r2, cv, r3, answer4));
    match answer4 {
        Ok(_) => {},
        Err(e) => {
            return Err(e);
        },
    }
    Ok(EnumeratedDevice { route: addressed, max_packet_size0, device_descriptor, configuration_bytes })
}

/// A device that may be a hub: its class is the hub class, or its configuration has an
/// interface of the hub class.
pub fn is_hub_like(device: &EnumeratedDevice) -> (b: bool)
    ensures
        b == (device.device_descriptor.device_class == USB_CLASS_HUB || first_interface(
            descriptor_list(device.configuration_bytes@, 0),
            USB_CLASS_HUB,
            0,
            0,
        ) is Some),
{
    if device.device_descriptor.device_class == USB_CLASS_HUB {
        return true;
    }
    find_interface(device.configuration_bytes.as_slice(), USB_CLASS_HUB, 0, 0).is_some()
}

/// The change bits of a hub port status that call for an acknowledgement: connection,
/// enable and reset changes.
pub open spec fn has_port_changes(change: u16) -> bool {
    change & HUB_PORT_CHANGE_CONNECTION != 0 || change & HUB_PORT_CHANGE_ENABLE != 0 || change
        & HUB_PORT_CHANGE_RESET != 0
}

/// A device is connected to a hub port of status `status`.
pub fn hub_port_connected(status: u16) -> (b: bool)
    ensures
        b == (status & HUB_PORT_STATUS_CONNECTION != 0),
{
    (status & HUB_PORT_STATUS_CONNECTION) != 0
}

/// The route (at address 0) of the device behind port `port` of the hub at `hub`, where the
/// port's status after its reset shows it connected, enabled and powered; `None` otherwise.
pub fn ready_port_route(hub: UsbRoute, port: u8, status: u16) -> (r: Option<UsbRoute>)
    ensures
        r == ready_route_of(hub, port, status),
        r matches Some(route) ==> route.speed == spec_hub_port_speed(status),
{
    if !hub_port_ready(status) {
        return None;
    }
    Some(UsbRoute::via_hub_with_parent_speed(0, hub_port_speed(status), hub.address(), port, hub.speed()))
}

/// The route (at address 0) of the device behind port `port` of the hub at `hub`, where the
/// port's status `status` shows it connected, enabled and powered.
pub open spec fn ready_route_of(hub: UsbRoute, port: u8, status: u16) -> Option<UsbRoute> {
    if status & HUB_PORT_STATUS_CONNECTION != 0 && status & HUB_PORT_STATUS_ENABLED != 0
            && status & HUB_PORT_STATUS_POWERED != 0 {
            Some(
                UsbRoute {
                    address: 0,
                    speed: if status & HUB_PORT_STATUS_HIGH_SPEED != 0 {
                        UsbSpeed::High
                    } else if status & HUB_PORT_STATUS_LOW_SPEED != 0 {
                        UsbSpeed::Low
                    } else {
                        UsbSpeed::Full
                    },
                    parent_hub_address: hub.address,
                    parent_port: port,
                    parent_hub_speed: hub.speed,
                },
            )
        } else {
            None
        }
}

/// The device behind a hub port is reachable exactly when the port status shows it connected
/// (bit 0), enabled (bit 1) and powered (bit 8); its route then starts at address 0 on that port
/// of that hub, with the speed the status gives ([`spec_hub_port_speed`]).
pub proof fn lemma_ready_route(hub: UsbRoute, port: u8, status: u16)
    ensures
        ready_route_of(hub, port, status) is Some <==> (status & 0x1 != 0 && status & 0x2 != 0 && status & 0x100 != 0),
        ready_route_of(hub, port, status) matches Some(route) ==> {
            &&& route.address == 0
            &&& route.speed == spec_hub_port_speed(status)
            &&& route.parent_hub_address == hub.address
            &&& route.parent_port == port
            &&& route.parent_hub_speed == hub.speed
        },
{
}

/// The first step on a hub port: reads its status and acknowledges its changes; where a device
/// is connected, resets the port. Returns whether it did: the port then needs
/// [`PORT_RESET_MS`] before [`hub_port_route`].
pub fn reset_hub_port<C: UsbHostController + ?Sized>(
    controller: &C,
    hub: &EnumeratedDevice,
    port: u8,
) -> (r: UsbResult<bool>)
    ensures
        r matches Ok(reset) ==> exists|b: Seq<u8>, n: usize|
            #![trigger controller.control_outcome(hub.route, hub.max_packet_size0, port_status_request(port), Seq::empty(), b, Ok(n)), port_status_of(b)]
            b.len() == 4 && controller.control_outcome(hub.route, hub.max_packet_size0, port_status_request(port), Seq::empty(), b, Ok(n))
                && reset == (port_status_of(b).status & HUB_PORT_STATUS_CONNECTION != 0),
        r == Ok::<bool, UsbError>(true) ==> request_ok(
            controller,
            hub.route,
            hub.max_packet_size0,
            port_feature_request(true, USB_HUB_PORT_RESET, port as int),
        ),
        r matches Err(e) ==> request_failed(controller, hub.route, hub.max_packet_size0, e),
{
    let read = get_hub_port_status(controller, hub.route, hub.max_packet_size0, port);
    proof {
        lemma_port_status_read(controller, hub.route, hub.max_packet_size0, port, read);
    }
    let status = match read {
        Ok(st) => st,
        Err(e) => {
            return Err(e);
        },
    };
    match clear_hub_port_changes(controller, hub.route, hub.max_packet_size0, port, status.change) {
        Ok(_) => {},
        Err(e) => {
            return Err(e);
        },
    }
    if !hub_port_connected(status.status) {
        return Ok(false);
    }
    let answer = set_feature(
        controller,
        hub.route,
        hub.max_packet_size0,
        USB_REQ_TYPE_CLASS | USB_REQ_RECIP_OTHER,
        USB_HUB_PORT_RESET,
        port as u16,
    );
    proof {
        lemma_no_data(
            controller,
            hub.route,
            hub.max_packet_size0,
            port_feature_request(true, USB_HUB_PORT_RESET, port as int),
            answer,
        );
    }
    match answer {
        Ok(_) => Ok(true),
        Err(e) => Err(e),
    }
}

/// The second step on a hub port, after its reset: reads its status and acknowledges its
/// changes. Returns the route (at address 0) of the device behind the port, where the status
/// read shows the port connected, enabled and powered; `None` otherwise.
pub fn hub_port_route<C: UsbHostController + ?Sized>(
    controller: &C,
    hub: &EnumeratedDevice,
    port: u8,
) -> (r: UsbResult<Option<UsbRoute>>)
    ensures
        r matches Ok(o) ==> exists|b: Seq<u8>, n: usize|
            #![trigger controller.control_outcome(hub.route, hub.max_packet_size0, port_status_request(port), Seq::empty(), b, Ok(n)), port_status_of(b)]
            b.len() == 4 && controller.control_outcome(hub.route, hub.max_packet_size0, port_status_request(port), Seq::empty(), b, Ok(n))
                && o == ready_route_of(hub.route, port, port_status_of(b).status),
        r matches Err(e) ==> request_failed(controller, hub.route, hub.max_packet_size0, e),
{
    let read = get_hub_port_status(controller, hub.route, hub.max_packet_size0, port);
    proof {
        lemma_port_status_read(controller, hub.route, hub.max_packet_size0, port, read);
    }
    let status = match read {
        Ok(st) => st,
        Err(e) => {
            return Err(e);
        },
    };
    match clear_hub_port_changes(controller, hub.route, hub.max_packet_size0, port, status.change) {
        Ok(_) => {},
        Err(e) => {
            return Err(e);
        },
    }
    Ok(ready_port_route(hub.route, port, status.status))
}

/// Prepares the boot keyboard interface `interface` of `device`: selects its alternate
/// setting where that is not 0, switches it to the boot protocol, and asks for idle reports
/// every 100 ms (a device that refuses this still works, so a failure there is ignored).
pub fn configure_keyboard_interface<C: UsbHostController + ?Sized>(
    controller: &C,
    device: &EnumeratedDevice,
    interface: InterfaceDescriptor,
) -> (r: UsbResult<()>)
    ensures
        r is Ok ==> {
            &&& interface.alternate_setting != 0 ==> request_ok(
                controller,
                device.route,
                device.max_packet_size0,
                interface_request(
                    USB_REQ_TYPE_STANDARD,
                    USB_REQ_SET_INTERFACE,
                    interface.alternate_setting as u16,
                    interface.interface_number,
                ),
            )
            &&& request_ok(
                controller,
                device.route,
                device.max_packet_size0,
                interface_request(
                    USB_REQ_TYPE_CLASS,
                    USB_HID_SET_PROTOCOL,
                    USB_HID_PROTOCOL_BOOT,
                    interface.interface_number,
                ),
            )
            &&& exists|idle: UsbResult<()>|
                #[trigger] no_data_answered(
                    controller,
                    device.route,
                    device.max_packet_size0,
                    interface_request(
                        USB_REQ_TYPE_CLASS,
                        USB_HID_SET_IDLE,
                        (KEYBOARD_IDLE_RATE * 256) as u16,
                        interface.interface_number,
                    ),
                    idle,
                )
        },
        r matches Err(e) ==> request_failed(controller, device.route, device.max_packet_size0, e),
{
    if interface.alternate_setting != 0 {
        let answer = set_interface(
            controller,
            device.route,
            device.max_packet_size0,
            interface.interface_number,
            interface.alternate_setting,
        );
        proof {
            lemma_no_data(
                controller,
                device.route,
                device.max_packet_size0,
                interface_request(
                    USB_REQ_TYPE_STANDARD,
                    USB_REQ_SET_INTERFACE,
                    interface.alternate_setting as u16,
                    interface.interface_number,
                ),
                answer,
            );
        }
        match answer {
            Ok(_) => {},
            Err(e) => {
                return Err(e);
            },
        }
    }
    let answer = set_protocol(
        controller,
        device.route,
        device.max_packet_size0,
        interface.interface_number,
        USB_HID_PROTOCOL_BOOT,
    );
    proof {
        lemma_no_data(
            controller,
            device.route,
            device.max_packet_size0,
            interface_request(USB_REQ_TYPE_CLASS, USB_HID_SET_PROTOCOL, USB_HID_PROTOCOL_BOOT, interface.interface_number),
            answer,
        );
    }
    match answer {
        Ok(_) => {},
        Err(e) => {
            return Err(e);
        },
    }
    let idle = set_idle(
        controller,
        device.route,
        device.max_packet_size0,
        interface.interface_number,
        KEYBOARD_IDLE_RATE,
        0,
    );
    assert(no_data_answered(
        controller,
        device.route,
        device.max_packet_size0,
        interface_request(USB_REQ_TYPE_CLASS, USB_HID_SET_IDLE, (KEYBOARD_IDLE_RATE * 256) as u16, interface.interface_number),
        idle,
    ));
    Ok(())
}

/// A boot keyboard ready for its interrupt transfers: the device, its boot keyboard interface
/// and that interface's interrupt IN endpoint.
pub struct Keyboard {
    pub device: EnumeratedDevice,
    pub interface: InterfaceDescriptor,
    pub endpoint: EndpointInfo,
}

/// An enumeration of the device at `route` with `address` may come to `r`: the first step
/// came to some `m` the controller's answers give ([`address_answered`]); where that failed,
/// `r` is its error, else the second step with the packet size it gave came to `r`
/// ([`configure_answered`]).
pub open spec fn enumerated<C: UsbHostController + ?Sized>(
    controller: &C,
    route: UsbRoute,
    address: u8,
    r: UsbResult<EnumeratedDevice>,
) -> bool {
    exists|m: UsbResult<u16>|
        #[trigger] address_answered(controller, route, address, m) && match m {
            Err(e) => r == Err::<EnumeratedDevice, UsbError>(e),
            Ok(mps) => configure_answered(controller, route, address, mps, r),
        }
}

/// Enumerates the device at `route` (still at address 0): gives it `address`
/// ([`address_device`]) and selects its configuration ([`configure_device`]), with the
/// recovery time after each step, slept by `sleep` (in milliseconds).
pub fn enumerate_device<C: UsbHostController + ?Sized, S: Fn(u64)>(
    controller: &C,
    route: UsbRoute,
    address: u8,
    sleep: &S,
) -> (r: UsbResult<EnumeratedDevice>)
    requires
        forall|ms: u64| sleep.requires((ms,)),
    ensures
        r matches Ok(d) ==> d.route == addressed_route(route, address),
        enumerated(controller, route, address, r),
{
    let first = address_device(controller, route, address);
    let max_packet_size0 = match first {
        Ok(m) => m,
        Err(e) => {
            assert(address_answered(controller, route, address, first));
            return Err(e);
        },
    };
    sleep(SET_ADDRESS_RECOVERY_MS);
    let second = configure_device(controller, route, address, max_packet_size0);
    assert(address_answered(controller, route, address, first));
    let device = match second {
        Ok(d) => d,
        Err(e) => {
            return Err(e);
        },
    };
    sleep(SET_ADDRESS_RECOVERY_MS);
    Ok(device)
}

/// `device` as a boot keyboard, where its configuration has a boot keyboard interface (see
/// [`keyboard_in`]): that interface is prepared ([`configure_keyboard_interface`]). `None` where
/// the configuration has none.
pub fn keyboard_of<C: UsbHostController + ?Sized>(controller: &C, device: EnumeratedDevice) -> (r:
    UsbResult<Option<Keyboard>>)
    ensures
        r matches Ok(Some(k)) ==> k.device == device && keyboard_in(device.configuration_bytes@) == Some(
            (k.interface, k.endpoint),
        ),
        r matches Ok(None) ==> keyboard_in(device.configuration_bytes@) is None,
        r matches Err(e) ==> keyboard_in(device.configuration_bytes@) is Some && request_failed(
            controller,
            device.route,
            device.max_packet_size0,
            e,
        ),
{
    match find_keyboard_interface(device.configuration_bytes.as_slice()) {
        Some((interface, endpoint)) => {
            match configure_keyboard_interface(controller, &device, interface) {
                Ok(()) => Ok(Some(Keyboard { device, interface, endpoint })),
                Err(e) => Err(e),
            }
        },
        None => Ok(None),
    }
}

/// Finds a boot keyboard on the root port, or behind a hub on the root port: resets the root
/// port, enumerates its device at address 1 and takes it where it is a boot keyboard; where it
/// is a hub, powers its ports and enumerates the device behind each port in turn (addresses 2
/// on), until one is a boot keyboard. `sleep` sleeps the given milliseconds.
pub fn enumerate_boot_keyboard<C: UsbHostController + ?Sized, S: Fn(u64)>(controller: &C, sleep: &S) -> (r:
    UsbResult<Option<Keyboard>>)
    requires
        forall|ms: u64| sleep.requires((ms,)),
    ensures
        r matches Ok(Some(k)) ==> keyboard_in(k.device.configuration_bytes@) == Some((k.interface, k.endpoint))
            && k.device.route.address >= 1 && exists|route: UsbRoute, address: u8|
            address >= 1 && #[trigger] enumerated(controller, route, address, Ok::<EnumeratedDevice, UsbError>(k.device)),
{
    if !controller.root_port_connected() {
        return Ok(None);
    }
    let root_speed = controller.reset_root_port()?;
    let mut next_address: u8 = 1;
    let root = enumerate_device(controller, UsbRoute::root(0, root_speed), next_address, sleep)?;
    next_address = next_address.saturating_add(1);
    if find_keyboard_interface(root.configuration_bytes.as_slice()).is_some() {
        return keyboard_of(controller, root);
    }
    if !is_hub_like(&root) {
        return Ok(None);
    }
    let hub = read_hub_descriptor(controller, root.route, root.max_packet_size0)?;
    let power_good_ms = power_hub_ports(controller, root.route, root.max_packet_size0, &hub)?;
    if power_good_ms > 0 {
        sleep(power_good_ms);
    }
    let mut port: u16 = 1;
    while port <= hub.num_ports as u16
        invariant
            forall|ms: u64| sleep.requires((ms,)),
            next_address >= 1,
            1 <= port <= 256,
        decreases 256 - port,
    {
        let p = port as u8;
        port = port + 1;
        if !reset_hub_port(controller, &root, p)? {
            continue;
        }
        sleep(PORT_RESET_MS);
        let route = match hub_port_route(controller, &root, p)? {
            Some(route) => route,
            None => {
                continue;
            },
        };
        let child = enumerate_device(controller, route, next_address, sleep)?;
        next_address = next_address.saturating_add(1);
        if let Some(keyboard) = keyboard_of(controller, child)? {
            return Ok(Some(keyboard));
        }
    }
    Ok(None)
}

} // verus!
