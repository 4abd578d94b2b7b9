//! USB protocol core: requests, descriptors and their parsing, and the host controller
//! interface.
use std::sync::Arc;
use vstd::prelude::*;

use crate::drivers::Device;


verus! {

pub type UsbResult<T> = Result<T, UsbError>;

/// Size of a memory page; a DMA buffer is at most one page.
pub const PAGE_SIZE: usize = 4096;

pub const USB_REQ_DIR_OUT: u8 = 0x00;
pub const USB_REQ_DIR_IN: u8 = 0x80;

pub const USB_REQ_TYPE_STANDARD: u8 = 0x00;
pub const USB_REQ_TYPE_CLASS: u8 = 0x20;
pub const USB_REQ_TYPE_VENDOR: u8 = 0x40;

pub const USB_REQ_RECIP_DEVICE: u8 = 0x00;
pub const USB_REQ_RECIP_INTERFACE: u8 = 0x01;
pub const USB_REQ_RECIP_ENDPOINT: u8 = 0x02;
pub const USB_REQ_RECIP_OTHER: u8 = 0x03;

pub const USB_REQ_GET_STATUS: u8 = 0x00;
pub const USB_REQ_CLEAR_FEATURE: u8 = 0x01;
pub const USB_REQ_SET_FEATURE: u8 = 0x03;
pub const USB_REQ_SET_ADDRESS: u8 = 0x05;
pub const USB_REQ_GET_DESCRIPTOR: u8 = 0x06;
pub const USB_REQ_SET_DESCRIPTOR: u8 = 0x07;
pub const USB_REQ_GET_CONFIGURATION: u8 = 0x08;
pub const USB_REQ_SET_CONFIGURATION: u8 = 0x09;
pub const USB_REQ_GET_INTERFACE: u8 = 0x0A;
pub const USB_REQ_SET_INTERFACE: u8 = 0x0B;

pub const USB_DESC_DEVICE: u8 = 0x01;
pub const USB_DESC_CONFIGURATION: u8 = 0x02;
pub const USB_DESC_STRING: u8 = 0x03;
pub const USB_DESC_INTERFACE: u8 = 0x04;
pub const USB_DESC_ENDPOINT: u8 = 0x05;
pub const USB_DESC_HID: u8 = 0x21;
pub const USB_DESC_REPORT: u8 = 0x22;
pub const USB_DESC_HUB: u8 = 0x29;

pub const USB_CLASS_HID: u8 = 0x03;
pub const USB_CLASS_HUB: u8 = 0x09;

pub const USB_HID_SUBCLASS_BOOT: u8 = 0x01;
pub const USB_HID_PROTOCOL_KEYBOARD: u8 = 0x01;

pub const USB_HUB_PORT_RESET: u16 = 0x0004;
pub const USB_HUB_PORT_POWER: u16 = 0x0008;
pub const USB_HID_SET_PROTOCOL: u8 = 0x0B;
pub const USB_HID_SET_IDLE: u8 = 0x0A;
pub const USB_HID_PROTOCOL_BOOT: u16 = 0x0000;

#[derive(Debug, Clone, Copy, PartialEq, Eq, Structural)]
pub enum UsbError {
    NoMemory,
    BufferTooLarge,
    BufferTooSmall,
    InvalidDescriptor,
    InvalidPacket,
    InvalidEndpoint,
    InvalidState,
    Disconnected,
    Timeout,
    Stall,
    Busy,
    Unsupported,
    ShortPacket,
    HardwareFault,
}

#[derive(Debug, Clone, Copy, PartialEq, Eq, Structural)]
pub enum UsbSpeed {
    Low,
    Full,
    High,
}

#[derive(Debug, Clone, Copy, PartialEq, Eq, Structural)]
pub enum UsbDirection {
    Out,
    In,
}

impl UsbDirection {
    /// The data direction encoded in bit 7 of a request's `bmRequestType`.
    pub fn from_request_type(request_type: u8) -> (d: Self)
        ensures
            d == (if request_type & USB_REQ_DIR_IN != 0 { UsbDirection::In } else { UsbDirection::Out }),
    {
        if (request_type & USB_REQ_DIR_IN) != 0 {
            Self::In
        } else {
            Self::Out
        }
    }

    /// The direction encoded in bit 7 of an endpoint address.
    pub fn from_endpoint_address(endpoint_address: u8) -> (d: Self)
        ensures
            d == (if endpoint_address & USB_REQ_DIR_IN != 0 { UsbDirection::In } else { UsbDirection::Out }),
    {
        if (endpoint_address & USB_REQ_DIR_IN) != 0 {
            Self::In
        } else {
            Self::Out
        }
    }
}

#[derive(Debug, Clone, Copy, PartialEq, Eq, Structural)]
pub enum UsbEndpointType {
    Control,
    Isochronous,
    Bulk,
    Interrupt,
}

/// The endpoint type encoded in the two low bits of `bmAttributes`.
pub open spec fn endpoint_type_of(attributes: u8) -> UsbEndpointType {
    let t = attributes & 0x03;
    if t == 0 {
        UsbEndpointType::Control
    } else if t == 1 {
        UsbEndpointType::Isochronous
    } else if t == 2 {
        UsbEndpointType::Bulk
    } else {
        UsbEndpointType::Interrupt
    }
}

impl UsbEndpointType {
    pub fn from_attributes(attributes: u8) -> (t: Self)
        ensures
            t == endpoint_type_of(attributes),
    {
        match attributes & 0x03 {
            0x00 => Self::Control,
            0x01 => Self::Isochronous,
            0x02 => Self::Bulk,
            _ => Self::Interrupt,
        }
    }
}

/// Where a device sits on the bus: its address and speed, and for a device behind a hub the
/// hub's address, port and speed.
#[derive(Debug, Clone, Copy, PartialEq, Eq, Structural)]
pub struct UsbRoute {
    pub address: u8,
    pub speed: UsbSpeed,
    pub parent_hub_address: u8,
    pub parent_port: u8,
    pub parent_hub_speed: UsbSpeed,
}

impl UsbRoute {
    /// Transactions to this device are split: it is a low- or full-speed device behind a
    /// high-speed hub.
    pub open spec fn spec_uses_split_transactions(self) -> bool {
        &&& self.parent_hub_address != 0
        &&& self.parent_port != 0
        &&& self.parent_hub_speed == UsbSpeed::High
        &&& self.speed != UsbSpeed::High
    }

    /// A device on the root port.
    pub fn root(address: u8, speed: UsbSpeed) -> (r: Self)
        ensures
            r == (UsbRoute {
                address,
                speed,
                parent_hub_address: 0,
                parent_port: 0,
                parent_hub_speed: UsbSpeed::High,
            }),
    {
        Self { address, speed, parent_hub_address: 0, parent_port: 0, parent_hub_speed: UsbSpeed::High }
    }

    /// A device behind a high-speed hub.
    pub fn via_hub(address: u8, speed: UsbSpeed, parent_hub_address: u8, parent_port: u8) -> (r: Self)
        ensures
            r == (UsbRoute {
                address,
                speed,
                parent_hub_address,
                parent_port,
                parent_hub_speed: UsbSpeed::High,
            }),
    {
        Self::via_hub_with_parent_speed(address, speed, parent_hub_address, parent_port, UsbSpeed::High)
    }

    /// A device behind a hub of the given speed.
    pub fn via_hub_with_parent_speed(
        address: u8,
        speed: UsbSpeed,
        parent_hub_address: u8,
        parent_port: u8,
        parent_hub_speed: UsbSpeed,
    ) -> (r: Self)
        ensures
            r == (UsbRoute { address, speed, parent_hub_address, parent_port, parent_hub_speed }),
    {
        Self { address, speed, parent_hub_address, parent_port, parent_hub_speed }
    }

    pub fn address(self) -> (a: u8)
        ensures
            a == self.address,
    {
        self.address
    }

    pub fn speed(self) -> (s: UsbSpeed)
        ensures
            s == self.speed,
    {
        self.speed
    }

    pub fn parent_hub_address(self) -> (a: u8)
        ensures
            a == self.parent_hub_address,
    {
        self.parent_hub_address
    }

    pub fn parent_port(self) -> (p: u8)
        ensures
            p == self.parent_port,
    {
        self.parent_port
    }

    pub fn parent_hub_speed(self) -> (s: UsbSpeed)
        ensures
            s == self.parent_hub_speed,
    {
        self.parent_hub_speed
    }

    pub fn uses_split_transactions(self) -> (b: bool)
        ensures
            b == self.spec_uses_split_transactions(),
    {
        self.parent_hub_address != 0 && self.parent_port != 0 && self.parent_hub_speed
            == UsbSpeed::High && self.speed != UsbSpeed::High
    }
}

/// Split transactions are for the low- and full-speed devices behind a high-speed hub, and only
/// for them: a device on the root port, behind a hub that is not high-speed, or itself
/// high-speed, is addressed with plain transactions.
pub proof fn lemma_split_transactions(r: UsbRoute)
    ensures
        r.parent_hub_address != 0 && r.parent_port != 0 && r.parent_hub_speed == UsbSpeed::High ==> (
        r.spec_uses_split_transactions() <==> (r.speed == UsbSpeed::Low || r.speed == UsbSpeed::Full)),
        r.parent_hub_address == 0 ==> !r.spec_uses_split_transactions(),
        r.parent_port == 0 ==> !r.spec_uses_split_transactions(),
        r.parent_hub_speed != UsbSpeed::High ==> !r.spec_uses_split_transactions(),
        r.speed == UsbSpeed::High ==> !r.spec_uses_split_transactions(),
{
}

/// The 8-byte setup packet of a control transfer.
#[derive(Clone, Copy, PartialEq, Eq, Structural)]
pub struct SetupPacket {
    pub request_type: u8,
    pub request: u8,
    pub value: u16,
    pub index: u16,
    pub length: u16,
}

/// Byte `k` (0 or 1) of `v` in little-endian order.
pub open spec fn u16_le_byte(v: u16, k: int) -> u8 {
    if k == 0 {
        (v % 256) as u8
    } else {
        (v / 256) as u8
    }
}

/// The value of two bytes in little-endian order.
pub open spec fn u16_from_le(lo: u8, hi: u8) -> u16 {
    (lo as int + hi as int * 256) as u16
}

/// Splits `v` into its little-endian bytes.
fn u16_to_le(v: u16) -> (b: (u8, u8))
    ensures
        b.0 == u16_le_byte(v, 0),
        b.1 == u16_le_byte(v, 1),
{
    ((v % 256) as u8, (v / 256) as u8)
}

impl SetupPacket {
    pub fn new(request_type: u8, request: u8, value: u16, index: u16, length: u16) -> (p: Self)
        ensures
            p == (SetupPacket { request_type, request, value, index, length }),
    {
        Self { request_type, request, value, index, length }
    }

    pub fn request_type(self) -> (v: u8)
        ensures
            v == self.request_type,
    {
        self.request_type
    }

    pub fn request(self) -> (v: u8)
        ensures
            v == self.request,
    {
        self.request
    }

    pub fn value(self) -> (v: u16)
        ensures
            v == self.value,
    {
        self.value
    }

    pub fn index(self) -> (v: u16)
        ensures
            v == self.index,
    {
        self.index
    }

    pub fn length(self) -> (v: u16)
        ensures
            v == self.length,
    {
        self.length
    }

    /// The data stage direction, from bit 7 of the request type.
    pub fn direction(self) -> (d: UsbDirection)
        ensures
            d == (if self.request_type & USB_REQ_DIR_IN != 0 { UsbDirection::In } else { UsbDirection::Out }),
    {
        UsbDirection::from_request_type(self.request_type)
    }

    /// The wire encoding of the packet: multi-byte fields are little-endian.
    pub open spec fn spec_encode(self) -> Seq<u8> {
        seq![
            self.request_type,
            self.request,
            u16_le_byte(self.value, 0),
            u16_le_byte(self.value, 1),
            u16_le_byte(self.index, 0),
            u16_le_byte(self.index, 1),
            u16_le_byte(self.length, 0),
            u16_le_byte(self.length, 1),
        ]
    }

    pub fn encode(self) -> (bytes: [u8; 8])
        ensures
            bytes@ == self.spec_encode(),
    {
        let value = u16_to_le(self.value);
        let index = u16_to_le(self.index);
        let length = u16_to_le(self.length);

        let bytes = [
            self.request_type,
            self.request,
            value.0,
            value.1,
            index.0,
            index.1,
            length.0,
            length.1,
        ];
        assert(bytes@ =~= self.spec_encode());
        bytes
    }
}

/// The data stage of a control transfer.
pub enum ControlTransferData<'a> {
    NoData,
    In(&'a mut [u8]),
    Out(&'a [u8]),
}

impl<'a> ControlTransferData<'a> {
    /// The bytes the data stage sends to the device (none for a data stage to the host).
    pub open spec fn sent_bytes(&self) -> Seq<u8> {
        match self {
            ControlTransferData::Out(bytes) => bytes@,
            _ => Seq::empty(),
        }
    }

    /// The number of bytes of the data stage.
    pub fn len(&self) -> (n: usize)
        ensures
            n == match self {
                ControlTransferData::NoData => 0,
                ControlTransferData::In(bytes) => bytes@.len(),
                ControlTransferData::Out(bytes) => bytes@.len(),
            },
    {
        match self {
            Self::NoData => 0,
            Self::In(bytes) => bytes.len(),
            Self::Out(bytes) => bytes.len(),
        }
    }
}

/// A DMA-able transfer buffer of at most one page: the virtual and physical address of the page
/// and the bytes of the buffer.
pub struct UsbDmaBuffer {
    virt_addr: usize,
    phys_addr: usize,
    data: Vec<u8>,
}

impl UsbDmaBuffer {
    #[verifier::type_invariant]
    spec fn inv(self) -> bool {
        0 < self.data@.len() <= PAGE_SIZE
    }

    /// The bytes of the buffer.
    pub closed spec fn view(&self) -> Seq<u8> {
        self.data@
    }

    pub closed spec fn spec_virt_addr(&self) -> usize {
        self.virt_addr
    }

    pub closed spec fn spec_phys_addr(&self) -> usize {
        self.phys_addr
    }

    /// A zeroed buffer of `len` bytes on the page at `virt_addr` (physical address `phys_addr`).
    /// The length must be positive and at most one page.
    pub fn new_zeroed(len: usize, virt_addr: usize, phys_addr: usize) -> (r: UsbResult<Self>)
        ensures
            len == 0 ==> r == Err::<Self, UsbError>(UsbError::BufferTooSmall),
            len > PAGE_SIZE ==> r == Err::<Self, UsbError>(UsbError::BufferTooLarge),
            0 < len <= PAGE_SIZE ==> r is Ok && r->Ok_0@ == Seq::new(len as nat, |_i: int| 0u8)
                && r->Ok_0.spec_virt_addr() == virt_addr && r->Ok_0.spec_phys_addr() == phys_addr,
    {
        if len == 0 {
            return Err(UsbError::BufferTooSmall);
        }
        if len > PAGE_SIZE {
            return Err(UsbError::BufferTooLarge);
        }
        let data = vec![0u8; len];
        assert(data@ =~= Seq::new(len as nat, |_i: int| 0u8));
        Ok(Self { virt_addr, phys_addr, data })
    }

    pub fn len(&self) -> (n: usize)
        ensures
            n == self@.len(),
            0 < n <= PAGE_SIZE,
    {
        proof {
            use_type_invariant(self);
        }
        self.data.len()
    }

    pub fn virt_addr(&self) -> (a: usize)
        ensures
            a == self.spec_virt_addr(),
    {
        self.virt_addr
    }

    pub fn phys_addr(&self) -> (a: usize)
        ensures
            a == self.spec_phys_addr(),
    {
        self.phys_addr
    }

    /// The physical address as seen by a 32-bit DMA engine.
    pub fn phys_addr_u32(&self) -> (r: UsbResult<u32>)
        ensures
            self.spec_phys_addr() <= u32::MAX ==> r == Ok::<u32, UsbError>(self.spec_phys_addr() as u32),
            self.spec_phys_addr() > u32::MAX ==> r == Err::<u32, UsbError>(UsbError::Unsupported),
    {
        if self.phys_addr <= u32::MAX as usize {
            Ok(self.phys_addr as u32)
        } else {
            Err(UsbError::Unsupported)
        }
    }

    pub fn as_slice(&self) -> (s: &[u8])
        ensures
            s@ == self@,
    {
        self.data.as_slice()
    }

    /// Zeroes the buffer.
    pub fn clear(&mut self)
        ensures
            final(self)@ == Seq::new(old(self)@.len(), |_i: int| 0u8),
            final(self).spec_virt_addr() == old(self).spec_virt_addr(),
            final(self).spec_phys_addr() == old(self).spec_phys_addr(),
    {
        proof {
            use_type_invariant(&*self);
        }
        let n = self.data.len();
        let zeros = vec![0u8; n];
        assert(zeros@ =~= Seq::new(n as nat, |_i: int| 0u8));
        self.data = zeros;
    }

    /// Copies `bytes` to the start of the buffer and zeroes the rest; fails if they do not fit.
    pub fn write(&mut self, bytes: &[u8]) -> (r: UsbResult<()>)
        ensures
            bytes@.len() > old(self)@.len() ==> r == Err::<(), UsbError>(UsbError::BufferTooLarge)
                && final(self)@ == old(self)@,
            bytes@.len() <= old(self)@.len() ==> r is Ok && final(self)@ == bytes@ + Seq::new(
                (old(self)@.len() - bytes@.len()) as nat,
                |_i: int| 0u8,
            ),
            final(self).spec_virt_addr() == old(self).spec_virt_addr(),
            final(self).spec_phys_addr() == old(self).spec_phys_addr(),
    {
        proof {
            use_type_invariant(&*self);
        }
        if bytes.len() > self.data.len() {
            return Err(UsbError::BufferTooLarge);
        }
        let n = self.data.len();
        let mut data: Vec<u8> = Vec::with_capacity(n);
        let mut i: usize = 0;
        while i < n
            invariant
                0 < n <= PAGE_SIZE,
                bytes@.len() <= n,
                0 <= i <= n,
                data@.len() == i,
                forall|k: int| 0 <= k < i && k < bytes@.len() ==> data@[k] == bytes@[k],
                forall|k: int| 0 <= k < i && k >= bytes@.len() ==> data@[k] == 0,
            decreases n - i,
        {
            if i < bytes.len() {
                data.push(bytes[i]);
            } else {
                data.push(0);
            }
            i += 1;
        }
        assert(data@ =~= bytes@ + Seq::new((n - bytes@.len()) as nat, |_i: int| 0u8));
        self.data = data;
        Ok(())
    }
}

/// An endpoint address: the endpoint number in the low four bits, the direction in bit 7.
#[derive(Debug, Clone, Copy, PartialEq, Eq, Structural)]
pub struct EndpointAddress(pub u8);

impl EndpointAddress {
    pub fn new(raw: u8) -> (a: Self)
        ensures
            a.0 == raw,
    {
        Self(raw)
    }

    pub fn raw(self) -> (r: u8)
        ensures
            r == self.0,
    {
        self.0
    }

    pub fn number(self) -> (n: u8)
        ensures
            n == self.0 & 0x0F,
    {
        self.0 & 0x0F
    }

    pub open spec fn spec_direction(self) -> UsbDirection {
        if self.0 & USB_REQ_DIR_IN != 0 {
            UsbDirection::In
        } else {
            UsbDirection::Out
        }
    }

    pub fn direction(self) -> (d: UsbDirection)
        ensures
            d == self.spec_direction(),
    {
        UsbDirection::from_endpoint_address(self.0)
    }
}

#[derive(Debug, Clone, Copy, PartialEq, Eq, Structural)]
pub struct EndpointInfo {
    pub address: EndpointAddress,
    pub attributes: u8,
    pub max_packet_size: u16,
    pub interval: u8,
}

impl EndpointInfo {
    pub fn endpoint_type(self) -> (t: UsbEndpointType)
        ensures
            t == endpoint_type_of(self.attributes),
    {
        UsbEndpointType::from_attributes(self.attributes)
    }

    /// An interrupt endpoint whose data flows to the host.
    pub open spec fn is_interrupt_in(self) -> bool {
        &&& self.address.spec_direction() == UsbDirection::In
        &&& endpoint_type_of(self.attributes) == UsbEndpointType::Interrupt
    }
}

#[derive(Debug, Clone, Copy, PartialEq, Eq, Structural)]
pub struct DeviceDescriptorHeader {
    pub usb_version: u16,
    pub device_class: u8,
    pub device_subclass: u8,
    pub device_protocol: u8,
    pub max_packet_size0: u8,
}

#[derive(Debug, Clone, Copy, PartialEq, Eq, Structural)]
pub struct DeviceDescriptor {
    pub usb_version: u16,
    pub device_class: u8,
    pub device_subclass: u8,
    pub device_protocol: u8,
    pub max_packet_size0: u8,
    pub vendor_id: u16,
    pub product_id: u16,
    pub device_version: u16,
    pub manufacturer_index: u8,
    pub product_index: u8,
    pub serial_number_index: u8,
    pub num_configurations: u8,
}

#[derive(Debug, Clone, Copy, PartialEq, Eq, Structural)]
pub struct ConfigurationDescriptor {
    pub total_length: u16,
    pub num_interfaces: u8,
    pub configuration_value: u8,
    pub configuration_index: u8,
    pub attributes: u8,
    pub max_power: u8,
}

#[derive(Debug, Clone, Copy, PartialEq, Eq, Structural)]
pub struct InterfaceDescriptor {
    pub interface_number: u8,
    pub alternate_setting: u8,
    pub num_endpoints: u8,
    pub interface_class: u8,
    pub interface_subclass: u8,
    pub interface_protocol: u8,
    pub interface_index: u8,
}

#[derive(Debug, Clone, Copy, PartialEq, Eq, Structural)]
pub struct HidDescriptor {
    pub hid_version: u16,
    pub country_code: u8,
    pub num_descriptors: u8,
    pub report_descriptor_type: u8,
    pub report_descriptor_length: u16,
}

/// The 16-bit little-endian value at `offset`.
pub open spec fn le16_at(bytes: Seq<u8>, offset: int) -> u16 {
    u16_from_le(bytes[offset], bytes[offset + 1])
}

/// A descriptor of `min_len` bytes at least, whose length byte says so too, and of the given type.
pub open spec fn descriptor_header_ok(bytes: Seq<u8>, min_len: int, descriptor_type: u8) -> bool {
    &&& bytes.len() >= min_len
    &&& bytes[0] >= min_len
    &&& bytes[1] == descriptor_type
}

pub open spec fn spec_parse_device_descriptor_header(bytes: Seq<u8>) -> UsbResult<DeviceDescriptorHeader> {
    if !descriptor_header_ok(bytes, 8, USB_DESC_DEVICE) {
        Err(UsbError::InvalidDescriptor)
    } else {
        Ok(DeviceDescriptorHeader {
            usb_version: le16_at(bytes, 2),
            device_class: bytes[4],
            device_subclass: bytes[5],
            device_protocol: bytes[6],
            max_packet_size0: bytes[7],
        })
    }
}

pub open spec fn spec_parse_device_descriptor(bytes: Seq<u8>) -> UsbResult<DeviceDescriptor> {
    if !descriptor_header_ok(bytes, 18, USB_DESC_DEVICE) {
        Err(UsbError::InvalidDescriptor)
    } else {
        Ok(DeviceDescriptor {
            usb_version: le16_at(bytes, 2),
            device_class: bytes[4],
            device_subclass: bytes[5],
            device_protocol: bytes[6],
            max_packet_size0: bytes[7],
            vendor_id: le16_at(bytes, 8),
            product_id: le16_at(bytes, 10),
            device_version: le16_at(bytes, 12),
            manufacturer_index: bytes[14],
            product_index: bytes[15],
            serial_number_index: bytes[16],
            num_configurations: bytes[17],
        })
    }
}

pub open spec fn spec_parse_configuration_descriptor(bytes: Seq<u8>) -> UsbResult<ConfigurationDescriptor> {
    if !descriptor_header_ok(bytes, 9, USB_DESC_CONFIGURATION) {
        Err(UsbError::InvalidDescriptor)
    } else {
        Ok(ConfigurationDescriptor {
            total_length: le16_at(bytes, 2),
            num_interfaces: bytes[4],
            configuration_value: bytes[5],
            configuration_index: bytes[6],
            attributes: bytes[7],
            max_power: bytes[8],
        })
    }
}

pub open spec fn spec_parse_interface_descriptor(bytes: Seq<u8>) -> UsbResult<InterfaceDescriptor> {
    if !descriptor_header_ok(bytes, 9, USB_DESC_INTERFACE) {
        Err(UsbError::InvalidDescriptor)
    } else {
        Ok(InterfaceDescriptor {
            interface_number: bytes[2],
            alternate_setting: bytes[3],
            num_endpoints: bytes[4],
            interface_class: bytes[5],
            interface_subclass: bytes[6],
            interface_protocol: bytes[7],
            interface_index: bytes[8],
        })
    }
}

pub open spec fn spec_parse_endpoint_descriptor(bytes: Seq<u8>) -> UsbResult<EndpointInfo> {
    if !descriptor_header_ok(bytes, 7, USB_DESC_ENDPOINT) {
        Err(UsbError::InvalidDescriptor)
    } else {
        Ok(EndpointInfo {
            address: EndpointAddress(bytes[2]),
            attributes: bytes[3],
            max_packet_size: le16_at(bytes, 4),
            interval: bytes[6],
        })
    }
}

pub open spec fn spec_parse_hid_descriptor(bytes: Seq<u8>) -> UsbResult<HidDescriptor> {
    if !descriptor_header_ok(bytes, 9, USB_DESC_HID) {
        Err(UsbError::InvalidDescriptor)
    } else {
        Ok(HidDescriptor {
            hid_version: le16_at(bytes, 2),
            country_code: bytes[4],
            num_descriptors: bytes[5],
            report_descriptor_type: bytes[6],
            report_descriptor_length: le16_at(bytes, 7),
        })
    }
}

/// The device descriptor header is read from the first eight bytes of the USB 2.0 layout: it
/// parses exactly when there are eight bytes, the length byte is at least eight and the type
/// byte is 1, and then bcdUSB is bytes 2-3 (little-endian), class, subclass and protocol bytes
/// 4, 5 and 6, and the packet size of endpoint 0 byte 7.
pub proof fn lemma_device_descriptor_header_layout(bytes: Seq<u8>)
    ensures
        spec_parse_device_descriptor_header(bytes) is Ok <==> (bytes.len() >= 8 && bytes[0] >= 8 && bytes[1] == 1),
        spec_parse_device_descriptor_header(bytes) matches Ok(h) ==> {
            &&& h.usb_version == bytes[2] + 256 * bytes[3]
            &&& h.device_class == bytes[4]
            &&& h.device_subclass == bytes[5]
            &&& h.device_protocol == bytes[6]
            &&& h.max_packet_size0 == bytes[7]
        },
{
}

/// The device descriptor is read from the eighteen bytes of the USB 2.0 layout: it parses
/// exactly when there are eighteen bytes, the length byte is at least eighteen and the type byte
/// is 1, and then each field is the bytes at its offset (16-bit fields little-endian): bcdUSB
/// 2-3, class 4, subclass 5, protocol 6, packet size 7, idVendor 8-9, idProduct 10-11,
/// bcdDevice 12-13, string indices 14, 15 and 16, and the number of configurations 17.
pub proof fn lemma_device_descriptor_layout(bytes: Seq<u8>)
    ensures
        spec_parse_device_descriptor(bytes) is Ok <==> (bytes.len() >= 18 && bytes[0] >= 18 && bytes[1] == 1),
        spec_parse_device_descriptor(bytes) matches Ok(d) ==> {
            &&& d.usb_version == bytes[2] + 256 * bytes[3]
            &&& d.device_class == bytes[4]
            &&& d.device_subclass == bytes[5]
            &&& d.device_protocol == bytes[6]
            &&& d.max_packet_size0 == bytes[7]
            &&& d.vendor_id == bytes[8] + 256 * bytes[9]
            &&& d.product_id == bytes[10] + 256 * bytes[11]
            &&& d.device_version == bytes[12] + 256 * bytes[13]
            &&& d.manufacturer_index == bytes[14]
            &&& d.product_index == bytes[15]
            &&& d.serial_number_index == bytes[16]
            &&& d.num_configurations == bytes[17]
        },
{
}

/// The configuration descriptor is read from the nine bytes of the USB 2.0 layout: it parses
/// exactly when there are nine bytes, the length byte is at least nine and the type byte is 2,
/// and then wTotalLength is bytes 2-3 (little-endian), the number of interfaces byte 4, the
/// configuration value byte 5, its string index byte 6, the attributes byte 7 and the power
/// byte 8.
pub proof fn lemma_configuration_descriptor_layout(bytes: Seq<u8>)
    ensures
        spec_parse_configuration_descriptor(bytes) is Ok <==> (bytes.len() >= 9 && bytes[0] >= 9 && bytes[1] == 2),
        spec_parse_configuration_descriptor(bytes) matches Ok(c) ==> {
            &&& c.total_length == bytes[2] + 256 * bytes[3]
            &&& c.num_interfaces == bytes[4]
            &&& c.configuration_value == bytes[5]
            &&& c.configuration_index == bytes[6]
            &&& c.attributes == bytes[7]
            &&& c.max_power == bytes[8]
        },
{
}

/// The interface descriptor is read from the nine bytes of the USB 2.0 layout: it parses
/// exactly when there are nine bytes, the length byte is at least nine and the type byte is 4,
/// and then the interface number is byte 2, the alternate setting byte 3, the number of
/// endpoints byte 4, class, subclass and protocol bytes 5, 6 and 7, and the string index byte 8.
pub proof fn lemma_interface_descriptor_layout(bytes: Seq<u8>)
    ensures
        spec_parse_interface_descriptor(bytes) is Ok <==> (bytes.len() >= 9 && bytes[0] >= 9 && bytes[1] == 4),
        spec_parse_interface_descriptor(bytes) matches Ok(i) ==> {
            &&& i.interface_number == bytes[2]
            &&& i.alternate_setting == bytes[3]
            &&& i.num_endpoints == bytes[4]
            &&& i.interface_class == bytes[5]
            &&& i.interface_subclass == bytes[6]
            &&& i.interface_protocol == bytes[7]
            &&& i.interface_index == bytes[8]
        },
{
}

/// The endpoint descriptor is read from the seven bytes of the USB 2.0 layout: it parses
/// exactly when there are seven bytes, the length byte is at least seven and the type byte is
/// 5, and then the endpoint address is byte 2, the attributes byte 3, wMaxPacketSize bytes 4-5
/// (little-endian) and the polling interval byte 6.
pub proof fn lemma_endpoint_descriptor_layout(bytes: Seq<u8>)
    ensures
        spec_parse_endpoint_descriptor(bytes) is Ok <==> (bytes.len() >= 7 && bytes[0] >= 7 && bytes[1] == 5),
        spec_parse_endpoint_descriptor(bytes) matches Ok(e) ==> {
            &&& e.address.0 == bytes[2]
            &&& e.attributes == bytes[3]
            &&& e.max_packet_size == bytes[4] + 256 * bytes[5]
            &&& e.interval == bytes[6]
        },
{
}

/// The HID descriptor is read from the nine bytes of the HID 1.11 layout: it parses exactly
/// when there are nine bytes, the length byte is at least nine and the type byte is 0x21, and
/// then bcdHID is bytes 2-3 (little-endian), the country code byte 4, the number of class
/// descriptors byte 5, the report descriptor's type byte 6 and its length bytes 7-8.
pub proof fn lemma_hid_descriptor_layout(bytes: Seq<u8>)
    ensures
        spec_parse_hid_descriptor(bytes) is Ok <==> (bytes.len() >= 9 && bytes[0] >= 9 && bytes[1] == 0x21),
        spec_parse_hid_descriptor(bytes) matches Ok(h) ==> {
            &&& h.hid_version == bytes[2] + 256 * bytes[3]
            &&& h.country_code == bytes[4]
            &&& h.num_descriptors == bytes[5]
            &&& h.report_descriptor_type == bytes[6]
            &&& h.report_descriptor_length == bytes[7] + 256 * bytes[8]
        },
{
}

/// An interrupt IN endpoint is one whose address has the direction bit (bit 7) set and whose
/// transfer type (the low two bits of the attributes) is 3.
pub proof fn lemma_interrupt_in_bits(e: EndpointInfo)
    ensures
        e.is_interrupt_in() <==> (e.address.0 & 0x80 != 0 && e.attributes & 0x03 == 3),
{
    let a = e.attributes;
    assert(a & 0x03 <= 3) by (bit_vector);
}

/// The 16-bit little-endian value at `offset`, if two bytes are there.
fn read_u16_le(bytes: &[u8], offset: usize) -> (r: Option<u16>)
    ensures
        offset + 2 <= bytes@.len() ==> r == Some(le16_at(bytes@, offset as int)),
        offset + 2 > bytes@.len() ==> r is None,
{
    if offset >= bytes.len() || bytes.len() - offset < 2 {
        return None;
    }
    let lo = bytes[offset] as u16;
    let hi = bytes[offset + 1] as u16;
    Some(lo + hi * 256)
}

/// Whether `bytes` starts a descriptor of `min_len` bytes at least, of the given type.
fn header_ok(bytes: &[u8], min_len: u8, descriptor_type: u8) -> (b: bool)
    requires
        min_len >= 2,
    ensures
        b == descriptor_header_ok(bytes@, min_len as int, descriptor_type),
{
    bytes.len() >= min_len as usize && bytes[0] >= min_len && bytes[1] == descriptor_type
}

pub fn parse_device_descriptor_header(bytes: &[u8]) -> (r: UsbResult<DeviceDescriptorHeader>)
    ensures
        r == spec_parse_device_descriptor_header(bytes@),
{
    if !header_ok(bytes, 8, USB_DESC_DEVICE) {
        return Err(UsbError::InvalidDescriptor);
    }
    let usb_version = match read_u16_le(bytes, 2) {
        Some(v) => v,
        None => return Err(UsbError::InvalidDescriptor),
    };
    Ok(DeviceDescriptorHeader {
        usb_version,
        device_class: bytes[4],
        device_subclass: bytes[5],
        device_protocol: bytes[6],
        max_packet_size0: bytes[7],
    })
}

pub fn parse_device_descriptor(bytes: &[u8]) -> (r: UsbResult<DeviceDescriptor>)
    ensures
        r == spec_parse_device_descriptor(bytes@),
{
    if !header_ok(bytes, 18, USB_DESC_DEVICE) {
        return Err(UsbError::InvalidDescriptor);
    }
    let usb_version = match read_u16_le(bytes, 2) {
        Some(v) => v,
        None => return Err(UsbError::InvalidDescriptor),
    };
    let vendor_id = match read_u16_le(bytes, 8) {
        Some(v) => v,
        None => return Err(UsbError::InvalidDescriptor),
    };
    let product_id = match read_u16_le(bytes, 10) {
        Some(v) => v,
        None => return Err(UsbError::InvalidDescriptor),
    };
    let device_version = match read_u16_le(bytes, 12) {
        Some(v) => v,
        None => return Err(UsbError::InvalidDescriptor),
    };
    Ok(DeviceDescriptor {
        usb_version,
        device_class: bytes[4],
        device_subclass: bytes[5],
        device_protocol: bytes[6],
        max_packet_size0: bytes[7],
        vendor_id,
        product_id,
        device_version,
        manufacturer_index: bytes[14],
        product_index: bytes[15],
        serial_number_index: bytes[16],
        num_configurations: bytes[17],
    })
}

pub fn parse_configuration_descriptor(bytes: &[u8]) -> (r: UsbResult<ConfigurationDescriptor>)
    ensures
        r == spec_parse_configuration_descriptor(bytes@),
{
    if !header_ok(bytes, 9, USB_DESC_CONFIGURATION) {
        return Err(UsbError::InvalidDescriptor);
    }
    let total_length = match read_u16_le(bytes, 2) {
        Some(v) => v,
        None => return Err(UsbError::InvalidDescriptor),
    };
    Ok(ConfigurationDescriptor {
        total_length,
        num_interfaces: bytes[4],
        configuration_value: bytes[5],
        configuration_index: bytes[6],
        attributes: bytes[7],
        max_power: bytes[8],
    })
}

pub fn parse_interface_descriptor(bytes: &[u8]) -> (r: UsbResult<InterfaceDescriptor>)
    ensures
        r == spec_parse_interface_descriptor(bytes@),
{
    if !header_ok(bytes, 9, USB_DESC_INTERFACE) {
        return Err(UsbError::InvalidDescriptor);
    }
    Ok(InterfaceDescriptor {
        interface_number: bytes[2],
        alternate_setting: bytes[3],
        num_endpoints: bytes[4],
        interface_class: bytes[5],
        interface_subclass: bytes[6],
        interface_protocol: bytes[7],
        interface_index: bytes[8],
    })
}

pub fn parse_endpoint_descriptor(bytes: &[u8]) -> (r: UsbResult<EndpointInfo>)
    ensures
        r == spec_parse_endpoint_descriptor(bytes@),
{
    if !header_ok(bytes, 7, USB_DESC_ENDPOINT) {
        return Err(UsbError::InvalidDescriptor);
    }
    let max_packet_size = match read_u16_le(bytes, 4) {
        Some(v) => v,
        None => return Err(UsbError::InvalidDescriptor),
    };
    Ok(EndpointInfo {
        address: EndpointAddress::new(bytes[2]),
        attributes: bytes[3],
        max_packet_size,
        interval: bytes[6],
    })
}

pub fn parse_hid_descriptor(bytes: &[u8]) -> (r: UsbResult<HidDescriptor>)
    ensures
        r == spec_parse_hid_descriptor(bytes@),
{
    if !header_ok(bytes, 9, USB_DESC_HID) {
        return Err(UsbError::InvalidDescriptor);
    }
    let hid_version = match read_u16_le(bytes, 2) {
        Some(v) => v,
        None => return Err(UsbError::InvalidDescriptor),
    };
    let report_descriptor_length = match read_u16_le(bytes, 7) {
        Some(v) => v,
        None => return Err(UsbError::InvalidDescriptor),
    };
    Ok(HidDescriptor {
        hid_version,
        country_code: bytes[4],
        num_descriptors: bytes[5],
        report_descriptor_type: bytes[6],
        report_descriptor_length,
    })
}

/// One descriptor of a configuration: its bytes, starting with the length and type bytes.
#[derive(Clone, Copy)]
pub struct RawDescriptor<'a> {
    bytes: &'a [u8],
}

/// The type byte of a descriptor, 0 if it is missing.
pub open spec fn descriptor_type_of(bytes: Seq<u8>) -> u8 {
    if bytes.len() > 1 {
        bytes[1]
    } else {
        0
    }
}

impl<'a> RawDescriptor<'a> {
    pub closed spec fn view(&self) -> Seq<u8> {
        self.bytes@
    }

    pub fn bytes(self) -> (b: &'a [u8])
        ensures
            b@ == self@,
    {
        self.bytes
    }

    pub fn length(self) -> (n: usize)
        ensures
            n == self@.len(),
    {
        self.bytes.len()
    }

    pub fn descriptor_type(self) -> (t: u8)
        ensures
            t == descriptor_type_of(self@),
    {
        if self.bytes.len() > 1 {
            self.bytes[1]
        } else {
            0
        }
    }

    pub fn as_device_header(self) -> (r: UsbResult<DeviceDescriptorHeader>)
        ensures
            r == spec_parse_device_descriptor_header(self@),
    {
        parse_device_descriptor_header(self.bytes)
    }

    pub fn as_device(self) -> (r: UsbResult<DeviceDescriptor>)
        ensures
            r == spec_parse_device_descriptor(self@),
    {
        parse_device_descriptor(self.bytes)
    }

    pub fn as_configuration(self) -> (r: UsbResult<ConfigurationDescriptor>)
        ensures
            r == spec_parse_configuration_descriptor(self@),
    {
        parse_configuration_descriptor(self.bytes)
    }

    pub fn as_interface(self) -> (r: UsbResult<InterfaceDescriptor>)
        ensures
            r == spec_parse_interface_descriptor(self@),
    {
        parse_interface_descriptor(self.bytes)
    }

    pub fn as_endpoint(self) -> (r: UsbResult<EndpointInfo>)
        ensures
            r == spec_parse_endpoint_descriptor(self@),
    {
        parse_endpoint_descriptor(self.bytes)
    }

    pub fn as_hid(self) -> (r: UsbResult<HidDescriptor>)
        ensures
            r == spec_parse_hid_descriptor(self@),
    {
        parse_hid_descriptor(self.bytes)
    }
}

/// The descriptors that follow one another in `bytes` from `offset` on: each starts with its
/// length byte; the walk stops at the end of the bytes, or at a descriptor whose length is
/// below two or runs past the end.
pub open spec fn descriptor_list(bytes: Seq<u8>, offset: int) -> Seq<Seq<u8>>
    decreases bytes.len() - offset,
{
    if offset < 0 || offset + 2 > bytes.len() {
        Seq::empty()
    } else {
        let length = bytes[offset] as int;
        if length < 2 || offset + length > bytes.len() {
            Seq::empty()
        } else {
            seq![bytes.subrange(offset, offset + length)] + descriptor_list(bytes, offset + length)
        }
    }
}

/// Walks the descriptors of a configuration, one after the other.
pub struct DescriptorIter<'a> {
    bytes: &'a [u8],
    offset: usize,
}

impl<'a> DescriptorIter<'a> {
    #[verifier::type_invariant]
    spec fn inv(self) -> bool {
        self.offset <= self.bytes@.len()
    }

    /// The descriptors not yet returned.
    pub closed spec fn view(&self) -> Seq<Seq<u8>> {
        descriptor_list(self.bytes@, self.offset as int)
    }

    pub fn new(bytes: &'a [u8]) -> (it: Self)
        ensures
            it@ == descriptor_list(bytes@, 0),
    {
        Self { bytes, offset: 0 }
    }

    /// The next descriptor, if any.
    pub fn next(&mut self) -> (r: Option<RawDescriptor<'a>>)
        ensures
            old(self)@.len() == 0 ==> r is None && final(self)@.len() == 0,
            old(self)@.len() > 0 ==> r is Some && r->Some_0@ == old(self)@[0] && final(self)@
                == old(self)@.drop_first(),
    {
        proof {
            use_type_invariant(&*self);
        }
        let n = self.bytes.len();
        if n < 2 || self.offset > n - 2 {
            return None;
        }

        let length = self.bytes[self.offset] as usize;
        if length < 2 || length > n - self.offset {
            self.offset = n;
            return None;
        }

        let start = self.offset;
        let descriptor = RawDescriptor {
            bytes: vstd::slice::slice_subrange(self.bytes, start, start + length),
        };
        self.offset = start + length;
        Some(descriptor)
    }
}

pub fn descriptor_iter(bytes: &[u8]) -> (it: DescriptorIter<'_>)
    ensures
        it@ == descriptor_list(bytes@, 0),
{
    DescriptorIter::new(bytes)
}

/// What the descriptor walk hands out tiles the bytes it walked: the descriptors, laid end to
/// end, are the bytes from `offset` on up to where the walk stopped, and each descriptor is at
/// least two bytes long and as long as its own length byte says.
pub proof fn lemma_descriptor_list_tiles(bytes: Seq<u8>, offset: int)
    requires
        0 <= offset <= bytes.len(),
    ensures
        offset + descriptor_list(bytes, offset).flatten().len() <= bytes.len(),
        descriptor_list(bytes, offset).flatten() == bytes.subrange(
            offset,
            offset + descriptor_list(bytes, offset).flatten().len(),
        ),
        forall|i: int|
            0 <= i < descriptor_list(bytes, offset).len() ==> {
                let d = #[trigger] descriptor_list(bytes, offset)[i];
                &&& d.len() >= 2
                &&& d[0] as int == d.len()
            },
    decreases bytes.len() - offset,
{
    let list = descriptor_list(bytes, offset);
    if offset + 2 > bytes.len() || (bytes[offset] as int) < 2 || offset + bytes[offset] as int
        > bytes.len() {
        assert(list.len() == 0);
        assert(list.flatten() =~= bytes.subrange(offset, offset));
    } else {
        let length = bytes[offset] as int;
        let rest = descriptor_list(bytes, offset + length);
        lemma_descriptor_list_tiles(bytes, offset + length);
        let head = bytes.subrange(offset, offset + length);
        assert(list == seq![head] + rest);
        assert(list.first() == head);
        assert(list.drop_first() =~= rest);
        assert(list.flatten() == head + rest.flatten());
        assert(list.flatten() =~= bytes.subrange(offset, offset + list.flatten().len()));
        assert forall|i: int| 0 <= i < list.len() implies {
            let d = #[trigger] list[i];
            &&& d.len() >= 2
            &&& d[0] as int == d.len()
        } by {
            if i > 0 {
                assert(list[i] == rest[i - 1]);
            }
        }
    }
}

/// The first interface descriptor in `list` of the given class, subclass and protocol.
pub open spec fn first_interface(
    list: Seq<Seq<u8>>,
    interface_class: u8,
    interface_subclass: u8,
    interface_protocol: u8,
) -> Option<InterfaceDescriptor>
    decreases list.len(),
{
    if list.len() == 0 {
        None
    } else {
        let parsed = spec_parse_interface_descriptor(list[0]);
        if parsed is Ok && parsed->Ok_0.interface_class == interface_class
            && parsed->Ok_0.interface_subclass == interface_subclass
            && parsed->Ok_0.interface_protocol == interface_protocol {
            Some(parsed->Ok_0)
        } else {
            first_interface(list.drop_first(), interface_class, interface_subclass, interface_protocol)
        }
    }
}

/// The first interrupt IN endpoint of the interface `interface_number` in `list`, given the
/// interface number of the last interface descriptor seen before `list` (`active`). The search
/// gives up at an endpoint descriptor of that interface that does not parse.
pub open spec fn first_interrupt_in_endpoint(
    list: Seq<Seq<u8>>,
    active: Option<u8>,
    interface_number: u8,
) -> Option<EndpointInfo>
    decreases list.len(),
{
    if list.len() == 0 {
        None
    } else {
        let d = list[0];
        let rest = list.drop_first();
        if descriptor_type_of(d) == USB_DESC_INTERFACE {
            let parsed = spec_parse_interface_descriptor(d);
            let next_active = if parsed is Ok {
                Some(parsed->Ok_0.interface_number)
            } else {
                None
            };
            first_interrupt_in_endpoint(rest, next_active, interface_number)
        } else if descriptor_type_of(d) == USB_DESC_ENDPOINT && active == Some(interface_number) {
            let parsed = spec_parse_endpoint_descriptor(d);
            if parsed is Err {
                None
            } else if parsed->Ok_0.is_interrupt_in() {
                Some(parsed->Ok_0)
            } else {
                first_interrupt_in_endpoint(rest, active, interface_number)
            }
        } else {
            first_interrupt_in_endpoint(rest, active, interface_number)
        }
    }
}

/// The descriptor `d` is an interface descriptor with the class, subclass and protocol asked
/// for (bytes 5, 6 and 7).
pub open spec fn interface_matches(d: Seq<u8>, interface_class: u8, interface_subclass: u8, interface_protocol: u8) -> bool {
    &&& d.len() >= 9
    &&& d[0] >= 9
    &&& d[1] == 4
    &&& d[5] == interface_class
    &&& d[6] == interface_subclass
    &&& d[7] == interface_protocol
}

/// The interface search finds the first descriptor of the list that is an interface of the
/// class, subclass and protocol asked for, and returns it parsed; where there is none, it finds
/// nothing.
pub proof fn lemma_first_interface(list: Seq<Seq<u8>>, interface_class: u8, interface_subclass: u8, interface_protocol: u8)
    ensures
        first_interface(list, interface_class, interface_subclass, interface_protocol) matches Some(i) ==> {
            &&& i.interface_class == interface_class
            &&& i.interface_subclass == interface_subclass
            &&& i.interface_protocol == interface_protocol
            &&& exists|k: int|
                0 <= k < list.len() && interface_matches(list[k], interface_class, interface_subclass, interface_protocol)
                    && #[trigger] spec_parse_interface_descriptor(list[k]) == Ok::<InterfaceDescriptor, UsbError>(i)
                    && forall|j: int| 0 <= j < k ==> !interface_matches(#[trigger] list[j], interface_class, interface_subclass, interface_protocol)
        },
        first_interface(list, interface_class, interface_subclass, interface_protocol) is None ==> forall|k: int|
            0 <= k < list.len() ==> !interface_matches(#[trigger] list[k], interface_class, interface_subclass, interface_protocol),
    decreases list.len(),
{
    if list.len() > 0 {
        let rest = list.drop_first();
        lemma_first_interface(rest, interface_class, interface_subclass, interface_protocol);
        lemma_interface_descriptor_layout(list[0]);
        let found = first_interface(list, interface_class, interface_subclass, interface_protocol);
        if interface_matches(list[0], interface_class, interface_subclass, interface_protocol) {
            assert(found == Some(spec_parse_interface_descriptor(list[0])->Ok_0));
            assert(spec_parse_interface_descriptor(list[0]) == Ok::<InterfaceDescriptor, UsbError>(found->Some_0));
        } else {
            assert(found == first_interface(rest, interface_class, interface_subclass, interface_protocol));
            match found {
                Some(i) => {
                    let k = choose|k: int|
                        0 <= k < rest.len() && interface_matches(rest[k], interface_class, interface_subclass, interface_protocol)
                            && #[trigger] spec_parse_interface_descriptor(rest[k]) == Ok::<InterfaceDescriptor, UsbError>(i)
                            && forall|j: int| 0 <= j < k ==> !interface_matches(#[trigger] rest[j], interface_class, interface_subclass, interface_protocol);
                    assert(list[k + 1] == rest[k]);
                    assert forall|j: int| 0 <= j < k + 1 implies !interface_matches(#[trigger] list[j], interface_class, interface_subclass, interface_protocol) by {
                        if j > 0 {
                            assert(list[j] == rest[j - 1]);
                        }
                    }
                    assert(spec_parse_interface_descriptor(list[k + 1]) == Ok::<InterfaceDescriptor, UsbError>(i));
                },
                None => {
                    assert forall|k: int| 0 <= k < list.len() implies !interface_matches(#[trigger] list[k], interface_class, interface_subclass, interface_protocol) by {
                        if k > 0 {
                            assert(list[k] == rest[k - 1]);
                        }
                    }
                },
            }
        }
    }
}

/// The endpoint search returns an interrupt IN endpoint (direction bit 7 of the address set,
/// transfer type 3 in the low bits of the attributes) parsed from an endpoint descriptor of the
/// list.
pub proof fn lemma_first_interrupt_in_endpoint(list: Seq<Seq<u8>>, active: Option<u8>, interface_number: u8)
    ensures
        first_interrupt_in_endpoint(list, active, interface_number) matches Some(e) ==> {
            &&& e.address.0 & 0x80 != 0
            &&& e.attributes & 0x03 == 3
            &&& exists|k: int| 0 <= k < list.len() && #[trigger] spec_parse_endpoint_descriptor(list[k]) == Ok::<EndpointInfo, UsbError>(e)
        },
    decreases list.len(),
{
    if list.len() > 0 {
        let rest = list.drop_first();
        let d = list[0];
        let found = first_interrupt_in_endpoint(list, active, interface_number);
        if descriptor_type_of(d) == USB_DESC_INTERFACE {
            let parsed = spec_parse_interface_descriptor(d);
            let next_active = if parsed is Ok { Some(parsed->Ok_0.interface_number) } else { None };
            lemma_first_interrupt_in_endpoint(rest, next_active, interface_number);
        } else {
            lemma_first_interrupt_in_endpoint(rest, active, interface_number);
        }
        if let Some(e) = found {
            lemma_interrupt_in_bits(e);
            if descriptor_type_of(d) == USB_DESC_ENDPOINT && active == Some(interface_number)
                && spec_parse_endpoint_descriptor(d) is Ok && spec_parse_endpoint_descriptor(d)->Ok_0.is_interrupt_in() {
                assert(spec_parse_endpoint_descriptor(list[0]) == Ok::<EndpointInfo, UsbError>(e));
            } else {
                let k = choose|k: int| 0 <= k < rest.len() && #[trigger] spec_parse_endpoint_descriptor(rest[k]) == Ok::<EndpointInfo, UsbError>(e);
                assert(list[k + 1] == rest[k]);
                assert(spec_parse_endpoint_descriptor(list[k + 1]) == Ok::<EndpointInfo, UsbError>(e));
            }
        }
    }
}

/// The first interface of the given class, subclass and protocol among the descriptors of a
/// configuration.
pub fn find_interface(
    descriptors: &[u8],
    interface_class: u8,
    interface_subclass: u8,
    interface_protocol: u8,
) -> (r: Option<InterfaceDescriptor>)
    ensures
        r == first_interface(
            descriptor_list(descriptors@, 0),
            interface_class,
            interface_subclass,
            interface_protocol,
        ),
{
    let mut it = descriptor_iter(descriptors);
    let ghost goal = first_interface(
        descriptor_list(descriptors@, 0),
        interface_class,
        interface_subclass,
        interface_protocol,
    );
    loop
        invariant
            goal == first_interface(
                descriptor_list(descriptors@, 0),
                interface_class,
                interface_subclass,
                interface_protocol,
            ),
            goal == first_interface(it@, interface_class, interface_subclass, interface_protocol),
        decreases it@.len(),
    {
        let ghost remaining = it@;
        match it.next() {
            None => {
                return None;
            },
            Some(descriptor) => {
                match descriptor.as_interface() {
                    Ok(interface) => {
                        if interface.interface_class == interface_class
                            && interface.interface_subclass == interface_subclass
                            && interface.interface_protocol == interface_protocol {
                            return Some(interface);
                        }
                    },
                    Err(_) => {},
                }
                assert(it@ == remaining.drop_first());
            },
        }
    }
}

/// The first interrupt IN endpoint that the descriptors of a configuration list after the
/// interface descriptor of `interface_number`.
pub fn find_interrupt_in_endpoint(descriptors: &[u8], interface_number: u8) -> (r: Option<EndpointInfo>)
    ensures
        r == first_interrupt_in_endpoint(descriptor_list(descriptors@, 0), None, interface_number),
{
    let mut active_interface: Option<u8> = None;
    let mut it = descriptor_iter(descriptors);
    let ghost goal = first_interrupt_in_endpoint(descriptor_list(descriptors@, 0), None, interface_number);

    loop
        invariant
            goal == first_interrupt_in_endpoint(descriptor_list(descriptors@, 0), None, interface_number),
            goal == first_interrupt_in_endpoint(it@, active_interface, interface_number),
        decreases it@.len(),
    {
        let descriptor = match it.next() {
            None => return None,
            Some(d) => d,
        };
        let t = descriptor.descriptor_type();
        if t == USB_DESC_INTERFACE {
            active_interface = match descriptor.as_interface() {
                Ok(interface) => Some(interface.interface_number),
                Err(_) => None,
            };
        } else if t == USB_DESC_ENDPOINT && active_interface == Some(interface_number) {
            let endpoint = match descriptor.as_endpoint() {
                Ok(e) => e,
                Err(_) => return None,
            };
            if endpoint.address.direction() == UsbDirection::In && endpoint.endpoint_type()
                == UsbEndpointType::Interrupt {
                return Some(endpoint);
            }
        }
    }
}

/// Receives the data of an interrupt IN transfer.
pub trait InterruptInHandler {
    fn handle_interrupt_in(&self, data: &[u8]);

    fn handle_interrupt_error(&self, error: UsbError) {
    }
}

/// A periodic interrupt IN transfer: where the endpoint is, how many bytes a report holds, the
/// DMA buffer that receives it and the handler that consumes it.
pub struct InterruptInTransfer {
    pub route: UsbRoute,
    pub endpoint: EndpointInfo,
    pub expected_len: usize,
    pub buffer: UsbDmaBuffer,
    pub handler: Arc<dyn InterruptInHandler>,
}

impl InterruptInTransfer {
    /// The endpoint must be an interrupt IN endpoint and a report must fit the buffer.
    pub fn validate(&self) -> (r: UsbResult<()>)
        ensures
            r == if !self.endpoint.is_interrupt_in() {
                Err(UsbError::InvalidEndpoint)
            } else if self.expected_len == 0 || self.expected_len > self.buffer@.len() {
                Err(UsbError::BufferTooSmall)
            } else {
                Ok(())
            },
    {
        if self.endpoint.address.direction() != UsbDirection::In {
            return Err(UsbError::InvalidEndpoint);
        }

        if self.endpoint.endpoint_type() != UsbEndpointType::Interrupt {
            return Err(UsbError::InvalidEndpoint);
        }

        if self.expected_len == 0 || self.expected_len > self.buffer.len() {
            return Err(UsbError::BufferTooSmall);
        }

        Ok(())
    }
}

/// A USB host controller.
pub trait UsbHostController: Device {
    fn root_port_connected(&self) -> bool;

    fn reset_root_port(&self) -> UsbResult<UsbSpeed>;

    /// This controller may answer the control transfer of `setup` to the device at `route`
    /// (endpoint 0 packets of at most `max_packet_size` bytes), sending `sent` in its data
    /// stage and leaving `received` in the buffer of a data stage to the host, with `r`. A
    /// controller states here what it does; where it states nothing, any answer may come.
    open spec fn control_outcome(
        &self,
        route: UsbRoute,
        max_packet_size: u16,
        setup: SetupPacket,
        sent: Seq<u8>,
        received: Seq<u8>,
        r: UsbResult<usize>,
    ) -> bool {
        true
    }

    fn control_transfer(
        &self,
        route: UsbRoute,
        max_packet_size: u16,
        setup: &SetupPacket,
        data: ControlTransferData<'_>,
    ) -> (r: UsbResult<usize>)
        ensures
            match data {
                ControlTransferData::In(buffer) => self.control_outcome(
                    route,
                    max_packet_size,
                    *setup,
                    Seq::empty(),
                    final(buffer)@,
                    r,
                ),
                _ => self.control_outcome(route, max_packet_size, *setup, data.sent_bytes(), Seq::empty(), r),
            },
    ;

    fn submit_interrupt_in(&self, transfer: InterruptInTransfer) -> UsbResult<()>;

    fn cancel_interrupt_in(&self, route: UsbRoute, endpoint: EndpointAddress) -> UsbResult<()> {
        Err(UsbError::Unsupported)
    }

    /// Drive any background interrupt transfers (re-arm due polls, run the in-flight watchdog).
    /// Intended to be called periodically from a dedicated task so servicing is not coupled to
    /// the input-consuming loop. Default is a no-op for controllers that do not need it.
    fn poll_interrupt_transfers(&self) {
    }
}

/// The wLength of a data stage of `len` bytes: at most what 16 bits hold.
pub open spec fn setup_length(len: nat) -> u16 {
    if len < u16::MAX {
        len as u16
    } else {
        u16::MAX
    }
}

/// The setup packet of a control request to the host with a data stage of `len` bytes.
pub open spec fn in_setup(request_type: u8, request: u8, value: u16, index: u16, len: nat) -> SetupPacket {
    SetupPacket {
        request_type: request_type | USB_REQ_DIR_IN,
        request,
        value,
        index,
        length: setup_length(len),
    }
}

/// The setup packet of a control request to the device with a data stage of `len` bytes (none
/// when `len` is 0).
pub open spec fn out_setup(request_type: u8, request: u8, value: u16, index: u16, len: nat) -> SetupPacket {
    SetupPacket {
        request_type: request_type & !USB_REQ_DIR_IN,
        request,
        value,
        index,
        length: setup_length(len),
    }
}

/// The outcome of a request without data stage, from what the controller answered.
pub open spec fn no_data_of(reported: UsbResult<usize>) -> UsbResult<()> {
    match reported {
        Ok(_) => Ok(()),
        Err(e) => Err(e),
    }
}

/// A request without data stage of `setup` answered by `controller` with `r`: `r` comes from
/// an answer the controller may give.
pub open spec fn no_data_answered<C: UsbHostController + ?Sized>(
    controller: &C,
    route: UsbRoute,
    max_packet_size: u16,
    setup: SetupPacket,
    r: UsbResult<()>,
) -> bool {
    exists|reported: UsbResult<usize>|
        #[trigger] controller.control_outcome(route, max_packet_size, setup, Seq::empty(), Seq::empty(), reported)
            && r == no_data_of(reported)
}

/// The setup packet of a control transfer with a data stage of `len` bytes to the host.
pub fn control_in_setup(request_type: u8, request: u8, value: u16, index: u16, len: usize) -> (p: SetupPacket)
    ensures
        p == (SetupPacket {
            request_type: request_type | USB_REQ_DIR_IN,
            request,
            value,
            index,
            length: setup_length(len as nat),
        }),
{
    let length = if len < u16::MAX as usize {
        len as u16
    } else {
        u16::MAX
    };
    SetupPacket::new(request_type | USB_REQ_DIR_IN, request, value, index, length)
}

/// The setup packet of a control transfer with a data stage of `len` bytes to the device (or
/// none, when `len` is zero).
pub fn control_out_setup(request_type: u8, request: u8, value: u16, index: u16, len: usize) -> (p: SetupPacket)
    ensures
        p == (SetupPacket {
            request_type: request_type & !USB_REQ_DIR_IN,
            request,
            value,
            index,
            length: setup_length(len as nat),
        }),
{
    let length = if len < u16::MAX as usize {
        len as u16
    } else {
        u16::MAX
    };
    SetupPacket::new(request_type & !USB_REQ_DIR_IN, request, value, index, length)
}

/// A control transfer that reads into `buffer`; the setup packet is [`control_in_setup`] of the
/// buffer's length. Returns what the controller reports, and `buffer` holds what the controller
/// left in it.
pub fn control_in<C: UsbHostController + ?Sized>(
    controller: &C,
    route: UsbRoute,
    max_packet_size: u16,
    request_type: u8,
    request: u8,
    value: u16,
    index: u16,
    buffer: &mut [u8],
) -> (r: UsbResult<usize>)
    ensures
        controller.control_outcome(
            route,
            max_packet_size,
            in_setup(request_type, request, value, index, old(buffer)@.len()),
            Seq::empty(),
            final(buffer)@,
            r,
        ),
{
    let setup = control_in_setup(request_type, request, value, index, buffer.len());
    controller.control_transfer(route, max_packet_size, &setup, ControlTransferData::In(buffer))
}

/// A control transfer that writes `buffer`; the setup packet is [`control_out_setup`] of the
/// buffer's length. Returns what the controller reports.
pub fn control_out<C: UsbHostController + ?Sized>(
    controller: &C,
    route: UsbRoute,
    max_packet_size: u16,
    request_type: u8,
    request: u8,
    value: u16,
    index: u16,
    buffer: &[u8],
) -> (r: UsbResult<usize>)
    ensures
        controller.control_outcome(
            route,
            max_packet_size,
            out_setup(request_type, request, value, index, buffer@.len()),
            buffer@,
            Seq::empty(),
            r,
        ),
{
    let setup = control_out_setup(request_type, request, value, index, buffer.len());
    controller.control_transfer(route, max_packet_size, &setup, ControlTransferData::Out(buffer))
}

/// A control transfer without data stage; the setup packet is [`control_out_setup`] of length 0.
/// Fails exactly when the controller does.
pub fn control_no_data<C: UsbHostController + ?Sized>(
    controller: &C,
    route: UsbRoute,
    max_packet_size: u16,
    request_type: u8,
    request: u8,
    value: u16,
    index: u16,
) -> (r: UsbResult<()>)
    ensures
        no_data_answered(controller, route, max_packet_size, out_setup(request_type, request, value, index, 0), r),
{
    let setup = control_out_setup(request_type, request, value, index, 0);
    let reported = controller.control_transfer(route, max_packet_size, &setup, ControlTransferData::NoData);
    let r = no_data_result(reported);
    assert(controller.control_outcome(route, max_packet_size, setup, Seq::empty(), Seq::empty(), reported));
    r
}

/// The outcome of a control transfer without data stage, from what the controller reported:
/// success whatever the byte count, else the controller's error.
pub fn no_data_result(reported: UsbResult<usize>) -> (r: UsbResult<()>)
    ensures
        r == no_data_of(reported),
{
    match reported {
        Ok(_) => Ok(()),
        Err(e) => Err(e),
    }
}

/// The wValue of GET_DESCRIPTOR: the descriptor type in the high byte, the index in the low.
pub fn descriptor_value(descriptor_type: u8, descriptor_index: u8) -> (v: u16)
    ensures
        v == descriptor_type as int * 256 + descriptor_index as int,
{
    descriptor_type as u16 * 256 + descriptor_index as u16
}

/// GET_DESCRIPTOR (standard, to the device) into `buffer`.
pub fn get_descriptor<C: UsbHostController + ?Sized>(
    controller: &C,
    route: UsbRoute,
    max_packet_size: u16,
    descriptor_type: u8,
    descriptor_index: u8,
    language_id: u16,
    buffer: &mut [u8],
) -> (r: UsbResult<usize>)
    ensures
        controller.control_outcome(route, max_packet_size, in_setup(USB_REQ_TYPE_STANDARD | USB_REQ_RECIP_DEVICE, USB_REQ_GET_DESCRIPTOR, (descriptor_type * 256 + descriptor_index) as u16, language_id, old(buffer)@.len()), Seq::empty(), final(buffer)@, r),
 {
    control_in(
        controller,
        route,
        max_packet_size,
        USB_REQ_TYPE_STANDARD | USB_REQ_RECIP_DEVICE,
        USB_REQ_GET_DESCRIPTOR,
        descriptor_value(descriptor_type, descriptor_index),
        language_id,
        buffer,
    )
}

/// SET_ADDRESS (standard, to the device).
pub fn set_address<C: UsbHostController + ?Sized>(
    controller: &C,
    route: UsbRoute,
    max_packet_size: u16,
    address: u8,
) -> (r: UsbResult<()>)
    ensures
        no_data_answered(controller, route, max_packet_size, out_setup(USB_REQ_TYPE_STANDARD | USB_REQ_RECIP_DEVICE, USB_REQ_SET_ADDRESS, address as u16, 0, 0), r),
 {
    control_no_data(
        controller,
        route,
        max_packet_size,
        USB_REQ_TYPE_STANDARD | USB_REQ_RECIP_DEVICE,
        USB_REQ_SET_ADDRESS,
        address as u16,
        0,
    )
}

/// SET_CONFIGURATION (standard, to the device).
pub fn set_configuration<C: UsbHostController + ?Sized>(
    controller: &C,
    route: UsbRoute,
    max_packet_size: u16,
    configuration_value: u8,
) -> (r: UsbResult<()>)
    ensures
        no_data_answered(controller, route, max_packet_size, out_setup(USB_REQ_TYPE_STANDARD | USB_REQ_RECIP_DEVICE, USB_REQ_SET_CONFIGURATION, configuration_value as u16, 0, 0), r),
 {
    control_no_data(
        controller,
        route,
        max_packet_size,
        USB_REQ_TYPE_STANDARD | USB_REQ_RECIP_DEVICE,
        USB_REQ_SET_CONFIGURATION,
        configuration_value as u16,
        0,
    )
}

/// SET_INTERFACE (standard, to an interface).
pub fn set_interface<C: UsbHostController + ?Sized>(
    controller: &C,
    route: UsbRoute,
    max_packet_size: u16,
    interface_number: u8,
    alternate_setting: u8,
) -> (r: UsbResult<()>)
    ensures
        no_data_answered(controller, route, max_packet_size, out_setup(USB_REQ_TYPE_STANDARD | USB_REQ_RECIP_INTERFACE, USB_REQ_SET_INTERFACE, alternate_setting as u16, interface_number as u16, 0), r),
 {
    control_no_data(
        controller,
        route,
        max_packet_size,
        USB_REQ_TYPE_STANDARD | USB_REQ_RECIP_INTERFACE,
        USB_REQ_SET_INTERFACE,
        alternate_setting as u16,
        interface_number as u16,
    )
}

/// HID SET_PROTOCOL (class, to an interface).
pub fn set_protocol<C: UsbHostController + ?Sized>(
    controller: &C,
    route: UsbRoute,
    max_packet_size: u16,
    interface_number: u8,
    protocol: u16,
) -> (r: UsbResult<()>)
    ensures
        no_data_answered(controller, route, max_packet_size, out_setup(USB_REQ_TYPE_CLASS | USB_REQ_RECIP_INTERFACE, USB_HID_SET_PROTOCOL, protocol, interface_number as u16, 0), r),
 {
    control_no_data(
        controller,
        route,
        max_packet_size,
        USB_REQ_TYPE_CLASS | USB_REQ_RECIP_INTERFACE,
        USB_HID_SET_PROTOCOL,
        protocol,
        interface_number as u16,
    )
}

/// The wValue of HID SET_IDLE: the duration (in 4 ms units) in the high byte, the report id in
/// the low.
pub fn idle_value(duration_units: u8, report_id: u8) -> (v: u16)
    ensures
        v == duration_units as int * 256 + report_id as int,
{
    duration_units as u16 * 256 + report_id as u16
}

/// Issue a HID SET_IDLE request. `duration_units` is in 4 ms steps (0 = report only on
/// change, non-zero = also re-report the current state every `duration_units * 4` ms).
/// Periodic re-reporting makes a missed key-up edge self-heal: every subsequent poll
/// carries the current (released) state instead of relying on a single transient edge.
pub fn set_idle<C: UsbHostController + ?Sized>(
    controller: &C,
    route: UsbRoute,
    max_packet_size: u16,
    interface_number: u8,
    duration_units: u8,
    report_id: u8,
) -> (r: UsbResult<()>)
    ensures
        no_data_answered(controller, route, max_packet_size, out_setup(USB_REQ_TYPE_CLASS | USB_REQ_RECIP_INTERFACE, USB_HID_SET_IDLE, (duration_units * 256 + report_id) as u16, interface_number as u16, 0), r),
 {
    control_no_data(
        controller,
        route,
        max_packet_size,
        USB_REQ_TYPE_CLASS | USB_REQ_RECIP_INTERFACE,
        USB_HID_SET_IDLE,
        idle_value(duration_units, report_id),
        interface_number as u16,
    )
}

/// GET_STATUS into a four-byte buffer.
pub fn get_status<C: UsbHostController + ?Sized>(
    controller: &C,
    route: UsbRoute,
    max_packet_size: u16,
    request_type: u8,
    index: u16,
    buffer: &mut [u8; 4],
) -> (r: UsbResult<usize>)
    ensures
        controller.control_outcome(route, max_packet_size, in_setup(request_type, USB_REQ_GET_STATUS, 0, index, 4), Seq::empty(), final(buffer)@, r),
 {
    control_in(
        controller,
        route,
        max_packet_size,
        request_type,
        USB_REQ_GET_STATUS,
        0,
        index,
        vstd::array::ref_mut_array_unsizing_coercion(buffer),
    )
}

/// SET_FEATURE.
pub fn set_feature<C: UsbHostController + ?Sized>(
    controller: &C,
    route: UsbRoute,
    max_packet_size: u16,
    request_type: u8,
    feature: u16,
    index: u16,
) -> (r: UsbResult<()>)
    ensures
        no_data_answered(controller, route, max_packet_size, out_setup(request_type, USB_REQ_SET_FEATURE, feature, index, 0), r),
 {
    control_no_data(controller, route, max_packet_size, request_type, USB_REQ_SET_FEATURE, feature, index)
}

/// CLEAR_FEATURE.
pub fn clear_feature<C: UsbHostController + ?Sized>(
    controller: &C,
    route: UsbRoute,
    max_packet_size: u16,
    request_type: u8,
    feature: u16,
    index: u16,
) -> (r: UsbResult<()>)
    ensures
        no_data_answered(controller, route, max_packet_size, out_setup(request_type, USB_REQ_CLEAR_FEATURE, feature, index, 0), r),
 {
    control_no_data(controller, route, max_packet_size, request_type, USB_REQ_CLEAR_FEATURE, feature, index)
}

/// The encoding of a setup packet gives its fields back: the two little-endian bytes of each
/// 16-bit field decode to that field.
pub proof fn lemma_setup_packet_encoding_roundtrip(p: SetupPacket)
    ensures
        p.spec_encode().len() == 8,
        p.spec_encode()[0] == p.request_type,
        p.spec_encode()[1] == p.request,
        u16_from_le(p.spec_encode()[2], p.spec_encode()[3]) == p.value,
        u16_from_le(p.spec_encode()[4], p.spec_encode()[5]) == p.index,
        u16_from_le(p.spec_encode()[6], p.spec_encode()[7]) == p.length,
{
}

} // verus!
