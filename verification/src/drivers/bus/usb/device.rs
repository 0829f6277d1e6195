//! A USB device: identity, configuration, interfaces and endpoints.
use vstd::prelude::*;
use crate::drivers::bus::usb::types::{UsbSpeed, UsbTransferType, UsbDirection};

verus! {

/// Life-cycle state of a USB device.
#[derive(Debug, Clone, Copy, PartialEq, Eq, Structural)]
pub enum UsbDeviceState {
    Attached,
    Addressed,
    Configured,
    Suspended,
    Disconnected,
}

/// An endpoint.
#[derive(Debug, Clone, Copy)]
pub struct UsbEndpoint {
    /// Number, with bit 7 set for IN.
    pub address: u8,
    pub transfer_type: UsbTransferType,
    pub max_packet_size: u16,
    pub interval: u8,
}

/// An interface and its endpoints.
#[derive(Debug, Clone)]
pub struct UsbInterface {
    pub interface_number: u8,
    pub alternate_setting: u8,
    pub interface_class: u8,
    pub interface_subclass: u8,
    pub interface_protocol: u8,
    pub endpoints: Vec<UsbEndpoint>,
}

/// A USB device.
#[derive(Debug, Clone)]
pub struct UsbDevice {
    pub address: u8,
    pub slot_id: u8,
    pub port: u8,
    pub parent_hub_address: u8,
    pub speed: UsbSpeed,
    pub vendor_id: u16,
    pub product_id: u16,
    pub device_class: u8,
    pub device_subclass: u8,
    pub device_protocol: u8,
    pub manufacturer: Option<String>,
    pub product: Option<String>,
    pub serial_number: Option<String>,
    pub current_configuration: u8,
    pub interfaces: Vec<UsbInterface>,
    pub max_packet_size_0: u8,
    pub state: UsbDeviceState,
}

/// Whether some interface has class `class`.
pub open spec fn has_interface_class(s: Seq<UsbInterface>, class: u8) -> bool {
    exists|k: int| 0 <= k < s.len() && (#[trigger] s[k]).interface_class == class
}

/// Index of the first interface of class `class`, or the length.
pub open spec fn interface_class_index(s: Seq<UsbInterface>, class: u8) -> int
    decreases s.len(),
{
    if s.len() == 0 {
        0
    } else if s[0].interface_class == class {
        0
    } else {
        1 + interface_class_index(s.drop_first(), class)
    }
}

/// Index of the first interface numbered `n`, or the length.
pub open spec fn interface_number_index(s: Seq<UsbInterface>, n: u8) -> int
    decreases s.len(),
{
    if s.len() == 0 {
        0
    } else if s[0].interface_number == n {
        0
    } else {
        1 + interface_number_index(s.drop_first(), n)
    }
}

/// Whether an endpoint has the transfer type and direction asked for.
pub open spec fn endpoint_matches(e: UsbEndpoint, t: UsbTransferType, d: UsbDirection) -> bool {
    e.transfer_type == t && ((e.address & 0x80 != 0) == (d == UsbDirection::In))
}

/// Index of the first matching endpoint, or the length.
pub open spec fn endpoint_index(s: Seq<UsbEndpoint>, t: UsbTransferType, d: UsbDirection) -> int
    decreases s.len(),
{
    if s.len() == 0 {
        0
    } else if endpoint_matches(s[0], t, d) {
        0
    } else {
        1 + endpoint_index(s.drop_first(), t, d)
    }
}

proof fn lemma_interface_class_index(s: Seq<UsbInterface>, class: u8, i: int)
    requires
        0 <= i <= s.len(),
        forall|k: int| 0 <= k < i ==> #[trigger] s[k].interface_class != class,
        i == s.len() || s[i].interface_class == class,
    ensures
        interface_class_index(s, class) == i,
    decreases s.len(),
{
    if s.len() > 0 && i > 0 {
        assert forall|k: int| 0 <= k < i - 1 implies #[trigger] s.drop_first()[k].interface_class != class by {
            assert(s.drop_first()[k] == s[k + 1]);
        }
        lemma_interface_class_index(s.drop_first(), class, i - 1);
    }
}

proof fn lemma_interface_number_index(s: Seq<UsbInterface>, n: u8, i: int)
    requires
        0 <= i <= s.len(),
        forall|k: int| 0 <= k < i ==> #[trigger] s[k].interface_number != n,
        i == s.len() || s[i].interface_number == n,
    ensures
        interface_number_index(s, n) == i,
    decreases s.len(),
{
    if s.len() > 0 && i > 0 {
        assert forall|k: int| 0 <= k < i - 1 implies #[trigger] s.drop_first()[k].interface_number != n by {
            assert(s.drop_first()[k] == s[k + 1]);
        }
        lemma_interface_number_index(s.drop_first(), n, i - 1);
    }
}

proof fn lemma_endpoint_index(s: Seq<UsbEndpoint>, t: UsbTransferType, d: UsbDirection, i: int)
    requires
        0 <= i <= s.len(),
        forall|k: int| 0 <= k < i ==> !endpoint_matches(#[trigger] s[k], t, d),
        i == s.len() || endpoint_matches(s[i], t, d),
    ensures
        endpoint_index(s, t, d) == i,
    decreases s.len(),
{
    if s.len() > 0 && i > 0 {
        assert forall|k: int| 0 <= k < i - 1 implies !endpoint_matches(#[trigger] s.drop_first()[k], t, d) by {
            assert(s.drop_first()[k] == s[k + 1]);
        }
        lemma_endpoint_index(s.drop_first(), t, d, i - 1);
    }
}

fn find_class(interfaces: &Vec<UsbInterface>, class: u8) -> (i: usize)
    ensures
        i == interface_class_index(interfaces@, class),
        i <= interfaces@.len(),
        i < interfaces@.len() ==> interfaces@[i as int].interface_class == class,
        i == interfaces@.len() <==> !has_interface_class(interfaces@, class),
{
    let mut i: usize = 0;
    while i < interfaces.len() && interfaces[i].interface_class != class
        invariant
            0 <= i <= interfaces@.len(),
            forall|k: int| 0 <= k < i ==> #[trigger] interfaces@[k].interface_class != class,
        decreases interfaces@.len() - i,
    {
        i = i + 1;
    }
    proof {
        lemma_interface_class_index(interfaces@, class, i as int);
    }
    i
}

impl UsbDevice {
    /// A device just attached on `port`: unaddressed, unconfigured, with a
    /// default control packet size of 8.
    pub fn new(port: u8, speed: UsbSpeed) -> (d: UsbDevice)
        ensures
            d.address == 0 && d.slot_id == 0 && d.port == port && d.parent_hub_address == 0,
            d.speed == speed,
            d.vendor_id == 0 && d.product_id == 0,
            d.device_class == 0 && d.device_subclass == 0 && d.device_protocol == 0,
            d.manufacturer is None && d.product is None && d.serial_number is None,
            d.current_configuration == 0,
            d.interfaces@.len() == 0,
            d.max_packet_size_0 == 8,
            d.state == UsbDeviceState::Attached,
    {
        UsbDevice {
            address: 0,
            slot_id: 0,
            port,
            parent_hub_address: 0,
            speed,
            vendor_id: 0,
            product_id: 0,
            device_class: 0,
            device_subclass: 0,
            device_protocol: 0,
            manufacturer: None,
            product: None,
            serial_number: None,
            current_configuration: 0,
            interfaces: Vec::new(),
            max_packet_size_0: 8,
            state: UsbDeviceState::Attached,
        }
    }

    /// Whether the device is a hub (class 0x09).
    pub fn is_hub(&self) -> (r: bool)
        ensures
            r == (self.device_class == 0x09),
    {
        self.device_class == 0x09
    }

    /// Whether the device, or one of its interfaces, is HID (class 0x03).
    pub fn is_hid(&self) -> (r: bool)
        ensures
            r == (self.device_class == 0x03 || has_interface_class(self.interfaces@, 0x03)),
    {
        self.device_class == 0x03 || find_class(&self.interfaces, 0x03) < self.interfaces.len()
    }

    /// Whether the device, or one of its interfaces, is mass storage (0x08).
    pub fn is_mass_storage(&self) -> (r: bool)
        ensures
            r == (self.device_class == 0x08 || has_interface_class(self.interfaces@, 0x08)),
    {
        self.device_class == 0x08 || find_class(&self.interfaces, 0x08) < self.interfaces.len()
    }

    /// The first interface of class `class`.
    pub fn find_interface(&self, class: u8) -> (r: Option<&UsbInterface>)
        ensures
            ({
                let i = interface_class_index(self.interfaces@, class);
                match r {
                    Some(iface) => i < self.interfaces@.len() && *iface == self.interfaces@[i],
                    None => i == self.interfaces@.len(),
                }
            }),
    {
        let i = find_class(&self.interfaces, class);
        if i < self.interfaces.len() {
            Some(&self.interfaces[i])
        } else {
            None
        }
    }

    /// The first endpoint of the given kind and direction in the first
    /// interface numbered `interface`.
    pub fn find_endpoint(&self, interface: u8, transfer_type: UsbTransferType, direction: UsbDirection) -> (r: Option<&UsbEndpoint>)
        ensures
            ({
                let i = interface_number_index(self.interfaces@, interface);
                if i < self.interfaces@.len() {
                    let es = self.interfaces@[i].endpoints@;
                    let j = endpoint_index(es, transfer_type, direction);
                    match r {
                        Some(e) => j < es.len() && *e == es[j],
                        None => j == es.len(),
                    }
                } else {
                    r is None
                }
            }),
    {
        let mut i: usize = 0;
        while i < self.interfaces.len() && self.interfaces[i].interface_number != interface
            invariant
                0 <= i <= self.interfaces@.len(),
                forall|k: int| 0 <= k < i ==> #[trigger] self.interfaces@[k].interface_number != interface,
            decreases self.interfaces@.len() - i,
        {
            i = i + 1;
        }
        proof {
            lemma_interface_number_index(self.interfaces@, interface, i as int);
        }
        if i == self.interfaces.len() {
            return None;
        }
        let iface = &self.interfaces[i];
        let mut j: usize = 0;
        while j < iface.endpoints.len()
            && !(iface.endpoints[j].transfer_type == transfer_type
                && ((iface.endpoints[j].address & 0x80 != 0) == (direction == UsbDirection::In)))
            invariant
                0 <= j <= iface.endpoints@.len(),
                forall|k: int| 0 <= k < j ==> !endpoint_matches(#[trigger] iface.endpoints@[k], transfer_type, direction),
            decreases iface.endpoints@.len() - j,
        {
            j = j + 1;
        }
        proof {
            lemma_endpoint_index(iface.endpoints@, transfer_type, direction, j as int);
        }
        if j < iface.endpoints.len() {
            Some(&iface.endpoints[j])
        } else {
            None
        }
    }
}

} // verus!
