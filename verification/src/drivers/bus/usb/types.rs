//! USB speeds, descriptor kinds, transfer kinds and the device descriptor.
use vstd::prelude::*;

verus! {

/// Signalling speed of a device.
#[derive(Debug, Clone, Copy, PartialEq, Eq, Structural)]
pub enum UsbSpeed {
    /// 12 Mbit/s (USB 1.1).
    FullSpeed,
    /// 1.5 Mbit/s (USB 1.1).
    LowSpeed,
    /// 480 Mbit/s (USB 2.0).
    HighSpeed,
    /// 5 Gbit/s (USB 3.0).
    SuperSpeed,
    /// 10 Gbit/s and more (USB 3.1+).
    SuperSpeedPlus,
}

/// Display name of a speed.
pub open spec fn speed_name(s: UsbSpeed) -> Seq<char> {
    match s {
        UsbSpeed::FullSpeed => "FullSpeed (12Mbps)"@,
        UsbSpeed::LowSpeed => "LowSpeed (1.5Mbps)"@,
        UsbSpeed::HighSpeed => "HighSpeed (480Mbps)"@,
        UsbSpeed::SuperSpeed => "SuperSpeed (5Gbps)"@,
        UsbSpeed::SuperSpeedPlus => "SuperSpeedPlus (10Gbps+)"@,
    }
}

impl UsbSpeed {
    /// Display name with the signalling rate.
    pub fn name(&self) -> (s: &'static str)
        ensures
            s@ == speed_name(*self),
    {
        match self {
            UsbSpeed::FullSpeed => "FullSpeed (12Mbps)",
            UsbSpeed::LowSpeed => "LowSpeed (1.5Mbps)",
            UsbSpeed::HighSpeed => "HighSpeed (480Mbps)",
            UsbSpeed::SuperSpeed => "SuperSpeed (5Gbps)",
            UsbSpeed::SuperSpeedPlus => "SuperSpeedPlus (10Gbps+)",
        }
    }
}

/// Kinds of standard descriptor.
#[derive(Debug, Clone, Copy, PartialEq, Eq, Structural)]
pub enum DescriptorType {
    Device,
    Configuration,
    String,
    Interface,
    Endpoint,
    Hub,
}

/// Kinds of transfer an endpoint does.
#[derive(Debug, Clone, Copy, PartialEq, Eq, Structural)]
pub enum UsbTransferType {
    Control,
    Isochronous,
    Bulk,
    Interrupt,
}

/// Direction of a transfer, seen from the host.
#[derive(Debug, Clone, Copy, PartialEq, Eq, Structural)]
pub enum UsbDirection {
    Out,
    In,
}

/// The standard device descriptor.
#[derive(Debug, Clone, Copy)]
pub struct UsbDeviceDescriptor {
    pub length: u8,
    pub descriptor_type: u8,
    pub bcd_usb: u16,
    pub device_class: u8,
    pub device_subclass: u8,
    pub device_protocol: u8,
    pub max_packet_size0: u8,
    pub id_vendor: u16,
    pub id_product: u16,
    pub bcd_device: u16,
    pub manufacturer_idx: u8,
    pub product_idx: u8,
    pub serial_number_idx: u8,
    pub num_configurations: u8,
}

} // verus!
