//! The transport a VirtIO device is reached through (PCI or MMIO).
use vstd::prelude::*;
use crate::drivers::bus::virtio::VirtioDeviceType;

verus! {

/// Access to a VirtIO device's status, features, queues and configuration.
pub trait VirtioTransport {
    /// The kind of device.
    fn device_id(&self) -> VirtioDeviceType;

    /// The device status byte.
    fn read_status(&self) -> u8;

    /// Writes the device status byte.
    fn write_status(&self, status: u8);

    /// The features the device offers.
    fn read_device_features(&self) -> u64;

    /// The features the driver accepts.
    fn write_driver_features(&self, features: u64);

    /// Places queue `queue_index` at the given addresses.
    fn setup_queue(&self, queue_index: u16, size: u16, desc_addr: u64, avail_addr: u64, used_addr: u64);

    /// Tells the device that queue `queue_index` has new buffers.
    fn notify_queue(&self, queue_index: u16);

    /// Reads `size` bytes of device-specific configuration at `offset`.
    fn read_config(&self, offset: usize, size: usize) -> u64;
}

/// Errors of VirtIO set-up.
#[derive(Debug, Clone, Copy, PartialEq, Eq, Structural)]
pub enum VirtioError {
    HardwareNotResponded,
    FeatureNegotiationFailed,
    InvalidDevice,
    NoMemory,
}

} // verus!
