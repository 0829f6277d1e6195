//! USB mass storage (bulk-only SCSI): the devices found and their
//! identification.
pub mod scsi;
pub mod transport;

use vstd::prelude::*;
use crate::drivers::bus::usb::device::{UsbDevice, has_interface_class};

verus! {

pub const USB_CLASS_MASS_STORAGE: u8 = 0x08;
pub const USB_SUBCLASS_SCSI: u8 = 0x06;
pub const USB_PROTOCOL_BBB: u8 = 0x50;

/// A mass-storage device.
#[derive(Debug, Clone)]
pub struct MassStorageDevice {
    pub usb_address: u8,
    pub bulk_in_endpoint: u8,
    pub bulk_out_endpoint: u8,
    pub max_packet_size: u16,
    pub max_lun: u8,
    pub block_count: u64,
    pub block_size: u32,
    pub vendor_id: u16,
    pub product_id: u16,
    pub product_name: Option<String>,
    pub ready: bool,
}

/// Errors of mass-storage transfers.
#[derive(Debug, Clone, Copy, PartialEq, Eq, Structural)]
pub enum MscError {
    NoDevice,
    UsbError,
    ScsiError,
    Timeout,
    InvalidBuffer,
    NotImplemented,
}

/// The mass-storage devices in use.
pub struct MassStorageRegistry {
    pub devices: Vec<MassStorageDevice>,
}

impl MassStorageRegistry {
    /// No device.
    pub fn new() -> (r: MassStorageRegistry)
        ensures
            r.devices@.len() == 0,
    {
        MassStorageRegistry { devices: Vec::new() }
    }
}

/// Checks whether the driver takes `usb_dev`. Only mass-storage devices
/// qualify, and setting them up is not implemented yet, so none is taken.
pub fn probe(usb_dev: &UsbDevice) -> (r: bool)
    ensures
        !r,
{
    if !usb_dev.is_mass_storage() {
        return false;
    }
    false
}

/// Reading blocks is not implemented.
pub fn read_blocks(device_index: usize, start_block: u64, count: u32, buffer: &mut [u8]) -> (r: Result<(), MscError>)
    ensures
        r == Err::<(), MscError>(MscError::NotImplemented),
        final(buffer)@ == old(buffer)@,
{
    Err(MscError::NotImplemented)
}

/// Writing blocks is not implemented.
pub fn write_blocks(device_index: usize, start_block: u64, count: u32, buffer: &[u8]) -> (r: Result<(), MscError>)
    ensures
        r == Err::<(), MscError>(MscError::NotImplemented),
{
    Err(MscError::NotImplemented)
}

/// Number of devices in use.
pub fn device_count(reg: &MassStorageRegistry) -> (n: usize)
    ensures
        n == reg.devices@.len(),
{
    reg.devices.len()
}

/// The device at `index`, if any.
pub fn get_device_info(reg: &MassStorageRegistry, index: usize) -> (r: Option<&MassStorageDevice>)
    ensures
        r.is_some() == (index < reg.devices@.len()),
        r matches Some(d) ==> *d == reg.devices@[index as int],
{
    if index < reg.devices.len() {
        Some(&reg.devices[index])
    } else {
        None
    }
}

} // verus!
