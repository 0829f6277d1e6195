//! The interface of USB host controllers.
use vstd::prelude::*;
use crate::drivers::bus::usb::types::{UsbDeviceDescriptor, UsbSpeed};

verus! {

/// A USB host controller.
pub trait UsbHostController {
    fn name(&self) -> &'static str;

    /// Changes of connection on the root ports.
    fn poll_ports(&self) -> Vec<UsbPortEvent>;

    /// Addresses the device on `port_id` and reads its descriptor.
    fn setup_device(&self, port_id: u8) -> Result<UsbDeviceDescriptor, UsbError>;

    /// Runs a transfer.
    fn transfer(&self, request: UsbTransferRequest) -> Result<(), UsbError>;
}

/// Errors of USB transfers.
#[derive(Debug, Clone, Copy, PartialEq, Eq, Structural)]
pub enum UsbError {
    Timeout,
    Babble,
    Stall,
    HardwareError,
    NoMemory,
}

/// A connection change on a port.
#[derive(Debug, Clone, Copy)]
pub struct UsbPortEvent {
    pub port_id: u8,
    pub connected: bool,
    pub speed: UsbSpeed,
}

/// A transfer to run (no parameters yet).
#[derive(Debug, Clone, Copy)]
pub struct UsbTransferRequest {
}

} // verus!
