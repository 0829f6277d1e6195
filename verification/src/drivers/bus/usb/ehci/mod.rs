//! EHCI (USB 2.0): the driver is declared but does not take any device yet.
use vstd::prelude::*;
use crate::drivers::base::device::Device;
use crate::drivers::base::driver::{DeviceType, Driver, DriverError};

verus! {

/// The EHCI host driver.
pub struct EhciDriver;

impl Driver for EhciDriver {
    fn name(&self) -> (s: &'static str)
        ensures
            s@ == "EHCI USB 2.0 Host Driver"@,
    {
        "EHCI USB 2.0 Host Driver"
    }

    fn device_type(&self) -> (t: DeviceType)
        ensures
            t == DeviceType::Controller,
    {
        DeviceType::Controller
    }

    /// EHCI controllers are not supported yet.
    fn probe(&self, dev: &mut Device) -> (r: Result<(), DriverError>)
        ensures
            r == Err::<(), DriverError>(DriverError::NotSupported),
            *final(dev) == *old(dev),
    {
        Err(DriverError::NotSupported)
    }
}

/// The driver, for registration with the driver manager.
pub fn init() -> (d: EhciDriver)
    ensures
        d == EhciDriver,
{
    EhciDriver
}

/// Stopping EHCI needs no work.
pub fn shutdown() {
}

} // verus!
