//! The driver interface and the classification of devices and errors.
use vstd::prelude::*;
use crate::drivers::base::device::Device;

verus! {

/// Version of the driver ABI (1.0.0).
pub const RDS_ABI_VERSION: u32 = 0x0001_0000;

/// Functional category of a device.
#[derive(Debug, Clone, Copy, PartialEq, Eq, Structural)]
pub enum DeviceType {
    Storage,
    Input,
    Display,
    Network,
    Serial,
    Audio,
    Bus,
    Timer,
    Controller,
    Security,
    Generic,
    Unknown,
    System,
}

/// Display name of a device type.
pub open spec fn device_type_name(t: DeviceType) -> Seq<char> {
    match t {
        DeviceType::Storage => "Storage"@,
        DeviceType::Input => "Input"@,
        DeviceType::Display => "Display"@,
        DeviceType::Network => "Network"@,
        DeviceType::Serial => "Serial"@,
        DeviceType::Audio => "Audio"@,
        DeviceType::Bus => "Bus"@,
        DeviceType::Timer => "Timer"@,
        DeviceType::Controller => "Controller"@,
        DeviceType::Security => "Security"@,
        DeviceType::Generic => "Generic"@,
        DeviceType::Unknown => "Unknown"@,
        DeviceType::System => "System"@,
    }
}

impl DeviceType {
    /// Readable name of the type.
    pub fn as_str(&self) -> (s: &'static str)
        ensures
            s@ == device_type_name(*self),
    {
        match self {
            DeviceType::Storage => "Storage",
            DeviceType::Input => "Input",
            DeviceType::Display => "Display",
            DeviceType::Network => "Network",
            DeviceType::Serial => "Serial",
            DeviceType::Audio => "Audio",
            DeviceType::Bus => "Bus",
            DeviceType::Timer => "Timer",
            DeviceType::Controller => "Controller",
            DeviceType::Security => "Security",
            DeviceType::Generic => "Generic",
            DeviceType::Unknown => "Unknown",
            DeviceType::System => "System",
        }
    }
}

/// Errors a driver operation can report.
#[derive(Debug, Clone, Copy, PartialEq, Eq, Structural)]
pub enum DriverError {
    NotSupported,
    InitFailed,
    BusError,
    DeviceError,
    Timeout,
    InvalidParameter,
    NoMemory,
    AccessDenied,
    ResourceConflict,
    Cancelled,
    Unloading,
    HardwareFault,
    HardwareError,
}

/// Display name of a driver error.
pub open spec fn driver_error_name(e: DriverError) -> Seq<char> {
    match e {
        DriverError::NotSupported => "NotSupported"@,
        DriverError::InitFailed => "InitFailed"@,
        DriverError::BusError => "BusError"@,
        DriverError::DeviceError => "DeviceError"@,
        DriverError::Timeout => "Timeout"@,
        DriverError::InvalidParameter => "InvalidParameter"@,
        DriverError::NoMemory => "NoMemory"@,
        DriverError::AccessDenied => "AccessDenied"@,
        DriverError::ResourceConflict => "ResourceConflict"@,
        DriverError::Cancelled => "Cancelled"@,
        DriverError::Unloading => "Unloading"@,
        DriverError::HardwareFault => "HardwareFault"@,
        DriverError::HardwareError => "HardwareError"@,
    }
}

/// Errors that weigh more on a device's health.
pub open spec fn error_is_critical(e: DriverError) -> bool {
    e == DriverError::InitFailed || e == DriverError::AccessDenied || e == DriverError::NoMemory
        || e == DriverError::DeviceError
}

impl DriverError {
    /// Whether the error is critical for the device's health.
    pub fn is_critical(&self) -> (r: bool)
        ensures
            r == error_is_critical(*self),
    {
        match self {
            DriverError::InitFailed | DriverError::AccessDenied | DriverError::NoMemory
            | DriverError::DeviceError => true,
            _ => false,
        }
    }

    /// Whether the error may be transient (bus glitch, timeout).
    pub fn is_transient(&self) -> (r: bool)
        ensures
            r == (*self == DriverError::BusError || *self == DriverError::Timeout),
    {
        match self {
            DriverError::BusError | DriverError::Timeout => true,
            _ => false,
        }
    }

    /// Readable name of the error.
    pub fn as_str(&self) -> (s: &'static str)
        ensures
            s@ == driver_error_name(*self),
    {
        match self {
            DriverError::NotSupported => "NotSupported",
            DriverError::InitFailed => "InitFailed",
            DriverError::BusError => "BusError",
            DriverError::DeviceError => "DeviceError",
            DriverError::Timeout => "Timeout",
            DriverError::InvalidParameter => "InvalidParameter",
            DriverError::NoMemory => "NoMemory",
            DriverError::AccessDenied => "AccessDenied",
            DriverError::ResourceConflict => "ResourceConflict",
            DriverError::Cancelled => "Cancelled",
            DriverError::Unloading => "Unloading",
            DriverError::HardwareFault => "HardwareFault",
            DriverError::HardwareError => "HardwareError",
        }
    }
}

/// The interface every driver implements to take control of a device.
pub trait Driver {
    /// Unique name of the driver.
    fn name(&self) -> &'static str;

    /// Primary functional type of the devices it drives.
    fn device_type(&self) -> DeviceType;

    /// Tries to take control of a device; `Err(NotSupported)` when it cannot.
    /// The identity of the device and its binding are the manager's: a probe
    /// leaves them as they are.
    fn probe(&self, dev: &mut Device) -> (r: Result<(), DriverError>)
        ensures
            final(dev).id == old(dev).id,
            final(dev).driver == old(dev).driver;

    /// Releases the device; its identity stays.
    fn remove(&self, dev: &mut Device) -> (r: Result<(), DriverError>)
        ensures
            final(dev).id == old(dev).id,
        default_ensures
            r == Ok::<(), DriverError>(()),
            *final(dev) == *old(dev),
    {
        Ok(())
    }

    /// Puts the device into a low-power state; its identity stays.
    fn suspend(&self, dev: &mut Device) -> (r: Result<(), DriverError>)
        ensures
            final(dev).id == old(dev).id,
        default_ensures
            r == Ok::<(), DriverError>(()),
            *final(dev) == *old(dev),
    {
        Ok(())
    }

    /// Brings the device back from a low-power state; its identity stays.
    fn resume(&self, dev: &mut Device) -> (r: Result<(), DriverError>)
        ensures
            final(dev).id == old(dev).id,
        default_ensures
            r == Ok::<(), DriverError>(()),
            *final(dev) == *old(dev),
    {
        Ok(())
    }

    /// Prepares the hardware for power-off; the identity of the device stays.
    fn shutdown(&self, dev: &mut Device)
        ensures
            final(dev).id == old(dev).id,
        default_ensures
            *final(dev) == *old(dev),
    {
    }

    /// ABI version the driver was built against.
    fn abi_version(&self) -> (v: u32)
        default_ensures
            v == RDS_ABI_VERSION,
    {
        RDS_ABI_VERSION
    }

    /// Capability flags (`CAP_*`).
    fn capabilities(&self) -> (c: u64)
        default_ensures
            c == 0,
    {
        0
    }

    /// The (vendor, device) ids the driver takes without a probe; empty when
    /// every device must be probed.
    fn supported_ids(&self) -> (ids: &'static [(u16, u16)])
        default_ensures
            ids@.len() == 0,
    {
        &[]
    }
}

/// Driver can use the DMA pool.
pub const CAP_DMA: u64 = 0x1;

/// Driver supports power management.
pub const CAP_POWER_MANAGEMENT: u64 = 0x2;

/// Driver supports hot reload.
pub const CAP_HOT_RELOAD: u64 = 0x4;

/// Driver supports asynchronous operations.
pub const CAP_ASYNC: u64 = 0x8;

/// Driver is critical for the system.
pub const CAP_CRITICAL: u64 = 0x10;

/// Driver needs external firmware.
pub const CAP_NEEDS_FIRMWARE: u64 = 0x20;

} // verus!
