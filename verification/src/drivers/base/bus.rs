//! Bus layer: bus kinds, device addresses on a bus, and the bus registry.
use vstd::prelude::*;
use crate::drivers::base::device::{Device, DeviceId};
use crate::drivers::base::driver::DriverError;

verus! {

/// Kinds of bus.
#[derive(Debug, Clone, Copy, PartialEq, Eq, Structural)]
pub enum BusType {
    Platform,
    Pci,
    Usb,
    Acpi,
    Virtio,
    System,
    Isa,
}

/// Display name of a bus kind.
pub open spec fn bus_type_name(t: BusType) -> Seq<char> {
    match t {
        BusType::Platform => "Platform"@,
        BusType::Pci => "PCI"@,
        BusType::Usb => "USB"@,
        BusType::Acpi => "ACPI"@,
        BusType::Virtio => "VirtIO"@,
        BusType::System => "System"@,
        BusType::Isa => "ISA"@,
    }
}

impl BusType {
    /// Readable name of the bus kind.
    pub fn as_str(&self) -> (s: &'static str)
        ensures
            s@ == bus_type_name(*self),
    {
        match self {
            BusType::Platform => "Platform",
            BusType::Pci => "PCI",
            BusType::Usb => "USB",
            BusType::Acpi => "ACPI",
            BusType::Virtio => "VirtIO",
            BusType::System => "System",
            BusType::Isa => "ISA",
        }
    }

    /// Whether devices on this bus may come and go at run time.
    pub fn supports_hotplug(&self) -> (r: bool)
        ensures
            r == (*self == BusType::Usb || *self == BusType::Pci),
    {
        match self {
            BusType::Usb | BusType::Pci => true,
            _ => false,
        }
    }
}

/// Address of a device on its bus.
#[derive(Debug, Clone, Copy, PartialEq, Eq, Structural)]
pub enum BusAddress {
    /// No specific address (virtual or platform device).
    Unaddressed,
    Pci { segment: u16, bus: u8, device: u8, function: u8 },
    Usb { controller: u8, hub_addr: u8, port: u8 },
    Mmio { base: u64, size: u64 },
    IoPort { port: u16, count: u16 },
    Virtio { transport: u8, index: u8 },
}

/// Short label of an address kind.
pub open spec fn bus_address_label(a: BusAddress) -> Seq<char> {
    match a {
        BusAddress::Unaddressed => "none"@,
        BusAddress::Pci { .. } => "pci:..."@,
        BusAddress::Usb { .. } => "usb:..."@,
        BusAddress::Mmio { .. } => "mmio:..."@,
        BusAddress::IoPort { .. } => "io:..."@,
        BusAddress::Virtio { .. } => "virtio:..."@,
    }
}

impl BusAddress {
    /// Short label of the address kind, for logs.
    pub fn format(&self) -> (s: &'static str)
        ensures
            s@ == bus_address_label(*self),
    {
        match self {
            BusAddress::Unaddressed => "none",
            BusAddress::Pci { .. } => "pci:...",
            BusAddress::Usb { .. } => "usb:...",
            BusAddress::Mmio { .. } => "mmio:...",
            BusAddress::IoPort { .. } => "io:...",
            BusAddress::Virtio { .. } => "virtio:...",
        }
    }
}

/// A hardware bus: enumerates its devices and resets them.
pub trait Bus {
    /// The kind of the bus, as the bus reports it.
    spec fn kind(&self) -> BusType;

    /// Descriptive name.
    fn name(&self) -> &'static str;

    /// Kind of the bus.
    fn bus_type(&self) -> (t: BusType)
        ensures
            t == self.kind(),
    ;

    /// Enumerates the devices on the bus.
    fn scan(&self) -> Vec<Device>;

    /// Physically resets one device; `false` when unsupported or failed.
    /// The identity of the device and its binding are the manager's: a
    /// reset leaves them as they are.
    fn reset_device(&self, dev: &mut Device) -> (r: bool)
        ensures
            final(dev).id == old(dev).id,
            final(dev).driver == old(dev).driver;

    /// Stops traffic before suspension.
    fn quiesce(&self) -> (r: Result<(), DriverError>)
        default_ensures
            r == Ok::<(), DriverError>(()),
    {
        Ok(())
    }

    /// Wakes the bus after suspension.
    fn resume(&self) -> (r: Result<(), DriverError>)
        default_ensures
            r == Ok::<(), DriverError>(()),
    {
        Ok(())
    }

    /// Shuts the bus down for good.
    fn shutdown(&self) {
    }
}

/// Identifier of an asynchronous bus transaction.
#[derive(Debug, Clone, Copy, PartialEq, Eq, Structural)]
pub struct TransactionId(pub u64);

/// State of an asynchronous bus transaction.
#[derive(Debug, Clone)]
pub enum TransactionStatus {
    Pending,
    Complete(Vec<u8>),
    Error(DriverError),
}

/// Buses that run asynchronous transactions.
pub trait BusOperations: Bus {
    /// Submits a transaction; buses without support answer id 0.
    fn submit(&self, dev_id: DeviceId, cmd: &[u8]) -> (t: TransactionId)
        default_ensures
            t == TransactionId(0),
    {
        TransactionId(0)
    }

    /// Status of a transaction; unsupported by default.
    fn poll(&self, txn: TransactionId) -> (s: TransactionStatus)
        default_ensures
            s == TransactionStatus::Error(DriverError::NotSupported),
    {
        TransactionStatus::Error(DriverError::NotSupported)
    }

    /// Cancels a transaction; unsupported by default.
    fn cancel(&self, txn: TransactionId) -> (r: bool)
        default_ensures
            !r,
    {
        false
    }
}

/// The registered buses.
pub struct BusRegistry {
    pub buses: Vec<Box<dyn Bus>>,
}

/// An empty registry.
pub fn init() -> (r: BusRegistry)
    ensures
        r.buses@.len() == 0,
{
    BusRegistry { buses: Vec::new() }
}

/// Adds a bus at the end of the registry.
pub fn register(reg: &mut BusRegistry, bus: Box<dyn Bus>)
    ensures
        final(reg).buses@ == old(reg).buses@.push(bus),
{
    reg.buses.push(bus);
}

/// Scans every registered bus, in registration order, and gathers the devices.
/// Which devices a bus finds is the bus's own (`Bus::scan`); with no bus
/// registered there is none.
pub fn scan_all(reg: &BusRegistry) -> (devices: Vec<Device>)
    ensures
        reg.buses@.len() == 0 ==> devices@.len() == 0,
{
    let mut all: Vec<Device> = Vec::new();
    let mut i: usize = 0;
    while i < reg.buses.len()
        invariant
            0 <= i <= reg.buses@.len(),
            reg.buses@.len() == 0 ==> all@.len() == 0,
        decreases reg.buses@.len() - i,
    {
        let mut found = reg.buses[i].scan();
        all.append(&mut found);
        i = i + 1;
    }
    all
}

/// Index of the first registered bus of the given kind.
pub fn find_by_type(reg: &BusRegistry, bus_type: BusType) -> (r: Option<usize>)
    ensures
        match r {
            Some(i) => i < reg.buses@.len() && reg.buses@[i as int].kind() == bus_type
                && forall|j: int| 0 <= j < i ==> reg.buses@[j].kind() != bus_type,
            None => forall|j: int| 0 <= j < reg.buses@.len() ==> reg.buses@[j].kind() != bus_type,
        },
{
    let mut i: usize = 0;
    while i < reg.buses.len()
        invariant
            0 <= i <= reg.buses@.len(),
            forall|j: int| 0 <= j < i ==> reg.buses@[j].kind() != bus_type,
        decreases reg.buses@.len() - i,
    {
        if reg.buses[i].bus_type() == bus_type {
            return Some(i);
        }
        i = i + 1;
    }
    None
}

/// All registered buses.
pub fn get_all(reg: &BusRegistry) -> (r: &Vec<Box<dyn Bus>>)
    ensures
        r@ == reg.buses@,
{
    &reg.buses
}

/// Shuts down every registered bus, in registration order.
pub fn shutdown_all(reg: &BusRegistry) {
    let mut i: usize = 0;
    while i < reg.buses.len()
        invariant
            0 <= i <= reg.buses@.len(),
        decreases reg.buses@.len() - i,
    {
        reg.buses[i].shutdown();
        i = i + 1;
    }
}

} // verus!
