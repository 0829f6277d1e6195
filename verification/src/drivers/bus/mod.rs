//! The bus layer: the buses that find devices (platform, ISA, ACPI, PCI,
//! VirtIO, USB), brought up, scanned and shut down together.
pub mod pci;
pub mod virtio;
pub mod platform;
pub mod isa;
pub mod acpi;
pub mod usb;

use vstd::prelude::*;
use crate::drivers::base::bus::{Bus, BusType};
use crate::drivers::base::device::Device;
use self::acpi::AcpiInfo;
use self::isa::IsaBus;
use self::pci::{PciBus, PciConfigSource};
use self::pci::device::PciDevice;
use self::platform::PlatformBus;
use self::usb::UsbStack;
use self::virtio::{VirtioBus, VirtioRegistry};

verus! {

/// The state of every bus.
pub struct BusLayer<S> {
    pub platform: PlatformBus,
    pub acpi: AcpiInfo,
    pub pci: PciBus<S>,
    /// The PCI functions found by the last scan.
    pub pci_devices: Vec<PciDevice>,
    pub virtio: VirtioRegistry,
    pub usb: UsbStack,
}

/// Device counts per bus.
#[derive(Debug, Clone, Copy)]
pub struct BusStats {
    pub pci_devices: usize,
    pub virtio_devices: usize,
    pub usb_devices: usize,
    pub platform_devices: usize,
}

impl<S: PciConfigSource> BusLayer<S> {
    /// Buses with nothing found yet, PCI reading from `source`.
    pub fn new(source: S) -> (l: BusLayer<S>)
        ensures
            l.platform.static_devices@.len() == 0,
            l.pci_devices@.len() == 0,
            l.virtio.devices@.len() == 0,
            l.usb.devices@.len() == 0,
            !l.acpi.initialized,
    {
        BusLayer {
            platform: PlatformBus::new(),
            acpi: AcpiInfo::new(),
            pci: PciBus::new(source),
            pci_devices: Vec::new(),
            virtio: VirtioRegistry::new(),
            usb: UsbStack::new(),
        }
    }
}

/// Brings every bus up: platform, ISA, ACPI, PCI, VirtIO, then USB with the
/// controllers among the PCI functions known.
pub fn init<S: PciConfigSource>(layer: &mut BusLayer<S>)
    ensures
        final(layer).virtio.initialized,
        final(layer).usb.initialized,
        final(layer).pci_devices@ == old(layer).pci_devices@,
        final(layer).acpi == old(layer).acpi,
{
    platform::init();
    isa::init();
    acpi::init(&mut layer.acpi);
    pci::init();
    virtio::init(&mut layer.virtio);
    usb::init(&mut layer.usb, layer.pci_devices.as_slice());
}

/// Scans the platform, PCI and VirtIO buses, in that order, and gathers
/// their devices. The PCI functions found are kept for VirtIO and USB.
pub fn scan_all<S: PciConfigSource>(layer: &mut BusLayer<S>) -> (all: Vec<Device>)
    ensures
        all@.len() == old(layer).platform.static_devices@.len() + final(layer).pci_devices@.len()
            + final(layer).virtio.devices@.len(),
        final(layer).virtio.devices@ == final(layer).pci_devices@.filter(|p: PciDevice| virtio::is_virtio_pci(p))
            .map_values(|p: PciDevice| virtio::virtio_of_pci(p)),
        final(layer).platform.static_devices@ == old(layer).platform.static_devices@,
{
    let mut all = layer.platform.devices();
    let (mut pci_found, cache) = layer.pci.enumerate();
    layer.pci_devices = cache;
    all.append(&mut pci_found);
    let mut virtio_found = virtio::scan(&mut layer.virtio, layer.pci_devices.as_slice());
    all.append(&mut virtio_found);
    all
}

/// Shuts the buses down: USB, VirtIO, ACPI (PCI and platform need no work).
pub fn shutdown() {
    usb::shutdown();
    virtio::shutdown();
    acpi::shutdown();
}

/// Whether `get_bus` has a bus of kind `t`.
pub open spec fn bus_available(t: BusType) -> bool {
    t == BusType::Pci || t == BusType::Virtio || t == BusType::Platform || t == BusType::Isa
}

/// A bus object of kind `bus_type` over what the layer knows: PCI reading
/// from a copy of the layer's source, VirtIO over the PCI functions found,
/// the platform bus with its declared devices, the ISA bus.
pub fn get_bus<S: PciConfigSource + Clone + 'static>(layer: &BusLayer<S>, bus_type: BusType) -> (r: Option<Box<dyn Bus>>)
    ensures
        r.is_some() == bus_available(bus_type),
        r matches Some(b) ==> b.kind() == bus_type,
{
    match bus_type {
        BusType::Pci => Some(Box::new(PciBus::new(layer.pci.source.clone()))),
        BusType::Virtio => {
            let mut copy: Vec<PciDevice> = Vec::new();
            let mut i: usize = 0;
            while i < layer.pci_devices.len()
                invariant
                    0 <= i <= layer.pci_devices@.len(),
                decreases layer.pci_devices@.len() - i,
            {
                copy.push(layer.pci_devices[i]);
                i = i + 1;
            }
            Some(Box::new(virtio::get_bus(copy)))
        },
        BusType::Platform => {
            Some(Box::new(PlatformBus { static_devices: layer.platform.devices() }))
        },
        BusType::Isa => Some(Box::new(IsaBus::new())),
        _ => None,
    }
}

/// Device counts of the buses.
pub fn get_stats<S: PciConfigSource>(layer: &BusLayer<S>) -> (st: BusStats)
    ensures
        st.pci_devices == layer.pci_devices@.len(),
        st.virtio_devices == layer.virtio.devices@.len(),
        st.usb_devices == layer.usb.devices@.len(),
        st.platform_devices == layer.platform.static_devices@.len(),
{
    BusStats {
        pci_devices: layer.pci_devices.len(),
        virtio_devices: virtio::device_count(&layer.virtio),
        usb_devices: usb::device_count(&layer.usb),
        platform_devices: layer.platform.static_devices.len(),
    }
}

} // verus!
