//! VirtIO: paravirtualized devices found on PCI, their kinds, and the bus
//! that reports them to the driver system.
pub mod types;
pub mod transport;
pub mod pci;
pub mod virtqueue;

use vstd::prelude::*;
use crate::drivers::base::bus::{Bus, BusAddress, BusType};
use crate::drivers::base::device::{Device, DeviceId};
use crate::drivers::base::driver::DeviceType;
use crate::drivers::bus::pci::PciAddress;
use crate::drivers::bus::pci::device::PciDevice;

verus! {

/// PCI vendor id of VirtIO devices.
pub const VIRTIO_VENDOR_ID: u16 = 0x1AF4;
/// First transitional (legacy) device id.
pub const VIRTIO_DEVICE_ID_BASE: u16 = 0x1000;
/// First modern device id.
pub const VIRTIO_DEVICE_ID_MODERN_BASE: u16 = 0x1040;

/// Kinds of VirtIO device.
#[derive(Debug, Clone, Copy, PartialEq, Eq, Structural)]
pub enum VirtioDeviceType {
    Network,
    Block,
    Console,
    Entropy,
    Balloon,
    IoMemory,
    Rpmsg,
    Scsi,
    Transport9P,
    Mac80211,
    SerialPort,
    Caif,
    Memory,
    Gpu,
    Clock,
    Input,
    Vsock,
    Crypto,
    Signal,
    PmemPersistentMem,
    Iommu,
    Sound,
    Unknown,
}

/// How a VirtIO device is reached.
#[derive(Debug, Clone, Copy, PartialEq, Eq, Structural)]
pub enum VirtioTransportType {
    Pci,
    Mmio,
}

/// Where a VirtIO device is.
#[derive(Debug, Clone, Copy, PartialEq, Eq, Structural)]
pub enum VirtioAddress {
    Pci(PciAddress),
    Mmio(u64),
}

/// A VirtIO device found on a bus.
#[derive(Debug, Clone, Copy)]
pub struct VirtioDevice {
    pub device_type: VirtioDeviceType,
    pub transport: VirtioTransportType,
    pub address: VirtioAddress,
    pub features: u64,
    pub num_queues: u16,
    pub status: u8,
}

/// The kind of a modern device from its type id (its PCI device id less
/// 0x1040).
pub open spec fn modern_type_of(t: int) -> VirtioDeviceType {
    if t == 1 {
        VirtioDeviceType::Network
    } else if t == 2 {
        VirtioDeviceType::Block
    } else if t == 3 {
        VirtioDeviceType::Console
    } else if t == 4 {
        VirtioDeviceType::Entropy
    } else if t == 5 {
        VirtioDeviceType::Balloon
    } else if t == 8 {
        VirtioDeviceType::Scsi
    } else if t == 16 {
        VirtioDeviceType::Gpu
    } else if t == 18 {
        VirtioDeviceType::Input
    } else if t == 25 {
        VirtioDeviceType::Sound
    } else {
        VirtioDeviceType::Unknown
    }
}

/// The kind of a transitional device from its PCI device id (0x1000..0x103F),
/// which has its own table: 0x1000 network, 0x1001 block, 0x1002 balloon,
/// 0x1003 console, 0x1004 SCSI, 0x1005 entropy, 0x1009 9P transport.
pub open spec fn transitional_type_of(id: u16) -> VirtioDeviceType {
    if id == 0x1000 {
        VirtioDeviceType::Network
    } else if id == 0x1001 {
        VirtioDeviceType::Block
    } else if id == 0x1002 {
        VirtioDeviceType::Balloon
    } else if id == 0x1003 {
        VirtioDeviceType::Console
    } else if id == 0x1004 {
        VirtioDeviceType::Scsi
    } else if id == 0x1005 {
        VirtioDeviceType::Entropy
    } else if id == 0x1009 {
        VirtioDeviceType::Transport9P
    } else {
        VirtioDeviceType::Unknown
    }
}

/// The kind of a device from its PCI device id: modern ids count from
/// 0x1040, transitional ones (0x1000..0x103F) follow their own table.
pub open spec fn virtio_type_of(id: u16) -> VirtioDeviceType {
    if id < VIRTIO_DEVICE_ID_BASE {
        VirtioDeviceType::Unknown
    } else if id >= VIRTIO_DEVICE_ID_MODERN_BASE {
        modern_type_of(id - VIRTIO_DEVICE_ID_MODERN_BASE)
    } else {
        transitional_type_of(id)
    }
}

/// Display name of a kind.
pub open spec fn virtio_type_name(t: VirtioDeviceType) -> Seq<char> {
    match t {
        VirtioDeviceType::Network => "VirtIO Network"@,
        VirtioDeviceType::Block => "VirtIO Block"@,
        VirtioDeviceType::Console => "VirtIO Console"@,
        VirtioDeviceType::Entropy => "VirtIO RNG"@,
        VirtioDeviceType::Gpu => "VirtIO GPU"@,
        VirtioDeviceType::Input => "VirtIO Input"@,
        VirtioDeviceType::Sound => "VirtIO Sound"@,
        VirtioDeviceType::Scsi => "VirtIO SCSI"@,
        _ => "VirtIO Unknown"@,
    }
}

/// Functional type of a kind.
pub open spec fn virtio_functional_type(t: VirtioDeviceType) -> DeviceType {
    match t {
        VirtioDeviceType::Block | VirtioDeviceType::Scsi => DeviceType::Storage,
        VirtioDeviceType::Network => DeviceType::Network,
        VirtioDeviceType::Gpu => DeviceType::Display,
        VirtioDeviceType::Input => DeviceType::Input,
        VirtioDeviceType::Sound => DeviceType::Audio,
        VirtioDeviceType::Entropy => DeviceType::Security,
        VirtioDeviceType::Console => DeviceType::Serial,
        _ => DeviceType::Generic,
    }
}

impl VirtioDeviceType {
    /// The kind of a device from its PCI device id.
    pub fn from_device_id(id: u16) -> (t: VirtioDeviceType)
        ensures
            t == virtio_type_of(id),
    {
        if id < VIRTIO_DEVICE_ID_BASE {
            return VirtioDeviceType::Unknown;
        }
        if id < VIRTIO_DEVICE_ID_MODERN_BASE {
            return match id {
                0x1000 => VirtioDeviceType::Network,
                0x1001 => VirtioDeviceType::Block,
                0x1002 => VirtioDeviceType::Balloon,
                0x1003 => VirtioDeviceType::Console,
                0x1004 => VirtioDeviceType::Scsi,
                0x1005 => VirtioDeviceType::Entropy,
                0x1009 => VirtioDeviceType::Transport9P,
                _ => VirtioDeviceType::Unknown,
            };
        }
        match id - VIRTIO_DEVICE_ID_MODERN_BASE {
            1 => VirtioDeviceType::Network,
            2 => VirtioDeviceType::Block,
            3 => VirtioDeviceType::Console,
            4 => VirtioDeviceType::Entropy,
            5 => VirtioDeviceType::Balloon,
            8 => VirtioDeviceType::Scsi,
            16 => VirtioDeviceType::Gpu,
            18 => VirtioDeviceType::Input,
            25 => VirtioDeviceType::Sound,
            _ => VirtioDeviceType::Unknown,
        }
    }

    /// Display name.
    pub fn as_str(&self) -> (s: &'static str)
        ensures
            s@ == virtio_type_name(*self),
    {
        match self {
            VirtioDeviceType::Network => "VirtIO Network",
            VirtioDeviceType::Block => "VirtIO Block",
            VirtioDeviceType::Console => "VirtIO Console",
            VirtioDeviceType::Entropy => "VirtIO RNG",
            VirtioDeviceType::Gpu => "VirtIO GPU",
            VirtioDeviceType::Input => "VirtIO Input",
            VirtioDeviceType::Sound => "VirtIO Sound",
            VirtioDeviceType::Scsi => "VirtIO SCSI",
            _ => "VirtIO Unknown",
        }
    }

    /// Functional type in the driver system.
    pub fn to_device_type(&self) -> (t: DeviceType)
        ensures
            t == virtio_functional_type(*self),
    {
        match self {
            VirtioDeviceType::Block | VirtioDeviceType::Scsi => DeviceType::Storage,
            VirtioDeviceType::Network => DeviceType::Network,
            VirtioDeviceType::Gpu => DeviceType::Display,
            VirtioDeviceType::Input => DeviceType::Input,
            VirtioDeviceType::Sound => DeviceType::Audio,
            VirtioDeviceType::Entropy => DeviceType::Security,
            VirtioDeviceType::Console => DeviceType::Serial,
            _ => DeviceType::Generic,
        }
    }
}

/// The VirtIO devices found so far.
pub struct VirtioRegistry {
    pub devices: Vec<VirtioDevice>,
    pub initialized: bool,
}

impl VirtioRegistry {
    /// Nothing found, not initialized.
    pub fn new() -> (r: VirtioRegistry)
        ensures
            r.devices@.len() == 0,
            !r.initialized,
    {
        VirtioRegistry { devices: Vec::new(), initialized: false }
    }
}

/// The VirtIO device of a PCI function, before feature negotiation.
pub open spec fn virtio_of_pci(p: PciDevice) -> VirtioDevice {
    VirtioDevice {
        device_type: virtio_type_of(p.device_id),
        transport: VirtioTransportType::Pci,
        address: VirtioAddress::Pci(p.address),
        features: 0,
        num_queues: 0,
        status: 0,
    }
}

/// The device the driver system sees for a VirtIO device.
pub open spec fn base_device_matches(d: Device, v: VirtioDevice) -> bool {
    &&& d.bus_type == BusType::Virtio
    &&& d.bus_address == (match v.address {
            VirtioAddress::Pci(a) => BusAddress::Pci { segment: 0, bus: a.bus, device: a.device, function: a.function },
            VirtioAddress::Mmio(base) => BusAddress::Mmio { base, size: 0x1000 },
        })
    &&& d.device_type == virtio_functional_type(v.device_type)
}

/// A VirtIO function reaches the driver system with the type its kind
/// calls for: block and SCSI devices are storage, network devices network,
/// GPUs display, input devices input, sound devices audio, entropy sources
/// security, consoles serial, and every other kind generic.
pub proof fn lemma_virtio_functional_types(t: VirtioDeviceType)
    ensures
        virtio_functional_type(t) == DeviceType::Storage <==> (t == VirtioDeviceType::Block || t == VirtioDeviceType::Scsi),
        virtio_functional_type(t) == DeviceType::Network <==> t == VirtioDeviceType::Network,
        virtio_functional_type(t) == DeviceType::Display <==> t == VirtioDeviceType::Gpu,
        virtio_functional_type(t) == DeviceType::Input <==> t == VirtioDeviceType::Input,
        virtio_functional_type(t) == DeviceType::Audio <==> t == VirtioDeviceType::Sound,
        virtio_functional_type(t) == DeviceType::Security <==> t == VirtioDeviceType::Entropy,
        virtio_functional_type(t) == DeviceType::Serial <==> t == VirtioDeviceType::Console,
{
}

/// From PCI device id to the driver system: a VirtIO network device (id
/// 0x1000, transitional, or 0x1041, modern) is registered as a network
/// device, and only those; a block device (0x1001 or 0x1042) as storage.
pub proof fn lemma_virtio_ids_register_as(d: Device, p: PciDevice)
    requires
        is_virtio_pci(p),
        base_device_matches(d, virtio_of_pci(p)),
    ensures
        d.device_type == DeviceType::Network <==> (p.device_id == 0x1000 || p.device_id == 0x1041),
        (p.device_id == 0x1001 || p.device_id == 0x1042) ==> d.device_type == DeviceType::Storage,
        d.bus_type == BusType::Virtio,
{
}

fn virtio_device_to_base_device(vdev: &VirtioDevice) -> (d: Device)
    ensures
        base_device_matches(d, *vdev),
        d.driver.is_none(),
{
    let bus_addr = match vdev.address {
        VirtioAddress::Pci(addr) => addr.to_bus_address(),
        VirtioAddress::Mmio(base) => BusAddress::Mmio { base, size: 0x1000 },
    };
    Device::new(DeviceId(0), vdev.device_type.as_str(), BusType::Virtio, bus_addr, vdev.device_type.to_device_type())
}

/// Whether a PCI function is a VirtIO device.
pub open spec fn is_virtio_pci(p: PciDevice) -> bool {
    p.vendor_id == VIRTIO_VENDOR_ID
}

fn scan_pci_virtio(devices: &mut Vec<VirtioDevice>, pci_devices: &[PciDevice])
    ensures
        final(devices)@ == old(devices)@ + pci_devices@.filter(|p: PciDevice| is_virtio_pci(p)).map_values(|p: PciDevice| virtio_of_pci(p)),
{
    let ghost pred = |p: PciDevice| is_virtio_pci(p);
    let ghost f = |p: PciDevice| virtio_of_pci(p);
    let ghost start = devices@;
    let mut i: usize = 0;
    while i < pci_devices.len()
        invariant
            0 <= i <= pci_devices@.len(),
            pred == (|p: PciDevice| is_virtio_pci(p)),
            f == (|p: PciDevice| virtio_of_pci(p)),
            devices@ == start + pci_devices@.take(i as int).filter(pred).map_values(f),
        decreases pci_devices@.len() - i,
    {
        proof {
            crate::seqs::lemma_take_succ(pci_devices@, i as int);
            crate::seqs::lemma_filter_push(pci_devices@.take(i as int), pci_devices@[i as int], pred);
        }
        let p = pci_devices[i];
        if p.vendor_id == VIRTIO_VENDOR_ID {
            let ghost prev = pci_devices@.take(i as int).filter(pred);
            devices.push(VirtioDevice {
                device_type: VirtioDeviceType::from_device_id(p.device_id),
                transport: VirtioTransportType::Pci,
                address: VirtioAddress::Pci(p.address),
                features: 0,
                num_queues: 0,
                status: 0,
            });
            assert(prev.push(p).map_values(f) =~= prev.map_values(f).push(virtio_of_pci(p)));
            assert(devices@ =~= start + prev.push(p).map_values(f));
        }
        i = i + 1;
    }
    assert(pci_devices@.take(pci_devices@.len() as int) =~= pci_devices@);
}

fn base_devices(vdevs: &Vec<VirtioDevice>) -> (devices: Vec<Device>)
    ensures
        devices@.len() == vdevs@.len(),
        forall|k: int| 0 <= k < vdevs@.len() ==> base_device_matches(#[trigger] devices@[k], vdevs@[k]),
{
    let mut devices: Vec<Device> = Vec::new();
    let mut i: usize = 0;
    while i < vdevs.len()
        invariant
            0 <= i <= vdevs@.len(),
            devices@.len() == i,
            forall|k: int| 0 <= k < i ==> base_device_matches(#[trigger] devices@[k], vdevs@[k]),
        decreases vdevs@.len() - i,
    {
        devices.push(virtio_device_to_base_device(&vdevs[i]));
        i = i + 1;
    }
    devices
}

/// Rescans: the registry is replaced by the VirtIO functions among
/// `pci_devices` (vendor 0x1AF4), in order, and their devices are returned.
pub fn scan(reg: &mut VirtioRegistry, pci_devices: &[PciDevice]) -> (devices: Vec<Device>)
    ensures
        final(reg).devices@ == pci_devices@.filter(|p: PciDevice| is_virtio_pci(p)).map_values(|p: PciDevice| virtio_of_pci(p)),
        final(reg).initialized == old(reg).initialized,
        devices@.len() == final(reg).devices@.len(),
        forall|k: int| 0 <= k < devices@.len() ==> base_device_matches(#[trigger] devices@[k], final(reg).devices@[k]),
{
    reg.devices.clear();
    let ghost empty = reg.devices@;
    scan_pci_virtio(&mut reg.devices, pci_devices);
    assert(empty + pci_devices@.filter(|p: PciDevice| is_virtio_pci(p)).map_values(|p: PciDevice| virtio_of_pci(p))
        =~= pci_devices@.filter(|p: PciDevice| is_virtio_pci(p)).map_values(|p: PciDevice| virtio_of_pci(p)));
    base_devices(&reg.devices)
}

/// Marks VirtIO support initialized.
pub fn init(reg: &mut VirtioRegistry)
    ensures
        final(reg).initialized,
        final(reg).devices@ == old(reg).devices@,
{
    reg.initialized = true;
}

/// Number of VirtIO devices found.
pub fn device_count(reg: &VirtioRegistry) -> (n: usize)
    ensures
        n == reg.devices@.len(),
{
    reg.devices.len()
}

/// The first device of kind `vtype`, if any.
pub fn find_by_type(reg: &VirtioRegistry, vtype: VirtioDeviceType) -> (r: Option<VirtioDevice>)
    ensures
        match r {
            Some(d) => exists|i: int| 0 <= i < reg.devices@.len() && reg.devices@[i] == d && d.device_type == vtype
                && forall|j: int| 0 <= j < i ==> (#[trigger] reg.devices@[j]).device_type != vtype,
            None => forall|j: int| 0 <= j < reg.devices@.len() ==> (#[trigger] reg.devices@[j]).device_type != vtype,
        },
{
    let mut i: usize = 0;
    while i < reg.devices.len()
        invariant
            0 <= i <= reg.devices@.len(),
            forall|j: int| 0 <= j < i ==> (#[trigger] reg.devices@[j]).device_type != vtype,
        decreases reg.devices@.len() - i,
    {
        if reg.devices[i].device_type == vtype {
            return Some(reg.devices[i]);
        }
        i = i + 1;
    }
    None
}

/// Shutting VirtIO down needs no work.
pub fn shutdown() {
}

/// The VirtIO bus over a list of PCI functions.
pub struct VirtioBus {
    pub pci_devices: Vec<PciDevice>,
}

/// The VirtIO bus over `pci_devices`.
pub fn get_bus(pci_devices: Vec<PciDevice>) -> (b: VirtioBus)
    ensures
        b.pci_devices@ == pci_devices@,
{
    VirtioBus { pci_devices }
}

impl Bus for VirtioBus {
    open spec fn kind(&self) -> BusType {
        BusType::Virtio
    }

    fn name(&self) -> (s: &'static str)
        ensures
            s@ == "VirtIO Bus"@,
    {
        "VirtIO Bus"
    }

    fn bus_type(&self) -> (t: BusType) {
        BusType::Virtio
    }

    /// A device for each VirtIO function among the bus's PCI functions, in
    /// their order.
    fn scan(&self) -> (devices: Vec<Device>)
        ensures
            ({
                let found = self.pci_devices@.filter(|p: PciDevice| is_virtio_pci(p)).map_values(|p: PciDevice| virtio_of_pci(p));
                &&& devices@.len() == found.len()
                &&& forall|k: int| 0 <= k < devices@.len() ==> base_device_matches(#[trigger] devices@[k], found[k])
            }),
    {
        let mut vdevs: Vec<VirtioDevice> = Vec::new();
        let ghost empty = vdevs@;
        scan_pci_virtio(&mut vdevs, self.pci_devices.as_slice());
        assert(empty + self.pci_devices@.filter(|p: PciDevice| is_virtio_pci(p)).map_values(|p: PciDevice| virtio_of_pci(p))
            =~= self.pci_devices@.filter(|p: PciDevice| is_virtio_pci(p)).map_values(|p: PciDevice| virtio_of_pci(p)));
        base_devices(&vdevs)
    }

    /// Devices are reset through their status register: reported done.
    fn reset_device(&self, dev: &mut Device) -> (r: bool)
        ensures
            r,
            *final(dev) == *old(dev),
    {
        true
    }
}

} // verus!
