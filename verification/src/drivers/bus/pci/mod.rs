//! The PCI bus: function addresses, enumeration of buses, slots and
//! functions, and the classification of what it finds.
pub mod access;
pub mod config;
pub mod device;

use vstd::prelude::*;
use crate::drivers::base::bus::{Bus, BusAddress, BusType};
use crate::drivers::base::device::{Device, DeviceId};
use crate::drivers::base::driver::DeviceType;
use self::access::PciConfigSpace;
use self::device::{PciDevice, device_from_config};

verus! {

/// Address of a function: bus, device (slot) and function number.
#[derive(Debug, Clone, Copy, PartialEq, Eq, Structural)]
pub struct PciAddress {
    pub bus: u8,
    pub device: u8,
    pub function: u8,
}

impl PciAddress {
    /// The address as a bus address of the driver system (segment 0).
    pub fn to_bus_address(&self) -> (a: BusAddress)
        ensures
            a == (BusAddress::Pci { segment: 0, bus: self.bus, device: self.device, function: self.function }),
    {
        BusAddress::Pci { segment: 0, bus: self.bus, device: self.device, function: self.function }
    }
}

/// The source of configuration spaces: reads the space of one function,
/// `None` when nothing answers there.
pub trait PciConfigSource {
    fn read_function(&self, address: PciAddress) -> Option<PciConfigSpace>;
}

/// Functional type of a device of PCI class `class`.
pub open spec fn class_device_type(class: u8) -> DeviceType {
    if class == 0x01 {
        DeviceType::Storage
    } else if class == 0x02 {
        DeviceType::Network
    } else if class == 0x03 {
        DeviceType::Display
    } else if class == 0x04 {
        DeviceType::Audio
    } else if class == 0x06 {
        DeviceType::Bus
    } else if class == 0x0C || class == 0x08 {
        DeviceType::Controller
    } else {
        DeviceType::Unknown
    }
}

/// Functional type of a device of PCI class `class`.
pub fn map_class_to_dev_type(class: u8) -> (t: DeviceType)
    ensures
        t == class_device_type(class),
{
    match class {
        0x01 => DeviceType::Storage,
        0x02 => DeviceType::Network,
        0x03 => DeviceType::Display,
        0x04 => DeviceType::Audio,
        0x06 => DeviceType::Bus,
        0x0C => DeviceType::Controller,
        0x08 => DeviceType::Controller,
        _ => DeviceType::Unknown,
    }
}

/// The device the driver system registers for a function: id made of vendor
/// and device id, PCI address, type from the class.
pub open spec fn device_matches_function(d: Device, info: PciDevice) -> bool {
    &&& d.id == DeviceId(((info.vendor_id as u64) * 0x1_0000 + info.device_id as u64) as u64)
    &&& d.bus_type == BusType::Pci
    &&& d.bus_address == (BusAddress::Pci { segment: 0, bus: info.address.bus, device: info.address.device, function: info.address.function })
    &&& d.device_type == class_device_type(info.class_code)
    &&& d.driver.is_none()
}

/// The device registered for a PCI function takes its type from the
/// function's base class, by the PCI class table: mass-storage controllers
/// (0x01) are storage, network controllers (0x02) network, display
/// controllers (0x03) display, multimedia devices (0x04) audio, bridges
/// (0x06) buses, serial-bus controllers (0x0C) and base system peripherals
/// (0x08) controllers, and every other class unknown.
pub proof fn lemma_function_type_follows_class(d: Device, info: PciDevice)
    requires
        device_matches_function(d, info),
    ensures
        d.device_type == DeviceType::Storage <==> info.class_code == 0x01,
        d.device_type == DeviceType::Network <==> info.class_code == 0x02,
        d.device_type == DeviceType::Display <==> info.class_code == 0x03,
        d.device_type == DeviceType::Audio <==> info.class_code == 0x04,
        d.device_type == DeviceType::Bus <==> info.class_code == 0x06,
        d.device_type == DeviceType::Controller <==> (info.class_code == 0x0C || info.class_code == 0x08),
        d.device_type == DeviceType::Unknown <==> !(info.class_code == 0x01 || info.class_code == 0x02
            || info.class_code == 0x03 || info.class_code == 0x04 || info.class_code == 0x06
            || info.class_code == 0x0C || info.class_code == 0x08),
{
}

/// `d` is the device of some PCI function.
pub open spec fn is_function_device(d: Device) -> bool {
    exists|info: PciDevice| #[trigger] device_matches_function(d, info)
}

/// Records a function found by enumeration: its device for the driver
/// system and its identity in the cache.
pub fn register_found_device(devices: &mut Vec<Device>, cache: &mut Vec<PciDevice>, info: PciDevice)
    ensures
        final(devices)@.len() == old(devices)@.len() + 1,
        forall|k: int| 0 <= k < old(devices)@.len() ==> #[trigger] final(devices)@[k] == old(devices)@[k],
        device_matches_function(final(devices)@[old(devices)@.len() as int], info),
        final(cache)@ == old(cache)@.push(info),
{
    let v = info.vendor_id as u64;
    let d = info.device_id as u64;
    proof {
        crate::bitfields::lemma_pack_u64_halfwords(v, d, 0, 0);
    }
    let dev = Device::new(
        DeviceId((v << 16u64) | d),
        "PCI-Device",
        BusType::Pci,
        info.address.to_bus_address(),
        map_class_to_dev_type(info.class_code),
    );
    devices.push(dev);
    cache.push(info);
}

/// Position of a function in enumeration order: bus, then slot, then
/// function.
pub open spec fn address_key(a: PciAddress) -> int {
    a.bus as int * 256 + a.device as int * 8 + a.function as int
}

/// Each function listed once, in enumeration order.
pub open spec fn addresses_ascending(s: Seq<PciDevice>) -> bool {
    forall|a: int, b: int| 0 <= a < b < s.len() ==> address_key((#[trigger] s[a]).address) < address_key((#[trigger] s[b]).address)
}

/// Functions other than 0 are only listed after function 0 of their slot,
/// and only when that function is a multi-function device (header type
/// bit 7).
pub open spec fn functions_follow_multifunction(s: Seq<PciDevice>) -> bool {
    forall|k: int| 0 <= k < s.len() && (#[trigger] s[k]).address.function != 0 ==>
        exists|j: int| 0 <= j < k && #[trigger] is_multifunction_head(s[j], s[k].address)
}

/// `p` is function 0 of the slot of `a`, with the multi-function bit set.
pub open spec fn is_multifunction_head(p: PciDevice, a: PciAddress) -> bool {
    &&& p.address == (PciAddress { bus: a.bus, device: a.device, function: 0 })
    &&& p.header_type & 0x80 != 0
}

/// Where an enumeration stands: the function to read next and whether any
/// function answered so far. `bus` is 256 once the enumeration is over.
#[derive(Debug, Clone, Copy, PartialEq, Eq, Structural)]
pub struct ScanCursor {
    pub bus: u16,
    pub slot: u8,
    pub function: u8,
    pub found_any: bool,
}

/// A cursor on a function of the 256 buses, or past the last one.
pub open spec fn cursor_valid(c: ScanCursor) -> bool {
    &&& c.bus <= 256
    &&& c.slot < 32
    &&& c.function < 8
    &&& c.bus == 256 ==> c.slot == 0 && c.function == 0
}

/// Position of the cursor in enumeration order.
pub open spec fn cursor_key(c: ScanCursor) -> int {
    c.bus as int * 256 + c.slot as int * 8 + c.function as int
}

/// The function under the cursor.
pub open spec fn cursor_address(c: ScanCursor) -> PciAddress {
    PciAddress { bus: c.bus as u8, device: c.slot, function: c.function }
}

/// The cursor at function 0 of the next slot; after the last slot of a bus,
/// the next bus, except that the enumeration ends after bus 0 when nothing
/// answered there.
pub open spec fn next_slot(c: ScanCursor, found_any: bool) -> ScanCursor {
    if c.slot < 31 {
        ScanCursor { bus: c.bus, slot: (c.slot + 1) as u8, function: 0, found_any }
    } else if c.bus == 0 && !found_any {
        ScanCursor { bus: 256, slot: 0, function: 0, found_any }
    } else {
        ScanCursor { bus: (c.bus + 1) as u16, slot: 0, function: 0, found_any }
    }
}

/// The cursor once the function under it answered `answer`: functions 1..7
/// follow function 0 only when it answered with the multi-function bit set
/// (header type bit 7); otherwise the next slot.
pub open spec fn cursor_after(c: ScanCursor, answer: Option<PciDevice>) -> ScanCursor {
    let found_any = c.found_any || answer is Some;
    if c.function == 0 {
        if answer matches Some(info) && info.header_type & 0x80 != 0 {
            ScanCursor { bus: c.bus, slot: c.slot, function: 1, found_any }
        } else {
            next_slot(c, found_any)
        }
    } else if c.function < 7 {
        ScanCursor { bus: c.bus, slot: c.slot, function: (c.function + 1) as u8, found_any }
    } else {
        next_slot(c, found_any)
    }
}

impl ScanCursor {
    /// Function 0 of slot 0 of bus 0, nothing found yet.
    pub fn start() -> (c: ScanCursor)
        ensures
            c == (ScanCursor { bus: 0, slot: 0, function: 0, found_any: false }),
    {
        ScanCursor { bus: 0, slot: 0, function: 0, found_any: false }
    }

    /// The function under the cursor.
    pub fn address(&self) -> (a: PciAddress)
        requires
            self.bus < 256,
        ensures
            a == cursor_address(*self),
    {
        PciAddress { bus: self.bus as u8, device: self.slot, function: self.function }
    }

    /// Moves the cursor on once the function under it answered `answer`.
    pub fn advance(&self, answer: &Option<PciDevice>) -> (n: ScanCursor)
        requires
            cursor_valid(*self),
            self.bus < 256,
        ensures
            n == cursor_after(*self, *answer),
            cursor_valid(n),
            cursor_key(n) > cursor_key(*self),
    {
        let found_any = self.found_any || answer.is_some();
        let multi_head = match answer {
            Some(info) => self.function == 0 && info.header_type & 0x80 != 0,
            None => false,
        };
        if multi_head {
            ScanCursor { bus: self.bus, slot: self.slot, function: 1, found_any }
        } else if self.function != 0 && self.function < 7 {
            ScanCursor { bus: self.bus, slot: self.slot, function: self.function + 1, found_any }
        } else if self.slot < 31 {
            ScanCursor { bus: self.bus, slot: self.slot + 1, function: 0, found_any }
        } else if self.bus == 0 && !found_any {
            ScanCursor { bus: 256, slot: 0, function: 0, found_any }
        } else {
            ScanCursor { bus: self.bus + 1, slot: 0, function: 0, found_any }
        }
    }
}

/// What an answer of the configuration source at `address` gives: the
/// function read from a well-formed space for that address, or nothing.
pub open spec fn accepted(address: PciAddress, cfg: Option<PciConfigSpace>) -> Option<PciDevice> {
    match cfg {
        Some(c) => if c.dwords@.len() == access::CONFIG_DWORDS && c.address == address {
            device_from_config(c.dwords@, address)
        } else {
            None
        },
        None => None,
    }
}

/// The function that the configuration space `cfg` read at `address` shows.
pub fn accepted_function(address: PciAddress, cfg: Option<PciConfigSpace>) -> (r: Option<PciDevice>)
    ensures
        r == accepted(address, cfg),
{
    match cfg {
        Some(c) => {
            if c.dwords.len() == access::CONFIG_DWORDS && c.address == address {
                PciDevice::from_config(&c)
            } else {
                None
            }
        },
        None => None,
    }
}

/// The PCI bus, reading configuration spaces from `source`.
pub struct PciBus<S> {
    pub source: S,
}

impl<S: PciConfigSource> PciBus<S> {
    /// A bus over `source`.
    pub fn new(source: S) -> (b: PciBus<S>)
        ensures
            b.source == source,
    {
        PciBus { source }
    }

    /// Enumerates buses 0..255, slots 0..31 and, for multi-function devices
    /// (header type bit 7), functions 1..7; stops after bus 0 when nothing
    /// answered there. The functions read are those a `ScanCursor` visits
    /// (`cursor_after`) on the source's answers. Returns the devices and the
    /// identities found, in step, one device per identity, each function
    /// once and in address order. Which functions answer is the source's.
    pub fn enumerate(&self) -> (r: (Vec<Device>, Vec<PciDevice>))
        ensures
            r.0@.len() == r.1@.len(),
            forall|k: int| 0 <= k < r.0@.len() ==> device_matches_function(#[trigger] r.0@[k], r.1@[k]),
            addresses_ascending(r.1@),
            forall|k: int| 0 <= k < r.1@.len() ==> (#[trigger] r.1@[k]).address.device < 32 && r.1@[k].address.function < 8,
            functions_follow_multifunction(r.1@),
    {
        let mut devices: Vec<Device> = Vec::new();
        let mut cache: Vec<PciDevice> = Vec::new();
        let mut c = ScanCursor::start();
        let ghost mut head: int = 0;
        while c.bus < 256
            invariant
                cursor_valid(c),
                devices@.len() == cache@.len(),
                forall|k: int| 0 <= k < devices@.len() ==> device_matches_function(#[trigger] devices@[k], cache@[k]),
                addresses_ascending(cache@),
                forall|k: int| 0 <= k < cache@.len() ==> address_key((#[trigger] cache@[k]).address) < cursor_key(c),
                forall|k: int| 0 <= k < cache@.len() ==> (#[trigger] cache@[k]).address.device < 32 && cache@[k].address.function < 8,
                functions_follow_multifunction(cache@),
                c.found_any == (cache@.len() > 0),
                c.function != 0 ==> 0 <= head < cache@.len() && is_multifunction_head(cache@[head], cursor_address(c)),
            decreases 256 * 256 - cursor_key(c),
        {
            let addr = c.address();
            let answer = self.found(addr);
            let ghost before = cache@;
            let ghost c0 = c;
            match answer {
                Some(info) => {
                    register_found_device(&mut devices, &mut cache, info);
                },
                None => {},
            }
            proof {
                assert forall|k: int| 0 <= k < cache@.len() && (#[trigger] cache@[k]).address.function != 0 implies
                    exists|j: int| 0 <= j < k && #[trigger] is_multifunction_head(cache@[j], cache@[k].address) by {
                    if k < before.len() {
                        assert(cache@[k] == before[k]);
                        let j = choose|j: int| 0 <= j < k && #[trigger] is_multifunction_head(before[j], before[k].address);
                        assert(cache@[j] == before[j]);
                    } else {
                        assert(cache@[head] == before[head]);
                        assert(is_multifunction_head(cache@[head], cache@[k].address));
                    }
                }
                assert forall|a: int, b: int| 0 <= a < b < cache@.len() implies
                    address_key((#[trigger] cache@[a]).address) < address_key((#[trigger] cache@[b]).address) by {
                    if b < before.len() {
                        assert(cache@[a] == before[a]);
                        assert(cache@[b] == before[b]);
                    } else {
                        assert(cache@[a] == before[a]);
                    }
                }
                if answer is Some && c0.function == 0 {
                    head = before.len() as int;
                }
            }
            c = c.advance(&answer);
        }
        (devices, cache)
    }

    /// The function at `address`, as the source answers there (see
    /// `accepted_function`).
    fn found(&self, address: PciAddress) -> (r: Option<PciDevice>)
        ensures
            r matches Some(info) ==> info.address == address,
    {
        accepted_function(address, self.source.read_function(address))
    }
}

impl<S: PciConfigSource> Bus for PciBus<S> {
    open spec fn kind(&self) -> BusType {
        BusType::Pci
    }

    fn name(&self) -> (s: &'static str)
        ensures
            s@ == "PCI/PCIe Bus Manager"@,
    {
        "PCI/PCIe Bus Manager"
    }

    fn bus_type(&self) -> (t: BusType) {
        BusType::Pci
    }

    /// The devices of the enumeration, each that of a function found.
    fn scan(&self) -> (devices: Vec<Device>)
        ensures
            forall|k: int| 0 <= k < devices@.len() ==> is_function_device(#[trigger] devices@[k]),
    {
        let (found, cache) = self.enumerate();
        assert forall|k: int| 0 <= k < found@.len() implies is_function_device(#[trigger] found@[k]) by {
            assert(device_matches_function(found@[k], cache@[k]));
        }
        found
    }

    /// Resetting a PCI function is not supported.
    fn reset_device(&self, dev: &mut Device) -> (r: bool)
        ensures
            !r,
            *final(dev) == *old(dev),
    {
        false
    }
}

/// Bus-layer start-up of PCI: nothing to prepare; the bus enumerates when
/// scanned.
pub fn init() {
}

} // verus!
