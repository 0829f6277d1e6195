//! The ISA/LPC legacy bus: the fixed devices every PC has.
use vstd::prelude::*;
use crate::drivers::base::bus::{Bus, BusAddress, BusType};
use crate::drivers::base::device::{Device, DeviceId};
use crate::drivers::base::driver::DeviceType;

verus! {

/// The legacy bus.
pub struct IsaBus;

impl IsaBus {
    /// The bus.
    pub fn new() -> (b: IsaBus) {
        IsaBus
    }
}

/// The legacy devices: id, I/O port and type of COM1, the PS/2 controller,
/// the RTC and the PC speaker.
pub open spec fn legacy_devices() -> Seq<(u64, u16, DeviceType)> {
    seq![
        (0x165501u64, 0x3F8u16, DeviceType::Serial),
        (0x8042u64, 0x60u16, DeviceType::Controller),
        (0x70u64, 0x70u16, DeviceType::Timer),
        (0x61u64, 0x61u16, DeviceType::Generic),
    ]
}

/// `v` lists the legacy devices, in the order of `legacy_devices`, on the
/// ISA bus and without a driver.
pub open spec fn is_legacy_list(v: Seq<Device>) -> bool {
    &&& v.len() == 4
    &&& forall|k: int| 0 <= k < 4 ==> {
        let (id, port, t) = #[trigger] legacy_devices()[k];
        &&& v[k].id == DeviceId(id)
        &&& v[k].bus_type == BusType::Isa
        &&& v[k].bus_address == (BusAddress::IoPort { port, count: 1 })
        &&& v[k].device_type == t
        &&& v[k].driver.is_none()
    }
}

/// The legacy devices, in the order of `legacy_devices`, on the ISA bus.
pub fn legacy_scan() -> (v: Vec<Device>)
    ensures
        is_legacy_list(v@),
{
    let mut devices: Vec<Device> = Vec::new();
    devices.push(Device::new(DeviceId(0x165501), "COM1", BusType::Isa, BusAddress::IoPort { port: 0x3F8, count: 1 }, DeviceType::Serial));
    devices.push(Device::new(DeviceId(0x8042), "PS2-Controller", BusType::Isa, BusAddress::IoPort { port: 0x60, count: 1 }, DeviceType::Controller));
    devices.push(Device::new(DeviceId(0x70), "RTC", BusType::Isa, BusAddress::IoPort { port: 0x70, count: 1 }, DeviceType::Timer));
    devices.push(Device::new(DeviceId(0x61), "PC-Speaker", BusType::Isa, BusAddress::IoPort { port: 0x61, count: 1 }, DeviceType::Generic));
    devices
}

impl Bus for IsaBus {
    open spec fn kind(&self) -> BusType {
        BusType::Isa
    }

    fn name(&self) -> (s: &'static str)
        ensures
            s@ == "ISA/LPC Legacy Bus"@,
    {
        "ISA/LPC Legacy Bus"
    }

    fn bus_type(&self) -> (t: BusType) {
        BusType::Isa
    }

    /// The fixed legacy devices.
    fn scan(&self) -> (v: Vec<Device>)
        ensures
            is_legacy_list(v@),
    {
        legacy_scan()
    }

    /// Legacy devices cannot be reset.
    fn reset_device(&self, dev: &mut Device) -> (r: bool)
        ensures
            !r,
            *final(dev) == *old(dev),
    {
        false
    }
}

/// Start-up of the legacy bus: nothing to prepare.
pub fn init() {
}

} // verus!
