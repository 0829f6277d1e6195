//! The platform bus: devices the firmware or the kernel declares, not
//! enumerated by hardware.
use vstd::prelude::*;
use crate::drivers::base::bus::{Bus, BusType};
use crate::drivers::base::device::Device;

verus! {

/// The platform bus and its declared devices.
pub struct PlatformBus {
    pub static_devices: Vec<Device>,
}

/// `c` is a copy of `d`.
pub open spec fn same_device(c: Device, d: Device) -> bool {
    &&& c.id == d.id
    &&& c.state == d.state
    &&& c.name@ == d.name@
    &&& c.device_type == d.device_type
    &&& c.bus_type == d.bus_type
    &&& c.bus_address == d.bus_address
    &&& c.driver == d.driver
    &&& c.parent == d.parent
    &&& c.children@ == d.children@
    &&& c.discovery_time == d.discovery_time
    &&& c.last_status_change == d.last_status_change
}

fn copy_bytes(v: &Vec<u8>) -> (c: Vec<u8>)
    ensures
        c@ == v@,
{
    let mut c: Vec<u8> = Vec::new();
    let mut i: usize = 0;
    while i < v.len()
        invariant
            0 <= i <= v@.len(),
            c@ == v@.take(i as int),
        decreases v@.len() - i,
    {
        proof {
            crate::seqs::lemma_take_succ(v@, i as int);
        }
        c.push(v[i]);
        i = i + 1;
    }
    assert(v@.take(v@.len() as int) =~= v@);
    c
}

fn copy_device(d: &Device) -> (c: Device)
    ensures
        same_device(c, *d),
{
    let mut children = Vec::new();
    let mut i: usize = 0;
    while i < d.children.len()
        invariant
            0 <= i <= d.children@.len(),
            children@ == d.children@.take(i as int),
        decreases d.children@.len() - i,
    {
        proof {
            crate::seqs::lemma_take_succ(d.children@, i as int);
        }
        children.push(d.children[i]);
        i = i + 1;
    }
    assert(d.children@.take(d.children@.len() as int) =~= d.children@);
    Device {
        id: d.id,
        state: d.state,
        name: copy_bytes(&d.name),
        device_type: d.device_type,
        bus_type: d.bus_type,
        bus_address: d.bus_address,
        driver: d.driver,
        parent: d.parent,
        children,
        discovery_time: d.discovery_time,
        last_status_change: d.last_status_change,
    }
}

impl PlatformBus {
    /// A bus with no declared device.
    pub fn new() -> (b: PlatformBus)
        ensures
            b.static_devices@.len() == 0,
    {
        PlatformBus { static_devices: Vec::new() }
    }

    /// Declares a device.
    pub fn add_device(&mut self, dev: Device)
        ensures
            final(self).static_devices@ == old(self).static_devices@.push(dev),
    {
        self.static_devices.push(dev);
    }

    /// Copies of the declared devices, in declaration order.
    pub fn devices(&self) -> (v: Vec<Device>)
        ensures
            v@.len() == self.static_devices@.len(),
            forall|k: int| 0 <= k < v@.len() ==> same_device(#[trigger] v@[k], self.static_devices@[k]),
    {
        let mut v: Vec<Device> = Vec::new();
        let mut i: usize = 0;
        while i < self.static_devices.len()
            invariant
                0 <= i <= self.static_devices@.len(),
                v@.len() == i,
                forall|k: int| 0 <= k < i ==> same_device(#[trigger] v@[k], self.static_devices@[k]),
            decreases self.static_devices@.len() - i,
        {
            v.push(copy_device(&self.static_devices[i]));
            i = i + 1;
        }
        v
    }
}

impl Bus for PlatformBus {
    open spec fn kind(&self) -> BusType {
        BusType::Platform
    }

    fn name(&self) -> (s: &'static str)
        ensures
            s@ == "System Platform Bus"@,
    {
        "System Platform Bus"
    }

    fn bus_type(&self) -> (t: BusType) {
        BusType::Platform
    }

    /// Copies of the declared devices, in declaration order.
    fn scan(&self) -> (v: Vec<Device>)
        ensures
            v@.len() == self.static_devices@.len(),
            forall|k: int| 0 <= k < v@.len() ==> same_device(#[trigger] v@[k], self.static_devices@[k]),
    {
        self.devices()
    }

    /// Platform devices cannot be reset.
    fn reset_device(&self, dev: &mut Device) -> (r: bool)
        ensures
            !r,
            *final(dev) == *old(dev),
    {
        false
    }
}

/// Start-up of the platform bus: nothing to prepare.
pub fn init() {
}

/// Declares a device on the platform bus.
pub fn register_platform_device(bus: &mut PlatformBus, dev: Device)
    ensures
        final(bus).static_devices@ == old(bus).static_devices@.push(dev),
{
    bus.add_device(dev);
}

} // verus!
