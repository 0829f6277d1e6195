//! Functional classes: devices grouped by what they do rather than how they
//! are attached (a disk is `Storage` on USB, NVMe or IDE alike).
use vstd::prelude::*;
use crate::drivers::base::device::{Device, DeviceId};
use crate::drivers::base::driver::DeviceType;

verus! {

/// Functional categories of devices.
#[derive(Debug, Clone, Copy, PartialEq, Eq, Structural)]
pub enum ClassType {
    Display,
    Input,
    Storage,
    Network,
    Sound,
    System,
    Serial,
    Generic,
}

/// A functional class, implemented by the subsystems that group devices.
pub trait Class {
    /// The type the class reports.
    spec fn kind(&self) -> ClassType;

    /// The devices the class holds.
    spec fn members(&self) -> Seq<DeviceId>;

    /// Descriptive name of the class.
    fn name(&self) -> &'static str;

    /// Functional type of the class.
    fn class_type(&self) -> (t: ClassType)
        ensures
            t == self.kind();

    /// The devices currently in the class.
    fn get_devices(&self) -> (v: Vec<DeviceId>)
        ensures
            v@ == self.members();

    /// A compatible device was added.
    fn on_device_added(&self, dev: &Device) {
    }

    /// A device was removed.
    fn on_device_removed(&self, dev_id: DeviceId) {
    }
}

/// The registered classes.
pub struct ClassRegistry {
    pub classes: Vec<Box<dyn Class>>,
}

impl ClassRegistry {
    /// An empty registry.
    pub fn new() -> (r: ClassRegistry)
        ensures
            r.classes@.len() == 0,
    {
        ClassRegistry { classes: Vec::new() }
    }
}

/// Registers a class at the end of the registry.
pub fn register(reg: &mut ClassRegistry, class: Box<dyn Class>)
    ensures
        final(reg).classes@ == old(reg).classes@.push(class),
{
    reg.classes.push(class);
}

/// The members of the classes of type `t`, class after class in
/// registration order.
pub open spec fn members_of_type(s: Seq<Box<dyn Class>>, t: ClassType) -> Seq<DeviceId>
    decreases s.len(),
{
    if s.len() == 0 {
        Seq::empty()
    } else {
        let c = s.last();
        members_of_type(s.drop_last(), t) + if c.kind() == t { c.members() } else { Seq::empty() }
    }
}

/// Every device of every class of type `class_type`.
pub fn get_devices_by_type(reg: &ClassRegistry, class_type: ClassType) -> (v: Vec<DeviceId>)
    ensures
        v@ == members_of_type(reg.classes@, class_type),
{
    let mut all: Vec<DeviceId> = Vec::new();
    let mut i: usize = 0;
    while i < reg.classes.len()
        invariant
            0 <= i <= reg.classes@.len(),
            all@ == members_of_type(reg.classes@.take(i as int), class_type),
        decreases reg.classes@.len() - i,
    {
        proof {
            assert(reg.classes@.take(i + 1).drop_last() =~= reg.classes@.take(i as int));
        }
        let c = &reg.classes[i];
        if c.class_type() == class_type {
            let mut devs = c.get_devices();
            let ghost before = all@;
            all.append(&mut devs);
            assert(all@ =~= before + reg.classes@[i as int].members());
        } else {
            assert(all@ =~= all@ + Seq::<DeviceId>::empty());
        }
        i = i + 1;
    }
    assert(reg.classes@.take(reg.classes@.len() as int) =~= reg.classes@);
    all
}

/// Which class a device type belongs to.
pub open spec fn class_compatible(class: ClassType, dev: DeviceType) -> bool {
    match (class, dev) {
        (ClassType::Storage, DeviceType::Storage) => true,
        (ClassType::Input, DeviceType::Input) => true,
        (ClassType::Display, DeviceType::Display) => true,
        (ClassType::Network, DeviceType::Network) => true,
        (ClassType::Serial, DeviceType::Serial) => true,
        (ClassType::System, DeviceType::Timer) => true,
        (ClassType::System, DeviceType::Bus) => true,
        _ => false,
    }
}

/// Whether devices of type `dev` belong to classes of type `class`.
pub fn is_class_compatible(class: ClassType, dev: DeviceType) -> (r: bool)
    ensures
        r == class_compatible(class, dev),
{
    match (class, dev) {
        (ClassType::Storage, DeviceType::Storage) => true,
        (ClassType::Input, DeviceType::Input) => true,
        (ClassType::Display, DeviceType::Display) => true,
        (ClassType::Network, DeviceType::Network) => true,
        (ClassType::Serial, DeviceType::Serial) => true,
        (ClassType::System, DeviceType::Timer) => true,
        (ClassType::System, DeviceType::Bus) => true,
        _ => false,
    }
}

/// Tells every class compatible with the device's type that it was added.
pub fn notify_device_added(reg: &ClassRegistry, dev: &Device) {
    let mut i: usize = 0;
    while i < reg.classes.len()
        invariant
            0 <= i <= reg.classes@.len(),
        decreases reg.classes@.len() - i,
    {
        let c = &reg.classes[i];
        if is_class_compatible(c.class_type(), dev.device_type) {
            c.on_device_added(dev);
        }
        i = i + 1;
    }
}

} // verus!
