//! A hardware device as the kernel sees it: identity, state and topology.
use vstd::prelude::*;
use vstd::string::StringSliceAdditionalSpecFns;
use vstd::utf8::{valid_utf8, decode_utf8};
use crate::drivers::base::bus::{BusAddress, BusType};
use crate::drivers::base::driver::DeviceType;
use crate::text::utf8_text;

verus! {

/// Unique device identifier.
#[derive(Debug, Clone, Copy, PartialEq, Eq, Structural)]
pub struct DeviceId(pub u64);

/// Life-cycle state of a device.
#[derive(Debug, Clone, Copy, PartialEq, Eq, Structural)]
pub enum DeviceState {
    Disconnected,
    Initializing,
    Ready,
    Failing,
    Suspended,
    Dead,
}

/// Display name of a device state.
pub open spec fn device_state_name(s: DeviceState) -> Seq<char> {
    match s {
        DeviceState::Disconnected => "Disconnected"@,
        DeviceState::Initializing => "Initializing"@,
        DeviceState::Ready => "Ready"@,
        DeviceState::Failing => "Failing"@,
        DeviceState::Suspended => "Suspended"@,
        DeviceState::Dead => "Dead"@,
    }
}

impl DeviceState {
    /// Readable name of the state.
    pub fn as_str(&self) -> (s: &'static str)
        ensures
            s@ == device_state_name(*self),
    {
        match self {
            DeviceState::Disconnected => "Disconnected",
            DeviceState::Initializing => "Initializing",
            DeviceState::Ready => "Ready",
            DeviceState::Failing => "Failing",
            DeviceState::Suspended => "Suspended",
            DeviceState::Dead => "Dead",
        }
    }
}

/// Length of the name buffer of a device.
pub const NAME_LEN: usize = 32;

/// A device: a physical piece of hardware known to the kernel.
///
/// The driver in charge is held as the index of the driver in the manager's
/// driver list; parent and children are held by id.
#[derive(Debug, Clone)]
pub struct Device {
    pub id: DeviceId,
    pub state: DeviceState,
    /// Zero-padded name, `NAME_LEN` bytes.
    pub name: Vec<u8>,
    pub device_type: DeviceType,
    pub bus_type: BusType,
    pub bus_address: BusAddress,
    pub driver: Option<usize>,
    pub parent: Option<DeviceId>,
    pub children: Vec<DeviceId>,
    pub discovery_time: u64,
    pub last_status_change: u64,
}

/// The name buffer made from `bytes`: at most 31 bytes kept, the rest zero.
pub open spec fn padded_name(bytes: Seq<u8>) -> Seq<u8> {
    let len = if bytes.len() < 31 { bytes.len() as int } else { 31 };
    Seq::new(NAME_LEN as nat, |i: int| if i < len { bytes[i] } else { 0u8 })
}

/// Length of a name: up to the first zero byte, or the whole buffer.
pub open spec fn name_length(name: Seq<u8>) -> int
    decreases name.len(),
{
    if name.len() == 0 {
        0
    } else if name[0] == 0 {
        0
    } else {
        1 + name_length(name.drop_first())
    }
}

proof fn lemma_name_length(name: Seq<u8>, i: int)
    requires
        0 <= i <= name.len(),
        forall|k: int| 0 <= k < i ==> name[k] != 0,
        i == name.len() || name[i] == 0,
    ensures
        name_length(name) == i,
    decreases name.len(),
{
    if name.len() > 0 && i > 0 {
        lemma_name_length(name.drop_first(), i - 1);
    }
}

impl Device {
    /// A new device in `Initializing` state, without driver.
    pub fn new(id: DeviceId, name: &str, bus: BusType, addr: BusAddress, dev_type: DeviceType) -> (d: Device)
        ensures
            d.id == id,
            d.state == DeviceState::Initializing,
            d.name@ == padded_name(name.spec_bytes()),
            d.bus_type == bus,
            d.bus_address == addr,
            d.device_type == dev_type,
            d.driver.is_none(),
            d.parent.is_none(),
            d.children@.len() == 0,
            d.discovery_time == 0,
            d.last_status_change == 0,
    {
        let bytes = name.as_bytes();
        let len = if bytes.len() < 31 { bytes.len() } else { 31 };
        let mut buf: Vec<u8> = Vec::new();
        let mut i: usize = 0;
        while i < NAME_LEN
            invariant
                0 <= i <= NAME_LEN,
                len <= 31,
                len <= bytes@.len(),
                len == (if bytes@.len() < 31 { bytes@.len() as int } else { 31 }),
                buf@.len() == i,
                forall|k: int| 0 <= k < i ==> buf@[k] == (if k < len { bytes@[k] } else { 0u8 }),
            decreases NAME_LEN - i,
        {
            if i < len {
                buf.push(bytes[i]);
            } else {
                buf.push(0u8);
            }
            i = i + 1;
        }
        assert(buf@ =~= padded_name(name.spec_bytes()));
        Device {
            id,
            state: DeviceState::Initializing,
            name: buf,
            device_type: dev_type,
            bus_type: bus,
            bus_address: addr,
            driver: None,
            parent: None,
            children: Vec::new(),
            discovery_time: 0,
            last_status_change: 0,
        }
    }

    /// The name as text: the bytes before the first zero, or `"unknown"` when
    /// they are not valid UTF-8.
    pub fn name_as_str(&self) -> (s: &str)
        ensures
            ({
                let prefix = self.name@.take(name_length(self.name@));
                if valid_utf8(prefix) {
                    s@ == decode_utf8(prefix)
                } else {
                    s@ == "unknown"@
                }
            }),
    {
        let mut len: usize = 0;
        while len < self.name.len() && self.name[len] != 0
            invariant
                0 <= len <= self.name@.len(),
                forall|k: int| 0 <= k < len ==> self.name@[k] != 0,
            decreases self.name@.len() - len,
        {
            len = len + 1;
        }
        proof {
            lemma_name_length(self.name@, len as int);
        }
        let slice = self.name.as_slice();
        let prefix = &slice[0..len];
        assert(prefix@ =~= self.name@.take(name_length(self.name@)));
        match utf8_text(prefix) {
            Some(s) => s,
            None => "unknown",
        }
    }

    /// Changes the state; the change time is reset when the state changes.
    pub fn set_state(&mut self, new_state: DeviceState)
        ensures
            final(self).state == new_state,
            final(self).last_status_change == (if old(self).state != new_state { 0 } else { old(self).last_status_change }),
            final(self).id == old(self).id,
            final(self).name == old(self).name,
            final(self).device_type == old(self).device_type,
            final(self).bus_type == old(self).bus_type,
            final(self).bus_address == old(self).bus_address,
            final(self).driver == old(self).driver,
            final(self).parent == old(self).parent,
            final(self).children == old(self).children,
            final(self).discovery_time == old(self).discovery_time,
    {
        if self.state != new_state {
            self.state = new_state;
            self.last_status_change = 0;
        }
    }

    /// Links `child` under `parent`: the child records its parent and the
    /// parent lists the child.
    pub fn link_child(parent: &mut Device, child: &mut Device)
        ensures
            final(child).parent == Some(old(parent).id),
            final(parent).children@ == old(parent).children@.push(old(child).id),
            final(parent).id == old(parent).id,
            final(parent).state == old(parent).state,
            final(parent).driver == old(parent).driver,
            final(parent).parent == old(parent).parent,
            final(child).id == old(child).id,
            final(child).state == old(child).state,
            final(child).driver == old(child).driver,
            final(child).children == old(child).children,
    {
        child.parent = Some(parent.id);
        parent.children.push(child.id);
    }
}

} // verus!
