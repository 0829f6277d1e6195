//! Block devices: the block interface, the registry of disks, the ATA and
//! VirtIO drivers' logic and the virtqueue they share.
pub mod traits;
pub mod virtqueue;
pub mod virtio_blk;
pub mod ata;

use vstd::prelude::*;
use self::traits::BlockDevice;

verus! {

/// The registered block devices.
pub struct BlockRegistry {
    pub devices: Vec<Box<dyn BlockDevice>>,
}

impl BlockRegistry {
    /// An empty registry.
    pub fn new() -> (r: BlockRegistry)
        ensures
            r.devices@.len() == 0,
    {
        BlockRegistry { devices: Vec::new() }
    }
}

/// Registers the disks found at start-up: the ATA drive when there is one,
/// and the VirtIO disk only when nothing was registered before it.
pub fn init(reg: &mut BlockRegistry, ata: Option<Box<dyn BlockDevice>>, virtio: Option<Box<dyn BlockDevice>>)
    ensures
        final(reg).devices@.len() == old(reg).devices@.len()
            + (if ata.is_some() { 1int } else { 0int })
            + (if virtio.is_some() && old(reg).devices@.len() == 0 && ata.is_none() { 1int } else { 0int }),
{
    match ata {
        Some(d) => register_device(reg, d),
        None => {},
    }
    if reg.devices.len() == 0 {
        match virtio {
            Some(d) => register_device(reg, d),
            None => {},
        }
    }
}

/// Adds a device at the end of the registry.
pub fn register_device(reg: &mut BlockRegistry, device: Box<dyn BlockDevice>)
    ensures
        final(reg).devices@ == old(reg).devices@.push(device),
        final(reg).devices@.len() == old(reg).devices@.len() + 1,
{
    let ghost before = reg.devices@;
    reg.devices.push(device);
    proof {
        vstd::seq::axiom_seq_push_len(before, device);
    }
}

/// The device at `index`, if any.
pub fn get_device(reg: &BlockRegistry, index: usize) -> (r: Option<&Box<dyn BlockDevice>>)
    ensures
        r.is_some() == (index < reg.devices@.len()),
{
    if index < reg.devices.len() {
        Some(&reg.devices[index])
    } else {
        None
    }
}

/// The first device, if any.
pub fn first_device(reg: &BlockRegistry) -> (r: Option<&Box<dyn BlockDevice>>)
    ensures
        r.is_some() == (reg.devices@.len() > 0),
{
    get_device(reg, 0)
}

/// Number of registered devices.
pub fn device_count(reg: &BlockRegistry) -> (n: usize)
    ensures
        n == reg.devices@.len(),
{
    reg.devices.len()
}

} // verus!
