//! VirtIO over PCI: the transport reached through a PCI function.
use vstd::prelude::*;
use crate::drivers::bus::pci::device::PciDevice;
use crate::drivers::bus::virtio::VirtioDeviceType;
use crate::drivers::bus::virtio::transport::VirtioTransport;

verus! {

/// The PCI transport of a VirtIO device: the function and the addresses of
/// its configuration structures (not located yet: all zero).
pub struct VirtioPciTransport {
    pub pci: PciDevice,
    pub common_cfg: u64,
    pub notify_base: u64,
    pub notify_off_multiplier: u32,
    pub isr_cfg: u64,
    pub device_cfg: u64,
}

impl VirtioPciTransport {
    /// The transport of `pci`; its structures are not located yet.
    pub fn new(pci: PciDevice) -> (t: Option<VirtioPciTransport>)
        ensures
            t matches Some(t) && t.pci == pci && t.common_cfg == 0 && t.notify_base == 0
                && t.notify_off_multiplier == 0 && t.isr_cfg == 0 && t.device_cfg == 0,
    {
        Some(VirtioPciTransport { pci, common_cfg: 0, notify_base: 0, notify_off_multiplier: 0, isr_cfg: 0, device_cfg: 0 })
    }
}

impl VirtioTransport for VirtioPciTransport {
    /// Reported as a block device until the structures are parsed.
    fn device_id(&self) -> (t: VirtioDeviceType)
        ensures
            t == VirtioDeviceType::Block,
    {
        VirtioDeviceType::Block
    }

    /// Reads as zero until the structures are parsed.
    fn read_status(&self) -> (s: u8)
        ensures
            s == 0,
    {
        0
    }

    fn write_status(&self, status: u8) {
    }

    /// Reads as zero until the structures are parsed.
    fn read_device_features(&self) -> (f: u64)
        ensures
            f == 0,
    {
        0
    }

    fn write_driver_features(&self, features: u64) {
    }

    fn setup_queue(&self, queue_index: u16, size: u16, desc_addr: u64, avail_addr: u64, used_addr: u64) {
    }

    fn notify_queue(&self, queue_index: u16) {
    }

    /// Reads as zero until the structures are parsed.
    fn read_config(&self, offset: usize, size: usize) -> (v: u64)
        ensures
            v == 0,
    {
        0
    }
}

} // verus!
