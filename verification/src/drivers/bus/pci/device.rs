//! A PCI function: its identity, its BARs, its command register and its
//! capability list.
use vstd::prelude::*;
use crate::drivers::bus::pci::PciAddress;
use crate::drivers::bus::pci::config::{PCI_COMMAND, PCI_STATUS, PCI_BAR0, PCI_CAPABILITIES_PTR};
use crate::drivers::bus::pci::access::{PciConfigSpace, dword_at, byte_of, half_of, read_config, read_config_u16, write_config};

verus! {

/// Capability ids.
pub const PCI_CAP_PM: u8 = 0x01;
pub const PCI_CAP_AGP: u8 = 0x02;
pub const PCI_CAP_VPD: u8 = 0x03;
pub const PCI_CAP_SLOTID: u8 = 0x04;
pub const PCI_CAP_MSI: u8 = 0x05;
pub const PCI_CAP_CHSWP: u8 = 0x06;
pub const PCI_CAP_PCIX: u8 = 0x07;
pub const PCI_CAP_HT: u8 = 0x08;
pub const PCI_CAP_VENDOR: u8 = 0x09;
pub const PCI_CAP_DEBUG: u8 = 0x0A;
pub const PCI_CAP_CCRC: u8 = 0x0B;
pub const PCI_CAP_HOTPLUG: u8 = 0x0C;
pub const PCI_CAP_SSVID: u8 = 0x0D;
pub const PCI_CAP_AGP3: u8 = 0x0E;
pub const PCI_CAP_SECURE: u8 = 0x0F;
pub const PCI_CAP_PCIE: u8 = 0x10;
pub const PCI_CAP_MSIX: u8 = 0x11;
pub const PCI_CAP_SATA: u8 = 0x12;
pub const PCI_CAP_AF: u8 = 0x13;

/// Most capabilities followed before giving up on a looping list.
pub const CAPABILITY_WALK_LIMIT: u8 = 48;

/// A PCI function.
#[derive(Debug, Clone, Copy)]
pub struct PciDevice {
    pub address: PciAddress,
    pub vendor_id: u16,
    pub device_id: u16,
    pub class_code: u8,
    pub subclass_code: u8,
    pub prog_if: u8,
    pub revision: u8,
    pub header_type: u8,
    pub interrupt_line: u8,
    pub interrupt_pin: u8,
    pub bars: [u32; 6],
}

/// Whether BAR `i` is an I/O BAR.
pub open spec fn bar_is_io(bars: Seq<u32>, i: int) -> bool {
    0 <= i < 6 && bars[i] & 1 != 0
}

/// Memory type of BAR `i` (bits 1..2), 0 for I/O or missing BARs.
pub open spec fn bar_mem_type(bars: Seq<u32>, i: int) -> u8 {
    if i < 0 || i >= 6 || bar_is_io(bars, i) { 0 } else { ((bars[i] >> 1u32) & 3) as u8 }
}

/// Base address of BAR `i`: flag bits cleared; a 64-bit memory BAR takes
/// its high half from the next BAR.
pub open spec fn bar_addr(bars: Seq<u32>, i: int) -> int {
    if i < 0 || i >= 6 {
        0
    } else if bar_is_io(bars, i) {
        (bars[i] & !3u32) as int
    } else if bar_mem_type(bars, i) == 2 && i < 5 {
        bars[i + 1] as int * 0x1_0000_0000 + (bars[i] & !0xFu32) as int
    } else {
        (bars[i] & !0xFu32) as int
    }
}

/// Size of a BAR from the mask read back after writing all ones.
pub open spec fn bar_size_from_mask(io: bool, size_mask: u32) -> int {
    if size_mask == 0 || size_mask == 0xFFFF_FFFF {
        0
    } else if io {
        if size_mask & !3u32 == 0 { 0 } else { (!(size_mask & !3u32)) as int + 1 }
    } else if size_mask & !0xFu32 == 0 {
        0
    } else {
        (!(size_mask & !0xFu32)) as int + 1
    }
}

/// Whether the status register (offset 0x06, the high half of the dword at
/// 0x04) announces a capability list: its bit 4.
pub open spec fn caps_flag(cfg: Seq<u32>) -> bool {
    half_of(dword_at(cfg, PCI_STATUS), 1) & 0x10 != 0
}

/// Offset of the first capability, when there is a list.
pub open spec fn first_capability(cfg: Seq<u32>) -> Option<u8> {
    if !caps_flag(cfg) {
        None
    } else {
        let p = dword_at(cfg, PCI_CAPABILITIES_PTR) as u8;
        if p != 0 { Some(p) } else { None }
    }
}

/// Walks the capability list from `offset` for at most `fuel` entries,
/// looking for `cap_id`.
pub open spec fn cap_walk(cfg: Seq<u32>, offset: u8, cap_id: u8, fuel: nat) -> Option<u8>
    decreases fuel,
{
    if fuel == 0 || offset == 0 || offset == 0xFF {
        None
    } else {
        let h = dword_at(cfg, offset);
        if (h & 0xFF) as u8 == cap_id {
            Some(offset)
        } else {
            cap_walk(cfg, ((h >> 8u32) & 0xFF) as u8, cap_id, (fuel - 1) as nat)
        }
    }
}

/// The offset of capability `cap_id`, if the list holds it.
pub open spec fn capability_offset(cfg: Seq<u32>, cap_id: u8) -> Option<u8> {
    match first_capability(cfg) {
        None => None,
        Some(o) => cap_walk(cfg, o, cap_id, CAPABILITY_WALK_LIMIT as nat),
    }
}

/// The identity, BARs and interrupt routing in a configuration space;
/// `None` when no function answers (vendor 0xFFFF).
pub open spec fn device_from_config(s: Seq<u32>, address: PciAddress) -> Option<PciDevice> {
    if half_of(s[0], 0) == 0xFFFF {
        None
    } else {
        Some(PciDevice {
            address,
            vendor_id: half_of(s[0], 0),
            device_id: half_of(s[0], 1),
            revision: byte_of(s[2], 0),
            prog_if: byte_of(s[2], 1),
            subclass_code: byte_of(s[2], 2),
            class_code: byte_of(s[2], 3),
            header_type: byte_of(s[3], 2),
            interrupt_line: byte_of(s[15], 0),
            interrupt_pin: byte_of(s[15], 1),
            bars: [s[4], s[5], s[6], s[7], s[8], s[9]],
        })
    }
}

/// Byte `k` of a dword.
pub fn dword_byte(d: u32, k: u32) -> (b: u8)
    requires
        k < 4,
    ensures
        b == byte_of(d, k as int),
{
    ((d >> (k * 8)) & 0xFF) as u8
}

/// Half-word `k` of a dword.
pub fn dword_half(d: u32, k: u32) -> (h: u16)
    requires
        k < 2,
    ensures
        h == half_of(d, k as int),
{
    ((d >> (k * 16)) & 0xFFFF) as u16
}

impl PciDevice {
    /// The function described by a configuration space.
    pub fn from_config(cfg: &PciConfigSpace) -> (r: Option<PciDevice>)
        requires
            cfg.wf(),
        ensures
            r == device_from_config(cfg.dwords@, cfg.address),
    {
        let d0 = cfg.dwords[0];
        let vendor = dword_half(d0, 0);
        if vendor == 0xFFFF {
            return None;
        }
        let d2 = cfg.dwords[2];
        let d3 = cfg.dwords[3];
        let d15 = cfg.dwords[15];
        let bars = [cfg.dwords[4], cfg.dwords[5], cfg.dwords[6], cfg.dwords[7], cfg.dwords[8], cfg.dwords[9]];
        let r = PciDevice {
            address: cfg.address,
            vendor_id: vendor,
            device_id: dword_half(d0, 1),
            revision: dword_byte(d2, 0),
            prog_if: dword_byte(d2, 1),
            subclass_code: dword_byte(d2, 2),
            class_code: dword_byte(d2, 3),
            header_type: dword_byte(d3, 2),
            interrupt_line: dword_byte(d15, 0),
            interrupt_pin: dword_byte(d15, 1),
            bars,
        };
        assert(r.bars@ =~= device_from_config(cfg.dwords@, cfg.address).unwrap().bars@);
        Some(r)
    }

    /// Whether BAR `bar_index` is an I/O BAR (`false` past the sixth).
    pub fn is_bar_io(&self, bar_index: usize) -> (r: bool)
        ensures
            r == bar_is_io(self.bars@, bar_index as int),
    {
        if bar_index >= 6 {
            return false;
        }
        (self.bars[bar_index] & 0x01) != 0
    }

    /// Memory type of a memory BAR (0: 32-bit, 2: 64-bit); 0 otherwise.
    pub fn bar_memory_type(&self, bar_index: usize) -> (r: u8)
        ensures
            r == bar_mem_type(self.bars@, bar_index as int),
    {
        if bar_index >= 6 || self.is_bar_io(bar_index) {
            return 0;
        }
        ((self.bars[bar_index] >> 1u32) & 0x03) as u8
    }

    /// Whether the BAR is a 64-bit memory BAR.
    pub fn is_bar_64bit(&self, bar_index: usize) -> (r: bool)
        ensures
            r == (bar_mem_type(self.bars@, bar_index as int) == 2),
    {
        self.bar_memory_type(bar_index) == 2
    }

    /// Base address the BAR decodes; 0 past the sixth.
    pub fn bar_address(&self, bar_index: usize) -> (a: u64)
        ensures
            a == bar_addr(self.bars@, bar_index as int),
    {
        if bar_index >= 6 {
            return 0;
        }
        if self.is_bar_io(bar_index) {
            return (self.bars[bar_index] & !0x03u32) as u64;
        }
        let low = self.bars[bar_index] & !0x0Fu32;
        if self.is_bar_64bit(bar_index) && bar_index < 5 {
            let high = self.bars[bar_index + 1];
            let h = high as u64;
            let l = low as u64;
            proof {
                crate::bitfields::lemma_u64_halves(0, l, h);
            }
            return (h << 32u64) | l;
        }
        low as u64
    }

    /// Size the BAR decodes, from `size_mask`, the value read back from the
    /// BAR after writing all ones to it; 0 past the sixth BAR, when the
    /// mask is empty or all ones, or when it has no size bits.
    pub fn bar_size(&self, bar_index: usize, size_mask: u32) -> (n: u64)
        ensures
            n == (if bar_index >= 6 { 0 } else { bar_size_from_mask(bar_is_io(self.bars@, bar_index as int), size_mask) }),
    {
        if bar_index >= 6 {
            return 0;
        }
        if size_mask == 0 || size_mask == 0xFFFF_FFFF {
            return 0;
        }
        if self.is_bar_io(bar_index) {
            let mask = size_mask & !0x03u32;
            if mask == 0 {
                return 0;
            }
            proof {
                crate::bitfields::lemma_complement_below_max(mask);
            }
            (!mask + 1) as u64
        } else {
            let mask = size_mask & !0x0Fu32;
            if mask == 0 {
                return 0;
            }
            proof {
                crate::bitfields::lemma_complement_below_max(mask);
            }
            (!mask + 1) as u64
        }
    }

    /// Turns on I/O decoding, memory decoding and bus mastering in the
    /// command register.
    pub fn enable(&self, cfg: &mut PciConfigSpace)
        requires
            old(cfg).wf(),
        ensures
            final(cfg).wf(),
            final(cfg).address == old(cfg).address,
            final(cfg).dwords@ == old(cfg).dwords@.update(1, dword_at(old(cfg).dwords@, PCI_COMMAND) | 7u32),
    {
        let cmd = read_config(cfg, PCI_COMMAND);
        write_config(cfg, PCI_COMMAND, cmd | 0x07);
    }

    /// Turns off I/O decoding, memory decoding and bus mastering.
    pub fn disable(&self, cfg: &mut PciConfigSpace)
        requires
            old(cfg).wf(),
        ensures
            final(cfg).wf(),
            final(cfg).address == old(cfg).address,
            final(cfg).dwords@ == old(cfg).dwords@.update(1, dword_at(old(cfg).dwords@, PCI_COMMAND) & !7u32),
    {
        let cmd = read_config(cfg, PCI_COMMAND);
        write_config(cfg, PCI_COMMAND, cmd & !0x07u32);
    }

    /// Whether the function announces a capability list.
    pub fn has_capabilities(&self, cfg: &PciConfigSpace) -> (r: bool)
        requires
            cfg.wf(),
        ensures
            r == caps_flag(cfg.dwords@),
    {
        let status = read_config_u16(cfg, PCI_STATUS);
        (status & 0x10) != 0
    }

    /// Offset of the first capability, when there is a list.
    pub fn capabilities_offset(&self, cfg: &PciConfigSpace) -> (r: Option<u8>)
        requires
            cfg.wf(),
        ensures
            r == first_capability(cfg.dwords@),
    {
        if !self.has_capabilities(cfg) {
            return None;
        }
        let ptr = read_config(cfg, PCI_CAPABILITIES_PTR) as u8;
        if ptr != 0 {
            Some(ptr)
        } else {
            None
        }
    }

    /// Offset of capability `cap_id`; `None` when the list ends, loops past
    /// the walk limit, or there is no list.
    pub fn find_capability(&self, cfg: &PciConfigSpace, cap_id: u8) -> (r: Option<u8>)
        requires
            cfg.wf(),
        ensures
            r == capability_offset(cfg.dwords@, cap_id),
    {
        let first = self.capabilities_offset(cfg);
        let mut offset = match first {
            Some(o) => o,
            None => { return None; },
        };
        let mut steps: u8 = 0;
        while steps < 48
            invariant
                cfg.wf(),
                0 <= steps <= 48,
                capability_offset(cfg.dwords@, cap_id) == cap_walk(cfg.dwords@, offset, cap_id, (48 - steps) as nat),
            decreases 48 - steps,
        {
            if offset == 0 || offset == 0xFF {
                return None;
            }
            let cap_header = read_config(cfg, offset);
            let current_id = (cap_header & 0xFF) as u8;
            if current_id == cap_id {
                return Some(offset);
            }
            offset = ((cap_header >> 8u32) & 0xFF) as u8;
            steps = steps + 1;
        }
        None
    }

    /// Whether the function is a PCI-to-PCI bridge.
    pub fn is_bridge(&self) -> (r: bool)
        ensures
            r == (self.class_code == 0x06 && self.subclass_code == 0x04),
    {
        self.class_code == 0x06 && self.subclass_code == 0x04
    }

    /// Whether the function is a USB controller.
    pub fn is_usb_controller(&self) -> (r: bool)
        ensures
            r == (self.class_code == 0x0C && self.subclass_code == 0x03),
    {
        self.class_code == 0x0C && self.subclass_code == 0x03
    }

    /// Whether the function has an MSI capability.
    pub fn supports_msi(&self, cfg: &PciConfigSpace) -> (r: bool)
        requires
            cfg.wf(),
        ensures
            r == capability_offset(cfg.dwords@, PCI_CAP_MSI).is_some(),
    {
        self.find_capability(cfg, PCI_CAP_MSI).is_some()
    }

    /// Whether the function has an MSI-X capability.
    pub fn supports_msi_x(&self, cfg: &PciConfigSpace) -> (r: bool)
        requires
            cfg.wf(),
        ensures
            r == capability_offset(cfg.dwords@, PCI_CAP_MSIX).is_some(),
    {
        self.find_capability(cfg, PCI_CAP_MSIX).is_some()
    }
}

} // verus!
