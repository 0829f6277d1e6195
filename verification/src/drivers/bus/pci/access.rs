//! Access to a PCI function's configuration space: the 256-byte space held
//! as 64 dwords read from the hardware, sub-dword reads and writes on it,
//! and the addresses of the legacy port mechanism and of ECAM.
use vstd::prelude::*;
use crate::drivers::bus::pci::PciAddress;

verus! {

/// Number of dwords of a configuration space.
pub const CONFIG_DWORDS: usize = 64;

/// The configuration space of one function, as the dwords at offsets 0,
/// 4, ..., 252.
#[derive(Debug, Clone)]
pub struct PciConfigSpace {
    pub address: PciAddress,
    pub dwords: Vec<u32>,
}

impl PciConfigSpace {
    /// Holds the 64 dwords of the space.
    pub open spec fn wf(&self) -> bool {
        self.dwords@.len() == CONFIG_DWORDS
    }
}

/// The dword holding byte `offset` (the two low bits of the offset are
/// ignored, as the port mechanism ignores them).
pub open spec fn dword_at(s: Seq<u32>, offset: u8) -> u32 {
    s[(offset / 4) as int]
}

/// Byte `k` (0..3) of a dword.
pub open spec fn byte_of(d: u32, k: int) -> u8 {
    ((d >> ((k * 8) as u32)) & 0xFF) as u8
}

/// Half-word `k` (0..1) of a dword.
pub open spec fn half_of(d: u32, k: int) -> u16 {
    ((d >> ((k * 16) as u32)) & 0xFFFF) as u16
}

/// Reads the dword that holds `offset`.
pub fn read_config(cfg: &PciConfigSpace, offset: u8) -> (v: u32)
    requires
        cfg.wf(),
    ensures
        v == dword_at(cfg.dwords@, offset),
{
    cfg.dwords[(offset / 4) as usize]
}

/// Writes the dword that holds `offset`.
pub fn write_config(cfg: &mut PciConfigSpace, offset: u8, value: u32)
    requires
        old(cfg).wf(),
    ensures
        final(cfg).wf(),
        final(cfg).address == old(cfg).address,
        final(cfg).dwords@ == old(cfg).dwords@.update((offset / 4) as int, value),
{
    cfg.dwords.set((offset / 4) as usize, value);
}

/// The configuration address written to port 0xCF8 for `offset` of `addr`:
/// enable bit, bus, device, function, and the dword-aligned offset.
pub fn make_address(addr: PciAddress, offset: u8) -> (a: u32)
    ensures
        a == 0x8000_0000u32 | ((addr.bus as u32) << 16u32) | ((addr.device as u32) << 11u32)
            | ((addr.function as u32) << 8u32) | ((offset as u32) & 0xFC),
{
    0x8000_0000u32 | ((addr.bus as u32) << 16u32) | ((addr.device as u32) << 11u32)
        | ((addr.function as u32) << 8u32) | ((offset as u32) & 0xFC)
}

/// The memory address of `offset` of `addr` in the ECAM window at `base`.
pub fn ecam_address(base: u64, addr: PciAddress, offset: u8) -> (a: u64)
    requires
        base + addr.bus * 0x10_0000 + addr.device * 0x8000 + addr.function * 0x1000 + offset <= u64::MAX,
    ensures
        a == base + addr.bus * 0x10_0000 + addr.device * 0x8000 + addr.function * 0x1000 + offset,
{
    let b = addr.bus as u64;
    let d = addr.device as u64;
    let f = addr.function as u64;
    proof {
        crate::bitfields::lemma_ecam_shifts(b, d, f);
    }
    base + (b << 20u64) + (d << 15u64) + (f << 12u64) + (offset as u64)
}

/// Reads the byte at `offset`.
pub fn read_config_u8(cfg: &PciConfigSpace, offset: u8) -> (v: u8)
    requires
        cfg.wf(),
    ensures
        v == byte_of(dword_at(cfg.dwords@, offset), (offset % 4) as int),
{
    proof {
        crate::bitfields::lemma_u8_fields(offset);
    }
    let value = read_config(cfg, offset & 0xFC);
    let shift: u32 = ((offset & 0x03) as u32) * 8;
    ((value >> shift) & 0xFF) as u8
}

/// Reads the half-word at `offset` (its bit 0 is ignored).
pub fn read_config_u16(cfg: &PciConfigSpace, offset: u8) -> (v: u16)
    requires
        cfg.wf(),
    ensures
        v == half_of(dword_at(cfg.dwords@, offset), ((offset % 4) / 2) as int),
{
    proof {
        crate::bitfields::lemma_u8_fields(offset);
    }
    let value = read_config(cfg, offset & 0xFC);
    let shift: u32 = ((offset & 0x02) as u32) * 8;
    ((value >> shift) & 0xFFFF) as u16
}

/// Writes the byte at `offset`, keeping the other three bytes of its dword.
pub fn write_config_u8(cfg: &mut PciConfigSpace, offset: u8, value: u8)
    requires
        old(cfg).wf(),
    ensures
        final(cfg).wf(),
        final(cfg).address == old(cfg).address,
        ({
            let d = dword_at(old(cfg).dwords@, offset);
            let shift = ((offset % 4) * 8) as u32;
            final(cfg).dwords@ == old(cfg).dwords@.update((offset / 4) as int,
                (d & !(0xFFu32 << shift)) | ((value as u32) << shift))
        }),
{
    proof {
        crate::bitfields::lemma_u8_fields(offset);
    }
    let aligned = offset & 0xFC;
    let shift: u32 = ((offset & 0x03) as u32) * 8;
    let mask: u32 = !(0xFFu32 << shift);
    let current = read_config(cfg, aligned);
    let new_value = (current & mask) | ((value as u32) << shift);
    write_config(cfg, aligned, new_value);
}

/// The dwords after the half-word at `offset` (bit 0 ignored) is set to
/// `value`: the other half of its dword and every other dword unchanged.
pub open spec fn u16_written(s: Seq<u32>, offset: u8, value: u16) -> Seq<u32> {
    let d = dword_at(s, offset);
    let shift = (((offset % 4) / 2) * 16) as u32;
    s.update((offset / 4) as int, (d & !(0xFFFFu32 << shift)) | ((value as u32) << shift))
}

/// Writes the half-word at `offset` (its bit 0 is ignored), keeping the
/// other half of its dword.
pub fn write_config_u16(cfg: &mut PciConfigSpace, offset: u8, value: u16)
    requires
        old(cfg).wf(),
    ensures
        final(cfg).wf(),
        final(cfg).address == old(cfg).address,
        final(cfg).dwords@ == u16_written(old(cfg).dwords@, offset, value),
{
    proof {
        crate::bitfields::lemma_u8_fields(offset);
    }
    let aligned = offset & 0xFC;
    let shift: u32 = ((offset & 0x02) as u32) * 8;
    let mask: u32 = !(0xFFFFu32 << shift);
    let current = read_config(cfg, aligned);
    let new_value = (current & mask) | ((value as u32) << shift);
    write_config(cfg, aligned, new_value);
}

/// A byte written is read back, and the other bytes of the dword keep
/// their values.
pub proof fn lemma_write_read_u8(d: u32, value: u8, k: u32, j: u32)
    by (bit_vector)
    requires
        k < 4,
        j < 4,
    ensures
        byte_of((d & !(0xFFu32 << (k * 8))) | ((value as u32) << (k * 8)), k as int) == value,
        j != k ==> byte_of((d & !(0xFFu32 << (k * 8))) | ((value as u32) << (k * 8)), j as int) == byte_of(d, j as int),
{
}

/// A half-word written is read back, and the other half keeps its value.
pub proof fn lemma_write_read_u16(d: u32, value: u16, k: u32)
    by (bit_vector)
    requires
        k < 2,
    ensures
        half_of((d & !(0xFFFFu32 << (k * 16))) | ((value as u32) << (k * 16)), k as int) == value,
        half_of((d & !(0xFFFFu32 << (k * 16))) | ((value as u32) << (k * 16)), (1 - k) as int) == half_of(d, (1 - k) as int),
{
}

/// A 16-bit configuration write is read back: after `value` goes to the
/// half-word at `offset`, reading that half-word gives `value`, the other
/// half of the same dword (at `offset ^ 2`) reads as before, and every
/// other dword is unchanged.
pub proof fn lemma_config_u16_read_after_write(s: Seq<u32>, offset: u8, value: u16)
    requires
        s.len() == CONFIG_DWORDS,
    ensures
        half_of(dword_at(u16_written(s, offset, value), offset), ((offset % 4) / 2) as int) == value,
        half_of(dword_at(u16_written(s, offset, value), offset ^ 2), (((offset ^ 2) % 4) / 2) as int)
            == half_of(dword_at(s, offset ^ 2), (((offset ^ 2) % 4) / 2) as int),
        forall|o: u8| o / 4 != offset / 4 ==> #[trigger] dword_at(u16_written(s, offset, value), o) == dword_at(s, o),
{
    let k: u32 = ((offset % 4) / 2) as u32;
    let o2 = offset ^ 2;
    assert(o2 / 4 == offset / 4 && ((o2 % 4) / 2) as u32 == 1 - k) by (bit_vector)
        requires
            o2 == offset ^ 2,
            k == ((offset % 4) / 2) as u32;
    assert(offset / 4 < 64);
    assert((((offset % 4) / 2) * 16) as u32 == k * 16);
    lemma_write_read_u16(dword_at(s, offset), value, k);
}

} // verus!
