//! The MADT: local APICs, I/O APICs, interrupt overrides and NMIs.
use vstd::prelude::*;
use crate::drivers::bus::acpi::AcpiTableHeader;

verus! {

/// Fixed part of the MADT.
#[derive(Debug, Clone, Copy)]
pub struct MadtHeader {
    pub header: AcpiTableHeader,
    pub local_apic_address: u32,
    pub flags: u32,
}

/// The system also has dual 8259 PICs.
pub const MADT_FLAG_PCAT_COMPAT: u32 = 0x01;

/// Kinds of MADT entry.
#[derive(Debug, Clone, Copy, PartialEq, Eq, Structural)]
pub enum MadtEntryType {
    LocalApic,
    IoApic,
    InterruptOverride,
    NmiSource,
    LocalApicNmi,
    LocalApicOverride,
    IoSapic,
    LocalSapic,
    PlatformInterrupt,
    LocalX2Apic,
    LocalX2ApicNmi,
    Gicc,
    Gicd,
    GicMsiFrame,
    Gicr,
    GicIts,
}

/// Header of an entry.
#[derive(Debug, Clone, Copy)]
pub struct MadtEntryHeader {
    pub entry_type: u8,
    pub length: u8,
}

/// A processor's local APIC.
#[derive(Debug, Clone, Copy)]
pub struct MadtLocalApic {
    pub header: MadtEntryHeader,
    pub acpi_processor_id: u8,
    pub apic_id: u8,
    pub flags: u32,
}

/// An I/O APIC.
#[derive(Debug, Clone, Copy)]
pub struct MadtIoApic {
    pub header: MadtEntryHeader,
    pub io_apic_id: u8,
    pub reserved: u8,
    pub address: u32,
    pub gsi_base: u32,
}

/// An interrupt source override.
#[derive(Debug, Clone, Copy)]
pub struct MadtInterruptOverride {
    pub header: MadtEntryHeader,
    pub bus: u8,
    pub source: u8,
    pub gsi: u32,
    pub flags: u16,
}

/// A local APIC NMI.
#[derive(Debug, Clone, Copy)]
pub struct MadtLocalApicNmi {
    pub header: MadtEntryHeader,
    pub acpi_processor_id: u8,
    pub flags: u16,
    pub lint: u8,
}

/// A 64-bit local APIC address override.
#[derive(Debug, Clone, Copy)]
pub struct MadtLocalApicOverride {
    pub header: MadtEntryHeader,
    pub reserved: u16,
    pub address: u64,
}

/// A processor.
#[derive(Debug, Clone, Copy)]
pub struct LocalApicInfo {
    pub processor_id: u8,
    pub apic_id: u8,
    pub enabled: bool,
}

/// An I/O APIC.
#[derive(Debug, Clone, Copy)]
pub struct IoApicInfo {
    pub id: u8,
    pub address: u32,
    pub gsi_base: u32,
}

/// An IRQ routed to another global system interrupt.
#[derive(Debug, Clone, Copy)]
pub struct IrqOverride {
    pub source_irq: u8,
    pub gsi: u32,
    pub flags: u16,
}

/// An NMI line.
#[derive(Debug, Clone, Copy)]
pub struct NmiInfo {
    pub processor_id: u8,
    pub lint: u8,
    pub flags: u16,
}

/// What the MADT describes.
#[derive(Debug)]
pub struct MadtInfo {
    pub local_apic_address: u64,
    pub local_apics: Vec<LocalApicInfo>,
    pub io_apics: Vec<IoApicInfo>,
    pub overrides: Vec<IrqOverride>,
    pub nmis: Vec<NmiInfo>,
    pub flags: u32,
}

impl Default for MadtInfo {
    fn default() -> (m: MadtInfo)
        ensures
            m.local_apic_address == 0,
            m.local_apics@.len() == 0,
            m.io_apics@.len() == 0,
            m.overrides@.len() == 0,
            m.nmis@.len() == 0,
            m.flags == 0,
    {
        MadtInfo {
            local_apic_address: 0,
            local_apics: Vec::new(),
            io_apics: Vec::new(),
            overrides: Vec::new(),
            nmis: Vec::new(),
            flags: 0,
        }
    }
}

/// Parsing the MADT is not implemented: the description is empty.
pub fn parse(madt_address: u64) -> (m: MadtInfo)
    ensures
        m.local_apic_address == 0,
        m.local_apics@.len() == 0,
        m.io_apics@.len() == 0,
        m.overrides@.len() == 0,
        m.nmis@.len() == 0,
        m.flags == 0,
{
    MadtInfo::default()
}

/// Number of enabled processors in `s`.
pub open spec fn enabled_count(s: Seq<LocalApicInfo>) -> nat
    decreases s.len(),
{
    if s.len() == 0 { 0 } else { enabled_count(s.drop_last()) + if s.last().enabled { 1nat } else { 0nat } }
}

/// Number of usable processors: the enabled local APICs.
pub fn cpu_count(info: &MadtInfo) -> (n: usize)
    ensures
        n == enabled_count(info.local_apics@),
{
    let mut n: usize = 0;
    let mut i: usize = 0;
    while i < info.local_apics.len()
        invariant
            0 <= i <= info.local_apics@.len(),
            n == enabled_count(info.local_apics@.take(i as int)),
            n <= i,
        decreases info.local_apics@.len() - i,
    {
        proof {
            assert(info.local_apics@.take(i + 1).drop_last() =~= info.local_apics@.take(i as int));
        }
        if info.local_apics[i].enabled {
            n = n + 1;
        }
        i = i + 1;
    }
    assert(info.local_apics@.take(info.local_apics@.len() as int) =~= info.local_apics@);
    n
}

} // verus!
