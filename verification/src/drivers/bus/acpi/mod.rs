//! ACPI: the root pointer, the table header, and what the kernel learned
//! from the tables.
pub mod tables;
pub mod madt;
pub mod fadt;

use vstd::prelude::*;

verus! {

/// "RSD PTR ".
pub const RSDP_SIGNATURE: [u8; 8] = [0x52, 0x53, 0x44, 0x20, 0x50, 0x54, 0x52, 0x20];
/// Start of the BIOS area searched for the root pointer.
pub const RSDP_SEARCH_START: u64 = 0x000E_0000;
/// End of the BIOS area searched for the root pointer.
pub const RSDP_SEARCH_END: u64 = 0x000F_FFFF;

/// Root pointer, ACPI 1.0.
#[derive(Debug, Clone, Copy)]
pub struct RsdpV1 {
    pub signature: [u8; 8],
    pub checksum: u8,
    pub oem_id: [u8; 6],
    pub revision: u8,
    pub rsdt_address: u32,
}

/// Root pointer, ACPI 2.0 and later.
#[derive(Debug, Clone, Copy)]
pub struct RsdpV2 {
    pub v1: RsdpV1,
    pub length: u32,
    pub xsdt_address: u64,
    pub extended_checksum: u8,
    pub reserved: [u8; 3],
}

/// Header shared by every ACPI table.
#[derive(Debug, Clone, Copy)]
pub struct AcpiTableHeader {
    pub signature: [u8; 4],
    pub length: u32,
    pub revision: u8,
    pub checksum: u8,
    pub oem_id: [u8; 6],
    pub oem_table_id: [u8; 8],
    pub oem_revision: u32,
    pub creator_id: u32,
    pub creator_revision: u32,
}

/// What the kernel knows of the ACPI tables.
#[derive(Debug, Clone, Copy)]
pub struct AcpiInfo {
    pub rsdp_address: u64,
    pub rsdt_address: u64,
    pub xsdt_address: u64,
    pub revision: u8,
    pub madt_address: u64,
    pub fadt_address: u64,
    pub mcfg_address: u64,
    pub hpet_address: u64,
    pub initialized: bool,
}

impl AcpiInfo {
    /// Nothing known yet.
    pub fn new() -> (i: AcpiInfo)
        ensures
            i.rsdp_address == 0 && i.rsdt_address == 0 && i.xsdt_address == 0 && i.revision == 0,
            i.madt_address == 0 && i.fadt_address == 0 && i.mcfg_address == 0 && i.hpet_address == 0,
            !i.initialized,
    {
        AcpiInfo {
            rsdp_address: 0,
            rsdt_address: 0,
            xsdt_address: 0,
            revision: 0,
            madt_address: 0,
            fadt_address: 0,
            mcfg_address: 0,
            hpet_address: 0,
            initialized: false,
        }
    }
}

/// What the root pointer gives.
struct ParsedRsdp {
    revision: u8,
    rsdt_address: u64,
    xsdt_address: u64,
}

/// Locating the root pointer in memory is not implemented: never found.
fn find_rsdp() -> (r: Option<u64>)
    ensures
        r is None,
{
    None
}

/// Parsing the root pointer is not implemented.
fn parse_rsdp(addr: u64) -> (r: Option<ParsedRsdp>)
    ensures
        r is None,
{
    None
}

/// Walking the RSDT is not implemented.
fn parse_rsdt(info: &mut AcpiInfo, addr: u64)
    ensures
        *final(info) == *old(info),
{
}

/// Walking the XSDT is not implemented.
fn parse_xsdt(info: &mut AcpiInfo, addr: u64)
    ensures
        *final(info) == *old(info),
{
}

/// Looks for the root pointer and, when found and parsed, records the
/// revision and the root tables, walks the XSDT (or else the RSDT) and marks
/// ACPI available. The search is not implemented yet, so nothing is found
/// and the information is left as it was.
pub fn init(info: &mut AcpiInfo)
    ensures
        *final(info) == *old(info),
{
    match find_rsdp() {
        Some(rsdp_addr) => {
            info.rsdp_address = rsdp_addr;
            match parse_rsdp(rsdp_addr) {
                Some(parsed) => {
                    info.revision = parsed.revision;
                    info.rsdt_address = parsed.rsdt_address;
                    info.xsdt_address = parsed.xsdt_address;
                    if parsed.xsdt_address != 0 {
                        parse_xsdt(info, parsed.xsdt_address);
                    } else if parsed.rsdt_address != 0 {
                        parse_rsdt(info, parsed.rsdt_address);
                    }
                    info.initialized = true;
                },
                None => {},
            }
        },
        None => {},
    }
}

/// A copy of the information.
pub fn get_info(info: &AcpiInfo) -> (r: AcpiInfo)
    ensures
        r == *info,
{
    *info
}

/// Address of the MADT, when found.
pub fn get_madt_address(info: &AcpiInfo) -> (r: Option<u64>)
    ensures
        r == (if info.madt_address != 0 { Some(info.madt_address) } else { None }),
{
    if info.madt_address != 0 {
        Some(info.madt_address)
    } else {
        None
    }
}

/// Address of the MCFG, when found.
pub fn get_mcfg_address(info: &AcpiInfo) -> (r: Option<u64>)
    ensures
        r == (if info.mcfg_address != 0 { Some(info.mcfg_address) } else { None }),
{
    if info.mcfg_address != 0 {
        Some(info.mcfg_address)
    } else {
        None
    }
}

/// Whether the tables were parsed.
pub fn is_available(info: &AcpiInfo) -> (r: bool)
    ensures
        r == info.initialized,
{
    info.initialized
}

/// Shutting ACPI down needs no work.
pub fn shutdown() {
}

} // verus!
