//! ACPI table signatures, small table layouts, and the checks every table
//! passes: its signature and its checksum.
use vstd::prelude::*;
use crate::drivers::bus::acpi::AcpiTableHeader;

verus! {

pub const RSDT_SIGNATURE: [u8; 4] = [0x52, 0x53, 0x44, 0x54];
pub const XSDT_SIGNATURE: [u8; 4] = [0x58, 0x53, 0x44, 0x54];
pub const MADT_SIGNATURE: [u8; 4] = [0x41, 0x50, 0x49, 0x43];
pub const FADT_SIGNATURE: [u8; 4] = [0x46, 0x41, 0x43, 0x50];
pub const MCFG_SIGNATURE: [u8; 4] = [0x4D, 0x43, 0x46, 0x47];
pub const HPET_SIGNATURE: [u8; 4] = [0x48, 0x50, 0x45, 0x54];
pub const DSDT_SIGNATURE: [u8; 4] = [0x44, 0x53, 0x44, 0x54];
pub const SSDT_SIGNATURE: [u8; 4] = [0x53, 0x53, 0x44, 0x54];
pub const BGRT_SIGNATURE: [u8; 4] = [0x42, 0x47, 0x52, 0x54];

/// An ECAM window of the MCFG table.
#[derive(Debug, Clone, Copy)]
pub struct McfgEntry {
    pub base_address: u64,
    pub segment: u16,
    pub start_bus: u8,
    pub end_bus: u8,
    pub reserved: u32,
}

/// Address of the HPET registers.
#[derive(Debug, Clone, Copy)]
pub struct HpetAddress {
    pub address_space_id: u8,
    pub register_bit_width: u8,
    pub register_bit_offset: u8,
    pub access_size: u8,
    pub address: u64,
}

/// The HPET table.
#[derive(Debug, Clone, Copy)]
pub struct HpetTable {
    pub header: AcpiTableHeader,
    pub hardware_rev_id: u8,
    pub comparator_count: u8,
    pub timer_number: u16,
    pub min_clock_tick: u16,
    pub page_protection: u8,
    pub reserved: u8,
    pub base_address: HpetAddress,
    pub hpet_number: u8,
    pub main_counter_min_tick: u16,
    pub page_protection_oem: u8,
}

/// ACPI generic address structure.
#[derive(Debug, Clone, Copy)]
pub struct GenericAddress {
    pub address_space_id: u8,
    pub register_bit_width: u8,
    pub register_bit_offset: u8,
    pub access_size: u8,
    pub address: u64,
}

/// Whether the table has the `expected` signature.
pub fn check_signature(header: &AcpiTableHeader, expected: &[u8; 4]) -> (r: bool)
    ensures
        r == (header.signature@ == expected@),
{
    let mut i: usize = 0;
    while i < 4
        invariant
            0 <= i <= 4,
            forall|k: int| 0 <= k < i ==> header.signature@[k] == expected@[k],
        decreases 4 - i,
    {
        if header.signature[i] != expected[i] {
            return false;
        }
        i = i + 1;
    }
    assert(header.signature@ =~= expected@);
    true
}

/// Sum of the bytes.
pub open spec fn byte_sum(s: Seq<u8>) -> int
    decreases s.len(),
{
    if s.len() == 0 { 0 } else { byte_sum(s.drop_last()) + s.last() }
}

/// Whether the bytes of a table sum to zero modulo 256.
pub fn validate_checksum(data: &[u8]) -> (r: bool)
    ensures
        r == (byte_sum(data@) % 256 == 0),
{
    let mut sum: u8 = 0;
    let mut i: usize = 0;
    while i < data.len()
        invariant
            0 <= i <= data@.len(),
            sum == byte_sum(data@.take(i as int)) % 256,
        decreases data@.len() - i,
    {
        proof {
            assert(data@.take(i + 1).drop_last() =~= data@.take(i as int));
        }
        let x = data[i];
        let next = sum.wrapping_add(x);
        assert(next == (sum + x) % 256);
        sum = next;
        i = i + 1;
    }
    assert(data@.take(data@.len() as int) =~= data@);
    sum == 0
}

} // verus!
