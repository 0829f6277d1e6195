//! SCSI commands for USB mass storage: command blocks and the data the
//! device returns, with their big-endian fields.
use vstd::prelude::*;

verus! {

pub const SCSI_TEST_UNIT_READY: u8 = 0x00;
pub const SCSI_REQUEST_SENSE: u8 = 0x03;
pub const SCSI_INQUIRY: u8 = 0x12;
pub const SCSI_MODE_SELECT_6: u8 = 0x15;
pub const SCSI_MODE_SENSE_6: u8 = 0x1A;
pub const SCSI_START_STOP_UNIT: u8 = 0x1B;
pub const SCSI_PREVENT_ALLOW_MEDIUM_REMOVAL: u8 = 0x1E;
pub const SCSI_READ_CAPACITY_10: u8 = 0x25;
pub const SCSI_READ_10: u8 = 0x28;
pub const SCSI_WRITE_10: u8 = 0x2A;
pub const SCSI_READ_CAPACITY_16: u8 = 0x9E;
pub const SCSI_READ_16: u8 = 0x88;
pub const SCSI_WRITE_16: u8 = 0x8A;

pub const SENSE_NO_SENSE: u8 = 0x00;
pub const SENSE_RECOVERED_ERROR: u8 = 0x01;
pub const SENSE_NOT_READY: u8 = 0x02;
pub const SENSE_MEDIUM_ERROR: u8 = 0x03;
pub const SENSE_HARDWARE_ERROR: u8 = 0x04;
pub const SENSE_ILLEGAL_REQUEST: u8 = 0x05;
pub const SENSE_UNIT_ATTENTION: u8 = 0x06;
pub const SENSE_DATA_PROTECT: u8 = 0x07;
pub const SENSE_BLANK_CHECK: u8 = 0x08;
pub const SENSE_ABORTED_COMMAND: u8 = 0x0B;

/// A 6-byte command block.
#[derive(Debug, Clone, Copy)]
pub struct Cdb6 {
    pub opcode: u8,
    pub lba_hi: u8,
    pub lba_mid: u8,
    pub lba_lo: u8,
    pub length: u8,
    pub control: u8,
}

/// A 10-byte command block; address and length big-endian.
#[derive(Debug, Clone, Copy)]
pub struct Cdb10 {
    pub opcode: u8,
    pub flags: u8,
    pub lba: [u8; 4],
    pub group: u8,
    pub length: [u8; 2],
    pub control: u8,
}

/// A 16-byte command block; address and length big-endian.
#[derive(Debug, Clone, Copy)]
pub struct Cdb16 {
    pub opcode: u8,
    pub flags: u8,
    pub lba: [u8; 8],
    pub length: [u8; 4],
    pub group: u8,
    pub control: u8,
}

/// INQUIRY response.
#[derive(Debug, Clone, Copy)]
pub struct InquiryData {
    pub peripheral: u8,
    /// Bit 7: removable medium.
    pub removable: u8,
    pub version: u8,
    pub response_format: u8,
    pub additional_length: u8,
    pub reserved: [u8; 3],
    pub vendor_id: [u8; 8],
    pub product_id: [u8; 16],
    pub revision: [u8; 4],
}

/// READ CAPACITY (10) response; both fields big-endian.
#[derive(Debug, Clone, Copy)]
pub struct ReadCapacity10Data {
    pub last_lba: [u8; 4],
    pub block_length: [u8; 4],
}

/// REQUEST SENSE response.
#[derive(Debug, Clone, Copy)]
pub struct SenseData {
    pub response_code: u8,
    pub segment_number: u8,
    /// Low nibble: sense key.
    pub sense_key: u8,
    pub information: [u8; 4],
    pub additional_length: u8,
    pub command_specific: [u8; 4],
    pub asc: u8,
    pub ascq: u8,
    pub field_replaceable: u8,
    pub sense_key_specific: [u8; 3],
}

/// Value of four big-endian bytes.
pub open spec fn be_u32(b: Seq<u8>) -> int {
    b[0] * 0x100_0000 + b[1] * 0x1_0000 + b[2] * 0x100 + b[3]
}

/// Value of two big-endian bytes.
pub open spec fn be_u16(b: Seq<u8>) -> int {
    b[0] * 0x100 + b[1]
}

/// Reads four big-endian bytes.
pub fn from_be_bytes_u32(b: [u8; 4]) -> (x: u32)
    ensures
        x == be_u32(b@),
{
    let b0 = b[0] as u32;
    let b1 = b[1] as u32;
    let b2 = b[2] as u32;
    let b3 = b[3] as u32;
    proof {
        crate::bitfields::lemma_pack_bytes(b0, b1, b2, b3);
    }
    (b0 << 24u32) | (b1 << 16u32) | (b2 << 8u32) | b3
}

/// Writes a value as four big-endian bytes.
pub fn to_be_bytes_u32(x: u32) -> (b: [u8; 4])
    ensures
        be_u32(b@) == x,
        b@ == seq![(x / 0x100_0000) as u8, ((x / 0x1_0000) % 0x100) as u8, ((x / 0x100) % 0x100) as u8, (x % 0x100) as u8],
{
    let b0 = (x >> 24u32) as u8;
    let b1 = ((x >> 16u32) & 0xFF) as u8;
    let b2 = ((x >> 8u32) & 0xFF) as u8;
    let b3 = (x & 0xFF) as u8;
    proof {
        crate::bitfields::lemma_u32_fields(x);
        crate::bitfields::lemma_u32_digits(x);
    }
    let b = [b0, b1, b2, b3];
    assert(b@ =~= seq![b0, b1, b2, b3]);
    b
}

/// Writes a value as two big-endian bytes.
pub fn to_be_bytes_u16(x: u16) -> (b: [u8; 2])
    ensures
        be_u16(b@) == x,
        b@ == seq![(x / 0x100) as u8, (x % 0x100) as u8],
{
    let b0 = (x >> 8u16) as u8;
    let b1 = (x & 0xFF) as u8;
    proof {
        crate::bitfields::lemma_u16_fields(x);
    }
    let b = [b0, b1];
    assert(b@ =~= seq![b0, b1]);
    b
}

impl ReadCapacity10Data {
    /// Address of the last block.
    pub fn last_lba(&self) -> (x: u32)
        ensures
            x == be_u32(self.last_lba@),
    {
        from_be_bytes_u32(self.last_lba)
    }

    /// Size of a block in bytes.
    pub fn block_length(&self) -> (x: u32)
        ensures
            x == be_u32(self.block_length@),
    {
        from_be_bytes_u32(self.block_length)
    }
}

impl SenseData {
    /// The sense key (low nibble).
    pub fn sense_key(&self) -> (k: u8)
        ensures
            k == self.sense_key % 16,
    {
        let s = self.sense_key;
        proof {
            crate::bitfields::lemma_u8_fields(s);
        }
        s & 0x0F
    }
}

/// A 6-byte block with every field zero but the opcode and length.
pub open spec fn cdb6(opcode: u8, length: u8) -> Cdb6 {
    Cdb6 { opcode, lba_hi: 0, lba_mid: 0, lba_lo: 0, length, control: 0 }
}

/// TEST UNIT READY.
pub fn test_unit_ready() -> (c: Cdb6)
    ensures
        c == cdb6(SCSI_TEST_UNIT_READY, 0),
{
    Cdb6 { opcode: SCSI_TEST_UNIT_READY, lba_hi: 0, lba_mid: 0, lba_lo: 0, length: 0, control: 0 }
}

/// INQUIRY for `allocation_length` bytes.
pub fn inquiry(allocation_length: u8) -> (c: Cdb6)
    ensures
        c == cdb6(SCSI_INQUIRY, allocation_length),
{
    Cdb6 { opcode: SCSI_INQUIRY, lba_hi: 0, lba_mid: 0, lba_lo: 0, length: allocation_length, control: 0 }
}

/// REQUEST SENSE for `allocation_length` bytes.
pub fn request_sense(allocation_length: u8) -> (c: Cdb6)
    ensures
        c == cdb6(SCSI_REQUEST_SENSE, allocation_length),
{
    Cdb6 { opcode: SCSI_REQUEST_SENSE, lba_hi: 0, lba_mid: 0, lba_lo: 0, length: allocation_length, control: 0 }
}

/// READ CAPACITY (10).
pub fn read_capacity_10() -> (c: Cdb10)
    ensures
        c.opcode == SCSI_READ_CAPACITY_10,
        c.flags == 0 && c.group == 0 && c.control == 0,
        c.lba@ == seq![0u8, 0u8, 0u8, 0u8],
        c.length@ == seq![0u8, 0u8],
{
    let c = Cdb10 { opcode: SCSI_READ_CAPACITY_10, flags: 0, lba: [0, 0, 0, 0], group: 0, length: [0, 0], control: 0 };
    assert(c.lba@ =~= seq![0u8, 0u8, 0u8, 0u8]);
    assert(c.length@ =~= seq![0u8, 0u8]);
    c
}

/// READ (10) of `block_count` blocks from `lba`.
pub fn read_10(lba: u32, block_count: u16) -> (c: Cdb10)
    ensures
        c.opcode == SCSI_READ_10,
        c.flags == 0 && c.group == 0 && c.control == 0,
        be_u32(c.lba@) == lba,
        be_u16(c.length@) == block_count,
{
    Cdb10 { opcode: SCSI_READ_10, flags: 0, lba: to_be_bytes_u32(lba), group: 0, length: to_be_bytes_u16(block_count), control: 0 }
}

/// WRITE (10) of `block_count` blocks at `lba`.
pub fn write_10(lba: u32, block_count: u16) -> (c: Cdb10)
    ensures
        c.opcode == SCSI_WRITE_10,
        c.flags == 0 && c.group == 0 && c.control == 0,
        be_u32(c.lba@) == lba,
        be_u16(c.length@) == block_count,
{
    Cdb10 { opcode: SCSI_WRITE_10, flags: 0, lba: to_be_bytes_u32(lba), group: 0, length: to_be_bytes_u16(block_count), control: 0 }
}

/// Big-endian encoding round-trips: the bytes written for a value read back
/// as that value.
pub proof fn lemma_be_u32_roundtrip(x: u32)
    ensures
        be_u32(seq![(x / 0x100_0000) as u8, ((x / 0x1_0000) % 0x100) as u8, ((x / 0x100) % 0x100) as u8, (x % 0x100) as u8]) == x,
{
    crate::bitfields::lemma_u32_digits(x);
}

} // verus!
