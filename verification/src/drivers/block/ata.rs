//! The ATA PIO driver's logic: the register values of a 28-bit LBA read,
//! the status bits it waits on, and the decoding of IDENTIFY data.
use vstd::prelude::*;
use crate::drivers::block::traits::BlockError;
use crate::bitfields::{lemma_u32_fields, lemma_u16_fields, lemma_pack_u64_halfwords};

verus! {

/// Primary channel I/O ports.
pub const PORT_DATA: u16 = 0x1F0;
pub const PORT_ERROR: u16 = 0x1F1;
pub const PORT_SECTOR_COUNT: u16 = 0x1F2;
pub const PORT_LBA_LO: u16 = 0x1F3;
pub const PORT_LBA_MID: u16 = 0x1F4;
pub const PORT_LBA_HI: u16 = 0x1F5;
pub const PORT_DRIVE_HEAD: u16 = 0x1F6;
pub const PORT_STATUS: u16 = 0x1F7;
pub const PORT_COMMAND: u16 = 0x1F7;

/// Status bits.
pub const STATUS_BSY: u8 = 0x80;
pub const STATUS_DRDY: u8 = 0x40;
pub const STATUS_DRQ: u8 = 0x08;
pub const STATUS_ERR: u8 = 0x01;

/// Commands.
pub const CMD_READ_SECTORS: u8 = 0x20;
pub const CMD_WRITE_SECTORS: u8 = 0x30;
pub const CMD_IDENTIFY: u8 = 0xEC;

/// Sector size of the drive.
pub const ATA_SECTOR_SIZE: usize = 512;

/// Largest address a 28-bit LBA command reaches.
pub const LBA28_MAX: u64 = 0x0FFF_FFFF;

/// Register values that address a sector with a 28-bit LBA.
#[derive(Clone, Copy, Debug)]
pub struct Lba28Registers {
    /// LBA mode, master drive, and bits 24..27.
    pub drive_head: u8,
    pub lba_lo: u8,
    pub lba_mid: u8,
    pub lba_hi: u8,
}

/// The registers for sector `lba`; `InvalidBlock` beyond 28 bits.
pub fn lba28_registers(lba: u64) -> (r: Result<Lba28Registers, BlockError>)
    ensures
        lba > LBA28_MAX ==> r == Err::<Lba28Registers, BlockError>(BlockError::InvalidBlock),
        lba <= LBA28_MAX ==> (r matches Ok(regs) && {
            &&& regs.drive_head == 0xE0 + lba / 0x100_0000
            &&& regs.lba_lo == lba % 0x100
            &&& regs.lba_mid == (lba / 0x100) % 0x100
            &&& regs.lba_hi == (lba / 0x1_0000) % 0x100
        }),
{
    if lba > LBA28_MAX {
        return Err(BlockError::InvalidBlock);
    }
    let l = lba as u32;
    let dh = (0xE0u32 | ((l >> 24u32) & 0x0F)) as u8;
    let lo = (l & 0xFF) as u8;
    let mid = ((l >> 8u32) & 0xFF) as u8;
    let hi = ((l >> 16u32) & 0xFF) as u8;
    assert(l == lba);
    assert((0xE0u32 | ((l >> 24u32) & 0x0F)) as u8 == 0xE0 + l / 0x100_0000) by (bit_vector)
        requires l <= 0x0FFF_FFFFu32;
    proof {
        lemma_u32_fields(l);
    }
    Ok(Lba28Registers { drive_head: dh, lba_lo: lo, lba_mid: mid, lba_hi: hi })
}

/// Whether the drive is no longer busy.
pub fn is_ready(status: u8) -> (r: bool)
    ensures
        r == (status & STATUS_BSY == 0),
{
    status & STATUS_BSY == 0
}

/// What a status read tells a driver waiting for data: `Some(false)` on an
/// error, `Some(true)` when data is ready, `None` to keep waiting.
pub fn data_request_state(status: u8) -> (r: Option<bool>)
    ensures
        status & STATUS_ERR != 0 ==> r == Some(false),
        status & STATUS_ERR == 0 && status & STATUS_DRQ != 0 ==> r == Some(true),
        status & STATUS_ERR == 0 && status & STATUS_DRQ == 0 ==> r is None,
{
    if status & STATUS_ERR != 0 {
        return Some(false);
    }
    if status & STATUS_DRQ != 0 {
        return Some(true);
    }
    None
}

/// Number of sectors from IDENTIFY data: the 48-bit count (words 100..103)
/// when word 83 announces LBA48, else the 28-bit count (words 60..61).
pub fn identify_sectors(identify: &[u16]) -> (n: u64)
    requires
        identify@.len() >= 256,
    ensures
        (identify@[83] as int / 0x400) % 2 == 1 ==> n == identify@[100] as int + identify@[101] as int * 0x1_0000
            + identify@[102] as int * 0x1_0000_0000 + identify@[103] as int * 0x1_0000_0000_0000,
        (identify@[83] as int / 0x400) % 2 == 0 ==> n == identify@[60] as int + identify@[61] as int * 0x1_0000,
{
    let w83 = identify[83];
    let lba48 = w83 & (1u16 << 10u16) != 0;
    proof {
        lemma_u16_fields(w83);
    }
    if lba48 {
        let a = identify[100] as u64;
        let b = identify[101] as u64;
        let c = identify[102] as u64;
        let d = identify[103] as u64;
        let n = a | (b << 16u64) | (c << 32u64) | (d << 48u64);
        proof {
            lemma_pack_u64_halfwords(a, b, c, d);
        }
        n
    } else {
        let a = identify[60] as u64;
        let b = identify[61] as u64;
        let n = a | (b << 16u64);
        proof {
            lemma_pack_u64_halfwords(a, b, 0, 0);
        }
        n
    }
}

/// Stores a data word read from the drive at `offset`, low byte first.
pub fn store_data_word(buf: &mut [u8], offset: usize, word: u16)
    requires
        offset + 1 < old(buf)@.len(),
    ensures
        final(buf)@ == old(buf)@.update(offset as int, (word % 0x100) as u8).update(offset + 1, (word / 0x100) as u8),
{
    buf[offset] = (word & 0xFF) as u8;
    buf[offset + 1] = ((word >> 8u16) & 0xFF) as u8;
    proof {
        lemma_u16_fields(word);
    }
}

/// Checks a one-sector read request: the buffer must hold a sector.
pub fn check_read(buf_len: usize) -> (r: Result<(), BlockError>)
    ensures
        r == (if buf_len < ATA_SECTOR_SIZE { Err(BlockError::InvalidBuffer) } else { Ok(()) }),
{
    if buf_len < ATA_SECTOR_SIZE {
        Err(BlockError::InvalidBuffer)
    } else {
        Ok(())
    }
}

} // verus!
