//! The block device interface: fixed-size blocks addressed by LBA.
use vstd::prelude::*;

verus! {

/// Errors of block devices.
#[derive(Debug, Clone, Copy, PartialEq, Eq, Structural)]
pub enum BlockError {
    /// Device not found or not initialized.
    NotFound,
    /// Block address out of range.
    InvalidBlock,
    /// I/O error during the transfer.
    IoError,
    /// The device is read-only.
    ReadOnly,
    /// Wrong buffer size.
    InvalidBuffer,
    /// The device is busy.
    Busy,
    /// Generic hardware error.
    HardwareError,
}

/// Message of an error.
pub open spec fn block_error_message(e: BlockError) -> Seq<char> {
    match e {
        BlockError::NotFound => "Device not found"@,
        BlockError::InvalidBlock => "Invalid block address"@,
        BlockError::IoError => "I/O error"@,
        BlockError::ReadOnly => "Read-only device"@,
        BlockError::InvalidBuffer => "Invalid buffer size"@,
        BlockError::Busy => "Device busy"@,
        BlockError::HardwareError => "Hardware error"@,
    }
}

impl BlockError {
    /// Human-readable message of the error.
    pub fn message(&self) -> (s: &'static str)
        ensures
            s@ == block_error_message(*self),
    {
        match self {
            BlockError::NotFound => "Device not found",
            BlockError::InvalidBlock => "Invalid block address",
            BlockError::IoError => "I/O error",
            BlockError::ReadOnly => "Read-only device",
            BlockError::InvalidBuffer => "Invalid buffer size",
            BlockError::Busy => "Device busy",
            BlockError::HardwareError => "Hardware error",
        }
    }
}

/// A device of fixed-size blocks.
pub trait BlockDevice {
    /// Size of a block in bytes.
    spec fn spec_block_size(&self) -> usize;

    /// Reads block `lba` into the first `block_size` bytes of `buf`.
    fn read_block(&self, lba: u64, buf: &mut [u8]) -> (r: Result<(), BlockError>)
        ensures
            final(buf)@.len() == old(buf)@.len();

    /// Writes the first `block_size` bytes of `buf` to block `lba`.
    fn write_block(&self, lba: u64, buf: &[u8]) -> Result<(), BlockError>;

    /// Size of a block in bytes (usually 512).
    fn block_size(&self) -> (n: usize)
        ensures
            n == self.spec_block_size();

    /// Number of blocks of the device.
    fn total_blocks(&self) -> u64;

    /// Whether the device is read-only.
    fn is_read_only(&self) -> (r: bool)
        default_ensures
            !r,
    {
        false
    }

    /// Writes cached data out to the device.
    fn flush(&self) -> (r: Result<(), BlockError>)
        default_ensures
            r == Ok::<(), BlockError>(()),
    {
        Ok(())
    }

    /// Reads contiguous blocks from `start_lba` into `buf`, one block per
    /// `block_size` bytes; `InvalidBuffer` when the buffer is not a whole
    /// number of blocks. Stops at the first block that fails.
    fn read_blocks(&self, start_lba: u64, buf: &mut [u8]) -> (r: Result<(), BlockError>)
        requires
            self.spec_block_size() > 0,
            start_lba + old(buf)@.len() / (self.spec_block_size() as nat) <= u64::MAX,
        ensures
            final(buf)@.len() == old(buf)@.len(),
        default_ensures
            old(buf)@.len() % (self.spec_block_size() as nat) != 0 ==> r == Err::<(), BlockError>(BlockError::InvalidBuffer)
                && final(buf)@ == old(buf)@,
    {
        let block_size = self.block_size();
        let len = buf.len();
        if len % block_size != 0 {
            return Err(BlockError::InvalidBuffer);
        }
        let num_blocks = len / block_size;
        assert(num_blocks * block_size == len) by (nonlinear_arith)
            requires num_blocks == len / block_size, len % block_size == 0, block_size > 0;
        let mut tmp: Vec<u8> = vec![0u8; block_size];
        let mut i: usize = 0;
        while i < num_blocks
            invariant
                block_size == self.spec_block_size(),
                block_size > 0,
                num_blocks == old(buf)@.len() / (block_size as nat),
                num_blocks * block_size == buf@.len(),
                buf@.len() == old(buf)@.len(),
                len == buf@.len(),
                buf@.len() % (block_size as nat) == 0,
                tmp@.len() == block_size,
                start_lba + num_blocks <= u64::MAX,
                0 <= i <= num_blocks,
            decreases num_blocks - i,
        {
            let r = self.read_block(start_lba + i as u64, tmp.as_mut_slice());
            match r {
                Ok(()) => {},
                Err(e) => { return Err(e); },
            }
            proof {
                assert(i * block_size + block_size <= num_blocks * block_size) by (nonlinear_arith)
                    requires i < num_blocks, block_size > 0;
            }
            let offset = i * block_size;
            let mut k: usize = 0;
            while k < block_size
                invariant
                    0 <= k <= block_size,
                    tmp@.len() == block_size,
                    offset + block_size <= buf@.len(),
                    buf@.len() == old(buf)@.len(),
                    len == buf@.len(),
                decreases block_size - k,
            {
                buf[offset + k] = tmp[k];
                k = k + 1;
            }
            i = i + 1;
        }
        Ok(())
    }

    /// Writes contiguous blocks from `start_lba`, one block per `block_size`
    /// bytes of `buf`; `InvalidBuffer` when the buffer is not a whole number
    /// of blocks. Stops at the first block that fails.
    fn write_blocks(&self, start_lba: u64, buf: &[u8]) -> (r: Result<(), BlockError>)
        requires
            self.spec_block_size() > 0,
            start_lba + buf@.len() / (self.spec_block_size() as nat) <= u64::MAX,
        default_ensures
            buf@.len() % (self.spec_block_size() as nat) != 0 ==> r == Err::<(), BlockError>(BlockError::InvalidBuffer),
    {
        let block_size = self.block_size();
        let len = buf.len();
        if len % block_size != 0 {
            return Err(BlockError::InvalidBuffer);
        }
        let num_blocks = len / block_size;
        assert(num_blocks * block_size == len) by (nonlinear_arith)
            requires num_blocks == len / block_size, len % block_size == 0, block_size > 0;
        let mut i: usize = 0;
        while i < num_blocks
            invariant
                block_size == self.spec_block_size(),
                block_size > 0,
                num_blocks == buf@.len() / (block_size as nat),
                num_blocks * block_size == buf@.len(),
                len == buf@.len(),
                buf@.len() % (block_size as nat) == 0,
                start_lba + num_blocks <= u64::MAX,
                0 <= i <= num_blocks,
            decreases num_blocks - i,
        {
            proof {
                assert(i * block_size + block_size <= num_blocks * block_size) by (nonlinear_arith)
                    requires i < num_blocks, block_size > 0;
            }
            let offset = i * block_size;
            let chunk = &buf[offset..offset + block_size];
            let r = self.write_block(start_lba + i as u64, chunk);
            match r {
                Ok(()) => {},
                Err(e) => { return Err(e); },
            }
            i = i + 1;
        }
        Ok(())
    }
}

/// Description of a block device.
#[derive(Debug, Clone, Copy)]
pub struct BlockDeviceInfo {
    /// Name, as "virtio0" or "nvme0n1".
    pub name: &'static str,
    pub block_size: usize,
    pub total_blocks: u64,
    pub read_only: bool,
}

impl BlockDeviceInfo {
    /// Capacity in bytes.
    pub fn size_bytes(&self) -> (n: u64)
        requires
            self.total_blocks * self.block_size <= u64::MAX,
        ensures
            n == self.total_blocks * self.block_size,
    {
        self.total_blocks * self.block_size as u64
    }

    /// Capacity in whole MiB.
    pub fn size_mb(&self) -> (n: u64)
        requires
            self.total_blocks * self.block_size <= u64::MAX,
        ensures
            n == (self.total_blocks * self.block_size) / 0x10_0000int,
    {
        self.size_bytes() / (1024 * 1024)
    }
}

} // verus!
