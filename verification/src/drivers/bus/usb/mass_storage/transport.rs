//! Bulk-only transport: the command wrapper sent before a SCSI command and
//! the status wrapper the device answers with, and their wire layouts.
use vstd::prelude::*;

verus! {

/// "USBC", little-endian.
pub const CBW_SIGNATURE: u32 = 0x43425355;
/// "USBS", little-endian.
pub const CSW_SIGNATURE: u32 = 0x53425355;
/// Bytes of a command wrapper.
pub const CBW_SIZE: usize = 31;
/// Bytes of a status wrapper.
pub const CSW_SIZE: usize = 13;

pub const CSW_STATUS_PASSED: u8 = 0x00;
pub const CSW_STATUS_FAILED: u8 = 0x01;
pub const CSW_STATUS_PHASE_ERROR: u8 = 0x02;

/// Command block wrapper.
#[derive(Debug, Clone, Copy)]
pub struct Cbw {
    pub signature: u32,
    pub tag: u32,
    pub data_transfer_length: u32,
    /// Bit 7: data flows to the host.
    pub flags: u8,
    pub lun: u8,
    pub cb_length: u8,
    pub cb: [u8; 16],
}

/// Command status wrapper.
#[derive(Debug, Clone, Copy)]
pub struct Csw {
    pub signature: u32,
    pub tag: u32,
    pub data_residue: u32,
    pub status: u8,
}

/// Errors of the bulk-only transport.
#[derive(Debug, Clone, Copy, PartialEq, Eq, Structural)]
pub enum BbbError {
    UsbError,
    InvalidCsw,
    CommandFailed,
    PhaseError,
    NotImplemented,
}

/// Little-endian bytes of a 32-bit value.
pub open spec fn le_bytes(x: u32) -> Seq<u8> {
    seq![(x % 0x100) as u8, ((x / 0x100) % 0x100) as u8, ((x / 0x1_0000) % 0x100) as u8, (x / 0x100_0000) as u8]
}

/// Value of four little-endian bytes.
pub open spec fn le_value(b: Seq<u8>) -> int {
    b[0] + b[1] * 0x100 + b[2] * 0x1_0000 + b[3] * 0x100_0000
}

fn push_le_u32(v: &mut Vec<u8>, x: u32)
    ensures
        final(v)@ == old(v)@ + le_bytes(x),
{
    proof {
        crate::bitfields::lemma_u32_fields(x);
    }
    let b0 = (x & 0xFF) as u8;
    let b1 = ((x >> 8u32) & 0xFF) as u8;
    let b2 = ((x >> 16u32) & 0xFF) as u8;
    let b3 = (x >> 24u32) as u8;
    v.push(b0);
    v.push(b1);
    v.push(b2);
    v.push(b3);
    assert(v@ =~= old(v)@ + le_bytes(x));
}

fn read_le_u32(b: &[u8], at: usize) -> (x: u32)
    requires
        at + 4 <= b@.len(),
    ensures
        x == le_value(b@.subrange(at as int, at + 4)),
{
    let b0 = b[at] as u32;
    let b1 = b[at + 1] as u32;
    let b2 = b[at + 2] as u32;
    let b3 = b[at + 3] as u32;
    proof {
        crate::bitfields::lemma_pack_bytes(b0, b1, b2, b3);
    }
    b0 | (b1 << 8u32) | (b2 << 16u32) | (b3 << 24u32)
}

/// The wire bytes of a command wrapper.
pub open spec fn cbw_bytes(c: Cbw) -> Seq<u8> {
    le_bytes(c.signature) + le_bytes(c.tag) + le_bytes(c.data_transfer_length)
        + seq![c.flags, c.lun, c.cb_length] + c.cb@
}

impl Cbw {
    /// A wrapper for command `cdb` (at most 16 bytes kept), with tag `tag`,
    /// `data_length` bytes of data in the given direction, for unit `lun`
    /// (4 bits).
    pub fn new(tag: u32, data_length: u32, direction_in: bool, lun: u8, cdb: &[u8]) -> (c: Cbw)
        ensures
            c.signature == CBW_SIGNATURE,
            c.tag == tag,
            c.data_transfer_length == data_length,
            c.flags == (if direction_in { 0x80u8 } else { 0u8 }),
            c.lun == lun % 16,
            c.cb_length == (if cdb@.len() < 16 { cdb@.len() } else { 16 }),
            c.cb@.len() == 16,
            forall|k: int| 0 <= k < 16 ==> #[trigger] c.cb@[k] == (if k < c.cb_length { cdb@[k] } else { 0u8 }),
    {
        let len: usize = if cdb.len() < 16 { cdb.len() } else { 16 };
        let mut cb: [u8; 16] = [0; 16];
        let mut i: usize = 0;
        while i < len
            invariant
                len <= 16,
                len <= cdb@.len(),
                0 <= i <= len,
                cb@.len() == 16,
                forall|k: int| 0 <= k < 16 ==> #[trigger] cb@[k] == (if k < i { cdb@[k] } else { 0u8 }),
            decreases len - i,
        {
            cb.set(i, cdb[i]);
            i = i + 1;
        }
        proof {
            crate::bitfields::lemma_u8_fields(lun);
        }
        Cbw {
            signature: CBW_SIGNATURE,
            tag,
            data_transfer_length: data_length,
            flags: if direction_in { 0x80 } else { 0x00 },
            lun: lun & 0x0F,
            cb_length: len as u8,
            cb,
        }
    }

    /// The 31 bytes sent on the bulk-out pipe.
    pub fn as_bytes(&self) -> (b: Vec<u8>)
        ensures
            b@ == cbw_bytes(*self),
            b@.len() == CBW_SIZE,
    {
        let mut b: Vec<u8> = Vec::new();
        push_le_u32(&mut b, self.signature);
        push_le_u32(&mut b, self.tag);
        push_le_u32(&mut b, self.data_transfer_length);
        b.push(self.flags);
        b.push(self.lun);
        b.push(self.cb_length);
        let ghost head = b@;
        let mut i: usize = 0;
        while i < 16
            invariant
                0 <= i <= 16,
                b@ == head + self.cb@.take(i as int),
            decreases 16 - i,
        {
            proof {
                crate::seqs::lemma_take_succ(self.cb@, i as int);
            }
            b.push(self.cb[i]);
            i = i + 1;
        }
        assert(self.cb@.take(16) =~= self.cb@);
        assert(b@ =~= cbw_bytes(*self));
        b
    }
}

impl Csw {
    /// Whether the wrapper is a status for the command tagged `expected_tag`.
    pub fn is_valid(&self, expected_tag: u32) -> (r: bool)
        ensures
            r == (self.signature == CSW_SIGNATURE && self.tag == expected_tag),
    {
        self.signature == CSW_SIGNATURE && self.tag == expected_tag
    }

    /// Whether the command passed.
    pub fn is_success(&self) -> (r: bool)
        ensures
            r == (self.status == CSW_STATUS_PASSED),
    {
        self.status == CSW_STATUS_PASSED
    }

    /// The wrapper in the 13 bytes received on the bulk-in pipe.
    pub fn from_bytes(bytes: &[u8; 13]) -> (c: Csw)
        ensures
            c.signature == le_value(bytes@.subrange(0, 4)),
            c.tag == le_value(bytes@.subrange(4, 8)),
            c.data_residue == le_value(bytes@.subrange(8, 12)),
            c.status == bytes@[12],
    {
        let s = bytes.as_slice();
        Csw {
            signature: read_le_u32(s, 0),
            tag: read_le_u32(s, 4),
            data_residue: read_le_u32(s, 8),
            status: bytes[12],
        }
    }
}

/// Running a command over the bulk pipes is not implemented.
pub fn execute_command(usb_address: u8, bulk_out: u8, bulk_in: u8, cdb: &[u8], data: Option<&mut [u8]>, direction_in: bool) -> (r: Result<u32, BbbError>)
    ensures
        r == Err::<u32, BbbError>(BbbError::NotImplemented),
{
    Err(BbbError::NotImplemented)
}

/// Little-endian encoding round-trips.
pub proof fn lemma_le_roundtrip(x: u32)
    ensures
        le_value(le_bytes(x)) == x,
{
    crate::bitfields::lemma_u32_digits(x);
}

} // verus!
