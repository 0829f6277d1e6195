//! The VirtIO block driver's logic: request checks, the three-descriptor
//! request chain (header, data, status) on the virtqueue, and the decoding
//! of the device's registers and status byte.
use vstd::prelude::*;
use crate::drivers::block::traits::BlockError;
use crate::drivers::block::virtqueue::{Virtqueue, VirtqDesc, distinct, DESC_F_NEXT, DESC_F_WRITE, QUEUE_SIZE};

verus! {

/// Bytes per sector.
pub const SECTOR_SIZE: usize = 512;

/// Request type: read from the device.
pub const BLK_T_IN: u32 = 0;
/// Request type: write to the device.
pub const BLK_T_OUT: u32 = 1;

/// Request status: done.
pub const BLK_S_OK: u8 = 0;
/// Request status: I/O error.
pub const BLK_S_IOERR: u8 = 1;
/// Request status: unsupported request.
pub const BLK_S_UNSUPP: u8 = 2;

/// Legacy register offsets.
pub const REG_DEVICE_FEATURES: u64 = 0x00;
pub const REG_DRIVER_FEATURES: u64 = 0x04;
pub const REG_QUEUE_ADDRESS: u64 = 0x08;
pub const REG_QUEUE_SIZE: u64 = 0x0C;
pub const REG_QUEUE_SELECT: u64 = 0x0E;
pub const REG_QUEUE_NOTIFY: u64 = 0x10;
pub const REG_DEVICE_STATUS: u64 = 0x12;
pub const REG_ISR_STATUS: u64 = 0x13;
pub const REG_BLK_CAPACITY: u64 = 0x14;

/// Device status bits.
pub const STATUS_RESET: u8 = 0;
pub const STATUS_ACKNOWLEDGE: u8 = 1;
pub const STATUS_DRIVER: u8 = 2;
pub const STATUS_DRIVER_OK: u8 = 4;
pub const STATUS_FEATURES_OK: u8 = 8;
pub const STATUS_FAILED: u8 = 128;

/// Header of a block request (16 bytes on the wire).
#[derive(Clone, Copy, Debug)]
pub struct BlkReqHeader {
    pub req_type: u32,
    pub reserved: u32,
    pub sector: u64,
}

/// The header of a read or write of `sector`.
pub fn request_header(is_write: bool, sector: u64) -> (h: BlkReqHeader)
    ensures
        h.req_type == (if is_write { BLK_T_OUT } else { BLK_T_IN }),
        h.reserved == 0,
        h.sector == sector,
{
    BlkReqHeader { req_type: if is_write { BLK_T_OUT } else { BLK_T_IN }, reserved: 0, sector }
}

/// Checks a one-block request: the device must be initialized, the block in
/// range and the buffer at least one sector.
pub fn check_request(initialized: bool, total_sectors: u64, lba: u64, buf_len: usize) -> (r: Result<(), BlockError>)
    ensures
        r == (if !initialized {
            Err(BlockError::NotFound)
        } else if lba >= total_sectors {
            Err(BlockError::InvalidBlock)
        } else if buf_len < SECTOR_SIZE {
            Err(BlockError::InvalidBuffer)
        } else {
            Ok(())
        }),
{
    if !initialized {
        return Err(BlockError::NotFound);
    }
    if lba >= total_sectors {
        return Err(BlockError::InvalidBlock);
    }
    if buf_len < SECTOR_SIZE {
        return Err(BlockError::InvalidBuffer);
    }
    Ok(())
}

/// The outcome a status byte stands for.
pub open spec fn status_outcome(status: u8) -> Result<(), BlockError> {
    if status == BLK_S_OK {
        Ok(())
    } else if status == BLK_S_IOERR {
        Err(BlockError::IoError)
    } else {
        Err(BlockError::HardwareError)
    }
}

/// The outcome of a finished request from its status byte.
pub fn status_result(status: u8) -> (r: Result<(), BlockError>)
    ensures
        r == status_outcome(status),
{
    if status == BLK_S_OK {
        Ok(())
    } else if status == BLK_S_IOERR {
        Err(BlockError::IoError)
    } else {
        Err(BlockError::HardwareError)
    }
}

/// Capacity in sectors from the two halves of the capacity register.
pub fn capacity_from_regs(lo: u32, hi: u32) -> (n: u64)
    ensures
        n == hi as u64 * 0x1_0000_0000 + lo as u64,
{
    let n = ((hi as u64) << 32u64) | (lo as u64);
    proof {
        crate::bitfields::lemma_u64_halves(0, lo as u64, hi as u64);
    }
    n
}

/// Whether the device kept `FEATURES_OK` in its status.
pub fn features_accepted(status: u8) -> (r: bool)
    ensures
        r == (status & STATUS_FEATURES_OK != 0),
{
    status & STATUS_FEATURES_OK != 0
}

/// Size of the queue the driver sets up for a device offering `device_size`
/// entries: `None` when it offers none, else at most `QUEUE_SIZE`.
pub fn negotiated_queue_size(device_size: u16) -> (r: Option<u16>)
    ensures
        device_size == 0 ==> r is None,
        device_size > 0 ==> r == Some(if device_size < QUEUE_SIZE { device_size } else { QUEUE_SIZE }),
{
    if device_size == 0 {
        return None;
    }
    Some(if device_size < QUEUE_SIZE { device_size } else { QUEUE_SIZE })
}

/// Page frame number handed to the device for a queue at `phys_addr`.
pub fn queue_pfn(phys_addr: u64) -> (pfn: u32)
    ensures
        pfn == (phys_addr / 4096) as u32,
{
    (phys_addr / 4096) as u32
}

/// The descriptors of a request in flight: header, data, status.
#[derive(Clone, Copy, Debug)]
pub struct RequestChain {
    pub header: u16,
    pub data: u16,
    pub status: u16,
}

/// Queue state untouched but for the free list and descriptor table.
pub open spec fn rings_unchanged(a: Virtqueue, b: Virtqueue) -> bool {
    &&& b.size == a.size
    &&& b.avail == a.avail
    &&& b.avail_ring@ == a.avail_ring@
    &&& b.used == a.used
    &&& b.used_ring@ == a.used_ring@
    &&& b.last_used_idx == a.last_used_idx
    &&& b.phys_addr == a.phys_addr
}

/// Builds the chain of a request and publishes it: three descriptors taken
/// from the free list (`Busy` when they run out; those already taken stay
/// taken), the header read by the device, the data read (write request) or
/// written (read request) by it, the status byte written by it.
pub fn submit_request(
    queue: &mut Virtqueue,
    header_addr: u64,
    header_len: u32,
    buf_addr: u64,
    buf_len: u32,
    status_addr: u64,
    is_write: bool,
) -> (r: Result<RequestChain, BlockError>)
    requires
        old(queue).wf(),
        old(queue).size > 0,
    ensures
        final(queue).wf(),
        old(queue).num_free < 3 ==> r == Err::<RequestChain, BlockError>(BlockError::Busy)
            && final(queue).free_list@ == old(queue).free_list@.skip(old(queue).num_free as int)
            && final(queue).avail == old(queue).avail,
        old(queue).num_free >= 3 ==> {
            let fl = old(queue).free_list@;
            &&& r matches Ok(c)
            &&& c.header == fl[0] && c.data == fl[1] && c.status == fl[2]
            &&& final(queue).free_list@ == fl.skip(3)
            &&& final(queue).desc@[c.header as int] == VirtqDesc {
                    addr: header_addr, len: header_len, flags: DESC_F_NEXT, next: c.data }
            &&& final(queue).desc@[c.data as int] == VirtqDesc {
                    addr: buf_addr, len: buf_len, flags: if is_write { DESC_F_NEXT } else { (DESC_F_NEXT | DESC_F_WRITE) as u16 }, next: c.status }
            &&& final(queue).desc@[c.status as int] == VirtqDesc {
                    addr: status_addr, len: 1, flags: DESC_F_WRITE, next: 0 }
            &&& final(queue).avail_ring@ == old(queue).avail_ring@.update((old(queue).avail.idx % old(queue).size) as int, c.header)
            &&& final(queue).avail.idx == (if old(queue).avail.idx == u16::MAX { 0 } else { old(queue).avail.idx + 1 })
        },
        final(queue).size == old(queue).size,
        final(queue).used == old(queue).used,
        final(queue).used_ring@ == old(queue).used_ring@,
        final(queue).last_used_idx == old(queue).last_used_idx,
{
    let ghost fl = queue.free_list@;
    let d0 = match queue.alloc_desc() {
        Some(d) => d,
        None => {
            assert(fl.skip(0) =~= fl);
            return Err(BlockError::Busy);
        },
    };
    let d1 = match queue.alloc_desc() {
        Some(d) => d,
        None => {
            assert(fl.skip(1) =~= fl.drop_first());
            return Err(BlockError::Busy);
        },
    };
    let d2 = match queue.alloc_desc() {
        Some(d) => d,
        None => {
            assert(fl.skip(2) =~= fl.drop_first().drop_first());
            return Err(BlockError::Busy);
        },
    };
    proof {
        assert(fl.skip(3) =~= fl.drop_first().drop_first().drop_first());
        assert(distinct(fl));
        assert(fl[0] != fl[1] && fl[0] != fl[2] && fl[1] != fl[2]);
        assert(!queue.free_list@.contains(d0)) by {
            if queue.free_list@.contains(d0) {
                let j = choose|j: int| 0 <= j < queue.free_list@.len() && queue.free_list@[j] == d0;
                assert(fl[j + 3] == fl[0]);
            }
        }
        assert(!queue.free_list@.contains(d1)) by {
            if queue.free_list@.contains(d1) {
                let j = choose|j: int| 0 <= j < queue.free_list@.len() && queue.free_list@[j] == d1;
                assert(fl[j + 3] == fl[1]);
            }
        }
        assert(!queue.free_list@.contains(d2)) by {
            if queue.free_list@.contains(d2) {
                let j = choose|j: int| 0 <= j < queue.free_list@.len() && queue.free_list@[j] == d2;
                assert(fl[j + 3] == fl[2]);
            }
        }
    }
    queue.set_desc(d0, header_addr, header_len, DESC_F_NEXT, d1);
    let data_flags: u16 = if is_write { DESC_F_NEXT } else { DESC_F_NEXT | DESC_F_WRITE };
    queue.set_desc(d1, buf_addr, buf_len, data_flags, d2);
    queue.set_desc(d2, status_addr, 1, DESC_F_WRITE, 0);
    queue.push_avail(d0);
    Ok(RequestChain { header: d0, data: d1, status: d2 })
}

/// Ends a request: consumes the used entry when the device answered,
/// returns the three descriptors to the free list (status first, header
/// last), and maps the outcome: a request that timed out is an `IoError`,
/// else the status byte decides.
pub fn finish_request(queue: &mut Virtqueue, chain: RequestChain, completed: bool, status: u8) -> (r: Result<(), BlockError>)
    requires
        old(queue).wf(),
        old(queue).size > 0,
        chain.header < old(queue).size,
        chain.data < old(queue).size,
        chain.status < old(queue).size,
        chain.header != chain.data,
        chain.header != chain.status,
        chain.data != chain.status,
        !old(queue).free_list@.contains(chain.header),
        !old(queue).free_list@.contains(chain.data),
        !old(queue).free_list@.contains(chain.status),
    ensures
        final(queue).wf(),
        final(queue).free_list@ == seq![chain.status, chain.data, chain.header] + old(queue).free_list@,
        r == (if !completed { Err(BlockError::IoError) } else { status_outcome(status) }),
        completed && old(queue).used.idx != old(queue).last_used_idx ==>
            final(queue).last_used_idx == (if old(queue).last_used_idx == u16::MAX { 0 } else { old(queue).last_used_idx + 1 }),
        !completed ==> final(queue).last_used_idx == old(queue).last_used_idx,
        final(queue).avail == old(queue).avail,
        final(queue).used == old(queue).used,
{
    if completed {
        let _ = queue.pop_used();
    }
    let ghost fl = queue.free_list@;
    queue.free_desc(chain.header);
    assert(!queue.free_list@.contains(chain.data)) by {
        if queue.free_list@.contains(chain.data) {
            let j = choose|j: int| 0 <= j < queue.free_list@.len() && queue.free_list@[j] == chain.data;
            if j > 0 {
                assert(fl[j - 1] == chain.data);
            }
        }
    }
    queue.free_desc(chain.data);
    let ghost fl2 = queue.free_list@;
    assert(!queue.free_list@.contains(chain.status)) by {
        if queue.free_list@.contains(chain.status) {
            let j = choose|j: int| 0 <= j < queue.free_list@.len() && queue.free_list@[j] == chain.status;
            if j > 1 {
                assert(fl[j - 2] == chain.status);
            }
        }
    }
    queue.free_desc(chain.status);
    assert(queue.free_list@ =~= seq![chain.status, chain.data, chain.header] + fl);
    if !completed {
        return Err(BlockError::IoError);
    }
    status_result(status)
}

/// Where the initialization of a virtio block device stands: the step
/// just asked for.
#[derive(Clone, Copy, Debug, PartialEq, Eq, Structural)]
pub enum BlkInit {
    /// Nothing asked yet.
    Start,
    /// The device is being reset.
    Resetting,
    /// ACKNOWLEDGE is being set.
    Acknowledging,
    /// DRIVER is being set.
    DriverSet,
    /// The device's features are being read.
    FeaturesAsked,
    /// The features are being accepted, all of them.
    FeaturesGiven,
    /// FEATURES_OK is being set.
    FeaturesOkSet,
    /// The status is being read back.
    StatusAsked,
    /// Queue 0 is being selected.
    QueueSelected,
    /// The size of queue 0 is being read.
    SizeAsked,
    /// The queue is being set up.
    QueueSetUp,
    /// The capacity is being read.
    CapacityAsked,
    /// DRIVER_OK is being set: the device is ready.
    Done,
    /// The device refused; nothing more is asked.
    Failed,
}

/// What the driver asks of the device next.
#[derive(Clone, Copy, Debug, PartialEq, Eq, Structural)]
pub enum BlkInitAction {
    /// Write the device status register.
    WriteStatus(u8),
    /// Read the device features; the value read comes back.
    ReadFeatures,
    /// Write the driver features.
    WriteFeatures(u32),
    /// Read the device status; the value read comes back.
    ReadStatus,
    /// Select queue 0.
    SelectQueue,
    /// Read the size of the selected queue; the value read comes back.
    ReadQueueSize,
    /// Set up a queue of this many descriptors and hand its address to the
    /// device; 1 comes back on success, 0 when no memory could be had.
    SetUpQueue(u16),
    /// Read the capacity.
    ReadCapacity,
    /// Nothing more.
    Stop,
}

/// One step of the legacy initialization: from the step just asked for and
/// `value`, what it gave back (0 when it gives nothing), the next step and
/// what it asks. Reset, ACKNOWLEDGE, DRIVER; features read and all accepted;
/// FEATURES_OK, read back and checked; queue 0 selected, its size read and
/// negotiated, the queue set up; capacity read; DRIVER_OK. A status without
/// FEATURES_OK, a queue size of 0, or a queue that could not be set up ends
/// in `Failed`.
pub open spec fn blk_init_step(state: BlkInit, value: u32) -> (BlkInit, BlkInitAction) {
    match state {
        BlkInit::Start => (BlkInit::Resetting, BlkInitAction::WriteStatus(STATUS_RESET)),
        BlkInit::Resetting => (BlkInit::Acknowledging, BlkInitAction::WriteStatus(STATUS_ACKNOWLEDGE)),
        BlkInit::Acknowledging => (BlkInit::DriverSet, BlkInitAction::WriteStatus(STATUS_ACKNOWLEDGE | STATUS_DRIVER)),
        BlkInit::DriverSet => (BlkInit::FeaturesAsked, BlkInitAction::ReadFeatures),
        BlkInit::FeaturesAsked => (BlkInit::FeaturesGiven, BlkInitAction::WriteFeatures(value)),
        BlkInit::FeaturesGiven => (BlkInit::FeaturesOkSet,
            BlkInitAction::WriteStatus(STATUS_ACKNOWLEDGE | STATUS_DRIVER | STATUS_FEATURES_OK)),
        BlkInit::FeaturesOkSet => (BlkInit::StatusAsked, BlkInitAction::ReadStatus),
        BlkInit::StatusAsked => if (value as u8) & STATUS_FEATURES_OK != 0 {
            (BlkInit::QueueSelected, BlkInitAction::SelectQueue)
        } else {
            (BlkInit::Failed, BlkInitAction::Stop)
        },
        BlkInit::QueueSelected => (BlkInit::SizeAsked, BlkInitAction::ReadQueueSize),
        BlkInit::SizeAsked => if value as u16 == 0 {
            (BlkInit::Failed, BlkInitAction::Stop)
        } else {
            (BlkInit::QueueSetUp, BlkInitAction::SetUpQueue(
                if (value as u16) < QUEUE_SIZE { value as u16 } else { QUEUE_SIZE }))
        },
        BlkInit::QueueSetUp => if value != 0 {
            (BlkInit::CapacityAsked, BlkInitAction::ReadCapacity)
        } else {
            (BlkInit::Failed, BlkInitAction::Stop)
        },
        BlkInit::CapacityAsked => (BlkInit::Done,
            BlkInitAction::WriteStatus(STATUS_ACKNOWLEDGE | STATUS_DRIVER | STATUS_FEATURES_OK | STATUS_DRIVER_OK)),
        BlkInit::Done => (BlkInit::Done, BlkInitAction::Stop),
        BlkInit::Failed => (BlkInit::Failed, BlkInitAction::Stop),
    }
}

/// Takes one step of the initialization (see `blk_init_step`).
pub fn blk_init_next(state: BlkInit, value: u32) -> (r: (BlkInit, BlkInitAction))
    ensures
        r == blk_init_step(state, value),
{
    match state {
        BlkInit::Start => (BlkInit::Resetting, BlkInitAction::WriteStatus(STATUS_RESET)),
        BlkInit::Resetting => (BlkInit::Acknowledging, BlkInitAction::WriteStatus(STATUS_ACKNOWLEDGE)),
        BlkInit::Acknowledging => (BlkInit::DriverSet, BlkInitAction::WriteStatus(STATUS_ACKNOWLEDGE | STATUS_DRIVER)),
        BlkInit::DriverSet => (BlkInit::FeaturesAsked, BlkInitAction::ReadFeatures),
        BlkInit::FeaturesAsked => (BlkInit::FeaturesGiven, BlkInitAction::WriteFeatures(value)),
        BlkInit::FeaturesGiven => (BlkInit::FeaturesOkSet,
            BlkInitAction::WriteStatus(STATUS_ACKNOWLEDGE | STATUS_DRIVER | STATUS_FEATURES_OK)),
        BlkInit::FeaturesOkSet => (BlkInit::StatusAsked, BlkInitAction::ReadStatus),
        BlkInit::StatusAsked => if features_accepted(value as u8) {
            (BlkInit::QueueSelected, BlkInitAction::SelectQueue)
        } else {
            (BlkInit::Failed, BlkInitAction::Stop)
        },
        BlkInit::QueueSelected => (BlkInit::SizeAsked, BlkInitAction::ReadQueueSize),
        BlkInit::SizeAsked => match negotiated_queue_size(value as u16) {
            Some(n) => (BlkInit::QueueSetUp, BlkInitAction::SetUpQueue(n)),
            None => (BlkInit::Failed, BlkInitAction::Stop),
        },
        BlkInit::QueueSetUp => if value != 0 {
            (BlkInit::CapacityAsked, BlkInitAction::ReadCapacity)
        } else {
            (BlkInit::Failed, BlkInitAction::Stop)
        },
        BlkInit::CapacityAsked => (BlkInit::Done,
            BlkInitAction::WriteStatus(STATUS_ACKNOWLEDGE | STATUS_DRIVER | STATUS_FEATURES_OK | STATUS_DRIVER_OK)),
        BlkInit::Done => (BlkInit::Done, BlkInitAction::Stop),
        BlkInit::Failed => (BlkInit::Failed, BlkInitAction::Stop),
    }
}

/// Steps left, at most, before the initialization is over.
pub open spec fn blk_init_left(state: BlkInit) -> nat {
    match state {
        BlkInit::Start => 13,
        BlkInit::Resetting => 12,
        BlkInit::Acknowledging => 11,
        BlkInit::DriverSet => 10,
        BlkInit::FeaturesAsked => 9,
        BlkInit::FeaturesGiven => 8,
        BlkInit::FeaturesOkSet => 7,
        BlkInit::StatusAsked => 6,
        BlkInit::QueueSelected => 5,
        BlkInit::SizeAsked => 4,
        BlkInit::QueueSetUp => 3,
        BlkInit::CapacityAsked => 2,
        BlkInit::Done => 0,
        BlkInit::Failed => 0,
    }
}

/// The initialization ends: each step before `Done` or `Failed` brings it
/// closer, and DRIVER_OK is only ever asked after the features were
/// accepted and the queue was set up, as the step from reading the
/// capacity.
pub proof fn lemma_blk_init_ends(state: BlkInit, value: u32)
    requires
        state != BlkInit::Done,
        state != BlkInit::Failed,
    ensures
        blk_init_left(blk_init_step(state, value).0) < blk_init_left(state),
        blk_init_step(state, value).1 matches BlkInitAction::WriteStatus(st) && st & STATUS_DRIVER_OK != 0
            ==> state == BlkInit::CapacityAsked,
{
    assert(STATUS_RESET & STATUS_DRIVER_OK == 0 && STATUS_ACKNOWLEDGE & STATUS_DRIVER_OK == 0
        && (STATUS_ACKNOWLEDGE | STATUS_DRIVER) & STATUS_DRIVER_OK == 0
        && (STATUS_ACKNOWLEDGE | STATUS_DRIVER | STATUS_FEATURES_OK) & STATUS_DRIVER_OK == 0) by (bit_vector);
}

/// Reads of the used ring spent waiting for a request before it is given up.
pub const COMPLETION_POLLS: u32 = 1_000_000;

/// Whether to read the used ring again after `polls` reads: while the
/// device has published nothing new and fewer than `COMPLETION_POLLS` reads
/// were made.
pub fn poll_again(queue: &Virtqueue, polls: u32) -> (r: bool)
    ensures
        r == (queue.used.idx == queue.last_used_idx && polls < COMPLETION_POLLS),
{
    !queue.has_used() && polls < COMPLETION_POLLS
}

} // verus!
