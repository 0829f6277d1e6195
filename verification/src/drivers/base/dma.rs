//! DMA pool: page-granular buffers with a CPU address in the pool's
//! window and the physical address of the frames behind them.
use vstd::prelude::*;
use vstd::multiset::Multiset;
use crate::bits::{page_align_usize, page_align_spec};
use crate::drivers::base::device::DeviceId;

verus! {

/// First virtual address of the DMA pool.
pub const DMA_POOL_START: u64 = 0xFFFF_D000_0000_0000;

/// Last virtual address of the DMA pool.
pub const DMA_POOL_END: u64 = 0xFFFF_D0FF_FFFF_FFFF;

/// Smallest DMA buffer (one page).
pub const MIN_DMA_SIZE: usize = 4096;

/// Largest DMA buffer (256 MiB).
pub const MAX_DMA_SIZE: usize = 0x1000_0000;

/// Alignment of DMA buffers (one page).
pub const DMA_ALIGNMENT: usize = 4096;

/// Page size.
pub const PAGE_SIZE: usize = 4096;

/// Direction of a DMA transfer.
#[derive(Debug, Clone, Copy, PartialEq, Eq, Structural)]
pub enum DmaDirection {
    ToDevice,
    FromDevice,
    Bidirectional,
}

/// A DMA buffer: CPU address, device (physical) address, size and owner.
#[derive(Debug, Clone, Copy)]
pub struct DmaBuffer {
    pub virt: u64,
    pub phys: u64,
    pub size: usize,
    pub owner: DeviceId,
    pub in_use: bool,
    pub direction: DmaDirection,
}

/// Figures of the pool.
#[derive(Debug, Clone, Copy)]
pub struct DmaStats {
    pub total_allocated: usize,
    pub buffer_count: usize,
    pub pool_start: u64,
    pub pool_end: u64,
}

/// Source of physical page frames. Its model is the multiset of frames it
/// holds free: a frame handed out leaves it, a frame given back joins it.
pub trait FrameAllocator {
    /// The frames the source holds free.
    spec fn free_frames(&self) -> Multiset<u64>;

    /// A free frame, or `None` when memory is exhausted.
    fn allocate_frame(&mut self) -> (r: Option<u64>)
        ensures
            match r {
                Some(f) => old(self).free_frames().count(f) > 0
                    && final(self).free_frames() == old(self).free_frames().remove(f),
                None => final(self).free_frames() == old(self).free_frames(),
            };

    /// Gives a frame back.
    fn deallocate_frame(&mut self, frame: u64)
        ensures
            final(self).free_frames() == old(self).free_frames().insert(frame);
}

/// A frame source with no memory: it never hands out a frame. The frames it
/// is given back it keeps, and never hands out either.
pub struct FakeFrameAllocator {
    pub kept: Ghost<Multiset<u64>>,
}

impl FakeFrameAllocator {
    /// The source, holding nothing.
    pub fn new() -> (a: FakeFrameAllocator)
        ensures
            a.free_frames() == Multiset::<u64>::empty(),
    {
        FakeFrameAllocator { kept: Ghost(Multiset::empty()) }
    }
}

impl FrameAllocator for FakeFrameAllocator {
    open spec fn free_frames(&self) -> Multiset<u64> {
        self.kept@
    }

    fn allocate_frame(&mut self) -> (r: Option<u64>)
        ensures
            r is None,
    {
        None
    }

    fn deallocate_frame(&mut self, frame: u64) {
        proof {
            self.kept@ = self.kept@.insert(frame);
        }
    }
}

/// A frame source over a list of free frames: it hands out the first of
/// the list and puts the frames given back at its end.
pub struct FrameList {
    pub frames: Vec<u64>,
}

impl FrameList {
    /// The source holding `frames`, in that order.
    pub fn new(frames: Vec<u64>) -> (a: FrameList)
        ensures
            a.frames@ == frames@,
    {
        FrameList { frames }
    }
}

impl FrameAllocator for FrameList {
    open spec fn free_frames(&self) -> Multiset<u64> {
        self.frames@.to_multiset()
    }

    fn allocate_frame(&mut self) -> (r: Option<u64>)
        ensures
            r == (if old(self).frames@.len() > 0 { Some(old(self).frames@[0]) } else { None }),
            final(self).frames@ == (if old(self).frames@.len() > 0 { old(self).frames@.drop_first() } else { old(self).frames@ }),
    {
        broadcast use vstd::seq_lib::group_to_multiset_ensures;
        if self.frames.len() == 0 {
            return None;
        }
        let f = self.frames.remove(0);
        assert(old(self).frames@.remove(0) =~= old(self).frames@.drop_first());
        assert(old(self).frames@.contains(f));
        Some(f)
    }

    fn deallocate_frame(&mut self, frame: u64)
        ensures
            final(self).frames@ == old(self).frames@.push(frame),
    {
        broadcast use vstd::seq_lib::group_to_multiset_ensures;
        self.frames.push(frame);
    }
}

/// The frames of a run of `n` pages from `phys`.
pub open spec fn frame_run(phys: u64, n: nat) -> Multiset<u64>
    decreases n,
{
    if n == 0 {
        Multiset::empty()
    } else {
        frame_run(phys, (n - 1) as nat).insert((phys + PAGE_SIZE * (n - 1)) as u64)
    }
}

/// The frames behind a buffer.
pub open spec fn buffer_frames(b: DmaBuffer) -> Multiset<u64> {
    frame_run(b.phys, (b.size / PAGE_SIZE) as nat)
}

/// The pool's buffers and its bump pointer.
pub struct DmaPoolManager {
    pub buffers: Vec<DmaBuffer>,
    pub next_virt: u64,
    pub total_allocated: usize,
    pub initialized: bool,
}

/// Pool invariant: every buffer lies in the pool below the bump pointer,
/// buffers follow each other without overlap, and their frames fit in 64 bits.
pub open spec fn pool_wf(p: DmaPoolManager) -> bool {
    &&& DMA_POOL_START <= p.next_virt <= DMA_POOL_END
    &&& p.next_virt % PAGE_SIZE as u64 == 0
    &&& forall|k: int| 0 <= k < p.buffers@.len() ==> {
        &&& DMA_POOL_START <= (#[trigger] p.buffers@[k]).virt
        &&& p.buffers@[k].virt % PAGE_SIZE as u64 == 0
        &&& p.buffers@[k].virt + p.buffers@[k].size <= p.next_virt
        &&& p.buffers@[k].size % PAGE_SIZE == 0
        &&& p.buffers@[k].phys + p.buffers@[k].size <= u64::MAX
    }
    &&& forall|i: int, j: int| 0 <= i < j < p.buffers@.len() ==>
        (#[trigger] p.buffers@[i]).virt + p.buffers@[i].size <= (#[trigger] p.buffers@[j]).virt
}

/// Total size of the buffers in use.
pub open spec fn in_use_size(s: Seq<DmaBuffer>) -> nat
    decreases s.len(),
{
    if s.len() == 0 {
        0
    } else {
        in_use_size(s.drop_last()) + if s.last().in_use { s.last().size as nat } else { 0nat }
    }
}

/// The pool's total is the size of its buffers in use.
pub open spec fn total_matches(p: DmaPoolManager) -> bool {
    p.total_allocated == in_use_size(p.buffers@)
}

proof fn lemma_in_use_size_push(s: Seq<DmaBuffer>, b: DmaBuffer)
    ensures
        in_use_size(s.push(b)) == in_use_size(s) + if b.in_use { b.size as nat } else { 0nat },
{
    assert(s.push(b).drop_last() =~= s);
}

proof fn lemma_in_use_size_release(s: Seq<DmaBuffer>, i: int)
    requires
        0 <= i < s.len(),
    ensures
        in_use_size(s.update(i, DmaBuffer { in_use: false, ..s[i] }))
            == in_use_size(s) - if s[i].in_use { s[i].size as int } else { 0int },
    decreases s.len(),
{
    let t = s.update(i, DmaBuffer { in_use: false, ..s[i] });
    if i == s.len() - 1 {
        assert(t.drop_last() =~= s.drop_last());
    } else {
        lemma_in_use_size_release(s.drop_last(), i);
        assert(t.drop_last() =~= s.drop_last().update(i, DmaBuffer { in_use: false, ..s[i] }));
    }
}

/// `t` is `s` with every buffer of `owner` in use marked free.
pub open spec fn owner_released(s: Seq<DmaBuffer>, t: Seq<DmaBuffer>, owner: DeviceId) -> bool {
    &&& t.len() == s.len()
    &&& forall|k: int| 0 <= k < s.len() ==> #[trigger] t[k] == (if s[k].owner == owner && s[k].in_use {
            DmaBuffer { in_use: false, ..s[k] }
        } else {
            s[k]
        })
}

proof fn lemma_in_use_size_owner(s: Seq<DmaBuffer>, t: Seq<DmaBuffer>, owner: DeviceId)
    requires
        owner_released(s, t, owner),
    ensures
        in_use_size(t) + owner_buffer_size(s, owner) == in_use_size(s),
    decreases s.len(),
{
    if s.len() > 0 {
        assert(owner_released(s.drop_last(), t.drop_last(), owner)) by {
            assert forall|k: int| 0 <= k < s.drop_last().len() implies #[trigger] t.drop_last()[k] == (if s.drop_last()[k].owner == owner && s.drop_last()[k].in_use {
                DmaBuffer { in_use: false, ..s.drop_last()[k] }
            } else {
                s.drop_last()[k]
            }) by {
                assert(t.drop_last()[k] == t[k] && s.drop_last()[k] == s[k]);
            }
        }
        lemma_in_use_size_owner(s.drop_last(), t.drop_last(), owner);
        assert(t.last() == t[t.len() - 1]);
    }
}

/// Number of buffers in use.
pub open spec fn buffers_in_use(s: Seq<DmaBuffer>) -> nat
    decreases s.len(),
{
    if s.len() == 0 {
        0
    } else {
        buffers_in_use(s.drop_last()) + if s.last().in_use { 1nat } else { 0nat }
    }
}

/// Total size of the buffers of `owner` in use.
pub open spec fn owner_buffer_size(s: Seq<DmaBuffer>, owner: DeviceId) -> nat
    decreases s.len(),
{
    if s.len() == 0 {
        0
    } else {
        owner_buffer_size(s.drop_last(), owner) + if s.last().in_use && s.last().owner == owner {
            s.last().size as nat
        } else {
            0nat
        }
    }
}

/// Index of the first buffer at `virt` owned by `owner`, or the length.
pub open spec fn buffer_index(s: Seq<DmaBuffer>, virt: u64, owner: DeviceId) -> int
    decreases s.len(),
{
    if s.len() == 0 {
        0
    } else if s[0].virt == virt && s[0].owner == owner {
        0
    } else {
        1 + buffer_index(s.drop_first(), virt, owner)
    }
}

/// Index of the first buffer in use that contains `virt`, or the length.
pub open spec fn containing_index(s: Seq<DmaBuffer>, virt: u64) -> int
    decreases s.len(),
{
    if s.len() == 0 {
        0
    } else if s[0].in_use && s[0].virt <= virt < s[0].virt + s[0].size {
        0
    } else {
        1 + containing_index(s.drop_first(), virt)
    }
}

proof fn lemma_buffer_index(s: Seq<DmaBuffer>, virt: u64, owner: DeviceId, i: int)
    requires
        0 <= i <= s.len(),
        forall|k: int| 0 <= k < i ==> !(#[trigger] s[k].virt == virt && s[k].owner == owner),
        i == s.len() || (s[i].virt == virt && s[i].owner == owner),
    ensures
        buffer_index(s, virt, owner) == i,
    decreases s.len(),
{
    if s.len() > 0 && i > 0 {
        assert forall|k: int| 0 <= k < i - 1 implies !(#[trigger] s.drop_first()[k].virt == virt && s.drop_first()[k].owner == owner) by {
            assert(s.drop_first()[k] == s[k + 1]);
        }
        lemma_buffer_index(s.drop_first(), virt, owner, i - 1);
    }
}

proof fn lemma_containing_index(s: Seq<DmaBuffer>, virt: u64, i: int)
    requires
        0 <= i <= s.len(),
        forall|k: int| 0 <= k < i ==> !(#[trigger] s[k].in_use && s[k].virt <= virt < s[k].virt + s[k].size),
        i == s.len() || (s[i].in_use && s[i].virt <= virt < s[i].virt + s[i].size),
    ensures
        containing_index(s, virt) == i,
    decreases s.len(),
{
    if s.len() > 0 && i > 0 {
        assert forall|k: int| 0 <= k < i - 1 implies !(#[trigger] s.drop_first()[k].in_use && s.drop_first()[k].virt <= virt < s.drop_first()[k].virt + s.drop_first()[k].size) by {
            assert(s.drop_first()[k] == s[k + 1]);
        }
        lemma_containing_index(s.drop_first(), virt, i - 1);
    }
}

impl DmaPoolManager {
    /// The pool before initialization.
    pub fn new() -> (p: DmaPoolManager)
        ensures
            p.buffers@.len() == 0,
            p.next_virt == DMA_POOL_START,
            p.total_allocated == 0,
            !p.initialized,
            total_matches(p),
            pool_wf(p),
    {
        assert(0xFFFF_D000_0000_0000u64 % 4096 == 0) by (nonlinear_arith);
        DmaPoolManager { buffers: Vec::new(), next_virt: DMA_POOL_START, total_allocated: 0, initialized: false }
    }
}

/// Initializes the pool once; a second call changes nothing.
pub fn init(pool: &mut DmaPoolManager)
    ensures
        old(pool).initialized ==> *final(pool) == *old(pool),
        !old(pool).initialized ==> final(pool).initialized && final(pool).next_virt == DMA_POOL_START
            && final(pool).buffers@ == old(pool).buffers@ && final(pool).total_allocated == old(pool).total_allocated,
{
    if pool.initialized {
        return;
    }
    pool.initialized = true;
    pool.next_virt = DMA_POOL_START;
}

/// Allocates a DMA buffer of `size` bytes, rounded up to whole pages, backed
/// by frames from `pmm`. `None` for an empty or oversized request, when the
/// pool's window has no room, when `pmm` runs out of frames, or when the
/// frames it hands out are not contiguous (the frames taken are then given
/// back). The buffer is the one `buffer_over_frames` records over the frames
/// taken: its device address is that of the first. Which frames `pmm` hands
/// out is its own.
pub fn dma_alloc<F: FrameAllocator>(pool: &mut DmaPoolManager, pmm: &mut F, size: usize, owner: DeviceId, direction: DmaDirection) -> (r: Option<DmaBuffer>)
    requires
        pool_wf(*old(pool)),
        0 < size <= MAX_DMA_SIZE ==> old(pool).total_allocated + page_align_spec(size as int) <= usize::MAX,
    ensures
        pool_wf(*final(pool)),
        total_matches(*old(pool)) ==> total_matches(*final(pool)),
        final(pool).initialized == old(pool).initialized,
        ({
            let aligned = ((size + 4095) / 4096) * 4096;
            &&& (size == 0 || size > MAX_DMA_SIZE || old(pool).next_virt + aligned > DMA_POOL_END) ==> r.is_none()
            &&& r.is_none() ==> final(pool).buffers@ == old(pool).buffers@ && final(pool).next_virt == old(pool).next_virt
                && final(pool).total_allocated == old(pool).total_allocated
                && final(pmm).free_frames() == old(pmm).free_frames()
            &&& match r {
                Some(b) => {
                    &&& r == placed_buffer(*old(pool), b.phys, size, owner, direction)
                    &&& old(pmm).free_frames() == final(pmm).free_frames().add(buffer_frames(b))
                    &&& 0 < size <= MAX_DMA_SIZE
                    &&& b.virt == old(pool).next_virt
                    &&& b.virt % 4096 == 0
                    &&& b.size == aligned
                    &&& b.owner == owner
                    &&& b.in_use
                    &&& b.direction == direction
                    &&& final(pool).buffers@ == old(pool).buffers@.push(b)
                    &&& final(pool).next_virt == old(pool).next_virt + aligned
                    &&& final(pool).total_allocated == old(pool).total_allocated + aligned
                },
                None => true,
            }
        }),
{
    if size == 0 || size > MAX_DMA_SIZE {
        return None;
    }
    let aligned_size = page_align_usize(size);
    let num_pages = aligned_size / PAGE_SIZE;
    if pool.next_virt + aligned_size as u64 > DMA_POOL_END {
        return None;
    }
    let mut frames: Vec<u64> = Vec::new();
    let mut n: usize = 0;
    proof {
        lemma_empty_multiset(frames@);
        assert(pmm.free_frames().add(frames@.to_multiset()) =~= old(pmm).free_frames());
    }
    while n < num_pages
        invariant
            0 <= n <= num_pages,
            frames@.len() == n,
            pool.buffers@ == old(pool).buffers@,
            pool.next_virt == old(pool).next_virt,
            pool.total_allocated == old(pool).total_allocated,
            pool.initialized == old(pool).initialized,
            pool_wf(*old(pool)),
            old(pmm).free_frames() == pmm.free_frames().add(frames@.to_multiset()),
        decreases num_pages - n,
    {
        let ghost before = pmm.free_frames();
        match pmm.allocate_frame() {
            Some(frame) => {
                proof {
                    vstd::seq_lib::to_multiset_build(frames@, frame);
                }
                let ghost fs = frames@;
                frames.push(frame);
                assert(old(pmm).free_frames() =~= pmm.free_frames().add(fs.to_multiset().insert(frame)));
            },
            None => {
                give_back(pmm, &frames);
                return None;
            },
        }
        n = n + 1;
    }
    let r = buffer_over_frames(pool, &frames, size, owner, direction);
    if r.is_none() {
        give_back(pmm, &frames);
    } else {
        proof {
            assert(frames@.len() == num_pages);
            assert(num_pages == aligned_size / PAGE_SIZE);
            lemma_contiguous_run(frames@, frames@.len() as int);
            assert(frames@.take(frames@.len() as int) =~= frames@);
        }
    }
    r
}

/// The frames run one page after another from the first.
pub open spec fn frames_contiguous(frames: Seq<u64>) -> bool {
    &&& frames.len() > 0
    &&& forall|k: int| 0 <= k < frames.len() ==> #[trigger] frames[k] == frames[0] + PAGE_SIZE * k
}

/// The buffer of `size` bytes that the pool places over `frames`: the one
/// `placed_buffer` describes at the first frame, when there is one frame
/// per page of the buffer and they are contiguous; `None` otherwise.
pub open spec fn buffer_over(pool: DmaPoolManager, frames: Seq<u64>, size: usize, owner: DeviceId, direction: DmaDirection) -> Option<DmaBuffer> {
    if frames.len() == page_align_spec(size as int) / PAGE_SIZE as int && frames_contiguous(frames) {
        placed_buffer(pool, frames[0], size, owner, direction)
    } else {
        None
    }
}

fn frames_are_contiguous(frames: &Vec<u64>) -> (r: bool)
    ensures
        r == frames_contiguous(frames@),
{
    if frames.len() == 0 {
        return false;
    }
    let first = frames[0];
    let mut k: usize = 1;
    while k < frames.len()
        invariant
            1 <= k <= frames@.len(),
            first == frames@[0],
            forall|j: int| 0 <= j < k ==> #[trigger] frames@[j] == frames@[0] + PAGE_SIZE * j,
        decreases frames@.len() - k,
    {
        let kk = k as u64;
        match kk.checked_mul(4096) {
            None => {
                assert(frames@[k as int] != frames@[0] + PAGE_SIZE * k);
                return false;
            },
            Some(step) => {
                match first.checked_add(step) {
                    None => {
                        assert(frames@[k as int] != frames@[0] + PAGE_SIZE * k);
                        return false;
                    },
                    Some(expected) => {
                        if frames[k] != expected {
                            return false;
                        }
                    },
                }
            },
        }
        k = k + 1;
    }
    true
}

/// Records the buffer that `buffer_over` describes over `frames` (see
/// `place_buffer`); nothing changes when there is none.
pub fn buffer_over_frames(pool: &mut DmaPoolManager, frames: &Vec<u64>, size: usize, owner: DeviceId, direction: DmaDirection) -> (r: Option<DmaBuffer>)
    requires
        pool_wf(*old(pool)),
        0 < size <= MAX_DMA_SIZE ==> old(pool).total_allocated + page_align_spec(size as int) <= usize::MAX,
    ensures
        pool_wf(*final(pool)),
        total_matches(*old(pool)) ==> total_matches(*final(pool)),
        r == buffer_over(*old(pool), frames@, size, owner, direction),
        final(pool).initialized == old(pool).initialized,
        r is None ==> *final(pool) == *old(pool),
        r matches Some(b) ==> {
            &&& final(pool).buffers@ == old(pool).buffers@.push(b)
            &&& final(pool).next_virt == old(pool).next_virt + b.size
            &&& final(pool).total_allocated == old(pool).total_allocated + b.size
        },
{
    if size == 0 || size > MAX_DMA_SIZE {
        return None;
    }
    let pages = page_align_usize(size) / PAGE_SIZE;
    if frames.len() != pages || !frames_are_contiguous(frames) {
        return None;
    }
    place_buffer(pool, frames[0], size, owner, direction)
}

/// The buffer of `size` bytes (rounded up to whole pages) that the pool
/// places at its next free address, over the frames starting at
/// `first_phys`. `None` for an empty or oversized request, when the
/// pool's window has no room, or when the frames would run past the end of
/// the address space.
pub open spec fn placed_buffer(pool: DmaPoolManager, first_phys: u64, size: usize, owner: DeviceId, direction: DmaDirection) -> Option<DmaBuffer> {
    let aligned = page_align_spec(size as int);
    if size == 0 || size > MAX_DMA_SIZE || pool.next_virt + aligned > DMA_POOL_END || first_phys + aligned > u64::MAX {
        None
    } else {
        Some(DmaBuffer { virt: pool.next_virt, phys: first_phys, size: aligned as usize, owner, in_use: true, direction })
    }
}

/// Records the buffer that `placed_buffer` describes: it goes last in the
/// pool, the next free address moves past it and its size is counted.
/// Nothing changes when there is no such buffer.
pub fn place_buffer(pool: &mut DmaPoolManager, first_phys: u64, size: usize, owner: DeviceId, direction: DmaDirection) -> (r: Option<DmaBuffer>)
    requires
        pool_wf(*old(pool)),
        0 < size <= MAX_DMA_SIZE ==> old(pool).total_allocated + page_align_spec(size as int) <= usize::MAX,
    ensures
        pool_wf(*final(pool)),
        total_matches(*old(pool)) ==> total_matches(*final(pool)),
        r == placed_buffer(*old(pool), first_phys, size, owner, direction),
        final(pool).initialized == old(pool).initialized,
        r is None ==> *final(pool) == *old(pool),
        r matches Some(b) ==> {
            &&& final(pool).buffers@ == old(pool).buffers@.push(b)
            &&& final(pool).next_virt == old(pool).next_virt + b.size
            &&& final(pool).total_allocated == old(pool).total_allocated + b.size
        },
{
    if size == 0 || size > MAX_DMA_SIZE {
        return None;
    }
    let aligned_size = page_align_usize(size);
    if pool.next_virt + aligned_size as u64 > DMA_POOL_END {
        return None;
    }
    if first_phys > u64::MAX - aligned_size as u64 {
        return None;
    }
    let virt_start = pool.next_virt;
    assert((virt_start + aligned_size) % 4096 == 0) by (nonlinear_arith)
        requires
            virt_start % 4096 == 0,
            aligned_size % 4096 == 0,
    ;
    let buffer = DmaBuffer { virt: virt_start, phys: first_phys, size: aligned_size, owner, in_use: true, direction };
    proof {
        lemma_in_use_size_push(pool.buffers@, buffer);
    }
    pool.buffers.push(buffer);
    pool.next_virt = pool.next_virt + aligned_size as u64;
    pool.total_allocated = pool.total_allocated + aligned_size;
    Some(buffer)
}

fn release_frames<F: FrameAllocator>(pmm: &mut F, buf: DmaBuffer)
    requires
        buf.phys + buf.size <= u64::MAX,
    ensures
        final(pmm).free_frames() == old(pmm).free_frames().add(buffer_frames(buf)),
{
    let num_pages = buf.size / PAGE_SIZE;
    let mut i: usize = 0;
    assert(old(pmm).free_frames().add(frame_run(buf.phys, 0)) =~= old(pmm).free_frames());
    while i < num_pages
        invariant
            0 <= i <= num_pages,
            num_pages == buf.size / PAGE_SIZE,
            buf.phys + buf.size <= u64::MAX,
            pmm.free_frames() == old(pmm).free_frames().add(frame_run(buf.phys, i as nat)),
        decreases num_pages - i,
    {
        assert(i * PAGE_SIZE <= buf.size) by (nonlinear_arith)
            requires
                i < num_pages,
                num_pages == buf.size / PAGE_SIZE,
        ;
        let frame = buf.phys + (i * PAGE_SIZE) as u64;
        let ghost before = pmm.free_frames();
        pmm.deallocate_frame(frame);
        assert(frame_run(buf.phys, (i + 1) as nat) == frame_run(buf.phys, i as nat).insert(frame));
        assert(before.insert(frame) =~= old(pmm).free_frames().add(frame_run(buf.phys, (i + 1) as nat)));
        i = i + 1;
    }
}

/// Gives every frame of `frames` back to `pmm`, in order.
fn give_back<F: FrameAllocator>(pmm: &mut F, frames: &Vec<u64>)
    ensures
        final(pmm).free_frames() == old(pmm).free_frames().add(frames@.to_multiset()),
{
    broadcast use vstd::seq_lib::group_to_multiset_ensures;
    let mut k: usize = 0;
    assert(frames@.take(0) =~= Seq::<u64>::empty());
    proof { lemma_empty_multiset(frames@.take(0)); }
    assert(old(pmm).free_frames().add(frames@.take(0).to_multiset()) =~= old(pmm).free_frames());
    while k < frames.len()
        invariant
            0 <= k <= frames@.len(),
            pmm.free_frames() == old(pmm).free_frames().add(frames@.take(k as int).to_multiset()),
        decreases frames@.len() - k,
    {
        let ghost before = pmm.free_frames();
        pmm.deallocate_frame(frames[k]);
        assert(frames@.take(k + 1) =~= frames@.take(k as int).push(frames@[k as int]));
        proof {
            vstd::seq_lib::to_multiset_build(frames@.take(k as int), frames@[k as int]);
        }
        assert(frames@.take(k + 1).to_multiset() =~= frames@.take(k as int).to_multiset().insert(frames@[k as int]));
        assert(before.insert(frames@[k as int]) =~= old(pmm).free_frames().add(frames@.take(k + 1).to_multiset()));
        k = k + 1;
    }
    assert(frames@.take(frames@.len() as int) =~= frames@);
}

proof fn lemma_empty_multiset(s: Seq<u64>)
    requires
        s.len() == 0,
    ensures
        s.to_multiset() =~= Multiset::<u64>::empty(),
{
    broadcast use vstd::seq_lib::group_to_multiset_ensures;
    assert forall|x: u64| s.to_multiset().count(x) == 0 by {
        assert(!s.contains(x));
    }
}

/// Contiguous frames are the run of pages from the first.
proof fn lemma_contiguous_run(s: Seq<u64>, n: int)
    requires
        frames_contiguous(s),
        0 <= n <= s.len(),
    ensures
        s.take(n).to_multiset() =~= frame_run(s[0], n as nat),
    decreases n,
{
    broadcast use vstd::seq_lib::group_to_multiset_ensures;
    if n == 0 {
        lemma_empty_multiset(s.take(0));
    } else {
        lemma_contiguous_run(s, n - 1);
        assert(s.take(n) =~= s.take(n - 1).push(s[n - 1]));
        assert(s[n - 1] == s[0] + PAGE_SIZE * (n - 1));
    }
}

/// Takes back the buffer placed last, when it is `buffer` (same address and
/// owner) and still in use: it leaves the pool, the next free address goes
/// back to its start, its size leaves the total and its frames go back to
/// `pmm`. Anything else changes nothing and gives `false`.
pub fn withdraw_last<F: FrameAllocator>(pool: &mut DmaPoolManager, pmm: &mut F, buffer: &DmaBuffer) -> (done: bool)
    requires
        pool_wf(*old(pool)),
    ensures
        pool_wf(*final(pool)),
        total_matches(*old(pool)) ==> total_matches(*final(pool)),
        final(pool).initialized == old(pool).initialized,
        ({
            let s = old(pool).buffers@;
            done == (s.len() > 0 && s.last().virt == buffer.virt && s.last().owner == buffer.owner && s.last().in_use)
        }),
        done ==> {
            let b = old(pool).buffers@.last();
            &&& final(pool).buffers@ == old(pool).buffers@.drop_last()
            &&& final(pool).next_virt == b.virt
            &&& final(pool).total_allocated == (if old(pool).total_allocated >= b.size {
                old(pool).total_allocated - b.size
            } else {
                0
            })
            &&& final(pmm).free_frames() == old(pmm).free_frames().add(buffer_frames(b))
        },
        !done ==> *final(pool) == *old(pool) && final(pmm).free_frames() == old(pmm).free_frames(),
{
    let n = pool.buffers.len();
    if n == 0 {
        return false;
    }
    let b = pool.buffers[n - 1];
    if !(b.virt == buffer.virt && b.owner == buffer.owner && b.in_use) {
        return false;
    }
    let ghost s = pool.buffers@;
    proof {
        lemma_in_use_size_push(s.drop_last(), b);
        assert(s.drop_last().push(b) =~= s);
    }
    release_frames(pmm, b);
    pool.buffers.pop();
    pool.next_virt = b.virt;
    pool.total_allocated = pool.total_allocated.saturating_sub(b.size);
    assert(pool.buffers@ =~= s.drop_last());
    assert forall|k: int| 0 <= k < pool.buffers@.len() implies
        (#[trigger] pool.buffers@[k]).virt + pool.buffers@[k].size <= pool.next_virt by {
        assert(pool.buffers@[k] == s[k]);
        assert(s[k].virt + s[k].size <= s[n - 1].virt);
    }
    true
}

/// Frees a buffer: the first pool entry at the same address with the same
/// owner gives its frames back to `pmm` and is marked free; `buffer.size`
/// leaves the total. An unknown buffer changes nothing.
pub fn free<F: FrameAllocator>(pool: &mut DmaPoolManager, pmm: &mut F, buffer: &DmaBuffer)
    requires
        pool_wf(*old(pool)),
    ensures
        pool_wf(*final(pool)),
        ({
            let s = old(pool).buffers@;
            let i = buffer_index(s, buffer.virt, buffer.owner);
            total_matches(*old(pool)) && (i < s.len() ==> s[i].in_use && s[i].size == buffer.size)
                ==> total_matches(*final(pool))
        }),
        final(pool).next_virt == old(pool).next_virt,
        final(pool).initialized == old(pool).initialized,
        ({
            let s = old(pool).buffers@;
            let i = buffer_index(s, buffer.virt, buffer.owner);
            if i < s.len() {
                &&& final(pool).buffers@ == s.update(i, DmaBuffer { in_use: false, ..s[i] })
                &&& final(pmm).free_frames() == old(pmm).free_frames().add(buffer_frames(s[i]))
                &&& final(pool).total_allocated == (if old(pool).total_allocated >= buffer.size {
                    old(pool).total_allocated - buffer.size
                } else {
                    0
                })
            } else {
                &&& final(pool).buffers@ == s
                &&& final(pool).total_allocated == old(pool).total_allocated
                &&& final(pmm).free_frames() == old(pmm).free_frames()
            }
        }),
{
    let mut i: usize = 0;
    while i < pool.buffers.len() && !(pool.buffers[i].virt == buffer.virt && pool.buffers[i].owner == buffer.owner)
        invariant
            0 <= i <= pool.buffers@.len(),
            forall|k: int| 0 <= k < i ==> !(#[trigger] pool.buffers@[k].virt == buffer.virt && pool.buffers@[k].owner == buffer.owner),
        decreases pool.buffers@.len() - i,
    {
        i = i + 1;
    }
    proof {
        lemma_buffer_index(pool.buffers@, buffer.virt, buffer.owner, i as int);
    }
    if i < pool.buffers.len() {
        proof {
            lemma_in_use_size_release(pool.buffers@, i as int);
        }
        let mut b = pool.buffers[i];
        release_frames(pmm, b);
        b.in_use = false;
        pool.buffers.set(i, b);
        pool.total_allocated = pool.total_allocated.saturating_sub(buffer.size);
    }
}

/// Frees every buffer of `owner` still in use; their sizes leave the total.
/// The frames behind the buffers of `owner` in use.
pub open spec fn owner_frames(s: Seq<DmaBuffer>, owner: DeviceId) -> Multiset<u64>
    decreases s.len(),
{
    if s.len() == 0 {
        Multiset::empty()
    } else {
        owner_frames(s.drop_last(), owner).add(if s.last().in_use && s.last().owner == owner {
            buffer_frames(s.last())
        } else {
            Multiset::empty()
        })
    }
}

/// `t` lays its buffers where `s` does: same count, and each at the same
/// addresses with the same size.
pub open spec fn same_layout(s: Seq<DmaBuffer>, t: Seq<DmaBuffer>) -> bool {
    &&& t.len() == s.len()
    &&& forall|k: int| 0 <= k < s.len() ==> #[trigger] t[k].virt == s[k].virt && t[k].size == s[k].size && t[k].phys == s[k].phys
}

proof fn lemma_same_layout_wf(p: DmaPoolManager, q: DmaPoolManager)
    requires
        pool_wf(p),
        same_layout(p.buffers@, q.buffers@),
        q.next_virt == p.next_virt,
    ensures
        pool_wf(q),
{
    assert forall|k: int| 0 <= k < q.buffers@.len() implies {
        &&& DMA_POOL_START <= (#[trigger] q.buffers@[k]).virt
        &&& q.buffers@[k].virt % PAGE_SIZE as u64 == 0
        &&& q.buffers@[k].virt + q.buffers@[k].size <= q.next_virt
        &&& q.buffers@[k].size % PAGE_SIZE == 0
        &&& q.buffers@[k].phys + q.buffers@[k].size <= u64::MAX
    } by {
        assert(q.buffers@[k].virt == p.buffers@[k].virt);
    }
    assert forall|a: int, c: int| 0 <= a < c < q.buffers@.len() implies
        (#[trigger] q.buffers@[a]).virt + q.buffers@[a].size <= (#[trigger] q.buffers@[c]).virt by {
        assert(q.buffers@[a].virt == p.buffers@[a].virt);
        assert(q.buffers@[c].virt == p.buffers@[c].virt);
        assert(p.buffers@[a].virt + p.buffers@[a].size <= p.buffers@[c].virt);
    }
}

/// Frees every buffer of `owner` still in use: their frames go back to
/// `pmm`, once each, and their sizes leave the total.
#[verifier::rlimit(40)]
pub fn free_all_for_device<F: FrameAllocator>(pool: &mut DmaPoolManager, pmm: &mut F, owner: DeviceId)
    requires
        pool_wf(*old(pool)),
        owner_buffer_size(old(pool).buffers@, owner) <= usize::MAX,
    ensures
        pool_wf(*final(pool)),
        final(pool).buffers@.len() == old(pool).buffers@.len(),
        forall|k: int| 0 <= k < old(pool).buffers@.len() ==> #[trigger] final(pool).buffers@[k] == (
            if old(pool).buffers@[k].owner == owner && old(pool).buffers@[k].in_use {
                DmaBuffer { in_use: false, ..old(pool).buffers@[k] }
            } else {
                old(pool).buffers@[k]
            }),
        final(pool).total_allocated == (if old(pool).total_allocated >= owner_buffer_size(old(pool).buffers@, owner) {
            old(pool).total_allocated - owner_buffer_size(old(pool).buffers@, owner)
        } else {
            0
        }),
        final(pmm).free_frames() == old(pmm).free_frames().add(owner_frames(old(pool).buffers@, owner)),
        total_matches(*old(pool)) ==> total_matches(*final(pool)),
        final(pool).next_virt == old(pool).next_virt,
        final(pool).initialized == old(pool).initialized,
{
    let ghost orig = pool.buffers@;
    let mut freed_size: usize = 0;
    let mut i: usize = 0;
    assert(old(pmm).free_frames().add(owner_frames(orig.take(0), owner)) =~= old(pmm).free_frames());
    while i < pool.buffers.len()
        invariant
            0 <= i <= pool.buffers@.len(),
            same_layout(orig, pool.buffers@),
            pool_wf(*old(pool)),
            orig == old(pool).buffers@,
            owner_buffer_size(orig, owner) <= usize::MAX,
            freed_size == owner_buffer_size(orig.take(i as int), owner),
            pmm.free_frames() == old(pmm).free_frames().add(owner_frames(orig.take(i as int), owner)),
            pool.next_virt == old(pool).next_virt,
            pool.initialized == old(pool).initialized,
            pool.total_allocated == old(pool).total_allocated,
            forall|k: int| 0 <= k < i ==> #[trigger] pool.buffers@[k] == (if orig[k].owner == owner && orig[k].in_use {
                DmaBuffer { in_use: false, ..orig[k] }
            } else {
                orig[k]
            }),
            forall|k: int| i <= k < orig.len() ==> #[trigger] pool.buffers@[k] == orig[k],
        decreases orig.len() - i,
    {
        let b = pool.buffers[i];
        let ghost before = pmm.free_frames();
        proof {
            assert(orig.take(i + 1).drop_last() =~= orig.take(i as int));
            lemma_owner_buffer_prefix(orig, owner, i + 1);
            assert(orig[i as int] == b);
        }
        if b.owner == owner && b.in_use {
            release_frames(pmm, b);
            freed_size = freed_size + b.size;
            let mut c = b;
            c.in_use = false;
            pool.buffers.set(i, c);
            assert(before.add(buffer_frames(b)) =~= old(pmm).free_frames().add(owner_frames(orig.take(i + 1), owner)));
        } else {
            assert(before =~= old(pmm).free_frames().add(owner_frames(orig.take(i + 1), owner)));
        }
        i = i + 1;
    }
    assert(orig.take(orig.len() as int) =~= orig);
    pool.total_allocated = pool.total_allocated.saturating_sub(freed_size);
    proof {
        assert(owner_released(orig, pool.buffers@, owner));
        lemma_in_use_size_owner(orig, pool.buffers@, owner);
    }
    proof {
        lemma_same_layout_wf(*old(pool), *pool);
    }
}

proof fn lemma_owner_buffer_prefix(s: Seq<DmaBuffer>, owner: DeviceId, n: int)
    requires
        0 <= n <= s.len(),
    ensures
        owner_buffer_size(s.take(n), owner) <= owner_buffer_size(s, owner),
    decreases s.len() - n,
{
    if n < s.len() {
        lemma_owner_buffer_prefix(s, owner, n + 1);
        assert(s.take(n + 1).drop_last() =~= s.take(n));
    } else {
        assert(s.take(n) =~= s);
    }
}

/// Device address of a buffer.
pub fn phys_addr(buffer: &DmaBuffer) -> (a: u64)
    ensures
        a == buffer.phys,
{
    buffer.phys
}

/// CPU address of a buffer.
pub fn virt_addr(buffer: &DmaBuffer) -> (a: u64)
    ensures
        a == buffer.virt,
{
    buffer.virt
}

/// Whether `addr` lies in the pool's window.
pub fn is_in_dma_pool(addr: u64) -> (r: bool)
    ensures
        r == (DMA_POOL_START <= addr && addr < DMA_POOL_END),
{
    addr >= DMA_POOL_START && addr < DMA_POOL_END
}

/// Device address of the byte at CPU address `virt` among the buffers `s`:
/// taken from the first buffer in use that contains it; `None` outside the
/// pool's window or outside every buffer in use.
pub open spec fn translation(s: Seq<DmaBuffer>, virt: u64) -> Option<u64> {
    let i = containing_index(s, virt);
    if !(DMA_POOL_START <= virt && virt < DMA_POOL_END) || i == s.len() {
        None
    } else {
        Some((s[i].phys + (virt - s[i].virt)) as u64)
    }
}

/// A buffer the pool has just placed translates byte for byte: the byte at
/// offset `k` of its CPU addresses has the device address `phys + k`, so the
/// buffer is contiguous for the device as well as for the CPU.
pub proof fn lemma_placed_buffer_translates(before: DmaPoolManager, after: DmaPoolManager, b: DmaBuffer, k: int)
    requires
        pool_wf(before),
        pool_wf(after),
        after.buffers@ == before.buffers@.push(b),
        b.in_use,
        b.virt == before.next_virt,
        0 <= k < b.size,
    ensures
        translation(after.buffers@, (b.virt + k) as u64) == Some((b.phys + k) as u64),
{
    let s = after.buffers@;
    let n = before.buffers@.len() as int;
    let v = (b.virt + k) as u64;
    assert(s[n] == b);
    assert(b.virt + b.size <= after.next_virt);
    assert forall|j: int| 0 <= j < n implies !(#[trigger] s[j].in_use && s[j].virt <= v < s[j].virt + s[j].size) by {
        assert(s[j] == before.buffers@[j]);
        assert(before.buffers@[j].virt + before.buffers@[j].size <= before.next_virt);
    }
    lemma_containing_index(s, v, n);
}

/// Device address of the byte at CPU address `virt`: found in the first
/// buffer in use that contains it. `None` outside the pool or outside every
/// buffer in use.
pub fn virt_to_phys(pool: &DmaPoolManager, virt: u64) -> (r: Option<u64>)
    requires
        pool_wf(*pool),
    ensures
        r == translation(pool.buffers@, virt),
{
    if !is_in_dma_pool(virt) {
        return None;
    }
    let mut i: usize = 0;
    while i < pool.buffers.len()
        invariant
            0 <= i <= pool.buffers@.len(),
            pool_wf(*pool),
            forall|k: int| 0 <= k < i ==> !(#[trigger] pool.buffers@[k].in_use && pool.buffers@[k].virt <= virt
                < pool.buffers@[k].virt + pool.buffers@[k].size),
        decreases pool.buffers@.len() - i,
    {
        let b = pool.buffers[i];
        assert(b.virt + b.size <= pool.next_virt);
        if b.in_use && virt >= b.virt && virt < b.virt + b.size as u64 {
            proof {
                lemma_containing_index(pool.buffers@, virt, i as int);
            }
            let offset = virt - b.virt;
            return Some(b.phys + offset);
        }
        i = i + 1;
    }
    proof {
        lemma_containing_index(pool.buffers@, virt, i as int);
    }
    None
}

/// Figures of the pool.
pub fn get_stats(pool: &DmaPoolManager) -> (st: DmaStats)
    ensures
        st.total_allocated == pool.total_allocated,
        st.buffer_count == buffers_in_use(pool.buffers@),
        st.pool_start == DMA_POOL_START,
        st.pool_end == DMA_POOL_END,
{
    let mut count: usize = 0;
    let mut i: usize = 0;
    while i < pool.buffers.len()
        invariant
            0 <= i <= pool.buffers@.len(),
            count == buffers_in_use(pool.buffers@.take(i as int)),
            count <= i,
        decreases pool.buffers@.len() - i,
    {
        proof {
            assert(pool.buffers@.take(i + 1).drop_last() =~= pool.buffers@.take(i as int));
        }
        if pool.buffers[i].in_use {
            count = count + 1;
        }
        i = i + 1;
    }
    assert(pool.buffers@.take(pool.buffers@.len() as int) =~= pool.buffers@);
    DmaStats { total_allocated: pool.total_allocated, buffer_count: count, pool_start: DMA_POOL_START, pool_end: DMA_POOL_END }
}

/// Address translation through an allocated buffer: while a buffer is in
/// use, the byte at offset `off` of its CPU range maps to offset `off` of its
/// device range (buffers do not overlap, so no other buffer claims it).
pub proof fn lemma_translation_inside_buffer(p: DmaPoolManager, k: int, off: int)
    requires
        pool_wf(p),
        0 <= k < p.buffers@.len(),
        p.buffers@[k].in_use,
        0 <= off < p.buffers@[k].size,
    ensures
        containing_index(p.buffers@, (p.buffers@[k].virt + off) as u64) == k,
{
    let s = p.buffers@;
    let v = (s[k].virt + off) as u64;
    assert forall|j: int| 0 <= j < k implies !(#[trigger] s[j].in_use && s[j].virt <= v < s[j].virt + s[j].size) by {
        assert(s[j].virt + s[j].size <= s[k].virt);
    }
    lemma_containing_index(s, v, k);
}

} // verus!
