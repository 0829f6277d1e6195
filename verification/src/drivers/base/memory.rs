//! Driver memory zone: a region of the kernel's address space where drivers
//! allocate, one bump-allocated block per request, each followed by a guard
//! page, so that each block's owner is known.
use vstd::prelude::*;
use crate::bits::{is_pow2_u64, align_up_u64, align_up_u64_spec, lemma_mask_clear_is_multiple};
use crate::drivers::base::device::DeviceId;

verus! {

/// First address of the driver zone.
pub const DRIVER_ZONE_START: u64 = 0xFFFF_C000_0000_0000;

/// Last address of the driver zone.
pub const DRIVER_ZONE_END: u64 = 0xFFFF_C0FF_FFFF_FFFF;

/// Size of a guard page.
pub const GUARD_PAGE_SIZE: usize = 4096;

/// Default alignment of an allocation.
pub const DEFAULT_ALIGNMENT: usize = 16;

/// Largest single allocation (16 MiB).
pub const MAX_ALLOCATION_SIZE: usize = 0x100_0000;

/// One allocation in the zone.
#[derive(Debug, Clone, Copy)]
pub struct DriverAllocation {
    pub virt_addr: u64,
    pub size: usize,
    pub owner: DeviceId,
    pub owner_name: &'static str,
    pub in_use: bool,
}

/// The zone's allocations and its bump pointer.
pub struct DriverMemoryManager {
    pub allocations: Vec<DriverAllocation>,
    pub next_addr: u64,
    pub total_allocated: usize,
    pub initialized: bool,
}

/// Figures of the zone.
#[derive(Debug, Clone, Copy)]
pub struct MemoryStats {
    pub total_allocated: usize,
    pub allocation_count: usize,
    pub zone_start: u64,
    pub zone_end: u64,
    pub next_addr: u64,
}

/// Number of allocations in use.
pub open spec fn in_use_count(s: Seq<DriverAllocation>) -> nat
    decreases s.len(),
{
    if s.len() == 0 {
        0
    } else {
        in_use_count(s.drop_last()) + if s.last().in_use { 1nat } else { 0nat }
    }
}

/// Total size of the allocations of `owner` in use.
pub open spec fn owner_in_use_size(s: Seq<DriverAllocation>, owner: DeviceId) -> nat
    decreases s.len(),
{
    if s.len() == 0 {
        0
    } else {
        owner_in_use_size(s.drop_last(), owner) + if s.last().in_use && s.last().owner == owner {
            s.last().size as nat
        } else {
            0nat
        }
    }
}

/// `a` is the block at `addr` held by `owner`, still in use.
pub open spec fn is_block_of(a: DriverAllocation, addr: u64, owner: DeviceId) -> bool {
    a.virt_addr == addr && a.owner == owner && a.in_use
}

/// Index of the first allocation at `addr` held by `owner` and in use, or
/// the length.
pub open spec fn block_index(s: Seq<DriverAllocation>, addr: u64, owner: DeviceId) -> int
    decreases s.len(),
{
    if s.len() == 0 {
        0
    } else if is_block_of(s[0], addr, owner) {
        0
    } else {
        1 + block_index(s.drop_first(), addr, owner)
    }
}

proof fn lemma_block_index(s: Seq<DriverAllocation>, addr: u64, owner: DeviceId, i: int)
    requires
        0 <= i <= s.len(),
        forall|k: int| 0 <= k < i ==> !is_block_of(#[trigger] s[k], addr, owner),
        i == s.len() || is_block_of(s[i], addr, owner),
    ensures
        block_index(s, addr, owner) == i,
    decreases s.len(),
{
    if s.len() > 0 && i > 0 {
        assert forall|k: int| 0 <= k < i - 1 implies !is_block_of(#[trigger] s.drop_first()[k], addr, owner) by {
            assert(s.drop_first()[k] == s[k + 1]);
        }
        lemma_block_index(s.drop_first(), addr, owner, i - 1);
    }
}

/// The allocation released.
pub open spec fn released(a: DriverAllocation) -> DriverAllocation {
    DriverAllocation { in_use: false, ..a }
}

/// The allocations once every one of `owner` is released.
pub open spec fn release_owner(s: Seq<DriverAllocation>, owner: DeviceId) -> Seq<DriverAllocation> {
    s.map_values(|a: DriverAllocation| if a.owner == owner { released(a) } else { a })
}

/// Zone invariant: the bump pointer stays in the zone and every allocation
/// lies before it, in the zone, followed by its guard page; once the zone is
/// initialized, a guard page also opens the zone, before every allocation.
pub open spec fn zone_wf(m: DriverMemoryManager) -> bool {
    &&& DRIVER_ZONE_START <= m.next_addr <= DRIVER_ZONE_END
    &&& m.initialized ==> DRIVER_ZONE_START + GUARD_PAGE_SIZE <= m.next_addr
    &&& forall|k: int| 0 <= k < m.allocations@.len() ==> {
        &&& DRIVER_ZONE_START <= (#[trigger] m.allocations@[k]).virt_addr
        &&& m.initialized ==> DRIVER_ZONE_START + GUARD_PAGE_SIZE <= m.allocations@[k].virt_addr
        &&& m.allocations@[k].virt_addr + m.allocations@[k].size + GUARD_PAGE_SIZE <= m.next_addr
    }
    &&& forall|i: int, j: int| 0 <= i < j < m.allocations@.len() ==>
        (#[trigger] m.allocations@[i]).virt_addr + m.allocations@[i].size + GUARD_PAGE_SIZE
            <= (#[trigger] m.allocations@[j]).virt_addr
}

impl DriverMemoryManager {
    /// The zone before initialization: no allocation, bump pointer at the start.
    pub fn new() -> (m: DriverMemoryManager)
        ensures
            m.allocations@.len() == 0,
            m.next_addr == DRIVER_ZONE_START,
            m.total_allocated == 0,
            !m.initialized,
            zone_wf(m),
    {
        DriverMemoryManager { allocations: Vec::new(), next_addr: DRIVER_ZONE_START, total_allocated: 0, initialized: false }
    }
}

/// Initializes the zone once: the bump pointer skips the first guard page.
/// A second call changes nothing.
pub fn init(mgr: &mut DriverMemoryManager)
    ensures
        old(mgr).initialized ==> *final(mgr) == *old(mgr),
        !old(mgr).initialized ==> final(mgr).initialized && final(mgr).next_addr == DRIVER_ZONE_START + GUARD_PAGE_SIZE
            && final(mgr).allocations@ == old(mgr).allocations@ && final(mgr).total_allocated == old(mgr).total_allocated,
        zone_wf(*old(mgr)) && (old(mgr).initialized || old(mgr).allocations@.len() == 0) ==> zone_wf(*final(mgr)),
{
    if mgr.initialized {
        return;
    }
    mgr.initialized = true;
    mgr.next_addr = DRIVER_ZONE_START + GUARD_PAGE_SIZE as u64;
}

/// What `zone_alloc` does to the zone `m0`, leaving `m1` and returning `r`:
/// the block goes at the next address aligned to `align`, unless the request
/// is empty or oversized or the block and its guard page would leave the zone.
pub open spec fn zone_alloc_post(m0: DriverMemoryManager, m1: DriverMemoryManager, size: usize, align: usize,
    owner: DeviceId, owner_name: &'static str, r: Option<u64>) -> bool {
            let a = align_up_u64_spec(m0.next_addr, align as u64);
            if size == 0 || size > MAX_ALLOCATION_SIZE || a + size + GUARD_PAGE_SIZE > DRIVER_ZONE_END {
                &&& r.is_none()
                &&& m1.allocations@ == m0.allocations@
                &&& m1.next_addr == m0.next_addr
                &&& m1.total_allocated == m0.total_allocated
            } else {
                &&& r == Some(a)
                &&& a >= m0.next_addr
                &&& a & ((align - 1) as u64) == 0
                &&& a % (align as u64) == 0
                &&& m1.allocations@ == m0.allocations@.push(DriverAllocation {
                    virt_addr: a,
                    size,
                    owner,
                    owner_name,
                    in_use: true,
                })
                &&& m1.next_addr == a + size + GUARD_PAGE_SIZE
                &&& m1.total_allocated == m0.total_allocated + size
            }
        
}

/// A guard page separates successive blocks: once the zone is initialized,
/// two blocks handed out one after the other are each aligned as asked, the
/// first lies past the guard page that opens the zone, a guard page lies
/// between the two, and another after the second, before the zone's end.
pub proof fn lemma_successive_allocations_are_guarded(m0: DriverMemoryManager, m1: DriverMemoryManager, m2: DriverMemoryManager,
    size1: usize, align1: usize, owner1: DeviceId, name1: &'static str, a1: u64,
    size2: usize, align2: usize, owner2: DeviceId, name2: &'static str, a2: u64)
    requires
        zone_wf(m0),
        m0.initialized,
        is_pow2_u64(align1 as u64),
        is_pow2_u64(align2 as u64),
        zone_alloc_post(m0, m1, size1, align1, owner1, name1, Some(a1)),
        zone_alloc_post(m1, m2, size2, align2, owner2, name2, Some(a2)),
    ensures
        a1 % (align1 as u64) == 0,
        a2 % (align2 as u64) == 0,
        DRIVER_ZONE_START + GUARD_PAGE_SIZE <= a1,
        a1 + size1 + GUARD_PAGE_SIZE <= a2,
        a2 + size2 + GUARD_PAGE_SIZE <= DRIVER_ZONE_END,
{
}

/// Reserves `size` bytes aligned to `align` for `owner` and returns their
/// address in the zone. `None` for an empty or oversized request, or when the
/// zone has no room left for the block and its guard page.
pub fn zone_alloc(mgr: &mut DriverMemoryManager, size: usize, align: usize, owner: DeviceId, owner_name: &'static str) -> (r: Option<u64>)
    requires
        is_pow2_u64(align as u64),
        old(mgr).next_addr + (align - 1) <= u64::MAX,
        old(mgr).total_allocated + size <= usize::MAX,
        zone_wf(*old(mgr)),
    ensures
        zone_wf(*final(mgr)),
        final(mgr).initialized == old(mgr).initialized,
        zone_alloc_post(*old(mgr), *final(mgr), size, align, owner, owner_name, r),
{
    if size == 0 {
        return None;
    }
    if size > MAX_ALLOCATION_SIZE {
        return None;
    }
    let aligned_addr = align_up_u64(mgr.next_addr, align as u64);
    proof {
        lemma_mask_clear_is_multiple(aligned_addr, align as u64);
    }
    if aligned_addr > DRIVER_ZONE_END - GUARD_PAGE_SIZE as u64 - size as u64 {
        return None;
    }
    mgr.allocations.push(DriverAllocation { virt_addr: aligned_addr, size, owner, owner_name, in_use: true });
    mgr.next_addr = aligned_addr + size as u64 + GUARD_PAGE_SIZE as u64;
    mgr.total_allocated = mgr.total_allocated + size;
    Some(aligned_addr)
}

/// Releases the block at `addr` held by `owner`: that allocation, still in
/// use, is marked free and `size` leaves the total. A null address, or one
/// that is no block of `owner` in use, changes nothing.
pub fn free(mgr: &mut DriverMemoryManager, addr: u64, size: usize, owner: DeviceId)
    ensures
        final(mgr).next_addr == old(mgr).next_addr,
        final(mgr).initialized == old(mgr).initialized,
        ({
            let s = old(mgr).allocations@;
            let i = block_index(s, addr, owner);
            if addr == 0 || i == s.len() {
                &&& final(mgr).allocations@ == s
                &&& final(mgr).total_allocated == old(mgr).total_allocated
            } else {
                &&& final(mgr).allocations@ == s.update(i, released(s[i]))
                &&& final(mgr).total_allocated == (if old(mgr).total_allocated >= size { old(mgr).total_allocated - size } else { 0 })
            }
        }),
{
    if addr == 0 {
        return;
    }
    let mut i: usize = 0;
    while i < mgr.allocations.len()
        && !(mgr.allocations[i].virt_addr == addr && mgr.allocations[i].owner == owner && mgr.allocations[i].in_use)
        invariant
            0 <= i <= mgr.allocations@.len(),
            forall|k: int| 0 <= k < i ==> !is_block_of(#[trigger] mgr.allocations@[k], addr, owner),
        decreases mgr.allocations@.len() - i,
    {
        i = i + 1;
    }
    proof {
        lemma_block_index(mgr.allocations@, addr, owner, i as int);
    }
    if i < mgr.allocations.len() {
        let mut a = mgr.allocations[i];
        a.in_use = false;
        mgr.allocations.set(i, a);
        mgr.total_allocated = mgr.total_allocated.saturating_sub(size);
    }
}

/// Releases every allocation of `owner` still in use; their sizes leave the total.
pub fn free_all_for_device(mgr: &mut DriverMemoryManager, owner: DeviceId)
    requires
        owner_in_use_size(old(mgr).allocations@, owner) <= usize::MAX,
    ensures
        final(mgr).allocations@ == release_owner(old(mgr).allocations@, owner),
        final(mgr).total_allocated == (if old(mgr).total_allocated >= owner_in_use_size(old(mgr).allocations@, owner) {
            old(mgr).total_allocated - owner_in_use_size(old(mgr).allocations@, owner)
        } else {
            0
        }),
        final(mgr).next_addr == old(mgr).next_addr,
        final(mgr).initialized == old(mgr).initialized,
{
    let ghost orig = mgr.allocations@;
    let mut freed_size: usize = 0;
    let mut i: usize = 0;
    while i < mgr.allocations.len()
        invariant
            0 <= i <= mgr.allocations@.len(),
            mgr.allocations@.len() == orig.len(),
            owner_in_use_size(orig, owner) <= usize::MAX,
            freed_size == owner_in_use_size(orig.take(i as int), owner),
            mgr.next_addr == old(mgr).next_addr,
            mgr.initialized == old(mgr).initialized,
            mgr.total_allocated == old(mgr).total_allocated,
            forall|k: int| 0 <= k < i ==> #[trigger] mgr.allocations@[k] == (if orig[k].owner == owner { released(orig[k]) } else { orig[k] }),
            forall|k: int| i <= k < orig.len() ==> #[trigger] mgr.allocations@[k] == orig[k],
        decreases orig.len() - i,
    {
        let a = mgr.allocations[i];
        proof {
            assert(orig.take(i + 1).drop_last() =~= orig.take(i as int));
            lemma_owner_size_prefix(orig, owner, i + 1);
        }
        if a.owner == owner && a.in_use {
            freed_size = freed_size + a.size;
            let mut b = a;
            b.in_use = false;
            mgr.allocations.set(i, b);
        } else if a.owner == owner {
            let mut b = a;
            b.in_use = false;
            mgr.allocations.set(i, b);
        }
        i = i + 1;
    }
    assert(orig.take(orig.len() as int) =~= orig);
    assert(mgr.allocations@ =~= release_owner(orig, owner));
    mgr.total_allocated = mgr.total_allocated.saturating_sub(freed_size);
}

proof fn lemma_owner_size_prefix(s: Seq<DriverAllocation>, owner: DeviceId, n: int)
    requires
        0 <= n <= s.len(),
    ensures
        owner_in_use_size(s.take(n), owner) <= owner_in_use_size(s, owner),
    decreases s.len() - n,
{
    if n < s.len() {
        lemma_owner_size_prefix(s, owner, n + 1);
        assert(s.take(n + 1).drop_last() =~= s.take(n));
    } else {
        assert(s.take(n) =~= s);
    }
}

/// Figures of the zone.
pub fn get_stats(mgr: &DriverMemoryManager) -> (st: MemoryStats)
    ensures
        st.total_allocated == mgr.total_allocated,
        st.allocation_count == in_use_count(mgr.allocations@),
        st.zone_start == DRIVER_ZONE_START,
        st.zone_end == DRIVER_ZONE_END,
        st.next_addr == mgr.next_addr,
{
    let mut count: usize = 0;
    let mut i: usize = 0;
    while i < mgr.allocations.len()
        invariant
            0 <= i <= mgr.allocations@.len(),
            count == in_use_count(mgr.allocations@.take(i as int)),
            count <= i,
        decreases mgr.allocations@.len() - i,
    {
        proof {
            assert(mgr.allocations@.take(i + 1).drop_last() =~= mgr.allocations@.take(i as int));
        }
        if mgr.allocations[i].in_use {
            count = count + 1;
        }
        i = i + 1;
    }
    assert(mgr.allocations@.take(mgr.allocations@.len() as int) =~= mgr.allocations@);
    MemoryStats {
        total_allocated: mgr.total_allocated,
        allocation_count: count,
        zone_start: DRIVER_ZONE_START,
        zone_end: DRIVER_ZONE_END,
        next_addr: mgr.next_addr,
    }
}

/// Whether `addr` lies in the driver zone.
pub fn is_in_driver_zone(addr: u64) -> (r: bool)
    ensures
        r == (DRIVER_ZONE_START <= addr && addr < DRIVER_ZONE_END),
{
    addr >= DRIVER_ZONE_START && addr < DRIVER_ZONE_END
}

/// Whether an access of `size` bytes at `addr` stays in the driver zone.
pub fn validate_access(addr: u64, size: usize, owner: DeviceId) -> (r: bool)
    requires
        addr + size >= 1,
        addr + size - 1 <= u64::MAX,
    ensures
        r == (DRIVER_ZONE_START <= addr < DRIVER_ZONE_END && DRIVER_ZONE_START <= addr + size - 1 < DRIVER_ZONE_END),
{
    let last: u64 = if size == 0 { addr - 1 } else { addr + (size - 1) as u64 };
    is_in_driver_zone(addr) && is_in_driver_zone(last)
}

/// Blocks handed out by the zone never overlap, and a guard page separates
/// each from the next: a granted allocation keeps the zone invariant.
pub proof fn lemma_alloc_keeps_blocks_apart(m: DriverMemoryManager, a: DriverAllocation)
    requires
        zone_wf(m),
        a.virt_addr >= m.next_addr,
        a.virt_addr + a.size + GUARD_PAGE_SIZE <= DRIVER_ZONE_END,
    ensures
        forall|k: int| 0 <= k < m.allocations@.len() ==>
            (#[trigger] m.allocations@[k]).virt_addr + m.allocations@[k].size + GUARD_PAGE_SIZE <= a.virt_addr,
{
}

} // verus!
