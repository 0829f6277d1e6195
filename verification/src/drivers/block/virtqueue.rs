//! The virtqueue of the VirtIO block driver: a descriptor table threaded
//! into a free list, the available ring the driver fills and the used ring
//! the device fills.
use vstd::prelude::*;

verus! {

/// Default queue size.
pub const QUEUE_SIZE: u16 = 128;

/// The buffer continues in the `next` descriptor.
pub const DESC_F_NEXT: u16 = 1;

/// The buffer is written by the device.
pub const DESC_F_WRITE: u16 = 2;

/// The buffer holds a table of indirect descriptors.
pub const DESC_F_INDIRECT: u16 = 4;

/// A descriptor (16 bytes on the wire).
#[derive(Clone, Copy, Debug)]
pub struct VirtqDesc {
    /// Physical address of the buffer.
    pub addr: u64,
    pub len: u32,
    pub flags: u16,
    /// Next descriptor of a chain, or of the free list.
    pub next: u16,
}

/// Header of the available ring.
#[derive(Clone, Copy, Debug)]
pub struct VirtqAvail {
    pub flags: u16,
    /// Free-running count of entries the driver published.
    pub idx: u16,
}

/// An element of the used ring.
#[derive(Clone, Copy, Debug)]
pub struct VirtqUsedElem {
    /// Head of the descriptor chain the device finished.
    pub id: u32,
    /// Bytes the device wrote.
    pub len: u32,
}

/// Header of the used ring.
#[derive(Clone, Copy, Debug)]
pub struct VirtqUsed {
    pub flags: u16,
    /// Free-running count of entries the device published.
    pub idx: u16,
}

/// A virtqueue.
pub struct Virtqueue {
    pub size: u16,
    pub desc: Vec<VirtqDesc>,
    pub avail: VirtqAvail,
    pub avail_ring: Vec<u16>,
    pub used: VirtqUsed,
    pub used_ring: Vec<VirtqUsedElem>,
    /// Count of used entries consumed so far.
    pub last_used_idx: u16,
    /// First free descriptor.
    pub free_head: u16,
    pub num_free: u16,
    /// Physical address of the queue memory, handed to the device.
    pub phys_addr: u64,
    /// Where the table and the rings lie in that memory.
    pub layout: QueueLayout,
    /// The free descriptors, in free-list order.
    pub free_list: Ghost<Seq<u16>>,
}

/// Where the parts of a queue lie in its memory: the descriptor table at
/// offset 0, then the available ring, then the used ring on a page of its
/// own.
#[derive(Clone, Copy, Debug)]
pub struct QueueLayout {
    pub avail_offset: usize,
    pub used_offset: usize,
    /// Bytes the queue memory takes.
    pub total_size: usize,
}

/// `x` rounded up to a multiple of `a`.
pub open spec fn round_up(x: int, a: int) -> int {
    ((x + a - 1) / a) * a
}

/// The memory layout of a queue of `size` descriptors: 16 bytes per
/// descriptor from offset 0; the available ring (flags, index, one entry per
/// descriptor, used-event) right after the 16-aligned table; the used ring
/// (flags, index, 8 bytes per entry, avail-event) one page-rounded
/// available ring later; the memory ends on the page-rounded used ring.
pub open spec fn layout_of(size: u16) -> QueueLayout {
    let avail = round_up(16 * size, 16);
    let used = avail + round_up(6 + 2 * size, 4096);
    QueueLayout {
        avail_offset: avail as usize,
        used_offset: used as usize,
        total_size: (used + round_up(6 + 8 * size, 4096)) as usize,
    }
}

/// The three parts of a queue of `size` descriptors lie, one after the
/// other and apart, inside the memory `layout_of(size)` describes.
pub open spec fn rings_fit(size: u16, l: QueueLayout) -> bool {
    &&& 16 * size <= l.avail_offset
    &&& l.avail_offset + 6 + 2 * size <= l.used_offset
    &&& l.used_offset + 6 + 8 * size <= l.total_size
}

/// The memory layout of a queue of `size` descriptors (see `layout_of`).
pub fn queue_layout(size: u16) -> (l: QueueLayout)
    ensures
        l == layout_of(size),
        rings_fit(size, l),
{
    let n = size as usize;
    let desc_size = 16 * n;
    let avail_size = 6 + 2 * n;
    let used_size = 6 + 8 * n;
    let desc_aligned = (desc_size + 15) / 16 * 16;
    let avail_page = (avail_size + 4095) / 4096 * 4096;
    let used_page = (used_size + 4095) / 4096 * 4096;
    assert(desc_size <= desc_aligned <= desc_size + 15) by (nonlinear_arith)
        requires desc_aligned == (desc_size + 15) / 16 * 16;
    assert(avail_size <= avail_page <= avail_size + 4095) by (nonlinear_arith)
        requires avail_page == (avail_size + 4095) / 4096 * 4096;
    assert(used_size <= used_page <= used_size + 4095) by (nonlinear_arith)
        requires used_page == (used_size + 4095) / 4096 * 4096;
    QueueLayout {
        avail_offset: desc_aligned,
        used_offset: desc_aligned + avail_page,
        total_size: desc_aligned + avail_page + used_page,
    }
}

/// Whether `s` lists each of its elements once.
pub open spec fn distinct(s: Seq<u16>) -> bool {
    forall|a: int, b: int| 0 <= a < b < s.len() ==> #[trigger] s[a] != #[trigger] s[b]
}

impl Virtqueue {
    /// The queue is well formed: tables of `size` entries, and the free list
    /// threaded through the descriptors' `next` fields from `free_head`,
    /// `num_free` long, naming distinct descriptors.
    pub open spec fn wf(&self) -> bool {
        let fl = self.free_list@;
        &&& self.desc@.len() == self.size
        &&& self.avail_ring@.len() == self.size
        &&& self.used_ring@.len() == self.size
        &&& fl.len() == self.num_free
        &&& self.num_free <= self.size
        &&& distinct(fl)
        &&& forall|k: int| 0 <= k < fl.len() ==> #[trigger] fl[k] < self.size
        &&& fl.len() > 0 ==> fl[0] == self.free_head
        &&& forall|k: int| 0 <= k < fl.len() - 1 ==> self.desc@[#[trigger] fl[k] as int].next == fl[k + 1]
    }

    /// A queue of `size` descriptors, all free and chained in index order,
    /// with empty rings; `phys_addr` is where its memory lies.
    pub fn new(size: u16, phys_addr: u64) -> (q: Option<Virtqueue>)
        ensures
            q is Some,
            q matches Some(q) ==> {
                &&& q.wf()
                &&& q.size == size
                &&& q.num_free == size
                &&& q.free_list@ == Seq::new(size as nat, |k: int| k as u16)
                &&& q.avail.idx == 0
                &&& q.used.idx == 0
                &&& q.last_used_idx == 0
                &&& q.phys_addr == phys_addr
                &&& q.layout == layout_of(size)
                &&& rings_fit(size, q.layout)
            },
    {
        let mut desc: Vec<VirtqDesc> = Vec::new();
        let mut i: u16 = 0;
        while i < size
            invariant
                0 <= i <= size,
                desc@.len() == i,
                forall|k: int| 0 <= k < i ==> (#[trigger] desc@[k]).next == (if k + 1 < size { (k + 1) as u16 } else { 0u16 }),
            decreases size - i,
        {
            let next: u16 = if i + 1 < size { i + 1 } else { 0 };
            desc.push(VirtqDesc { addr: 0, len: 0, flags: 0, next });
            i = i + 1;
        }
        let avail_ring: Vec<u16> = vec![0u16; size as usize];
        let used_ring: Vec<VirtqUsedElem> = vec![VirtqUsedElem { id: 0, len: 0 }; size as usize];
        let ghost fl = Seq::new(size as nat, |k: int| k as u16);
        let layout = queue_layout(size);
        let q = Virtqueue {
            size,
            desc,
            avail: VirtqAvail { flags: 0, idx: 0 },
            avail_ring,
            used: VirtqUsed { flags: 0, idx: 0 },
            used_ring,
            last_used_idx: 0,
            free_head: 0,
            num_free: size,
            phys_addr,
            layout,
            free_list: Ghost(fl),
        };
        assert forall|k: int| 0 <= k < fl.len() - 1 implies q.desc@[#[trigger] fl[k] as int].next == fl[k + 1] by {
            assert(fl[k] as int == k);
        }
        Some(q)
    }

    /// Physical address of the queue memory.
    pub fn phys_addr(&self) -> (a: u64)
        ensures
            a == self.phys_addr,
    {
        self.phys_addr
    }

    /// Number of descriptors.
    pub fn size(&self) -> (n: u16)
        ensures
            n == self.size,
    {
        self.size
    }

    /// Takes the first free descriptor off the free list; `None` when none
    /// is free.
    pub fn alloc_desc(&mut self) -> (r: Option<u16>)
        requires
            old(self).wf(),
        ensures
            final(self).wf(),
            final(self).size == old(self).size,
            final(self).desc@ == old(self).desc@,
            final(self).avail == old(self).avail,
            final(self).avail_ring@ == old(self).avail_ring@,
            final(self).used == old(self).used,
            final(self).used_ring@ == old(self).used_ring@,
            final(self).last_used_idx == old(self).last_used_idx,
            final(self).phys_addr == old(self).phys_addr,
            old(self).num_free == 0 ==> r is None && final(self).free_list@ == old(self).free_list@,
            old(self).num_free > 0 ==> r == Some(old(self).free_list@[0])
                && final(self).free_list@ == old(self).free_list@.drop_first(),
    {
        if self.num_free == 0 {
            return None;
        }
        let idx = self.free_head;
        let ghost fl = self.free_list@;
        self.free_head = self.desc[idx as usize].next;
        self.num_free = self.num_free - 1;
        self.free_list = Ghost(fl.drop_first());
        proof {
            let nf = fl.drop_first();
            assert forall|a: int, b: int| 0 <= a < b < nf.len() implies #[trigger] nf[a] != #[trigger] nf[b] by {
                assert(nf[a] == fl[a + 1] && nf[b] == fl[b + 1]);
            }
            assert forall|k: int| 0 <= k < nf.len() - 1 implies self.desc@[#[trigger] nf[k] as int].next == nf[k + 1] by {
                assert(nf[k] == fl[k + 1]);
            }
            if nf.len() > 0 {
                assert(nf[0] == fl[1]);
            }
        }
        Some(idx)
    }

    /// Puts descriptor `idx` back at the head of the free list.
    pub fn free_desc(&mut self, idx: u16)
        requires
            old(self).wf(),
            idx < old(self).size,
            !old(self).free_list@.contains(idx),
        ensures
            final(self).wf(),
            final(self).free_list@ == seq![idx] + old(self).free_list@,
            final(self).free_head == idx,
            final(self).size == old(self).size,
            final(self).avail == old(self).avail,
            final(self).avail_ring@ == old(self).avail_ring@,
            final(self).used == old(self).used,
            final(self).used_ring@ == old(self).used_ring@,
            final(self).last_used_idx == old(self).last_used_idx,
            final(self).phys_addr == old(self).phys_addr,
            forall|k: int| 0 <= k < old(self).desc@.len() && k != idx ==> #[trigger] final(self).desc@[k] == old(self).desc@[k],
            final(self).desc@.len() == old(self).desc@.len(),
    {
        let ghost fl = self.free_list@;
        let mut d = self.desc[idx as usize];
        d.next = self.free_head;
        self.desc.set(idx as usize, d);
        self.free_head = idx;
        proof {
            assert(fl.len() < self.size) by {
                lemma_distinct_below_bound(fl, self.size, idx);
            }
        }
        self.num_free = self.num_free + 1;
        let ghost nf = seq![idx] + fl;
        self.free_list = Ghost(nf);
        proof {
            assert forall|a: int, b: int| 0 <= a < b < nf.len() implies #[trigger] nf[a] != #[trigger] nf[b] by {
                if a == 0 {
                    assert(nf[b] == fl[b - 1]);
                    assert(fl.contains(fl[b - 1]));
                } else {
                    assert(nf[a] == fl[a - 1] && nf[b] == fl[b - 1]);
                }
            }
            assert forall|k: int| 0 <= k < nf.len() implies #[trigger] nf[k] < self.size by {
                if k > 0 {
                    assert(nf[k] == fl[k - 1]);
                }
            }
            assert forall|k: int| 0 <= k < nf.len() - 1 implies self.desc@[#[trigger] nf[k] as int].next == nf[k + 1] by {
                if k > 0 {
                    assert(nf[k] == fl[k - 1] && nf[k + 1] == fl[k]);
                    assert(fl[k - 1] != idx) by {
                        assert(fl.contains(fl[k - 1]));
                    }
                }
            }
        }
    }

    /// Fills descriptor `idx`.
    pub fn set_desc(&mut self, idx: u16, addr: u64, len: u32, flags: u16, next: u16)
        requires
            old(self).wf(),
            idx < old(self).size,
            !old(self).free_list@.contains(idx),
        ensures
            final(self).wf(),
            final(self).desc@ == old(self).desc@.update(idx as int, VirtqDesc { addr, len, flags, next }),
            final(self).free_list@ == old(self).free_list@,
            final(self).free_head == old(self).free_head,
            final(self).num_free == old(self).num_free,
            final(self).size == old(self).size,
            final(self).avail == old(self).avail,
            final(self).avail_ring@ == old(self).avail_ring@,
            final(self).used == old(self).used,
            final(self).used_ring@ == old(self).used_ring@,
            final(self).last_used_idx == old(self).last_used_idx,
            final(self).phys_addr == old(self).phys_addr,
    {
        let ghost fl = self.free_list@;
        self.desc.set(idx as usize, VirtqDesc { addr, len, flags, next });
        proof {
            assert forall|k: int| 0 <= k < fl.len() - 1 implies self.desc@[#[trigger] fl[k] as int].next == fl[k + 1] by {
                assert(fl[k] != idx) by {
                    assert(fl.contains(fl[k]));
                }
            }
        }
    }

    /// Publishes the chain headed by `desc_idx` in the next slot of the
    /// available ring and advances the ring index (wrapping).
    pub fn push_avail(&mut self, desc_idx: u16)
        requires
            old(self).wf(),
            old(self).size > 0,
        ensures
            final(self).wf(),
            final(self).avail_ring@ == old(self).avail_ring@.update((old(self).avail.idx % old(self).size) as int, desc_idx),
            final(self).avail.idx == (if old(self).avail.idx == u16::MAX { 0 } else { old(self).avail.idx + 1 }),
            final(self).avail.flags == old(self).avail.flags,
            final(self).desc@ == old(self).desc@,
            final(self).free_list@ == old(self).free_list@,
            final(self).free_head == old(self).free_head,
            final(self).num_free == old(self).num_free,
            final(self).size == old(self).size,
            final(self).used == old(self).used,
            final(self).used_ring@ == old(self).used_ring@,
            final(self).last_used_idx == old(self).last_used_idx,
            final(self).phys_addr == old(self).phys_addr,
    {
        let slot = self.avail.idx % self.size;
        self.avail_ring.set(slot as usize, desc_idx);
        self.avail.idx = self.avail.idx.wrapping_add(1);
    }

    /// Whether the device published used entries not consumed yet.
    pub fn has_used(&self) -> (r: bool)
        ensures
            r == (self.used.idx != self.last_used_idx),
    {
        self.used.idx != self.last_used_idx
    }

    /// Takes the next used entry; `None` when the device published none.
    pub fn pop_used(&mut self) -> (r: Option<VirtqUsedElem>)
        requires
            old(self).wf(),
            old(self).size > 0,
        ensures
            final(self).wf(),
            old(self).used.idx == old(self).last_used_idx ==> r is None && final(self).last_used_idx == old(self).last_used_idx,
            old(self).used.idx != old(self).last_used_idx ==> {
                &&& r == Some(old(self).used_ring@[(old(self).last_used_idx % old(self).size) as int])
                &&& final(self).last_used_idx == (if old(self).last_used_idx == u16::MAX { 0 } else { old(self).last_used_idx + 1 })
            },
            final(self).desc@ == old(self).desc@,
            final(self).free_list@ == old(self).free_list@,
            final(self).free_head == old(self).free_head,
            final(self).num_free == old(self).num_free,
            final(self).size == old(self).size,
            final(self).avail == old(self).avail,
            final(self).avail_ring@ == old(self).avail_ring@,
            final(self).used == old(self).used,
            final(self).used_ring@ == old(self).used_ring@,
            final(self).phys_addr == old(self).phys_addr,
    {
        if self.used.idx == self.last_used_idx {
            return None;
        }
        let elem = self.used_ring[(self.last_used_idx % self.size) as usize];
        self.last_used_idx = self.last_used_idx.wrapping_add(1);
        Some(elem)
    }

    /// The device's side of the used ring: it reports chain `id` done with
    /// `len` bytes written, in the next slot, and advances the index.
    pub fn record_used(&mut self, id: u32, len: u32)
        requires
            old(self).wf(),
            old(self).size > 0,
        ensures
            final(self).wf(),
            final(self).used_ring@ == old(self).used_ring@.update((old(self).used.idx % old(self).size) as int, VirtqUsedElem { id, len }),
            final(self).used.idx == (if old(self).used.idx == u16::MAX { 0 } else { old(self).used.idx + 1 }),
            final(self).used.flags == old(self).used.flags,
            final(self).desc@ == old(self).desc@,
            final(self).free_list@ == old(self).free_list@,
            final(self).free_head == old(self).free_head,
            final(self).num_free == old(self).num_free,
            final(self).size == old(self).size,
            final(self).avail == old(self).avail,
            final(self).avail_ring@ == old(self).avail_ring@,
            final(self).last_used_idx == old(self).last_used_idx,
            final(self).phys_addr == old(self).phys_addr,
    {
        let slot = self.used.idx % self.size;
        self.used_ring.set(slot as usize, VirtqUsedElem { id, len });
        self.used.idx = self.used.idx.wrapping_add(1);
    }
}

/// A list of distinct indices below `bound` that leaves `missing` out is
/// shorter than `bound`.
proof fn lemma_distinct_below_bound(s: Seq<u16>, bound: u16, missing: u16)
    requires
        distinct(s),
        forall|k: int| 0 <= k < s.len() ==> #[trigger] s[k] < bound,
        missing < bound,
        !s.contains(missing),
    ensures
        s.len() < bound,
{
    let set_s = s.to_set();
    let full = Set::new(|x: u16| x < bound);
    assert(set_s.subset_of(full.remove(missing)));
    lemma_u16_range_len(bound);
    vstd::set_lib::lemma_len_subset(set_s, full.remove(missing));
    s.unique_seq_to_set();
}

proof fn lemma_u16_range_len(bound: u16)
    ensures
        Set::new(|x: u16| x < bound).finite(),
        Set::new(|x: u16| x < bound).len() == bound,
    decreases bound,
{
    if bound == 0 {
        assert(Set::new(|x: u16| x < bound) =~= Set::<u16>::empty());
    } else {
        let b1 = (bound - 1) as u16;
        lemma_u16_range_len(b1);
        assert(Set::new(|x: u16| x < bound) =~= Set::new(|x: u16| x < b1).insert(b1));
    }
}

/// Freeing what was just allocated undoes the allocation: the free list is
/// back as it was.
pub proof fn lemma_free_undoes_alloc(before: Seq<u16>)
    requires
        before.len() > 0,
    ensures
        seq![before[0]] + before.drop_first() == before,
{
    assert(seq![before[0]] + before.drop_first() =~= before);
}

/// An allocated descriptor is not free any more: handing it out twice
/// needs a free in between.
pub proof fn lemma_alloc_not_free(q: Virtqueue)
    requires
        q.wf(),
        q.free_list@.len() > 0,
    ensures
        !q.free_list@.drop_first().contains(q.free_list@[0]),
{
    let fl = q.free_list@;
    if fl.drop_first().contains(fl[0]) {
        let j = choose|j: int| 0 <= j < fl.drop_first().len() && fl.drop_first()[j] == fl[0];
        assert(fl[j + 1] == fl[0]);
    }
}

} // verus!
