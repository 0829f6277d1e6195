//! The generic VirtIO queue: a stack of free descriptors and the layout of
//! the queue memory.
use vstd::prelude::*;

verus! {

/// Default number of descriptors.
pub const VIRTQUEUE_DEFAULT_SIZE: u16 = 256;

/// Alignment of the used ring.
pub const VIRTQUEUE_ALIGN: usize = 4096;

/// A descriptor (16 bytes).
#[derive(Debug, Clone, Copy)]
pub struct VirtqDesc {
    pub addr: u64,
    pub len: u32,
    pub flags: u16,
    pub next: u16,
}

/// Header of the available ring.
#[derive(Debug, Clone, Copy)]
pub struct VirtqAvail {
    pub flags: u16,
    pub idx: u16,
}

/// Header of the used ring.
#[derive(Debug, Clone, Copy)]
pub struct VirtqUsed {
    pub flags: u16,
    pub idx: u16,
}

/// An element of the used ring (8 bytes).
#[derive(Debug, Clone, Copy)]
pub struct VirtqUsedElem {
    pub id: u32,
    pub len: u32,
}

/// A queue: its index on the device, its size, the addresses of its three
/// parts once placed, and the free descriptors, last freed on top.
pub struct VirtQueue {
    pub index: u16,
    pub size: u16,
    pub desc_table: u64,
    pub avail_ring: u64,
    pub used_ring: u64,
    pub free_head: u16,
    pub last_used_idx: u16,
    pub num_used: u16,
    pub free_list: Vec<u16>,
}

impl VirtQueue {
    /// A queue of `size` descriptors, all free (0 at the bottom of the stack),
    /// not yet placed in memory.
    pub fn new(index: u16, size: u16) -> (q: Option<VirtQueue>)
        ensures
            q matches Some(q) && q.index == index && q.size == size
                && q.free_list@ == Seq::new(size as nat, |k: int| k as u16)
                && q.desc_table == 0 && q.avail_ring == 0 && q.used_ring == 0,
    {
        let mut free_list: Vec<u16> = Vec::new();
        let mut i: u16 = 0;
        while i < size
            invariant
                i <= size,
                free_list@ == Seq::new(i as nat, |k: int| k as u16),
            decreases size - i,
        {
            free_list.push(i);
            assert(free_list@ =~= Seq::new((i + 1) as nat, |k: int| k as u16));
            i = i + 1;
        }
        Some(VirtQueue {
            index,
            size,
            desc_table: 0,
            avail_ring: 0,
            used_ring: 0,
            free_head: 0,
            last_used_idx: 0,
            num_used: 0,
            free_list,
        })
    }

    /// Takes the most recently freed descriptor.
    pub fn alloc_desc(&mut self) -> (r: Option<u16>)
        ensures
            old(self).free_list@.len() == 0 ==> r is None && final(self).free_list@ == old(self).free_list@,
            old(self).free_list@.len() > 0 ==> r == Some(old(self).free_list@.last())
                && final(self).free_list@ == old(self).free_list@.drop_last(),
            final(self).size == old(self).size,
            final(self).index == old(self).index,
    {
        self.free_list.pop()
    }

    /// Gives a descriptor back.
    pub fn free_desc(&mut self, desc_idx: u16)
        ensures
            final(self).free_list@ == old(self).free_list@.push(desc_idx),
            final(self).size == old(self).size,
            final(self).index == old(self).index,
    {
        self.free_list.push(desc_idx);
    }

    /// Number of free descriptors (as 16 bits).
    pub fn num_free(&self) -> (n: u16)
        ensures
            n == self.free_list@.len() as u16,
    {
        self.free_list.len() as u16
    }

    /// Whether a chain of the given readable and writable buffers fits:
    /// `None` when there are fewer free descriptors than buffers, else the
    /// head of the chain. Descriptors are not yet written: the head is 0.
    pub fn add_buffer(&mut self, out_bufs: &[(u64, u32)], in_bufs: &[(u64, u32)]) -> (r: Option<u16>)
        ensures
            out_bufs@.len() + in_bufs@.len() > (old(self).free_list@.len() as u16) ==> r is None,
            out_bufs@.len() + in_bufs@.len() <= (old(self).free_list@.len() as u16) ==> r == Some(0u16),
            final(self).free_list@ == old(self).free_list@,
    {
        let total = out_bufs.len() as u128 + in_bufs.len() as u128;
        if total > self.num_free() as u128 {
            return None;
        }
        Some(0)
    }

    /// Completed requests are not collected yet: always `None`.
    pub fn poll_used(&mut self) -> (r: Option<(u16, u32)>)
        ensures
            r is None,
            final(self).free_list@ == old(self).free_list@,
    {
        None
    }

    /// Addresses of the descriptor table, available ring and used ring.
    pub fn get_addresses(&self) -> (r: (u64, u64, u64))
        ensures
            r == (self.desc_table, self.avail_ring, self.used_ring),
    {
        (self.desc_table, self.avail_ring, self.used_ring)
    }
}

/// `x` rounded up to a multiple of `a`.
pub open spec fn round_up(x: int, a: int) -> int {
    ((x + a - 1) / a) * a
}

/// Bytes of queue memory for `n` descriptors: the descriptor table, the
/// available ring rounded to 4 bytes, then the used ring, the whole rounded
/// to a page.
pub open spec fn queue_bytes(n: int) -> int {
    round_up(round_up(16 * n + 6 + 2 * n, 4) + 6 + 8 * n, VIRTQUEUE_ALIGN as int)
}

/// Bytes of queue memory for a queue of `queue_size` descriptors.
pub fn virtqueue_size(queue_size: u16) -> (n: usize)
    ensures
        n == queue_bytes(queue_size as int),
{
    let q = queue_size as usize;
    let desc_size = q * 16;
    let avail_size = 6 + q * 2;
    let used_size = 6 + q * 8;
    let avail_end = ((desc_size + avail_size + 3) / 4) * 4;
    assert(avail_end <= desc_size + avail_size + 3) by (nonlinear_arith)
        requires avail_end == ((desc_size + avail_size + 3) / 4) * 4;
    let used_end = ((avail_end + used_size + 4095) / 4096) * 4096;
    assert(used_end <= avail_end + used_size + 4095) by (nonlinear_arith)
        requires used_end == ((avail_end + used_size + 4095) / 4096) * 4096;
    used_end
}

/// Freeing what was just allocated undoes the allocation.
pub proof fn lemma_free_after_alloc_restores(s: Seq<u16>)
    requires
        s.len() > 0,
    ensures
        s.drop_last().push(s.last()) == s,
{
    assert(s.drop_last().push(s.last()) =~= s);
}

} // verus!
