//! TRB rings: the producer ring (command and transfer rings), closed by a
//! link TRB and marked by a cycle bit that flips at each wrap; and the event
//! ring the controller fills, with its segment table.
use vstd::prelude::*;
use crate::drivers::bus::usb::xhci::structs::{Trb, ErstEntry, with_cycle, with_type, cycle_bit, param_of, type_field};
use crate::drivers::bus::usb::xhci::regs::TRB_LINK;

verus! {

/// Default number of TRBs of a ring.
pub const DEFAULT_RING_SIZE: usize = 256;

/// Bytes of a TRB.
pub const TRB_BYTES: u64 = 16;

/// A producer ring.
pub struct Ring {
    pub trbs: Vec<Trb>,
    pub enqueue_index: usize,
    /// The producer cycle state.
    pub cycle: bool,
    pub phys_addr: u64,
}

/// `t` with its cycle bit set to `c`.
pub open spec fn stamped(t: Trb, c: bool) -> Trb {
    Trb { control: with_cycle(t.control, c), ..t }
}

/// The link TRB that closes a ring at `phys`, toggling the cycle, stamped
/// with cycle `c`.
pub open spec fn closing_link(phys: u64, c: bool) -> Trb {
    Trb {
        param_lo: (phys % 0x1_0000_0000) as u32,
        param_hi: (phys / 0x1_0000_0000) as u32,
        status: 0,
        control: with_cycle(with_type(0, TRB_LINK) | 2, c),
    }
}

/// The TRB that closes a ring is a link TRB back to the ring's start: its
/// type field is the link type, its toggle-cycle bit (bit 1) is set, its
/// cycle bit is the cycle it was stamped with, and its pointer is `phys`.
pub proof fn lemma_closing_link_fields(phys: u64, c: bool)
    ensures
        type_field(closing_link(phys, c).control) == TRB_LINK,
        closing_link(phys, c).control & 2 != 0,
        cycle_bit(closing_link(phys, c).control) == c,
        param_of(closing_link(phys, c)) == phys,
{
    let w: u32 = with_type(0, TRB_LINK) | 2;
    assert(w == 0x1802u32) by (bit_vector)
        requires w == ((0u32 & !0xFC00u32) | ((6u32 & 0x3F) << 10u32)) | 2;
    let ctl = closing_link(phys, c).control;
    if c {
        assert(ctl == w | 1);
        assert(((0x1802u32 | 1) >> 10u32) & 0x3F == 6 && (0x1802u32 | 1) & 2 != 0 && (0x1802u32 | 1) & 1 != 0) by (bit_vector);
    } else {
        assert(ctl == w & !1u32);
        assert(((0x1802u32 & !1u32) >> 10u32) & 0x3F == 6 && (0x1802u32 & !1u32) & 2 != 0 && (0x1802u32 & !1u32) & 1 == 0) by (bit_vector);
    }
    assert(phys == (phys % 0x1_0000_0000) + (phys / 0x1_0000_0000) * 0x1_0000_0000) by (nonlinear_arith);
}

impl Ring {
    /// At least two slots, and the next slot is before the last one, which
    /// the link TRB takes.
    pub open spec fn wf(&self) -> bool {
        &&& self.trbs@.len() >= 2
        &&& self.enqueue_index < self.trbs@.len() - 1
    }

    /// A ring of `size` zeroed TRBs at `phys_addr`, producer cycle 1.
    pub fn new(size: usize, phys_addr: u64) -> (r: Option<Ring>)
        ensures
            r matches Some(r) && r.trbs@.len() == size && r.enqueue_index == 0 && r.cycle && r.phys_addr == phys_addr
                && forall|k: int| 0 <= k < size ==> #[trigger] r.trbs@[k] == (Trb { param_lo: 0, param_hi: 0, status: 0, control: 0 }),
    {
        let mut trbs: Vec<Trb> = Vec::new();
        let mut i: usize = 0;
        while i < size
            invariant
                0 <= i <= size,
                trbs@.len() == i,
                forall|k: int| 0 <= k < i ==> #[trigger] trbs@[k] == (Trb { param_lo: 0, param_hi: 0, status: 0, control: 0 }),
            decreases size - i,
        {
            trbs.push(Trb::new());
            i = i + 1;
        }
        Some(Ring { trbs, enqueue_index: 0, cycle: true, phys_addr })
    }

    /// A ring of the default size.
    pub fn new_default(phys_addr: u64) -> (r: Option<Ring>)
        ensures
            r matches Some(r) && r.trbs@.len() == DEFAULT_RING_SIZE && r.enqueue_index == 0 && r.cycle && r.phys_addr == phys_addr,
    {
        Ring::new(DEFAULT_RING_SIZE, phys_addr)
    }

    /// Physical address of the ring.
    pub fn phys_addr(&self) -> (a: u64)
        ensures
            a == self.phys_addr,
    {
        self.phys_addr
    }

    /// Producer cycle state.
    pub fn cycle(&self) -> (c: bool)
        ensures
            c == self.cycle,
    {
        self.cycle
    }

    /// Number of slots.
    pub fn size(&self) -> (n: usize)
        ensures
            n == self.trbs@.len(),
    {
        self.trbs.len()
    }

    /// Places `trb`, stamped with the producer cycle, in the next slot and
    /// returns that slot. When the next slot would be the last one, a link
    /// TRB back to the start goes there, the ring wraps to slot 0 and the
    /// producer cycle flips.
    pub fn enqueue(&mut self, trb: Trb) -> (index: usize)
        requires
            old(self).wf(),
        ensures
            final(self).wf(),
            index == old(self).enqueue_index,
            final(self).phys_addr == old(self).phys_addr,
            final(self).trbs@.len() == old(self).trbs@.len(),
            ({
                let i = old(self).enqueue_index as int;
                let s = old(self).trbs@;
                let placed = s.update(i, stamped(trb, old(self).cycle));
                if i + 1 >= s.len() - 1 {
                    &&& final(self).trbs@ == placed.update(i + 1, closing_link(old(self).phys_addr, old(self).cycle))
                    &&& final(self).enqueue_index == 0
                    &&& final(self).cycle == !old(self).cycle
                } else {
                    &&& final(self).trbs@ == placed
                    &&& final(self).enqueue_index == i + 1
                    &&& final(self).cycle == old(self).cycle
                }
            }),
    {
        let index = self.enqueue_index;
        let _n = self.trbs.len();
        let mut t = trb;
        t.set_cycle(self.cycle);
        self.trbs.set(index, t);
        self.enqueue_index = index + 1;
        if self.enqueue_index >= self.trbs.len() - 1 {
            let mut link = Trb::link(self.phys_addr, true);
            link.set_cycle(self.cycle);
            self.trbs.set(self.enqueue_index, link);
            self.enqueue_index = 0;
            self.cycle = !self.cycle;
        }
        index
    }

    /// The TRB in slot `index`, if there is such a slot.
    pub fn get(&self, index: usize) -> (r: Option<&Trb>)
        ensures
            r.is_some() == (index < self.trbs@.len()),
            r matches Some(t) ==> *t == self.trbs@[index as int],
    {
        if index < self.trbs.len() {
            Some(&self.trbs[index])
        } else {
            None
        }
    }

    /// Replaces the TRB in slot `index`; `false` when there is no such slot.
    pub fn get_mut(&mut self, index: usize, trb: Trb) -> (done: bool)
        ensures
            done == (index < old(self).trbs@.len()),
            done ==> final(self).trbs@ == old(self).trbs@.update(index as int, trb),
            !done ==> final(self).trbs@ == old(self).trbs@,
            final(self).enqueue_index == old(self).enqueue_index,
            final(self).cycle == old(self).cycle,
            final(self).phys_addr == old(self).phys_addr,
    {
        if index < self.trbs.len() {
            self.trbs.set(index, trb);
            true
        } else {
            false
        }
    }

    /// Physical address of the next slot.
    pub fn enqueue_ptr(&self) -> (a: u64)
        requires
            self.phys_addr + self.enqueue_index * 16 <= u64::MAX,
        ensures
            a == self.phys_addr + self.enqueue_index * 16,
    {
        self.phys_addr + (self.enqueue_index as u64) * TRB_BYTES
    }
}

/// The event ring the controller fills, with a one-entry segment table.
pub struct EventRing {
    pub trbs: Vec<Trb>,
    pub erst: Vec<ErstEntry>,
    pub dequeue_index: usize,
    /// The consumer cycle state.
    pub cycle: bool,
    pub ring_phys: u64,
    pub erst_phys: u64,
}

impl EventRing {
    /// At least one slot, and the next slot is a slot.
    pub open spec fn wf(&self) -> bool {
        &&& self.trbs@.len() > 0
        &&& self.dequeue_index < self.trbs@.len()
    }

    /// A ring of `size` zeroed TRBs at `ring_phys`, with one segment table
    /// entry (at `erst_phys`) describing it; consumer cycle 1.
    pub fn new(size: usize, ring_phys: u64, erst_phys: u64) -> (r: Option<EventRing>)
        ensures
            r matches Some(r) && r.trbs@.len() == size && r.dequeue_index == 0 && r.cycle
                && r.ring_phys == ring_phys && r.erst_phys == erst_phys
                && r.erst@ == seq![ErstEntry { base_lo: (ring_phys % 0x1_0000_0000) as u32,
                    base_hi: (ring_phys / 0x1_0000_0000) as u32, size: size as u32, reserved: 0 }]
                && forall|k: int| 0 <= k < size ==> #[trigger] r.trbs@[k] == (Trb { param_lo: 0, param_hi: 0, status: 0, control: 0 }),
    {
        let mut trbs: Vec<Trb> = Vec::new();
        let mut i: usize = 0;
        while i < size
            invariant
                0 <= i <= size,
                trbs@.len() == i,
                forall|k: int| 0 <= k < i ==> #[trigger] trbs@[k] == (Trb { param_lo: 0, param_hi: 0, status: 0, control: 0 }),
            decreases size - i,
        {
            trbs.push(Trb::new());
            i = i + 1;
        }
        proof {
            crate::bitfields::lemma_u64_halves(ring_phys, 0, 0);
        }
        let mut erst: Vec<ErstEntry> = Vec::new();
        erst.push(ErstEntry { base_lo: ring_phys as u32, base_hi: (ring_phys >> 32u64) as u32, size: size as u32, reserved: 0 });
        Some(EventRing { trbs, erst, dequeue_index: 0, cycle: true, ring_phys, erst_phys })
    }

    /// Physical address of the segment table.
    pub fn erst_phys(&self) -> (a: u64)
        ensures
            a == self.erst_phys,
    {
        self.erst_phys
    }

    /// Number of segment table entries.
    pub fn erst_size(&self) -> (n: usize)
        ensures
            n == self.erst@.len(),
    {
        self.erst.len()
    }

    /// Physical address of the next slot to read.
    pub fn dequeue_ptr(&self) -> (a: u64)
        requires
            self.ring_phys + self.dequeue_index * 16 <= u64::MAX,
        ensures
            a == self.ring_phys + self.dequeue_index * 16,
    {
        self.ring_phys + (self.dequeue_index as u64) * TRB_BYTES
    }

    /// The next event, when the controller has written one (its cycle bit
    /// matches the consumer cycle); the ring then advances, wrapping to slot
    /// 0 and flipping the consumer cycle after the last slot.
    pub fn dequeue(&mut self) -> (r: Option<Trb>)
        requires
            old(self).wf(),
        ensures
            final(self).wf(),
            final(self).trbs@ == old(self).trbs@,
            final(self).erst@ == old(self).erst@,
            final(self).ring_phys == old(self).ring_phys,
            final(self).erst_phys == old(self).erst_phys,
            ({
                let i = old(self).dequeue_index as int;
                let t = old(self).trbs@[i];
                if cycle_bit(t.control) != old(self).cycle {
                    &&& r is None
                    &&& final(self).dequeue_index == old(self).dequeue_index
                    &&& final(self).cycle == old(self).cycle
                } else {
                    &&& r == Some(t)
                    &&& if i + 1 >= old(self).trbs@.len() {
                            final(self).dequeue_index == 0 && final(self).cycle == !old(self).cycle
                        } else {
                            final(self).dequeue_index == i + 1 && final(self).cycle == old(self).cycle
                        }
                }
            }),
    {
        let t = self.trbs[self.dequeue_index];
        if t.cycle() != self.cycle {
            return None;
        }
        let _n = self.trbs.len();
        self.dequeue_index = self.dequeue_index + 1;
        if self.dequeue_index >= self.trbs.len() {
            self.dequeue_index = 0;
            self.cycle = !self.cycle;
        }
        Some(t)
    }

    /// Whether an event is waiting.
    pub fn has_events(&self) -> (r: bool)
        requires
            self.wf(),
        ensures
            r == (cycle_bit(self.trbs@[self.dequeue_index as int].control) == self.cycle),
    {
        self.trbs[self.dequeue_index].cycle() == self.cycle
    }

    /// The controller's side: it writes event `trb` into slot `index`.
    pub fn post_event(&mut self, index: usize, trb: Trb)
        requires
            index < old(self).trbs@.len(),
        ensures
            final(self).trbs@ == old(self).trbs@.update(index as int, trb),
            final(self).dequeue_index == old(self).dequeue_index,
            final(self).cycle == old(self).cycle,
            final(self).erst@ == old(self).erst@,
            final(self).ring_phys == old(self).ring_phys,
            final(self).erst_phys == old(self).erst_phys,
    {
        self.trbs.set(index, trb);
    }
}

/// A producer ring owned by one user at a time.
pub struct SyncRing {
    pub inner: Ring,
}

impl SyncRing {
    /// Wraps a ring.
    pub fn new(ring: Ring) -> (s: SyncRing)
        ensures
            s.inner == ring,
    {
        SyncRing { inner: ring }
    }

    /// Enqueues on the inner ring.
    pub fn enqueue(&mut self, trb: Trb) -> (index: usize)
        requires
            old(self).inner.wf(),
        ensures
            final(self).inner.wf(),
            index == old(self).inner.enqueue_index,
    {
        self.inner.enqueue(trb)
    }

    /// Physical address of the inner ring.
    pub fn phys_addr(&self) -> (a: u64)
        ensures
            a == self.inner.phys_addr,
    {
        self.inner.phys_addr()
    }

    /// Producer cycle of the inner ring.
    pub fn cycle(&self) -> (c: bool)
        ensures
            c == self.inner.cycle,
    {
        self.inner.cycle()
    }

    /// Next slot address of the inner ring.
    pub fn enqueue_ptr(&self) -> (a: u64)
        requires
            self.inner.phys_addr + self.inner.enqueue_index * 16 <= u64::MAX,
        ensures
            a == self.inner.phys_addr + self.inner.enqueue_index * 16,
    {
        self.inner.enqueue_ptr()
    }
}

/// An event ring owned by one user at a time.
pub struct SyncEventRing {
    pub inner: EventRing,
}

impl SyncEventRing {
    /// Wraps an event ring.
    pub fn new(ring: EventRing) -> (s: SyncEventRing)
        ensures
            s.inner == ring,
    {
        SyncEventRing { inner: ring }
    }

    /// Dequeues from the inner ring.
    pub fn dequeue(&mut self) -> (r: Option<Trb>)
        requires
            old(self).inner.wf(),
        ensures
            final(self).inner.wf(),
            r.is_some() == (cycle_bit(old(self).inner.trbs@[old(self).inner.dequeue_index as int].control) == old(self).inner.cycle),
    {
        self.inner.dequeue()
    }

    /// Whether the inner ring has an event.
    pub fn has_events(&self) -> (r: bool)
        requires
            self.inner.wf(),
        ensures
            r == (cycle_bit(self.inner.trbs@[self.inner.dequeue_index as int].control) == self.inner.cycle),
    {
        self.inner.has_events()
    }

    /// Segment table address of the inner ring.
    pub fn erst_phys(&self) -> (a: u64)
        ensures
            a == self.inner.erst_phys,
    {
        self.inner.erst_phys()
    }

    /// Segment table size of the inner ring.
    pub fn erst_size(&self) -> (n: usize)
        ensures
            n == self.inner.erst@.len(),
    {
        self.inner.erst_size()
    }

    /// Next slot address of the inner ring.
    pub fn dequeue_ptr(&self) -> (a: u64)
        requires
            self.inner.ring_phys + self.inner.dequeue_index * 16 <= u64::MAX,
        ensures
            a == self.inner.ring_phys + self.inner.dequeue_index * 16,
    {
        self.inner.dequeue_ptr()
    }
}

/// A TRB enqueued on a producer ring carries the producer cycle of the
/// moment: the consumer, whose cycle matches, sees it as new.
pub proof fn lemma_enqueued_trb_is_visible(t: Trb, c: bool)
    ensures
        cycle_bit(stamped(t, c).control) == c,
{
    crate::drivers::bus::usb::xhci::structs::lemma_trb_fields_independent(t.control, 0, c);
}

} // verus!
