//! Resource arbitration: I/O ports, MMIO ranges, IRQ lines and DMA channels
//! are handed to one owner at a time.
use vstd::prelude::*;
use crate::drivers::base::device::DeviceId;
use crate::seqs::{lemma_filter_push, lemma_take_succ};

verus! {

/// A physical resource.
#[derive(Debug, Clone, Copy, PartialEq, Eq, Structural)]
pub enum ResourceType {
    IoPort { port: u16, len: u16 },
    Mmio { start: u64, len: u64 },
    Irq { line: u8 },
    DmaChannel { channel: u8 },
}

/// A resource handed out.
#[derive(Debug, Clone, Copy)]
pub struct ResourceRecord {
    pub res_type: ResourceType,
    pub name: &'static str,
    pub owner: Option<DeviceId>,
}

/// The resources handed out.
pub struct ResourceManager {
    pub allocated: Vec<ResourceRecord>,
}

/// The end of a range resource fits its integer type.
pub open spec fn fits(r: ResourceType) -> bool {
    match r {
        ResourceType::IoPort { port, len } => port + len <= u16::MAX,
        ResourceType::Mmio { start, len } => start + len <= u64::MAX,
        _ => true,
    }
}

/// Two resources collide: overlapping ranges of the same kind, or the same
/// IRQ line or DMA channel.
pub open spec fn collide(a: ResourceType, b: ResourceType) -> bool {
    match (a, b) {
        (ResourceType::IoPort { port: p1, len: l1 }, ResourceType::IoPort { port: p2, len: l2 }) =>
            p1 < p2 + l2 && p2 < p1 + l1,
        (ResourceType::Mmio { start: s1, len: n1 }, ResourceType::Mmio { start: s2, len: n2 }) =>
            s1 < s2 + n2 && s2 < s1 + n1,
        (ResourceType::Irq { line: i1 }, ResourceType::Irq { line: i2 }) => i1 == i2,
        (ResourceType::DmaChannel { channel: c1 }, ResourceType::DmaChannel { channel: c2 }) => c1 == c2,
        _ => false,
    }
}

/// Every resource handed out fits its type.
pub open spec fn all_fit(s: Seq<ResourceRecord>) -> bool {
    forall|k: int| 0 <= k < s.len() ==> #[trigger] fits(s[k].res_type)
}

/// No two resources handed out collide.
pub open spec fn exclusive(s: Seq<ResourceRecord>) -> bool {
    forall|i: int, j: int| 0 <= i < s.len() && 0 <= j < s.len() && i != j ==> !collide(#[trigger] s[i].res_type, #[trigger] s[j].res_type)
}

impl ResourceManager {
    /// No resource handed out.
    pub fn new() -> (m: ResourceManager)
        ensures
            m.allocated@.len() == 0,
    {
        ResourceManager { allocated: Vec::new() }
    }

    /// Reserves `res` for `owner` unless it collides with a resource already
    /// handed out; `true` when reserved.
    pub fn request(&mut self, res_type: ResourceType, name: &'static str, owner: Option<DeviceId>) -> (ok: bool)
        requires
            fits(res_type),
            all_fit(old(self).allocated@),
        ensures
            ok == (forall|k: int| 0 <= k < old(self).allocated@.len() ==> !collide(#[trigger] old(self).allocated@[k].res_type, res_type)),
            ok ==> final(self).allocated@ == old(self).allocated@.push(ResourceRecord { res_type, name, owner }),
            !ok ==> final(self).allocated@ == old(self).allocated@,
    {
        let mut i: usize = 0;
        while i < self.allocated.len()
            invariant
                0 <= i <= self.allocated@.len(),
                all_fit(self.allocated@),
                fits(res_type),
                forall|k: int| 0 <= k < i ==> !collide(#[trigger] self.allocated@[k].res_type, res_type),
            decreases self.allocated@.len() - i,
        {
            let existing = self.allocated[i].res_type;
            assert(fits(self.allocated@[i as int].res_type));
            if Self::conflicts(&existing, &res_type) {
                return false;
            }
            i = i + 1;
        }
        self.allocated.push(ResourceRecord { res_type, name, owner });
        true
    }

    /// Releases every reservation of exactly `res_type`.
    pub fn release(&mut self, res_type: ResourceType)
        ensures
            final(self).allocated@ == old(self).allocated@.filter(|r: ResourceRecord| r.res_type != res_type),
    {
        let ghost orig = self.allocated@;
        let ghost p = |r: ResourceRecord| r.res_type != res_type;
        let mut kept: Vec<ResourceRecord> = Vec::new();
        let mut i: usize = 0;
        while i < self.allocated.len()
            invariant
                0 <= i <= self.allocated@.len(),
                self.allocated@ == orig,
                p == (|r: ResourceRecord| r.res_type != res_type),
                kept@ == orig.take(i as int).filter(p),
            decreases orig.len() - i,
        {
            let r = self.allocated[i];
            proof {
                lemma_take_succ(orig, i as int);
                lemma_filter_push(orig.take(i as int), r, p);
            }
            if r.res_type != res_type {
                kept.push(r);
            }
            i = i + 1;
        }
        assert(orig.take(orig.len() as int) =~= orig);
        self.allocated = kept;
    }

    /// Whether two resources collide.
    fn conflicts(a: &ResourceType, b: &ResourceType) -> (r: bool)
        requires
            fits(*a),
            fits(*b),
        ensures
            r == collide(*a, *b),
    {
        match (a, b) {
            (ResourceType::IoPort { port: p1, len: l1 }, ResourceType::IoPort { port: p2, len: l2 }) =>
                *p1 < *p2 + *l2 && *p2 < *p1 + *l1,
            (ResourceType::Mmio { start: s1, len: n1 }, ResourceType::Mmio { start: s2, len: n2 }) =>
                *s1 < *s2 + *n2 && *s2 < *s1 + *n1,
            (ResourceType::Irq { line: i1 }, ResourceType::Irq { line: i2 }) => *i1 == *i2,
            (ResourceType::DmaChannel { channel: c1 }, ResourceType::DmaChannel { channel: c2 }) => *c1 == *c2,
            _ => false,
        }
    }
}

/// Reserves `res` for `owner`; `true` when it was free.
pub fn request_resource(mgr: &mut ResourceManager, res: ResourceType, name: &'static str, owner: DeviceId) -> (ok: bool)
    requires
        fits(res),
        all_fit(old(mgr).allocated@),
    ensures
        ok == (forall|k: int| 0 <= k < old(mgr).allocated@.len() ==> !collide(#[trigger] old(mgr).allocated@[k].res_type, res)),
        ok ==> final(mgr).allocated@ == old(mgr).allocated@.push(ResourceRecord { res_type: res, name, owner: Some(owner) }),
        !ok ==> final(mgr).allocated@ == old(mgr).allocated@,
{
    mgr.request(res, name, Some(owner))
}

/// Releases `res`.
pub fn release_resource(mgr: &mut ResourceManager, res: ResourceType)
    ensures
        final(mgr).allocated@ == old(mgr).allocated@.filter(|r: ResourceRecord| r.res_type != res),
{
    mgr.release(res);
}

/// Collision is symmetric: which of two resources was reserved first does
/// not change whether the other is refused. Two non-empty port ranges, or
/// two non-empty memory ranges, collide exactly when the half-open ranges
/// intersect; two IRQs or
/// two DMA channels when they are the same; resources of different kinds
/// never.
pub proof fn lemma_collide_symmetric(a: ResourceType, b: ResourceType)
    ensures
        collide(a, b) == collide(b, a),
        a is IoPort && b is IoPort && a->IoPort_len > 0 && b->IoPort_len > 0 ==> (collide(a, b) <==> ranges_meet(a->port as int, a->IoPort_len as int, b->port as int, b->IoPort_len as int)),
        a is Mmio && b is Mmio && a->Mmio_len > 0 && b->Mmio_len > 0 ==> (collide(a, b) <==> ranges_meet(a->start as int, a->Mmio_len as int, b->start as int, b->Mmio_len as int)),
        a is Irq && b is Irq ==> (collide(a, b) <==> a->line == b->line),
        a is DmaChannel && b is DmaChannel ==> (collide(a, b) <==> a->channel == b->channel),
        !same_kind(a, b) ==> !collide(a, b),
{
    match (a, b) {
        (ResourceType::IoPort { port: p1, len: l1 }, ResourceType::IoPort { port: p2, len: l2 }) => {
            if p1 < p2 + l2 && p2 < p1 + l1 && l1 > 0 && l2 > 0 {
                let x: int = if p1 < p2 { p2 as int } else { p1 as int };
                assert(in_range(x, p1 as int, l1 as int) && in_range(x, p2 as int, l2 as int));
            }
            if ranges_meet(p1 as int, l1 as int, p2 as int, l2 as int) {
                let x = choose|x: int| #[trigger] in_range(x, p1 as int, l1 as int) && in_range(x, p2 as int, l2 as int);
            }
        },
        (ResourceType::Mmio { start: s1, len: n1 }, ResourceType::Mmio { start: s2, len: n2 }) => {
            if s1 < s2 + n2 && s2 < s1 + n1 && n1 > 0 && n2 > 0 {
                let x: int = if s1 < s2 { s2 as int } else { s1 as int };
                assert(in_range(x, s1 as int, n1 as int) && in_range(x, s2 as int, n2 as int));
            }
            if ranges_meet(s1 as int, n1 as int, s2 as int, n2 as int) {
                let x = choose|x: int| #[trigger] in_range(x, s1 as int, n1 as int) && in_range(x, s2 as int, n2 as int);
            }
        },
        _ => {},
    }
}

/// The half-open ranges `[s1, s1 + n1)` and `[s2, s2 + n2)` share a point.
pub open spec fn ranges_meet(s1: int, n1: int, s2: int, n2: int) -> bool {
    exists|x: int| #[trigger] in_range(x, s1, n1) && in_range(x, s2, n2)
}

/// `x` lies in `[s, s + n)`.
pub open spec fn in_range(x: int, s: int, n: int) -> bool {
    s <= x < s + n
}

/// Two resources are of the same kind.
pub open spec fn same_kind(a: ResourceType, b: ResourceType) -> bool {
    ||| (a is IoPort && b is IoPort)
    ||| (a is Mmio && b is Mmio)
    ||| (a is Irq && b is Irq)
    ||| (a is DmaChannel && b is DmaChannel)
}

/// A granted request keeps the reservations exclusive: the new resource
/// collides with none of those already handed out.
pub proof fn lemma_request_keeps_exclusive(s: Seq<ResourceRecord>, rec: ResourceRecord)
    requires
        exclusive(s),
        forall|k: int| 0 <= k < s.len() ==> !collide(#[trigger] s[k].res_type, rec.res_type),
    ensures
        exclusive(s.push(rec)),
{
    let t = s.push(rec);
    assert forall|i: int, j: int| 0 <= i < t.len() && 0 <= j < t.len() && i != j implies !collide(#[trigger] t[i].res_type, #[trigger] t[j].res_type) by {
        if i == s.len() {
            lemma_collide_symmetric(t[i].res_type, t[j].res_type);
            assert(t[j] == s[j]);
        } else if j == s.len() {
            assert(t[i] == s[i]);
        } else {
            assert(t[i] == s[i] && t[j] == s[j]);
        }
    }
}

/// Releasing keeps the reservations exclusive.
pub proof fn lemma_release_keeps_exclusive(s: Seq<ResourceRecord>, res: ResourceType)
    requires
        exclusive(s),
    ensures
        exclusive(s.filter(|r: ResourceRecord| r.res_type != res)),
    decreases s.len(),
{
    let p = |r: ResourceRecord| r.res_type != res;
    if s.len() > 0 {
        let init = s.drop_last();
        assert forall|i: int, j: int| 0 <= i < init.len() && 0 <= j < init.len() && i != j implies !collide(#[trigger] init[i].res_type, #[trigger] init[j].res_type) by {
            assert(init[i] == s[i] && init[j] == s[j]);
        }
        lemma_release_keeps_exclusive(init, res);
        reveal(Seq::filter);
        let f = init.filter(p);
        if p(s.last()) {
            assert forall|k: int| 0 <= k < f.len() implies !collide(#[trigger] f[k].res_type, s.last().res_type) by {
                assert(f.contains(f[k]));
                init.lemma_filter_contains_rev(p, f[k]);
                let m = choose|m: int| 0 <= m < init.len() && init[m] == f[k];
                assert(s[m] == init[m]);
                assert(m != s.len() - 1);
            }
            lemma_request_keeps_exclusive(f, s.last());
        }
    }
}

} // verus!
