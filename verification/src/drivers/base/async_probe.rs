//! Asynchronous probing: probes that take long are recorded as pending and
//! checked later instead of blocking the boot.
use vstd::prelude::*;
use crate::drivers::base::device::DeviceId;
use crate::drivers::base::driver::DriverError;
use crate::seqs::{lemma_filter_push, lemma_take_succ};

verus! {

/// Status of an asynchronous probe.
#[derive(Debug, Clone, Copy, PartialEq, Eq, Structural)]
pub enum ProbeStatus {
    NotStarted,
    Pending,
    Success,
    Failed(DriverError),
    Cancelled,
}

/// A probe in progress.
#[derive(Debug, Clone, Copy)]
pub struct AsyncProbe {
    pub device_id: DeviceId,
    pub driver_name: &'static str,
    pub status: ProbeStatus,
    pub started_at: u64,
    pub timeout_ticks: u64,
    pub check_count: u32,
}

/// The probes in progress.
pub struct AsyncProbeManager {
    pub pending: Vec<AsyncProbe>,
    pub initialized: bool,
}

/// Default probe timeout, in ticks.
pub const DEFAULT_PROBE_TIMEOUT: u64 = 5000;

/// Interval between checks, in ticks.
pub const PROBE_CHECK_INTERVAL: u64 = 100;

/// The probes left once every probe of `id` is gone.
pub open spec fn without_device(s: Seq<AsyncProbe>, id: DeviceId) -> Seq<AsyncProbe> {
    s.filter(|p: AsyncProbe| p.device_id != id)
}

/// Status of the first probe of `id`, `NotStarted` when there is none.
pub open spec fn status_of(s: Seq<AsyncProbe>, id: DeviceId) -> ProbeStatus
    decreases s.len(),
{
    if s.len() == 0 {
        ProbeStatus::NotStarted
    } else if s[0].device_id == id {
        s[0].status
    } else {
        status_of(s.drop_first(), id)
    }
}

/// A manager with no probe, initialized.
pub fn init() -> (m: AsyncProbeManager)
    ensures
        m.pending@.len() == 0,
        m.initialized,
{
    AsyncProbeManager { pending: Vec::new(), initialized: true }
}

/// Records a pending probe of `device_id` by `driver_name`; the probe id is
/// the device id.
pub fn start_probe(mgr: &mut AsyncProbeManager, device_id: DeviceId, driver_name: &'static str, timeout: Option<u64>) -> (probe_id: u64)
    ensures
        probe_id == device_id.0,
        final(mgr).pending@ == old(mgr).pending@.push(AsyncProbe {
            device_id,
            driver_name,
            status: ProbeStatus::Pending,
            started_at: 0,
            timeout_ticks: match timeout { Some(t) => t, None => DEFAULT_PROBE_TIMEOUT },
            check_count: 0,
        }),
        final(mgr).initialized == old(mgr).initialized,
{
    let timeout_ticks = match timeout {
        Some(t) => t,
        None => DEFAULT_PROBE_TIMEOUT,
    };
    let probe = AsyncProbe {
        device_id,
        driver_name,
        status: ProbeStatus::Pending,
        started_at: 0,
        timeout_ticks,
        check_count: 0,
    };
    mgr.pending.push(probe);
    device_id.0
}

/// Status of the probe of `device_id`; `NotStarted` when none is recorded.
pub fn check_status(mgr: &AsyncProbeManager, device_id: DeviceId) -> (s: ProbeStatus)
    ensures
        s == status_of(mgr.pending@, device_id),
{
    let mut i: usize = 0;
    assert(mgr.pending@.skip(0) =~= mgr.pending@);
    while i < mgr.pending.len()
        invariant
            0 <= i <= mgr.pending@.len(),
            status_of(mgr.pending@, device_id) == status_of(mgr.pending@.skip(i as int), device_id),
        decreases mgr.pending@.len() - i,
    {
        assert(mgr.pending@.skip(i as int).drop_first() =~= mgr.pending@.skip(i + 1));
        if mgr.pending[i].device_id == device_id {
            return mgr.pending[i].status;
        }
        i = i + 1;
    }
    ProbeStatus::NotStarted
}

fn remove_device(mgr: &mut AsyncProbeManager, device_id: DeviceId)
    ensures
        final(mgr).pending@ == without_device(old(mgr).pending@, device_id),
        final(mgr).initialized == old(mgr).initialized,
{
    let ghost orig = mgr.pending@;
    let ghost p = |q: AsyncProbe| q.device_id != device_id;
    let mut kept: Vec<AsyncProbe> = Vec::new();
    let mut i: usize = 0;
    while i < mgr.pending.len()
        invariant
            0 <= i <= mgr.pending@.len(),
            mgr.pending@ == orig,
            p == (|q: AsyncProbe| q.device_id != device_id),
            kept@ == orig.take(i as int).filter(p),
        decreases orig.len() - i,
    {
        let q = mgr.pending[i];
        proof {
            lemma_take_succ(orig, i as int);
            lemma_filter_push(orig.take(i as int), q, p);
        }
        assert(q == orig[i as int]);
        assert(p(q) == (q.device_id != device_id));
        if q.device_id != device_id {
            kept.push(q);
        }
        i = i + 1;
    }
    assert(orig.take(orig.len() as int) =~= orig);
    mgr.pending = kept;
}

/// Records that the probe of `device_id` succeeded: it leaves the pending list.
pub fn complete_probe(mgr: &mut AsyncProbeManager, device_id: DeviceId)
    ensures
        final(mgr).pending@ == without_device(old(mgr).pending@, device_id),
        final(mgr).initialized == old(mgr).initialized,
{
    remove_device(mgr, device_id);
}

/// Records that the probe of `device_id` failed: it leaves the pending list.
pub fn fail_probe(mgr: &mut AsyncProbeManager, device_id: DeviceId, err: DriverError)
    ensures
        final(mgr).pending@ == without_device(old(mgr).pending@, device_id),
        final(mgr).initialized == old(mgr).initialized,
{
    remove_device(mgr, device_id);
}

/// Cancels the probe of `device_id`: it leaves the pending list.
pub fn cancel_probe(mgr: &mut AsyncProbeManager, device_id: DeviceId)
    ensures
        final(mgr).pending@ == without_device(old(mgr).pending@, device_id),
        final(mgr).initialized == old(mgr).initialized,
{
    remove_device(mgr, device_id);
}

/// The pending probes.
pub fn get_pending(mgr: &AsyncProbeManager) -> (v: Vec<AsyncProbe>)
    ensures
        v@ == mgr.pending@,
{
    let mut v: Vec<AsyncProbe> = Vec::new();
    let mut i: usize = 0;
    while i < mgr.pending.len()
        invariant
            0 <= i <= mgr.pending@.len(),
            v@ == mgr.pending@.take(i as int),
        decreases mgr.pending@.len() - i,
    {
        proof { lemma_take_succ(mgr.pending@, i as int); }
        v.push(mgr.pending[i]);
        i = i + 1;
    }
    assert(mgr.pending@.take(mgr.pending@.len() as int) =~= mgr.pending@);
    v
}

/// Number of pending probes.
pub fn pending_count(mgr: &AsyncProbeManager) -> (n: usize)
    ensures
        n == mgr.pending@.len(),
{
    mgr.pending.len()
}

/// The probe after one more check.
pub open spec fn checked_once(p: AsyncProbe) -> AsyncProbe {
    AsyncProbe { check_count: (p.check_count + 1) as u32, ..p }
}

/// One periodic pass: every probe is checked once more, then the probes no
/// longer pending leave the list.
pub fn tick(mgr: &mut AsyncProbeManager)
    requires
        forall|k: int| 0 <= k < old(mgr).pending@.len() ==> #[trigger] old(mgr).pending@[k].check_count < u32::MAX,
    ensures
        final(mgr).pending@ == old(mgr).pending@.map_values(|p: AsyncProbe| checked_once(p)).filter(
            |p: AsyncProbe| p.status == ProbeStatus::Pending),
        final(mgr).initialized == old(mgr).initialized,
{
    let ghost orig = mgr.pending@;
    let ghost checked = orig.map_values(|p: AsyncProbe| checked_once(p));
    let ghost pred = |p: AsyncProbe| p.status == ProbeStatus::Pending;
    let mut kept: Vec<AsyncProbe> = Vec::new();
    let mut i: usize = 0;
    while i < mgr.pending.len()
        invariant
            0 <= i <= mgr.pending@.len(),
            mgr.pending@ == orig,
            checked == orig.map_values(|p: AsyncProbe| checked_once(p)),
            forall|k: int| 0 <= k < orig.len() ==> #[trigger] orig[k].check_count < u32::MAX,
            pred == (|p: AsyncProbe| p.status == ProbeStatus::Pending),
            kept@ == checked.take(i as int).filter(pred),
        decreases orig.len() - i,
    {
        let mut q = mgr.pending[i];
        q.check_count = q.check_count + 1;
        proof {
            lemma_take_succ(checked, i as int);
            lemma_filter_push(checked.take(i as int), q, pred);
        }
        if q.status == ProbeStatus::Pending {
            kept.push(q);
        }
        i = i + 1;
    }
    assert(checked.take(checked.len() as int) =~= checked);
    mgr.pending = kept;
}

/// Returns at once: probes complete on their own ticks.
pub fn wait_all_complete(mgr: &AsyncProbeManager) {
}

/// A probe that completed is no longer reported: its status reads
/// `NotStarted` afterwards.
pub proof fn lemma_completed_probe_not_started(s: Seq<AsyncProbe>, id: DeviceId)
    ensures
        status_of(without_device(s, id), id) == ProbeStatus::NotStarted,
{
    let p = |q: AsyncProbe| q.device_id != id;
    let f = s.filter(p);
    assert forall|k: int| 0 <= k < f.len() implies #[trigger] f[k].device_id != id by {
        s.lemma_filter_pred(p, k);
    }
    lemma_status_absent(f, id);
}

proof fn lemma_status_absent(s: Seq<AsyncProbe>, id: DeviceId)
    requires
        forall|k: int| 0 <= k < s.len() ==> #[trigger] s[k].device_id != id,
    ensures
        status_of(s, id) == ProbeStatus::NotStarted,
    decreases s.len(),
{
    if s.len() > 0 {
        assert(s[0].device_id != id);
        assert forall|k: int| 0 <= k < s.drop_first().len() implies #[trigger] s.drop_first()[k].device_id != id by {
            assert(s.drop_first()[k] == s[k + 1]);
        }
        lemma_status_absent(s.drop_first(), id);
    }
}

/// Every recorded probe is pending: probes are recorded pending and leave
/// the list once they are not.
pub open spec fn all_pending(s: Seq<AsyncProbe>) -> bool {
    forall|k: int| 0 <= k < s.len() ==> (#[trigger] s[k]).status == ProbeStatus::Pending
}

proof fn lemma_status_of_push(s: Seq<AsyncProbe>, p: AsyncProbe)
    requires
        all_pending(s),
        p.status == ProbeStatus::Pending,
    ensures
        status_of(s.push(p), p.device_id) == ProbeStatus::Pending,
    decreases s.len(),
{
    if s.len() > 0 {
        if s[0].device_id != p.device_id {
            assert(s.push(p).drop_first() =~= s.drop_first().push(p));
            assert forall|k: int| 0 <= k < s.drop_first().len() implies (#[trigger] s.drop_first()[k]).status == ProbeStatus::Pending by {
                assert(s.drop_first()[k] == s[k + 1]);
            }
            lemma_status_of_push(s.drop_first(), p);
        }
    }
}

/// A started probe is reported pending: when every recorded probe is
/// pending, starting one (which records it pending) keeps them all pending,
/// and a check of its device reads `Pending`.
pub proof fn lemma_started_probe_is_pending(s: Seq<AsyncProbe>, p: AsyncProbe)
    requires
        all_pending(s),
        p.status == ProbeStatus::Pending,
    ensures
        all_pending(s.push(p)),
        status_of(s.push(p), p.device_id) == ProbeStatus::Pending,
{
    lemma_status_of_push(s, p);
}

/// Completion, failure, cancellation and the periodic pass keep every
/// recorded probe pending.
pub proof fn lemma_pending_kept(s: Seq<AsyncProbe>, id: DeviceId)
    requires
        all_pending(s),
    ensures
        all_pending(without_device(s, id)),
        all_pending(s.map_values(|p: AsyncProbe| checked_once(p)).filter(|p: AsyncProbe| p.status == ProbeStatus::Pending)),
{
    let keep = |q: AsyncProbe| q.device_id != id;
    let f = s.filter(keep);
    assert forall|k: int| 0 <= k < f.len() implies (#[trigger] f[k]).status == ProbeStatus::Pending by {
        assert(f.contains(f[k]));
        s.lemma_filter_contains_rev(keep, f[k]);
        let j = choose|j: int| 0 <= j < s.len() && s[j] == f[k];
        assert(s[j].status == ProbeStatus::Pending);
    }
    let pend = |q: AsyncProbe| q.status == ProbeStatus::Pending;
    let g = s.map_values(|p: AsyncProbe| checked_once(p)).filter(pend);
    assert forall|k: int| 0 <= k < g.len() implies (#[trigger] g[k]).status == ProbeStatus::Pending by {
        s.map_values(|p: AsyncProbe| checked_once(p)).lemma_filter_pred(pend, k);
    }
}

} // verus!
