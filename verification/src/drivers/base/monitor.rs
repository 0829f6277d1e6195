//! Health monitor: counts the errors of each device and grades its health.
use vstd::prelude::*;
use crate::drivers::base::device::DeviceId;
use crate::drivers::base::driver::{DriverError, error_is_critical};

verus! {

/// Degradation levels of a device.
#[derive(Debug, Clone, Copy, PartialEq, Eq, Structural)]
pub enum HealthState {
    Healthy,
    Degraded,
    Failing,
    Dead,
}

/// Health record of one device.
#[derive(Debug, Clone, Copy)]
pub struct DeviceMonitor {
    pub device_id: DeviceId,
    pub state: HealthState,
    pub error_count: u32,
    pub critical_errors: u32,
    pub last_error: Option<DriverError>,
    pub last_error_time: u64,
}

/// Health records of all devices.
pub struct MonitorTable {
    pub monitors: Vec<DeviceMonitor>,
}

/// Number of errors from which a device is failing.
pub const ERROR_THRESHOLD_FAILING: u32 = 10;

/// Number of critical errors from which a device is dead.
pub const CRITICAL_THRESHOLD_DEAD: u32 = 3;

/// Errors the monitor counts as critical: the critical errors of
/// `DriverError::is_critical`, which weigh more in the health grade.
pub open spec fn monitor_critical(e: DriverError) -> bool {
    error_is_critical(e)
}

/// Health grade of a device with the given error counts.
pub open spec fn grade(errors: int, critical: int) -> HealthState {
    if critical >= CRITICAL_THRESHOLD_DEAD {
        HealthState::Dead
    } else if errors >= ERROR_THRESHOLD_FAILING {
        HealthState::Failing
    } else if errors > 0 {
        HealthState::Degraded
    } else {
        HealthState::Healthy
    }
}

/// Severity rank of a health state.
pub open spec fn severity(h: HealthState) -> int {
    match h {
        HealthState::Healthy => 0,
        HealthState::Degraded => 1,
        HealthState::Failing => 2,
        HealthState::Dead => 3,
    }
}

/// Index of the first record of `id`, or the length when there is none.
pub open spec fn monitor_index(s: Seq<DeviceMonitor>, id: DeviceId) -> int
    decreases s.len(),
{
    if s.len() == 0 {
        0
    } else if s[0].device_id == id {
        0
    } else {
        1 + monitor_index(s.drop_first(), id)
    }
}

/// Every record's state is the grade of its counts.
pub open spec fn graded(s: Seq<DeviceMonitor>) -> bool {
    forall|k: int| 0 <= k < s.len() ==> #[trigger] s[k].state == grade(s[k].error_count as int, s[k].critical_errors as int)
}

proof fn lemma_monitor_index(s: Seq<DeviceMonitor>, id: DeviceId, i: int)
    requires
        0 <= i <= s.len(),
        forall|k: int| 0 <= k < i ==> #[trigger] s[k].device_id != id,
        i == s.len() || s[i].device_id == id,
    ensures
        monitor_index(s, id) == i,
    decreases s.len(),
{
    if s.len() > 0 && i > 0 {
        assert forall|k: int| 0 <= k < i - 1 implies #[trigger] s.drop_first()[k].device_id != id by {
            assert(s.drop_first()[k] == s[k + 1]);
        }
        lemma_monitor_index(s.drop_first(), id, i - 1);
    }
}

/// An empty health table.
pub fn init() -> (t: MonitorTable)
    ensures
        t.monitors@.len() == 0,
{
    MonitorTable { monitors: Vec::new() }
}

/// The record of `id` before an error: its own, or a fresh healthy one.
pub open spec fn record_before_error(s: Seq<DeviceMonitor>, id: DeviceId) -> DeviceMonitor {
    let i = monitor_index(s, id);
    if i < s.len() {
        s[i]
    } else {
        DeviceMonitor { device_id: id, state: HealthState::Healthy, error_count: 0, critical_errors: 0,
            last_error: None, last_error_time: 0 }
    }
}

/// The record of `id` after error `err`: one more error (and one more
/// critical one for a critical error), `err` as the last error, and the
/// health graded from the counts.
pub open spec fn record_after_error(s: Seq<DeviceMonitor>, id: DeviceId, err: DriverError) -> DeviceMonitor {
    let before = record_before_error(s, id);
    let errors = before.error_count + 1;
    let critical = before.critical_errors + (if monitor_critical(err) { 1int } else { 0int });
    DeviceMonitor {
        error_count: errors as u32,
        critical_errors: critical as u32,
        last_error: Some(err),
        state: grade(errors, critical),
        ..before
    }
}

/// The table after error `err` of `id`: its record updated in place, or
/// appended when it had none.
pub open spec fn monitors_after_error(s: Seq<DeviceMonitor>, id: DeviceId, err: DriverError) -> Seq<DeviceMonitor> {
    let i = monitor_index(s, id);
    if i < s.len() {
        s.update(i, record_after_error(s, id, err))
    } else {
        s.push(record_after_error(s, id, err))
    }
}

/// Error `err` of `id` turns its health to `Failing` or `Dead` from another
/// state.
pub open spec fn error_escalates(s: Seq<DeviceMonitor>, id: DeviceId, err: DriverError) -> bool {
    let before = record_before_error(s, id);
    let after = record_after_error(s, id, err);
    after.state != before.state && (after.state == HealthState::Failing || after.state == HealthState::Dead)
}

/// The counters of `id`'s record can count one more error.
pub open spec fn has_room(s: Seq<DeviceMonitor>, id: DeviceId) -> bool {
    &&& record_before_error(s, id).error_count < u32::MAX
    &&& record_before_error(s, id).critical_errors < u32::MAX
}

/// Records an error of device `id` (creating its record when needed) and
/// regrades its health. Returns `true` when the health just changed to
/// `Failing` or `Dead`: the failure must then be reported to recovery and an
/// error event emitted.
pub fn record_error(table: &mut MonitorTable, id: DeviceId, err: DriverError) -> (escalate: bool)
    requires
        has_room(old(table).monitors@, id),
    ensures
        final(table).monitors@ == monitors_after_error(old(table).monitors@, id, err),
        escalate == error_escalates(old(table).monitors@, id, err),
{
    let mut i: usize = 0;
    while i < table.monitors.len() && table.monitors[i].device_id != id
        invariant
            0 <= i <= table.monitors@.len(),
            forall|k: int| 0 <= k < i ==> #[trigger] table.monitors@[k].device_id != id,
        decreases table.monitors@.len() - i,
    {
        i = i + 1;
    }
    proof {
        lemma_monitor_index(table.monitors@, id, i as int);
    }
    if i == table.monitors.len() {
        table.monitors.push(DeviceMonitor {
            device_id: id,
            state: HealthState::Healthy,
            error_count: 0,
            critical_errors: 0,
            last_error: None,
            last_error_time: 0,
        });
    }
    let mut m = table.monitors[i];
    m.error_count = m.error_count + 1;
    m.last_error = Some(err);
    let is_critical = err.is_critical();
    if is_critical {
        m.critical_errors = m.critical_errors + 1;
    }
    let old_state = m.state;
    if m.critical_errors >= CRITICAL_THRESHOLD_DEAD {
        m.state = HealthState::Dead;
    } else if m.error_count >= ERROR_THRESHOLD_FAILING {
        m.state = HealthState::Failing;
    } else if m.error_count > 0 {
        m.state = HealthState::Degraded;
    }
    table.monitors.set(i, m);
    m.state != old_state && (m.state == HealthState::Failing || m.state == HealthState::Dead)
}

/// Health of device `id`; `Healthy` when it never reported an error.
pub fn get_health(table: &MonitorTable, id: DeviceId) -> (h: HealthState)
    ensures
        ({
            let s = table.monitors@;
            let i = monitor_index(s, id);
            h == (if i < s.len() { s[i].state } else { HealthState::Healthy })
        }),
{
    let mut i: usize = 0;
    while i < table.monitors.len() && table.monitors[i].device_id != id
        invariant
            0 <= i <= table.monitors@.len(),
            forall|k: int| 0 <= k < i ==> #[trigger] table.monitors@[k].device_id != id,
        decreases table.monitors@.len() - i,
    {
        i = i + 1;
    }
    proof {
        lemma_monitor_index(table.monitors@, id, i as int);
    }
    if i < table.monitors.len() {
        table.monitors[i].state
    } else {
        HealthState::Healthy
    }
}

/// Number of records in state `h`.
pub open spec fn count_in_state(s: Seq<DeviceMonitor>, h: HealthState) -> nat
    decreases s.len(),
{
    if s.len() == 0 {
        0
    } else {
        count_in_state(s.drop_last(), h) + if s.last().state == h { 1nat } else { 0nat }
    }
}

/// How many monitored devices are in each health state.
#[derive(Debug, Clone, Copy)]
pub struct HealthSummary {
    pub healthy: usize,
    pub degraded: usize,
    pub failing: usize,
    pub dead: usize,
}

proof fn lemma_counts_bounded(s: Seq<DeviceMonitor>)
    ensures
        count_in_state(s, HealthState::Healthy) + count_in_state(s, HealthState::Degraded)
            + count_in_state(s, HealthState::Failing) + count_in_state(s, HealthState::Dead) == s.len(),
    decreases s.len(),
{
    if s.len() > 0 {
        lemma_counts_bounded(s.drop_last());
    }
}

/// Counts the monitored devices by health state.
pub fn get_health_summary(table: &MonitorTable) -> (h: HealthSummary)
    ensures
        h.healthy == count_in_state(table.monitors@, HealthState::Healthy),
        h.degraded == count_in_state(table.monitors@, HealthState::Degraded),
        h.failing == count_in_state(table.monitors@, HealthState::Failing),
        h.dead == count_in_state(table.monitors@, HealthState::Dead),
        h.healthy + h.degraded + h.failing + h.dead == table.monitors@.len(),
{
    let mut h = HealthSummary { healthy: 0, degraded: 0, failing: 0, dead: 0 };
    let mut i: usize = 0;
    while i < table.monitors.len()
        invariant
            0 <= i <= table.monitors@.len(),
            h.healthy == count_in_state(table.monitors@.take(i as int), HealthState::Healthy),
            h.degraded == count_in_state(table.monitors@.take(i as int), HealthState::Degraded),
            h.failing == count_in_state(table.monitors@.take(i as int), HealthState::Failing),
            h.dead == count_in_state(table.monitors@.take(i as int), HealthState::Dead),
            h.healthy + h.degraded + h.failing + h.dead == i,
        decreases table.monitors@.len() - i,
    {
        proof {
            assert(table.monitors@.take(i + 1).drop_last() =~= table.monitors@.take(i as int));
            lemma_counts_bounded(table.monitors@.take(i as int));
        }
        match table.monitors[i].state {
            HealthState::Healthy => h.healthy = h.healthy + 1,
            HealthState::Degraded => h.degraded = h.degraded + 1,
            HealthState::Failing => h.failing = h.failing + 1,
            HealthState::Dead => h.dead = h.dead + 1,
        }
        i = i + 1;
    }
    assert(table.monitors@.take(table.monitors@.len() as int) =~= table.monitors@);
    h
}

/// Health never improves: one more error, critical or not, leaves the grade
/// at least as severe as before.
pub proof fn lemma_health_never_improves(errors: int, critical: int, is_critical: bool)
    requires
        errors >= 0,
        critical >= 0,
    ensures
        severity(grade(errors + 1, critical + (if is_critical { 1int } else { 0int }))) >= severity(grade(errors, critical)),
{
}

/// The records stay graded: recording an error in a graded table leaves it
/// graded.
pub proof fn lemma_record_keeps_graded(s: Seq<DeviceMonitor>, i: int, after: DeviceMonitor)
    requires
        graded(s),
        0 <= i <= s.len(),
        after.state == grade(after.error_count as int, after.critical_errors as int),
    ensures
        graded(if i < s.len() { s.update(i, after) } else { s.push(after) }),
{
    let t = if i < s.len() { s.update(i, after) } else { s.push(after) };
    assert forall|k: int| 0 <= k < t.len() implies #[trigger] t[k].state == grade(t[k].error_count as int, t[k].critical_errors as int) by {
        if k != i {
            assert(t[k] == s[k]);
        }
    }
}

} // verus!
