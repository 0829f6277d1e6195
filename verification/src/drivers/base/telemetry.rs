//! Telemetry: counters of the driver system and a bounded history of
//! failures, for diagnostics.
use vstd::prelude::*;
use crate::drivers::base::device::DeviceId;
use crate::drivers::base::driver::DriverError;
use crate::drivers::base::memory::{self, DriverMemoryManager};
use crate::drivers::base::dma::{self, DmaPoolManager};
use crate::drivers::base::monitor::{self, MonitorTable, HealthState, count_in_state};

verus! {

/// Figures of the driver system at one moment.
#[derive(Debug, Clone, Copy)]
pub struct TelemetrySnapshot {
    pub timestamp: u64,
    pub uptime_ticks: u64,
    pub total_devices: usize,
    /// Devices whose driver works (healthy or degraded).
    pub active_devices: usize,
    pub orphan_devices: usize,
    pub dead_devices: usize,
    pub total_drivers: usize,
    pub driver_zone_used: usize,
    pub dma_pool_used: usize,
    pub events_emitted: u64,
    pub failures_reported: u64,
    pub recoveries_successful: u64,
}

impl Default for TelemetrySnapshot {
    fn default() -> (s: TelemetrySnapshot)
        ensures
            s.timestamp == 0 && s.uptime_ticks == 0 && s.total_devices == 0 && s.active_devices == 0,
            s.orphan_devices == 0 && s.dead_devices == 0 && s.total_drivers == 0,
            s.driver_zone_used == 0 && s.dma_pool_used == 0,
            s.events_emitted == 0 && s.failures_reported == 0 && s.recoveries_successful == 0,
    {
        TelemetrySnapshot {
            timestamp: 0,
            uptime_ticks: 0,
            total_devices: 0,
            active_devices: 0,
            orphan_devices: 0,
            dead_devices: 0,
            total_drivers: 0,
            driver_zone_used: 0,
            dma_pool_used: 0,
            events_emitted: 0,
            failures_reported: 0,
            recoveries_successful: 0,
        }
    }
}

/// One recorded failure.
#[derive(Debug, Clone, Copy)]
pub struct FailureLog {
    pub device_id: DeviceId,
    pub error: DriverError,
    pub timestamp: u64,
    pub recovered: bool,
}

/// The telemetry counters and the failure history.
pub struct TelemetryState {
    pub init_tick: u64,
    /// The latest failures, oldest first.
    pub failure_history: Vec<FailureLog>,
    pub events_count: u64,
    pub failures_count: u64,
    pub recoveries_count: u64,
    pub initialized: bool,
}

/// Number of failures the history keeps.
pub const MAX_FAILURE_HISTORY: usize = 100;

impl TelemetryState {
    /// Zero counters, empty history, not initialized.
    pub fn new() -> (t: TelemetryState)
        ensures
            t.init_tick == 0,
            t.failure_history@.len() == 0,
            t.events_count == 0,
            t.failures_count == 0,
            t.recoveries_count == 0,
            !t.initialized,
    {
        TelemetryState {
            init_tick: 0,
            failure_history: Vec::new(),
            events_count: 0,
            failures_count: 0,
            recoveries_count: 0,
            initialized: false,
        }
    }
}

/// Marks telemetry initialized, with the start tick at zero.
pub fn init(state: &mut TelemetryState)
    ensures
        final(state).initialized,
        final(state).init_tick == 0,
        final(state).failure_history == old(state).failure_history,
        final(state).events_count == old(state).events_count,
        final(state).failures_count == old(state).failures_count,
        final(state).recoveries_count == old(state).recoveries_count,
{
    state.initialized = true;
    state.init_tick = 0;
}

/// A snapshot from the counters, the health table, the two memory managers
/// and the device and driver totals. Timestamp, uptime and orphan count are
/// not tracked and read zero.
pub fn get_snapshot(
    state: &TelemetryState,
    monitors: &MonitorTable,
    mem: &DriverMemoryManager,
    pool: &DmaPoolManager,
    total_devices: usize,
    total_drivers: usize,
) -> (s: TelemetrySnapshot)
    ensures
        s.timestamp == 0,
        s.uptime_ticks == 0,
        s.total_devices == total_devices,
        s.active_devices == count_in_state(monitors.monitors@, HealthState::Healthy)
            + count_in_state(monitors.monitors@, HealthState::Degraded),
        s.orphan_devices == 0,
        s.dead_devices == count_in_state(monitors.monitors@, HealthState::Dead),
        s.total_drivers == total_drivers,
        s.driver_zone_used == mem.total_allocated,
        s.dma_pool_used == pool.total_allocated,
        s.events_emitted == state.events_count,
        s.failures_reported == state.failures_count,
        s.recoveries_successful == state.recoveries_count,
{
    let memory_stats = memory::get_stats(mem);
    let dma_stats = dma::get_stats(pool);
    let health = monitor::get_health_summary(monitors);
    let n = monitors.monitors.len();
    assert(health.healthy + health.degraded <= n);
    TelemetrySnapshot {
        timestamp: 0,
        uptime_ticks: 0,
        total_devices,
        active_devices: health.healthy + health.degraded,
        orphan_devices: 0,
        dead_devices: health.dead,
        total_drivers,
        driver_zone_used: memory_stats.total_allocated,
        dma_pool_used: dma_stats.total_allocated,
        events_emitted: state.events_count,
        failures_reported: state.failures_count,
        recoveries_successful: state.recoveries_count,
    }
}

/// Everything but the event counter is unchanged.
pub open spec fn one_more_event(before: TelemetryState, after: TelemetryState) -> bool {
    &&& after.events_count == before.events_count + 1
    &&& after.failure_history == before.failure_history
    &&& after.failures_count == before.failures_count
    &&& after.recoveries_count == before.recoveries_count
    &&& after.init_tick == before.init_tick
    &&& after.initialized == before.initialized
}

fn count_event(state: &mut TelemetryState)
    requires
        old(state).events_count < u64::MAX,
    ensures
        one_more_event(*old(state), *final(state)),
{
    state.events_count = state.events_count + 1;
}

/// Counts the binding of a driver to a device.
pub fn record_driver_bound(state: &mut TelemetryState, device_id: DeviceId, driver_name: &str)
    requires
        old(state).events_count < u64::MAX,
    ensures
        one_more_event(*old(state), *final(state)),
{
    count_event(state);
}

/// Counts a device added.
pub fn record_device_added(state: &mut TelemetryState, device_id: DeviceId)
    requires
        old(state).events_count < u64::MAX,
    ensures
        one_more_event(*old(state), *final(state)),
{
    count_event(state);
}

/// Counts a device left without a driver.
pub fn record_device_orphan(state: &mut TelemetryState, device_id: DeviceId)
    requires
        old(state).events_count < u64::MAX,
    ensures
        one_more_event(*old(state), *final(state)),
{
    count_event(state);
}

/// The history after one more failure: appended, and the oldest dropped
/// when it would exceed the limit.
pub open spec fn history_after_failure(h: Seq<FailureLog>, log: FailureLog) -> Seq<FailureLog> {
    if h.len() + 1 > MAX_FAILURE_HISTORY {
        h.push(log).drop_first()
    } else {
        h.push(log)
    }
}

/// Counts a failure and records it, not recovered, in the history, which
/// keeps the latest `MAX_FAILURE_HISTORY` failures.
pub fn record_failure(state: &mut TelemetryState, device_id: DeviceId, err: DriverError)
    requires
        old(state).failures_count < u64::MAX,
    ensures
        final(state).failures_count == old(state).failures_count + 1,
        final(state).failure_history@ == history_after_failure(old(state).failure_history@,
            FailureLog { device_id, error: err, timestamp: 0, recovered: false }),
        final(state).events_count == old(state).events_count,
        final(state).recoveries_count == old(state).recoveries_count,
        final(state).init_tick == old(state).init_tick,
        final(state).initialized == old(state).initialized,
{
    state.failures_count = state.failures_count + 1;
    let log = FailureLog { device_id, error: err, timestamp: 0, recovered: false };
    state.failure_history.push(log);
    if state.failure_history.len() > MAX_FAILURE_HISTORY {
        state.failure_history.remove(0);
    }
}

/// Index of the latest failure of `id` not yet recovered, or -1.
pub open spec fn last_unrecovered(h: Seq<FailureLog>, id: DeviceId) -> int
    decreases h.len(),
{
    if h.len() == 0 {
        -1
    } else if h.last().device_id == id && !h.last().recovered {
        h.len() - 1
    } else {
        last_unrecovered(h.drop_last(), id)
    }
}

proof fn lemma_last_unrecovered(h: Seq<FailureLog>, id: DeviceId, i: int)
    requires
        -1 <= i < h.len(),
        forall|k: int| i < k < h.len() ==> !(#[trigger] h[k].device_id == id && !h[k].recovered),
        i >= 0 ==> h[i].device_id == id && !h[i].recovered,
    ensures
        last_unrecovered(h, id) == i,
    decreases h.len(),
{
    if h.len() > 0 && i < h.len() - 1 {
        assert forall|k: int| i < k < h.drop_last().len() implies !(#[trigger] h.drop_last()[k].device_id == id && !h.drop_last()[k].recovered) by {
            assert(h.drop_last()[k] == h[k]);
        }
        lemma_last_unrecovered(h.drop_last(), id, i);
    }
}

/// Counts a successful recovery and marks the latest unrecovered failure of
/// the device, if any, as recovered.
pub fn record_recovery_success(state: &mut TelemetryState, device_id: DeviceId)
    requires
        old(state).recoveries_count < u64::MAX,
    ensures
        final(state).recoveries_count == old(state).recoveries_count + 1,
        ({
            let h = old(state).failure_history@;
            let i = last_unrecovered(h, device_id);
            final(state).failure_history@ == (if i >= 0 { h.update(i, FailureLog { recovered: true, ..h[i] }) } else { h })
        }),
        final(state).events_count == old(state).events_count,
        final(state).failures_count == old(state).failures_count,
        final(state).init_tick == old(state).init_tick,
        final(state).initialized == old(state).initialized,
{
    state.recoveries_count = state.recoveries_count + 1;
    let mut i: usize = state.failure_history.len();
    while i > 0
        invariant
            0 <= i <= state.failure_history@.len(),
            state.failure_history@ == old(state).failure_history@,
            state.recoveries_count == old(state).recoveries_count + 1,
            state.events_count == old(state).events_count,
            state.failures_count == old(state).failures_count,
            state.init_tick == old(state).init_tick,
            state.initialized == old(state).initialized,
            forall|k: int| i <= k < state.failure_history@.len() ==>
                !(#[trigger] state.failure_history@[k].device_id == device_id && !state.failure_history@[k].recovered),
        decreases i,
    {
        let log = state.failure_history[i - 1];
        if log.device_id == device_id && !log.recovered {
            proof {
                lemma_last_unrecovered(state.failure_history@, device_id, i - 1);
            }
            state.failure_history.set(i - 1, FailureLog { recovered: true, ..log });
            return;
        }
        i = i - 1;
    }
    proof {
        lemma_last_unrecovered(state.failure_history@, device_id, -1);
    }
}

/// A copy of the failure history, oldest first.
pub fn get_failure_history(state: &TelemetryState) -> (h: Vec<FailureLog>)
    ensures
        h@ == state.failure_history@,
{
    let mut h: Vec<FailureLog> = Vec::new();
    let mut i: usize = 0;
    while i < state.failure_history.len()
        invariant
            0 <= i <= state.failure_history@.len(),
            h@ == state.failure_history@.take(i as int),
        decreases state.failure_history@.len() - i,
    {
        proof {
            crate::seqs::lemma_take_succ(state.failure_history@, i as int);
        }
        h.push(state.failure_history[i]);
        i = i + 1;
    }
    assert(state.failure_history@.take(state.failure_history@.len() as int) =~= state.failure_history@);
    h
}

/// The latest `count` failures (all of them when there are fewer), oldest first.
pub fn get_recent_failures(state: &TelemetryState, count: usize) -> (h: Vec<FailureLog>)
    ensures
        ({
            let s = state.failure_history@;
            let start = if count >= s.len() { 0 } else { s.len() - count };
            h@ == s.skip(start)
        }),
{
    let len = state.failure_history.len();
    let start = len.saturating_sub(count);
    let mut h: Vec<FailureLog> = Vec::new();
    let mut i: usize = start;
    while i < len
        invariant
            start <= i <= len,
            len == state.failure_history@.len(),
            h@ == state.failure_history@.subrange(start as int, i as int),
        decreases len - i,
    {
        h.push(state.failure_history[i]);
        assert(h@ =~= state.failure_history@.subrange(start as int, i + 1));
        i = i + 1;
    }
    assert(h@ =~= state.failure_history@.skip(start as int));
    h
}

/// The history never holds more than `MAX_FAILURE_HISTORY` failures: a
/// bounded history stays bounded when a failure is recorded.
pub proof fn lemma_history_bounded(h: Seq<FailureLog>, log: FailureLog)
    requires
        h.len() <= MAX_FAILURE_HISTORY,
    ensures
        history_after_failure(h, log).len() <= MAX_FAILURE_HISTORY,
        history_after_failure(h, log).last() == log,
{
}

} // verus!
