//! The driver system's central base: the manager that registers devices and
//! drivers, binds them, and routes failures to recovery.
pub mod driver;
pub mod device;
pub mod bus;
pub mod class;
pub mod events;
pub mod monitor;
pub mod recovery;
pub mod power;
pub mod resource;
pub mod parameters;
pub mod memory;
pub mod dma;
pub mod context;
pub mod async_probe;
pub mod deps;
pub mod fallback;
pub mod telemetry;

use vstd::prelude::*;
use self::bus::{Bus, BusRegistry};
use self::class::ClassRegistry;
use self::context::DriverContext;
use self::deps::DependencyGraph;
use self::device::{Device, DeviceId, DeviceState};
use self::dma::DmaPoolManager;
use self::driver::{Driver, DriverError};
use self::events::{DeviceEvent, DeviceListener, EventManager};
use self::fallback::FallbackRegistry;
use self::memory::DriverMemoryManager;
use self::monitor::{MonitorTable, monitors_after_error, error_escalates, has_room};
use self::recovery::{RecoveryAction, RecoveryManager, RecoveryRecord, record_index, action_for, records_after_failure, retry_room};
use self::telemetry::TelemetryState;

verus! {

/// Oldest driver ABI the manager accepts (1.0.0).
pub const RDS_ABI_MIN: u32 = 0x0001_0000;

/// Most devices the manager holds.
pub const MAX_DEVICES: usize = 4096;

/// Most drivers the manager holds.
pub const MAX_DRIVERS: usize = 256;

/// The driver manager and the subsystems it runs: devices, drivers, their
/// persistent contexts, recovery, buses, memory, health, events, telemetry,
/// dependencies, fallback chains and functional classes.
pub struct DriverManager {
    pub devices: Vec<Device>,
    pub drivers: Vec<Box<dyn Driver>>,
    pub recovery: RecoveryManager,
    pub contexts: Vec<DriverContext>,
    /// Next id to hand out; 0 is never handed out.
    pub next_device_id: u64,
    pub initialized: bool,
    pub buses: BusRegistry,
    pub memory: DriverMemoryManager,
    pub dma: DmaPoolManager,
    pub monitors: MonitorTable,
    pub events: EventManager,
    pub telemetry: TelemetryState,
    pub deps: DependencyGraph,
    pub fallback: FallbackRegistry,
    pub classes: ClassRegistry,
    /// Every device offered to a driver by a registration pass, in order,
    /// with the driver's answer.
    pub offers: Ghost<Seq<ProbeOffer>>,
}

/// A device offered to a driver: the driver's index, the device's id, and
/// whether the driver's probe took it.
pub struct ProbeOffer {
    pub driver: usize,
    pub device: DeviceId,
    pub accepted: bool,
}

/// Every registered device carries an id below the counter: the ids handed
/// out later are new.
pub open spec fn ids_below_counter(devices: Seq<Device>, next: u64) -> bool {
    forall|k: int| 0 <= k < devices.len() ==> (#[trigger] devices[k]).id.0 < next
}

impl DriverManager {
    /// A manager with nothing registered, not initialized; ids start at 1.
    pub fn new() -> (m: Self)
        ensures
            ids_below_counter(m.devices@, m.next_device_id),
            m.devices@.len() == 0,
            m.drivers@.len() == 0,
            m.contexts@.len() == 0,
            m.recovery.records@.len() == 0,
            m.next_device_id == 1,
            !m.initialized,
    {
        DriverManager {
            devices: Vec::new(),
            drivers: Vec::new(),
            recovery: RecoveryManager::new(),
            contexts: Vec::new(),
            next_device_id: 1,
            initialized: false,
            buses: bus::init(),
            memory: DriverMemoryManager::new(),
            dma: DmaPoolManager::new(),
            monitors: monitor::init(),
            events: EventManager::new(),
            telemetry: TelemetryState::new(),
            deps: DependencyGraph { nodes: Vec::new(), initialized: false },
            fallback: FallbackRegistry::new(),
            classes: ClassRegistry::new(),
            offers: Ghost(Seq::empty()),
        }
    }
}

/// Brings the subsystems up (memory zone, DMA pool, health table, events
/// with `log_listener` subscribed, telemetry, the built-in dependency graph,
/// the fallback chains) and marks the manager initialized.
pub fn init(mgr: &mut DriverManager, log_listener: Box<dyn DeviceListener>)
    ensures
        final(mgr).initialized,
        final(mgr).memory.initialized,
        final(mgr).dma.initialized,
        final(mgr).monitors.monitors@.len() == 0,
        final(mgr).events.initialized,
        final(mgr).telemetry.initialized,
        final(mgr).deps.initialized,
        final(mgr).deps.nodes@.len() == 9,
        final(mgr).fallback.chains@.len() == old(mgr).fallback.chains@.len() + 3,
        final(mgr).devices@ == old(mgr).devices@,
        final(mgr).drivers@ == old(mgr).drivers@,
        final(mgr).next_device_id == old(mgr).next_device_id,
{
    memory::init(&mut mgr.memory);
    dma::init(&mut mgr.dma);
    mgr.monitors = monitor::init();
    events::init(&mut mgr.events, log_listener);
    telemetry::init(&mut mgr.telemetry);
    mgr.deps = deps::init();
    fallback::init(&mut mgr.fallback);
    mgr.initialized = true;
}

/// Whether `init` ran.
pub fn is_initialized(mgr: &DriverManager) -> (r: bool)
    ensures
        r == mgr.initialized,
{
    mgr.initialized
}

/// The device after a probe by the driver at `driver_index` answered `r`:
/// bound to that driver and `Ready` on success, unchanged otherwise.
/// Returns whether it was bound.
pub fn apply_probe_result(dev: &mut Device, driver_index: usize, r: Result<(), DriverError>) -> (bound: bool)
    ensures
        bound == r.is_ok(),
        bound ==> final(dev).driver == Some(driver_index) && final(dev).state == DeviceState::Ready
            && final(dev).id == old(dev).id && final(dev).name == old(dev).name
            && final(dev).device_type == old(dev).device_type,
        !bound ==> *final(dev) == *old(dev),
{
    match r {
        Ok(()) => {
            dev.driver = Some(driver_index);
            dev.set_state(DeviceState::Ready);
            true
        },
        Err(_) => false,
    }
}

/// Counts one more event in the telemetry, unless the counter is full.
fn count_event(mgr: &mut DriverManager)
    ensures
        final(mgr).telemetry.events_count == (if old(mgr).telemetry.events_count < u64::MAX {
            old(mgr).telemetry.events_count + 1
        } else {
            old(mgr).telemetry.events_count as int
        }),
        final(mgr).telemetry.failures_count == old(mgr).telemetry.failures_count,
        final(mgr).telemetry.recoveries_count == old(mgr).telemetry.recoveries_count,
        final(mgr).devices == old(mgr).devices,
        final(mgr).drivers == old(mgr).drivers,
        final(mgr).contexts == old(mgr).contexts,
        final(mgr).recovery == old(mgr).recovery,
        final(mgr).next_device_id == old(mgr).next_device_id,
        final(mgr).initialized == old(mgr).initialized,
        final(mgr).telemetry.failure_history == old(mgr).telemetry.failure_history,
{
    if mgr.telemetry.events_count < u64::MAX {
        telemetry::record_device_added(&mut mgr.telemetry, DeviceId(0));
    }
}

/// What a registration pass may do to a device that had no driver: leave
/// its binding empty, or bind it to the driver at `k`, `Ready`.
pub open spec fn bound_or_untouched(before: Device, after: Device, k: int) -> bool {
    &&& after.id == before.id
    &&& (after.driver.is_none() || (after.driver == Some(k as usize) && after.state == DeviceState::Ready))
}

/// The offers a registration pass of the driver at `d` makes, going from
/// the devices `before` to the devices `after`: one for each device that had
/// no driver, in order, accepted exactly when the device came out bound.
pub open spec fn pass_offers(before: Seq<Device>, after: Seq<Device>, d: int) -> Seq<ProbeOffer>
    decreases before.len(),
{
    if before.len() == 0 || after.len() == 0 {
        Seq::empty()
    } else {
        let rest = pass_offers(before.drop_last(), after.drop_last(), d);
        if before.last().driver.is_none() {
            rest.push(ProbeOffer { driver: d as usize, device: before.last().id, accepted: after.last().driver.is_some() })
        } else {
            rest
        }
    }
}

/// Offers `dev` to `driver`, the driver at `driver_index`: the driver's probe
/// answers, the device is bound on success (see `apply_probe_result`), and
/// the offer is logged with the answer.
fn offer_device(driver: &Box<dyn Driver>, driver_index: usize, dev: &mut Device, offers: &mut Ghost<Seq<ProbeOffer>>) -> (bound: bool)
    ensures
        final(offers)@ == old(offers)@.push(ProbeOffer { driver: driver_index, device: old(dev).id, accepted: bound }),
        final(dev).id == old(dev).id,
        bound ==> final(dev).driver == Some(driver_index) && final(dev).state == DeviceState::Ready,
        !bound ==> final(dev).driver == old(dev).driver,
{
    let ghost id = dev.id;
    let r = driver.probe(dev);
    let bound = apply_probe_result(dev, driver_index, r);
    proof {
        offers@ = offers@.push(ProbeOffer { driver: driver_index, device: id, accepted: bound });
    }
    bound
}

/// Each device without a driver is offered to a newly registered driver,
/// and comes out bound to it exactly when the driver accepted it: the pass
/// holds, for every such device, the offer naming it with that answer.
pub proof fn lemma_pass_offers_every_unbound_device(before: Seq<Device>, after: Seq<Device>, d: int, k: int)
    requires
        after.len() == before.len(),
        0 <= k < before.len(),
        before[k].driver.is_none(),
    ensures
        exists|j: int| 0 <= j < pass_offers(before, after, d).len()
            && #[trigger] pass_offers(before, after, d)[j] == (ProbeOffer { driver: d as usize, device: before[k].id, accepted: after[k].driver.is_some() }),
    decreases before.len(),
{
    let rest = pass_offers(before.drop_last(), after.drop_last(), d);
    if k == before.len() - 1 {
        assert(pass_offers(before, after, d)[rest.len() as int] == (ProbeOffer { driver: d as usize, device: before[k].id, accepted: after[k].driver.is_some() }));
    } else {
        lemma_pass_offers_every_unbound_device(before.drop_last(), after.drop_last(), d, k);
        let j = choose|j: int| 0 <= j < rest.len()
            && #[trigger] rest[j] == (ProbeOffer { driver: d as usize, device: before.drop_last()[k].id, accepted: after.drop_last()[k].driver.is_some() });
        assert(pass_offers(before, after, d)[j] == rest[j]);
    }
}

/// Registers a driver (ignored when `MAX_DRIVERS` are already registered)
/// and offers it every device that has no driver; each device it accepts is
/// bound to it, made `Ready`, announced to its classes and as `Added`.
pub fn register_driver(mgr: &mut DriverManager, driver: Box<dyn Driver>)
    ensures
        old(mgr).drivers@.len() >= MAX_DRIVERS ==> final(mgr).drivers@ == old(mgr).drivers@
            && final(mgr).devices@ == old(mgr).devices@,
        old(mgr).drivers@.len() < MAX_DRIVERS ==> {
            &&& final(mgr).drivers@ == old(mgr).drivers@.push(driver)
            &&& final(mgr).devices@.len() == old(mgr).devices@.len()
            &&& final(mgr).offers@ == old(mgr).offers@ + pass_offers(old(mgr).devices@, final(mgr).devices@, old(mgr).drivers@.len() as int)
            &&& forall|k: int| 0 <= k < old(mgr).devices@.len() ==> {
                let before = #[trigger] old(mgr).devices@[k];
                let after = final(mgr).devices@[k];
                if before.driver.is_some() {
                    after == before
                } else {
                    bound_or_untouched(before, after, old(mgr).drivers@.len() as int)
                }
            }
        },
        final(mgr).contexts == old(mgr).contexts,
        final(mgr).next_device_id == old(mgr).next_device_id,
        final(mgr).initialized == old(mgr).initialized,
        ids_below_counter(old(mgr).devices@, old(mgr).next_device_id) ==> ids_below_counter(final(mgr).devices@, final(mgr).next_device_id),
{
    if mgr.drivers.len() >= MAX_DRIVERS {
        return;
    }
    let ghost before = mgr.drivers@;
    mgr.drivers.push(driver);
    proof {
        vstd::seq::axiom_seq_push_len(before, driver);
    }
    let idx = mgr.drivers.len() - 1;
    let ghost old_devices = mgr.devices@;
    let mut k: usize = 0;
    assert(mgr.offers@ =~= old(mgr).offers@ + pass_offers(old_devices.take(0), mgr.devices@.take(0), idx as int));
    while k < mgr.devices.len()
        invariant
            0 <= k <= mgr.devices@.len(),
            mgr.offers@ == old(mgr).offers@ + pass_offers(old_devices.take(k as int), mgr.devices@.take(k as int), idx as int),
            idx + 1 == mgr.drivers@.len(),
            mgr.drivers@ == old(mgr).drivers@.push(driver),
            mgr.devices@.len() == old_devices.len(),
            old_devices == old(mgr).devices@,
            mgr.contexts == old(mgr).contexts,
            mgr.next_device_id == old(mgr).next_device_id,
            mgr.initialized == old(mgr).initialized,
            forall|j: int| k <= j < mgr.devices@.len() ==> #[trigger] mgr.devices@[j] == old_devices[j],
            forall|j: int| 0 <= j < k ==> {
                let before = #[trigger] old_devices[j];
                let after = mgr.devices@[j];
                if before.driver.is_some() {
                    after == before
                } else {
                    bound_or_untouched(before, after, idx as int)
                }
            },
        decreases mgr.devices@.len() - k,
    {
        let ghost devs0 = mgr.devices@;
        let ghost offers0 = mgr.offers@;
        if mgr.devices[k].driver.is_none() {
            let bound = offer_device(&mgr.drivers[idx], idx, &mut mgr.devices[k], &mut mgr.offers);
            proof {
                assert(mgr.devices@.take(k as int) =~= devs0.take(k as int));
                assert(old_devices.take(k + 1).drop_last() =~= old_devices.take(k as int));
                assert(mgr.devices@.take(k + 1).drop_last() =~= mgr.devices@.take(k as int));
            }
            if bound {
                let id = mgr.devices[k].id;
                class::notify_device_added(&mgr.classes, &mgr.devices[k]);
                events::emit(&mut mgr.events, DeviceEvent::Added(id));
                if mgr.telemetry.events_count < u64::MAX {
                    telemetry::record_driver_bound(&mut mgr.telemetry, id, mgr.drivers[idx].name());
                }
            }
        } else {
            proof {
                assert(old_devices.take(k + 1).drop_last() =~= old_devices.take(k as int));
                assert(mgr.devices@.take(k + 1).drop_last() =~= mgr.devices@.take(k as int));
            }
        }
        k = k + 1;
    }
    proof {
        assert(old_devices.take(old_devices.len() as int) =~= old_devices);
        assert(mgr.devices@.take(mgr.devices@.len() as int) =~= mgr.devices@);
        if ids_below_counter(old_devices, old(mgr).next_device_id) {
            assert forall|j: int| 0 <= j < mgr.devices@.len() implies (#[trigger] mgr.devices@[j]).id.0 < mgr.next_device_id by {
                let before = old_devices[j];
                assert(before.id.0 < old(mgr).next_device_id);
            }
        }
    }
}

/// Hands out the next device id.
fn next_id(mgr: &mut DriverManager) -> (id: DeviceId)
    requires
        old(mgr).next_device_id < u64::MAX,
    ensures
        id == DeviceId(old(mgr).next_device_id),
        final(mgr).next_device_id == old(mgr).next_device_id + 1,
        final(mgr).devices == old(mgr).devices,
        final(mgr).drivers == old(mgr).drivers,
        final(mgr).contexts == old(mgr).contexts,
        final(mgr).initialized == old(mgr).initialized,
{
    let id = DeviceId(mgr.next_device_id);
    mgr.next_device_id = mgr.next_device_id + 1;
    id
}

/// Registers a device under the next id and offers it to the drivers in
/// registration order until one accepts it; that driver is bound and the
/// device made `Ready` and announced. `Ok` with the new id. When
/// `MAX_DEVICES` are already registered the device is not kept: it comes back
/// in `Err`, with its id, marked `Dead`.
pub fn register_device(mgr: &mut DriverManager, dev: Device) -> (r: Result<DeviceId, Device>)
    requires
        old(mgr).next_device_id < u64::MAX,
    ensures
        final(mgr).next_device_id == old(mgr).next_device_id + 1,
        final(mgr).drivers@ == old(mgr).drivers@,
        final(mgr).initialized == old(mgr).initialized,
        ids_below_counter(old(mgr).devices@, old(mgr).next_device_id) ==> ids_below_counter(final(mgr).devices@, final(mgr).next_device_id),
        old(mgr).devices@.len() >= MAX_DEVICES <==> r is Err,
        r matches Err(d) ==> {
            &&& d.id == DeviceId(old(mgr).next_device_id)
            &&& d.state == DeviceState::Dead
            &&& final(mgr).devices@ == old(mgr).devices@
            &&& final(mgr).contexts@ == old(mgr).contexts@
        },
        r matches Ok(id) ==> {
            let n = old(mgr).devices@.len() as int;
            let after = final(mgr).devices@[n];
            &&& id == DeviceId(old(mgr).next_device_id)
            &&& final(mgr).devices@.len() == n + 1
            &&& final(mgr).devices@.take(n) == old(mgr).devices@
            &&& after.id == id
            &&& after.driver == dev.driver || (after.driver matches Some(j) && j < old(mgr).drivers@.len()
                && after.state == DeviceState::Ready)
            &&& final(mgr).contexts@.len() == old(mgr).contexts@.len() + 1
            &&& final(mgr).contexts@.last().device_id == id
            &&& final(mgr).contexts@.drop_last() == old(mgr).contexts@
        },
{
    let id = next_id(mgr);
    let mut dev = dev;
    dev.id = id;
    if mgr.devices.len() >= MAX_DEVICES {
        dev.set_state(DeviceState::Dead);
        return Err(dev);
    }
    let original_driver = dev.driver;
    mgr.devices.push(dev);
    let ghost prefix = old(mgr).devices@;
    mgr.contexts.push(DriverContext::new(id));
    let ghost ctxs = mgr.contexts@;
    let n = mgr.devices.len() - 1;
    let mut bound = false;
    let mut j: usize = 0;
    while j < mgr.drivers.len() && !bound
        invariant
            0 <= j <= mgr.drivers@.len(),
            n + 1 == mgr.devices@.len(),
            n == prefix.len(),
            mgr.devices@.take(n as int) == prefix,
            mgr.devices@[n as int].id == id,
            mgr.drivers@ == old(mgr).drivers@,
            mgr.contexts@ == ctxs,
            mgr.next_device_id == old(mgr).next_device_id + 1,
            mgr.initialized == old(mgr).initialized,
            !bound ==> mgr.devices@[n as int].driver == original_driver,
            bound ==> (mgr.devices@[n as int].driver matches Some(k) && k < mgr.drivers@.len()
                && mgr.devices@[n as int].state == DeviceState::Ready),
        decreases mgr.drivers@.len() - j,
    {
        let ghost before = mgr.devices@;
        let r = mgr.drivers[j].probe(&mut mgr.devices[n]);
        bound = apply_probe_result(&mut mgr.devices[n], j, r);
        assert(mgr.devices@.take(n as int) =~= before.take(n as int));
        j = j + 1;
    }
    if bound {
        class::notify_device_added(&mgr.classes, &mgr.devices[n]);
        events::emit(&mut mgr.events, DeviceEvent::Added(id));
        if mgr.telemetry.events_count < u64::MAX {
            telemetry::record_device_added(&mut mgr.telemetry, id);
        }
    } else {
        if mgr.telemetry.events_count < u64::MAX {
            telemetry::record_device_orphan(&mut mgr.telemetry, id);
        }
    }
    proof {
        if ids_below_counter(prefix, old(mgr).next_device_id) {
            assert forall|k: int| 0 <= k < mgr.devices@.len() implies (#[trigger] mgr.devices@[k]).id.0 < mgr.next_device_id by {
                if k < n {
                    assert(mgr.devices@[k] == mgr.devices@.take(n as int)[k]);
                }
            }
        }
    }
    Ok(id)
}

/// Index of the first device with id `id`, or the length when there is none.
pub open spec fn device_index(s: Seq<Device>, id: DeviceId) -> int
    decreases s.len(),
{
    if s.len() == 0 {
        0
    } else if s[0].id == id {
        0
    } else {
        1 + device_index(s.drop_first(), id)
    }
}

proof fn lemma_device_index(s: Seq<Device>, id: DeviceId, i: int)
    requires
        0 <= i <= s.len(),
        forall|k: int| 0 <= k < i ==> #[trigger] s[k].id != id,
        i == s.len() || s[i].id == id,
    ensures
        device_index(s, id) == i,
    decreases s.len(),
{
    if s.len() > 0 && i > 0 {
        assert forall|k: int| 0 <= k < i - 1 implies #[trigger] s.drop_first()[k].id != id by {
            assert(s.drop_first()[k] == s[k + 1]);
        }
        lemma_device_index(s.drop_first(), id, i - 1);
    }
}

fn find_device(devices: &Vec<Device>, id: DeviceId) -> (i: usize)
    ensures
        i == device_index(devices@, id),
        i <= devices@.len(),
        i < devices@.len() ==> devices@[i as int].id == id,
{
    let mut i: usize = 0;
    while i < devices.len() && devices[i].id != id
        invariant
            0 <= i <= devices@.len(),
            forall|k: int| 0 <= k < i ==> #[trigger] devices@[k].id != id,
        decreases devices@.len() - i,
    {
        i = i + 1;
    }
    proof {
        lemma_device_index(devices@, id, i as int);
    }
    i
}

/// A lookup finds a registration: when every registered device carries an
/// id below the counter, the device a registration appends under the
/// counter's id is the one a lookup of that id finds.
pub proof fn lemma_registered_device_is_found(before: Seq<Device>, after: Seq<Device>, next: u64, id: DeviceId)
    requires
        ids_below_counter(before, next),
        id == DeviceId(next),
        after.len() == before.len() + 1,
        after.take(before.len() as int) == before,
        after[before.len() as int].id == id,
    ensures
        device_index(after, id) == before.len(),
{
    assert forall|k: int| 0 <= k < before.len() implies #[trigger] after[k].id != id by {
        assert(after[k] == after.take(before.len() as int)[k]);
    }
    lemma_device_index(after, id, before.len() as int);
}

/// The registered device with id `id`, if any.
pub fn get_device(mgr: &DriverManager, id: DeviceId) -> (r: Option<&Device>)
    ensures
        ({
            let i = device_index(mgr.devices@, id);
            match r {
                Some(d) => i < mgr.devices@.len() && *d == mgr.devices@[i] && d.id == id,
                None => i == mgr.devices@.len(),
            }
        }),
{
    let i = find_device(&mgr.devices, id);
    if i < mgr.devices.len() {
        Some(&mgr.devices[i])
    } else {
        None
    }
}

/// Every registered device, in registration order.
pub fn get_all_devices(mgr: &DriverManager) -> (r: &Vec<Device>)
    ensures
        r@ == mgr.devices@,
{
    &mgr.devices
}

/// Every registered driver, in registration order.
pub fn get_all_drivers(mgr: &DriverManager) -> (r: &Vec<Box<dyn Driver>>)
    ensures
        r@ == mgr.drivers@,
{
    &mgr.drivers
}

/// Number of registered devices.
pub fn device_count(mgr: &DriverManager) -> (n: usize)
    ensures
        n == mgr.devices@.len(),
{
    mgr.devices.len()
}

/// Number of registered drivers.
pub fn driver_count(mgr: &DriverManager) -> (n: usize)
    ensures
        n == mgr.drivers@.len(),
{
    mgr.drivers.len()
}

/// The step recovery takes at the next failure of `id`.
pub open spec fn next_action(records: Seq<RecoveryRecord>, id: DeviceId, max_retries: u8) -> RecoveryAction {
    let i = record_index(records, id);
    if i < records.len() {
        action_for(records[i].retry_count + 1, max_retries as int)
    } else {
        RecoveryAction::Rebind
    }
}

/// The effect of a failure of device `id` on the manager: recovery counts
/// the failure and takes its next step on the device (rebinding detaches the
/// driver and leaves the device `Initializing`; a bus reset leaves its
/// driver and makes it `Initializing`; isolation detaches the driver and
/// marks it `Dead`), the failure is counted, and no other device changes.
/// An unknown id changes nothing.
pub open spec fn failure_handled(before: DriverManager, after: DriverManager, id: DeviceId) -> bool {
    let i = device_index(before.devices@, id);
    &&& after.drivers@ == before.drivers@
    &&& after.devices@.len() == before.devices@.len()
    &&& after.next_device_id == before.next_device_id
    &&& forall|k: int| 0 <= k < before.devices@.len() ==> (#[trigger] after.devices@[k]).id == before.devices@[k].id
    &&& if i < before.devices@.len() {
        let a = next_action(before.recovery.records@, id, before.recovery.max_retries);
        &&& after.devices@[i].state == (if a == RecoveryAction::Isolate { DeviceState::Dead } else { DeviceState::Initializing })
        &&& (a != RecoveryAction::ResetBus ==> after.devices@[i].driver.is_none())
        &&& (a == RecoveryAction::ResetBus ==> after.devices@[i].driver == before.devices@[i].driver)
        &&& forall|k: int| 0 <= k < before.devices@.len() && k != i ==> #[trigger] after.devices@[k] == before.devices@[k]
        &&& after.recovery.records@ == records_after_failure(before.recovery.records@, id)
        &&& after.recovery.max_retries == before.recovery.max_retries
        &&& after.telemetry.failures_count == (if before.telemetry.failures_count < u64::MAX {
            before.telemetry.failures_count + 1
        } else {
            before.telemetry.failures_count as int
        })
    } else {
        &&& after.devices@ == before.devices@
        &&& after.recovery == before.recovery
        &&& after.telemetry.failures_count == before.telemetry.failures_count
    }
}

/// Hands a failure of device `id` to recovery and records it. Rebinding
/// detaches the driver and leaves the device `Initializing`; a bus reset
/// resets it on the first bus of its kind and leaves it `Initializing`;
/// isolation detaches the driver, marks the device `Dead` and announces it
/// `Removed`. An unknown id changes nothing.
pub fn report_failure(mgr: &mut DriverManager, id: DeviceId, err: DriverError)
    requires
        retry_room(old(mgr).recovery.records@, id),
    ensures
        failure_handled(*old(mgr), *final(mgr), id),
        final(mgr).monitors == old(mgr).monitors,
{
    let i = find_device(&mgr.devices, id);
    if i == mgr.devices.len() {
        return;
    }
    let ghost before = mgr.devices@;
    let action = mgr.recovery.handle_failure(&mut mgr.devices[i], &mgr.drivers, err);
    match action {
        RecoveryAction::ResetBus => {
            match bus::find_by_type(&mgr.buses, mgr.devices[i].bus_type) {
                Some(b) => {
                    let _ = mgr.buses.buses[b].reset_device(&mut mgr.devices[i]);
                },
                None => {},
            }
            mgr.devices[i].state = DeviceState::Initializing;
        },
        RecoveryAction::Isolate => {
            events::emit(&mut mgr.events, DeviceEvent::Removed(id));
        },
        _ => {},
    }
    if mgr.telemetry.failures_count < u64::MAX {
        telemetry::record_failure(&mut mgr.telemetry, id, err);
    }
}

/// Records an error of device `id` with the health monitor. When its health
/// just turned `Failing` or `Dead`, the failure goes to recovery, as
/// `report_failure` hands it, and an `ErrorDetected` event is announced.
/// Returns whether it escalated.
pub fn record_device_error(mgr: &mut DriverManager, id: DeviceId, err: DriverError) -> (escalated: bool)
    requires
        has_room(old(mgr).monitors.monitors@, id),
        retry_room(old(mgr).recovery.records@, id),
    ensures
        escalated == error_escalates(old(mgr).monitors.monitors@, id, err),
        final(mgr).monitors.monitors@ == monitors_after_error(old(mgr).monitors.monitors@, id, err),
        escalated ==> failure_handled(*old(mgr), *final(mgr), id),
        !escalated ==> {
            &&& final(mgr).devices@ == old(mgr).devices@
            &&& final(mgr).drivers@ == old(mgr).drivers@
            &&& final(mgr).recovery == old(mgr).recovery
            &&& final(mgr).telemetry == old(mgr).telemetry
            &&& final(mgr).next_device_id == old(mgr).next_device_id
        },
{
    let escalate = monitor::record_error(&mut mgr.monitors, id, err);
    if escalate {
        report_failure(mgr, id, err);
        events::emit(&mut mgr.events, DeviceEvent::ErrorDetected(id, err));
    }
    escalate
}

/// Reloading a driver at run time is not supported.
pub fn request_driver_reload(driver_name: &str) -> (r: Result<(), DriverError>)
    ensures
        r == Err::<(), DriverError>(DriverError::NotSupported),
{
    Err(DriverError::NotSupported)
}

/// Shuts every bound device down, last registered first (its driver's
/// `shutdown`, then `Disconnected`), then every bus.
pub fn shutdown_all(mgr: &mut DriverManager)
    ensures
        final(mgr).devices@.len() == old(mgr).devices@.len(),
        forall|k: int| 0 <= k < old(mgr).devices@.len() ==> {
            let before = #[trigger] old(mgr).devices@[k];
            let after = final(mgr).devices@[k];
            &&& after.id == before.id
            &&& if before.driver.is_some() { after.state == DeviceState::Disconnected } else { after == before }
        },
        final(mgr).drivers@ == old(mgr).drivers@,
        final(mgr).next_device_id == old(mgr).next_device_id,
{
    let mut k: usize = mgr.devices.len();
    while k > 0
        invariant
            0 <= k <= mgr.devices@.len(),
            mgr.devices@.len() == old(mgr).devices@.len(),
            mgr.drivers@ == old(mgr).drivers@,
            forall|j: int| 0 <= j < k ==> #[trigger] mgr.devices@[j] == old(mgr).devices@[j],
            forall|j: int| k <= j < mgr.devices@.len() ==> {
                let before = #[trigger] old(mgr).devices@[j];
                let after = mgr.devices@[j];
                &&& after.id == before.id
                &&& if before.driver.is_some() { after.state == DeviceState::Disconnected } else { after == before }
            },
            mgr.next_device_id == old(mgr).next_device_id,
        decreases k,
    {
        k = k - 1;
        match mgr.devices[k].driver {
            Some(d) => {
                if d < mgr.drivers.len() {
                    mgr.drivers[d].shutdown(&mut mgr.devices[k]);
                }
                mgr.devices[k].set_state(DeviceState::Disconnected);
            },
            None => {},
        }
    }
    bus::shutdown_all(&mgr.buses);
}

} // verus!
