//! Hardware events and their listeners: hot-plug, state, power and error
//! notifications, delivered synchronously to every subscriber.
use vstd::prelude::*;
use crate::drivers::base::device::{DeviceId, DeviceState};
use crate::drivers::base::driver::DriverError;
use crate::drivers::base::power::PowerState;

verus! {

/// A hardware event about one device.
#[derive(Debug, Clone, Copy)]
pub enum DeviceEvent {
    /// A device was detected and registered.
    Added(DeviceId),
    /// A device was removed or disabled.
    Removed(DeviceId),
    /// The state of a device changed.
    StateChanged(DeviceId, DeviceState),
    /// The power state of a device changed.
    PowerChange(DeviceId, PowerState),
    /// The health monitor found a critical error.
    ErrorDetected(DeviceId, DriverError),
    /// The driver of a device was reloaded.
    DriverReloaded(DeviceId),
    /// A hardware interrupt on the slow path.
    Interrupt(DeviceId, u8),
}

/// The device an event is about.
pub open spec fn event_device(e: DeviceEvent) -> DeviceId {
    match e {
        DeviceEvent::Added(id) => id,
        DeviceEvent::Removed(id) => id,
        DeviceEvent::StateChanged(id, _) => id,
        DeviceEvent::PowerChange(id, _) => id,
        DeviceEvent::ErrorDetected(id, _) => id,
        DeviceEvent::DriverReloaded(id) => id,
        DeviceEvent::Interrupt(id, _) => id,
    }
}

/// Name of the kind of an event.
pub open spec fn event_name(e: DeviceEvent) -> Seq<char> {
    match e {
        DeviceEvent::Added(_) => "Added"@,
        DeviceEvent::Removed(_) => "Removed"@,
        DeviceEvent::StateChanged(_, _) => "StateChanged"@,
        DeviceEvent::PowerChange(_, _) => "PowerChange"@,
        DeviceEvent::ErrorDetected(_, _) => "ErrorDetected"@,
        DeviceEvent::DriverReloaded(_) => "DriverReloaded"@,
        DeviceEvent::Interrupt(_, _) => "Interrupt"@,
    }
}

impl DeviceEvent {
    /// The device the event is about.
    pub fn device_id(&self) -> (id: DeviceId)
        ensures
            id == event_device(*self),
    {
        match self {
            DeviceEvent::Added(id) => *id,
            DeviceEvent::Removed(id) => *id,
            DeviceEvent::StateChanged(id, _) => *id,
            DeviceEvent::PowerChange(id, _) => *id,
            DeviceEvent::ErrorDetected(id, _) => *id,
            DeviceEvent::DriverReloaded(id) => *id,
            DeviceEvent::Interrupt(id, _) => *id,
        }
    }

    /// Readable name of the kind of event.
    pub fn as_str(&self) -> (s: &'static str)
        ensures
            s@ == event_name(*self),
    {
        match self {
            DeviceEvent::Added(_) => "Added",
            DeviceEvent::Removed(_) => "Removed",
            DeviceEvent::StateChanged(_, _) => "StateChanged",
            DeviceEvent::PowerChange(_, _) => "PowerChange",
            DeviceEvent::ErrorDetected(_, _) => "ErrorDetected",
            DeviceEvent::DriverReloaded(_) => "DriverReloaded",
            DeviceEvent::Interrupt(_, _) => "Interrupt",
        }
    }
}

/// A subscriber to hardware events. Handlers must be quick: heavy work
/// belongs on a worker.
pub trait DeviceListener {
    /// Called for every event.
    fn on_event(&self, event: DeviceEvent);

    /// Name of the listener.
    fn name(&self) -> &'static str {
        "unknown"
    }
}

/// The subscribers and the delivery switch.
pub struct EventManager {
    pub subscribers: Vec<Box<dyn DeviceListener>>,
    pub initialized: bool,
    pub event_count: u64,
}

impl EventManager {
    /// No subscribers, delivery off.
    pub fn new() -> (m: EventManager)
        ensures
            m.subscribers@.len() == 0,
            !m.initialized,
            m.event_count == 0,
    {
        EventManager { subscribers: Vec::new(), initialized: false, event_count: 0 }
    }
}

/// Turns delivery on and subscribes the default listener.
pub fn init(mgr: &mut EventManager, default_listener: Box<dyn DeviceListener>)
    ensures
        final(mgr).initialized,
        final(mgr).subscribers@ == old(mgr).subscribers@.push(default_listener),
        final(mgr).event_count == old(mgr).event_count,
{
    mgr.initialized = true;
    mgr.subscribers.push(default_listener);
}

/// Counts `event` (the counter stops at its maximum) and delivers it to
/// every subscriber, in subscription order; before `init` nothing is counted
/// or delivered.
pub fn emit(mgr: &mut EventManager, event: DeviceEvent)
    ensures
        final(mgr).event_count == (if old(mgr).initialized && old(mgr).event_count < u64::MAX {
            old(mgr).event_count + 1
        } else {
            old(mgr).event_count as int
        }),
        final(mgr).subscribers@ == old(mgr).subscribers@,
        final(mgr).initialized == old(mgr).initialized,
{
    if !mgr.initialized {
        return;
    }
    if mgr.event_count < u64::MAX {
        mgr.event_count = mgr.event_count + 1;
    }
    let mut i: usize = 0;
    while i < mgr.subscribers.len()
        invariant
            0 <= i <= mgr.subscribers@.len(),
        decreases mgr.subscribers@.len() - i,
    {
        mgr.subscribers[i].on_event(event);
        i = i + 1;
    }
}

/// Adds a subscriber at the end.
pub fn subscribe(mgr: &mut EventManager, listener: Box<dyn DeviceListener>)
    ensures
        final(mgr).subscribers@ == old(mgr).subscribers@.push(listener),
        final(mgr).initialized == old(mgr).initialized,
        final(mgr).event_count == old(mgr).event_count,
{
    mgr.subscribers.push(listener);
}

/// Removal by name is not supported: subscribers have no identity yet, so
/// the list is left as it is.
pub fn unsubscribe(mgr: &mut EventManager, name: &str)
    ensures
        final(mgr).subscribers@ == old(mgr).subscribers@,
        final(mgr).initialized == old(mgr).initialized,
        final(mgr).event_count == old(mgr).event_count,
{
}

/// Number of subscribers.
pub fn subscriber_count(mgr: &EventManager) -> (n: usize)
    ensures
        n == mgr.subscribers@.len(),
{
    mgr.subscribers.len()
}

/// Number of events counted so far.
pub fn total_events(mgr: &EventManager) -> (n: u64)
    ensures
        n == mgr.event_count,
{
    mgr.event_count
}

} // verus!
