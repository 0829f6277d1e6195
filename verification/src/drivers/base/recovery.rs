//! Recovery: escalates from rebinding the driver to resetting the device on
//! its bus to isolating it for good.
use vstd::prelude::*;
use crate::drivers::base::device::{Device, DeviceId, DeviceState};
use crate::drivers::base::driver::{Driver, DriverError};

verus! {

/// Recovery steps, mildest first.
#[derive(Debug, Clone, Copy, PartialEq, Eq, Structural)]
pub enum RecoveryAction {
    Retry,
    Rebind,
    ResetBus,
    Isolate,
}

/// Recovery history of one device.
#[derive(Debug, Clone, Copy)]
pub struct RecoveryRecord {
    pub device_id: DeviceId,
    pub retry_count: u8,
    pub last_action: RecoveryAction,
}

/// Chooses and applies recovery steps.
pub struct RecoveryManager {
    pub records: Vec<RecoveryRecord>,
    pub max_retries: u8,
}

/// The step taken at the `attempt`-th failure of a device.
pub open spec fn action_for(attempt: int, max_retries: int) -> RecoveryAction {
    if attempt > max_retries {
        RecoveryAction::Isolate
    } else if attempt == max_retries {
        RecoveryAction::ResetBus
    } else {
        RecoveryAction::Rebind
    }
}

/// Severity rank of a recovery step.
pub open spec fn action_rank(a: RecoveryAction) -> int {
    match a {
        RecoveryAction::Retry => 0,
        RecoveryAction::Rebind => 1,
        RecoveryAction::ResetBus => 2,
        RecoveryAction::Isolate => 3,
    }
}

/// Index of the first record of `id`, or the length when there is none.
pub open spec fn record_index(s: Seq<RecoveryRecord>, id: DeviceId) -> int
    decreases s.len(),
{
    if s.len() == 0 {
        0
    } else if s[0].device_id == id {
        0
    } else {
        1 + record_index(s.drop_first(), id)
    }
}

proof fn lemma_record_index(s: Seq<RecoveryRecord>, id: DeviceId, i: int)
    requires
        0 <= i <= s.len(),
        forall|k: int| 0 <= k < i ==> #[trigger] s[k].device_id != id,
        i == s.len() || s[i].device_id == id,
    ensures
        record_index(s, id) == i,
    decreases s.len(),
{
    if s.len() > 0 && i > 0 {
        assert forall|k: int| 0 <= k < i - 1 implies #[trigger] s.drop_first()[k].device_id != id by {
            assert(s.drop_first()[k] == s[k + 1]);
        }
        lemma_record_index(s.drop_first(), id, i - 1);
    }
}

/// The retry count of `id`'s record, if it has one, can count one more
/// failure.
pub open spec fn retry_room(s: Seq<RecoveryRecord>, id: DeviceId) -> bool {
    record_index(s, id) < s.len() ==> s[record_index(s, id)].retry_count < u8::MAX
}

/// The records after a failure of `id`: its retry count goes up by one, or
/// a first record is made for it.
pub open spec fn records_after_failure(s: Seq<RecoveryRecord>, id: DeviceId) -> Seq<RecoveryRecord> {
    let i = record_index(s, id);
    if i < s.len() {
        s.update(i, RecoveryRecord { retry_count: (s[i].retry_count + 1) as u8, ..s[i] })
    } else {
        s.push(RecoveryRecord { device_id: id, retry_count: 1, last_action: RecoveryAction::Rebind })
    }
}

impl RecoveryManager {
    /// A manager with no history that isolates after three retries.
    pub fn new() -> (m: RecoveryManager)
        ensures
            m.records@.len() == 0,
            m.max_retries == 3,
    {
        RecoveryManager { records: Vec::new(), max_retries: 3 }
    }

    /// Counts one more failure of `id` and returns the step for it.
    pub fn decide_action(&mut self, id: DeviceId, err: DriverError) -> (a: RecoveryAction)
        requires
            retry_room(old(self).records@, id),
        ensures
            final(self).max_retries == old(self).max_retries,
            final(self).records@ == records_after_failure(old(self).records@, id),
            ({
                let s = old(self).records@;
                let i = record_index(s, id);
                a == (if i < s.len() { action_for(s[i].retry_count + 1, old(self).max_retries as int) } else { RecoveryAction::Rebind })
            }),
    {
        let mut i: usize = 0;
        while i < self.records.len() && self.records[i].device_id != id
            invariant
                0 <= i <= self.records@.len(),
                forall|k: int| 0 <= k < i ==> #[trigger] self.records@[k].device_id != id,
            decreases self.records@.len() - i,
        {
            i = i + 1;
        }
        proof {
            lemma_record_index(self.records@, id, i as int);
        }
        if i < self.records.len() {
            let mut r = self.records[i];
            r.retry_count = r.retry_count + 1;
            self.records.set(i, r);
            if r.retry_count > self.max_retries {
                RecoveryAction::Isolate
            } else if r.retry_count == self.max_retries {
                RecoveryAction::ResetBus
            } else {
                RecoveryAction::Rebind
            }
        } else {
            self.records.push(RecoveryRecord { device_id: id, retry_count: 1, last_action: RecoveryAction::Rebind });
            RecoveryAction::Rebind
        }
    }

    /// Handles a failure of `dev`: decides the step, then applies it.
    /// Rebind: the driver in charge (an index into `drivers`) is removed and
    /// the device goes back to `Initializing`. Bus reset: the device goes back
    /// to `Initializing`; the caller resets it on its bus. Isolation: the driver
    /// is removed and the device is `Dead`; the caller announces its removal.
    pub fn handle_failure(&mut self, dev: &mut Device, drivers: &Vec<Box<dyn Driver>>, err: DriverError) -> (a: RecoveryAction)
        requires
            retry_room(old(self).records@, old(dev).id),
        ensures
            final(self).max_retries == old(self).max_retries,
            final(self).records@ == records_after_failure(old(self).records@, old(dev).id),
            ({
                let s = old(self).records@;
                let i = record_index(s, old(dev).id);
                a == (if i < s.len() { action_for(s[i].retry_count + 1, old(self).max_retries as int) } else { RecoveryAction::Rebind })
            }),
            a == RecoveryAction::Isolate ==> final(dev).state == DeviceState::Dead && final(dev).driver.is_none(),
            (a == RecoveryAction::Rebind || a == RecoveryAction::Retry) ==> final(dev).state == DeviceState::Initializing
                && final(dev).driver.is_none(),
            a == RecoveryAction::ResetBus ==> final(dev).state == DeviceState::Initializing && final(dev).driver == old(dev).driver,
            final(dev).id == old(dev).id,
    {
        let id = dev.id;
        let action = self.decide_action(id, err);
        match action {
            RecoveryAction::Retry | RecoveryAction::Rebind => {
                Self::detach_driver(dev, drivers);
                dev.state = DeviceState::Initializing;
            },
            RecoveryAction::ResetBus => {
                dev.state = DeviceState::Initializing;
            },
            RecoveryAction::Isolate => {
                Self::detach_driver(dev, drivers);
                dev.state = DeviceState::Dead;
            },
        }
        action
    }

    fn detach_driver(dev: &mut Device, drivers: &Vec<Box<dyn Driver>>)
        ensures
            final(dev).driver.is_none(),
            final(dev).id == old(dev).id,
    {
        match dev.driver {
            Some(k) => {
                if k < drivers.len() {
                    let _ = drivers[k].remove(dev);
                }
                dev.driver = None;
            },
            None => {},
        }
    }
}

/// Escalation is monotone: a later failure never gets a milder step.
pub proof fn lemma_escalation_monotone(a: int, b: int, max_retries: int)
    requires
        a <= b,
    ensures
        action_rank(action_for(a, max_retries)) <= action_rank(action_for(b, max_retries)),
{
}

/// With the default limit of three, the first two failures rebind, the third
/// resets the bus and every later one isolates.
pub proof fn lemma_default_escalation(n: int)
    requires
        n >= 1,
    ensures
        n <= 2 ==> action_for(n, 3) == RecoveryAction::Rebind,
        n == 3 ==> action_for(n, 3) == RecoveryAction::ResetBus,
        n >= 4 ==> action_for(n, 3) == RecoveryAction::Isolate,
{
}

} // verus!
