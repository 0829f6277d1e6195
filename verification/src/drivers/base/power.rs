//! Power management: device power states (D0-D3) and the system state.
use vstd::prelude::*;
use crate::drivers::base::device::DeviceId;

verus! {

/// ACPI/PCI device power states, from full power to off.
#[derive(Debug, Clone, Copy, PartialEq, Eq, Structural)]
pub enum PowerState {
    D0,
    D1,
    D2,
    D3,
}

/// Display name of a power state.
pub open spec fn power_state_name(p: PowerState) -> Seq<char> {
    match p {
        PowerState::D0 => "D0 (Full Power)"@,
        PowerState::D1 => "D1 (Light Sleep)"@,
        PowerState::D2 => "D2 (Deep Sleep)"@,
        PowerState::D3 => "D3 (Off)"@,
    }
}

/// Relative consumption of a state, 0 to 100.
pub open spec fn consumption(p: PowerState) -> u8 {
    match p {
        PowerState::D0 => 100,
        PowerState::D1 => 50,
        PowerState::D2 => 10,
        PowerState::D3 => 0,
    }
}

/// Approximate wake-up latency of a state, in milliseconds.
pub open spec fn wake_latency(p: PowerState) -> u32 {
    match p {
        PowerState::D0 => 0,
        PowerState::D1 => 1,
        PowerState::D2 => 10,
        PowerState::D3 => 100,
    }
}

impl PowerState {
    /// Readable name of the state.
    pub fn as_str(&self) -> (s: &'static str)
        ensures
            s@ == power_state_name(*self),
    {
        match self {
            PowerState::D0 => "D0 (Full Power)",
            PowerState::D1 => "D1 (Light Sleep)",
            PowerState::D2 => "D2 (Deep Sleep)",
            PowerState::D3 => "D3 (Off)",
        }
    }

    /// Relative power consumption, 0 to 100.
    pub fn power_consumption(&self) -> (c: u8)
        ensures
            c == consumption(*self),
    {
        match self {
            PowerState::D0 => 100,
            PowerState::D1 => 50,
            PowerState::D2 => 10,
            PowerState::D3 => 0,
        }
    }

    /// Approximate wake-up latency in milliseconds.
    pub fn wake_latency_ms(&self) -> (l: u32)
        ensures
            l == wake_latency(*self),
    {
        match self {
            PowerState::D0 => 0,
            PowerState::D1 => 1,
            PowerState::D2 => 10,
            PowerState::D3 => 100,
        }
    }
}

/// Deeper states save more power and take longer to leave.
pub proof fn lemma_deeper_states_trade_latency(a: PowerState, b: PowerState)
    ensures
        consumption(a) < consumption(b) <==> wake_latency(a) > wake_latency(b),
{
}

/// Power transition events.
#[derive(Debug, Clone, Copy, PartialEq, Eq, Structural)]
pub enum PowerEvent {
    PrepareSuspend,
    Suspend,
    PrepareResume,
    Resume,
    PrepareShutdown,
    Shutdown,
}

/// Interface of drivers that manage their device's power.
pub trait PowerManaged {
    /// Moves the hardware to `state`; `false` when unsupported or failed.
    fn set_power_state(&self, state: PowerState) -> bool;

    /// Current power state.
    fn get_power_state(&self) -> PowerState;

    /// Saves the registers lost in suspension.
    fn save_context(&self) -> bool {
        true
    }

    /// Restores the saved registers after wake-up.
    fn restore_context(&self) -> bool {
        true
    }

    /// Longest acceptable wake-up latency, in milliseconds.
    fn max_wake_latency_ms(&self) -> u32 {
        100
    }
}

/// Power record of one device.
#[derive(Debug, Clone, Copy)]
pub struct PowerRecord {
    pub device_id: DeviceId,
    pub current_state: PowerState,
    pub supports_d1: bool,
    pub supports_d2: bool,
    pub supports_d3: bool,
}

/// System and device power states.
pub struct PowerManager {
    pub system_state: PowerState,
    pub records: Vec<PowerRecord>,
    pub initialized: bool,
}

/// Index of the first record of `id`, or the length when there is none.
pub open spec fn power_index(s: Seq<PowerRecord>, id: DeviceId) -> int
    decreases s.len(),
{
    if s.len() == 0 {
        0
    } else if s[0].device_id == id {
        0
    } else {
        1 + power_index(s.drop_first(), id)
    }
}

proof fn lemma_power_index(s: Seq<PowerRecord>, id: DeviceId, i: int)
    requires
        0 <= i <= s.len(),
        forall|k: int| 0 <= k < i ==> #[trigger] s[k].device_id != id,
        i == s.len() || s[i].device_id == id,
    ensures
        power_index(s, id) == i,
    decreases s.len(),
{
    if s.len() > 0 && i > 0 {
        assert forall|k: int| 0 <= k < i - 1 implies #[trigger] s.drop_first()[k].device_id != id by {
            assert(s.drop_first()[k] == s[k + 1]);
        }
        lemma_power_index(s.drop_first(), id, i - 1);
    }
}

/// The power manager at boot: system at full power, no device record.
pub fn init() -> (m: PowerManager)
    ensures
        m.system_state == PowerState::D0,
        m.records@.len() == 0,
        m.initialized,
{
    PowerManager { system_state: PowerState::D0, records: Vec::new(), initialized: true }
}

/// Requests suspension of one device; accepted as is, nothing changes.
pub fn suspend_device(mgr: &PowerManager, id: DeviceId) -> (r: bool)
    ensures
        r,
{
    true
}

/// Requests wake-up of one device; accepted as is, nothing changes.
pub fn resume_device(mgr: &PowerManager, id: DeviceId) -> (r: bool)
    ensures
        r,
{
    true
}

/// Suspends the system: its state becomes D3.
pub fn suspend_all(mgr: &mut PowerManager) -> (r: bool)
    ensures
        r,
        final(mgr).system_state == PowerState::D3,
        final(mgr).records@ == old(mgr).records@,
        final(mgr).initialized == old(mgr).initialized,
{
    mgr.system_state = PowerState::D3;
    true
}

/// Wakes the system: its state becomes D0.
pub fn resume_all(mgr: &mut PowerManager)
    ensures
        final(mgr).system_state == PowerState::D0,
        final(mgr).records@ == old(mgr).records@,
        final(mgr).initialized == old(mgr).initialized,
{
    mgr.system_state = PowerState::D0;
}

/// Power state of the system.
pub fn get_system_power_state(mgr: &PowerManager) -> (p: PowerState)
    ensures
        p == mgr.system_state,
{
    mgr.system_state
}

/// Power state of device `id`, if it registered its capabilities.
pub fn get_device_power_state(mgr: &PowerManager, id: DeviceId) -> (p: Option<PowerState>)
    ensures
        ({
            let i = power_index(mgr.records@, id);
            p == (if i < mgr.records@.len() { Some(mgr.records@[i].current_state) } else { None })
        }),
{
    let mut i: usize = 0;
    while i < mgr.records.len() && mgr.records[i].device_id != id
        invariant
            0 <= i <= mgr.records@.len(),
            forall|k: int| 0 <= k < i ==> #[trigger] mgr.records@[k].device_id != id,
        decreases mgr.records@.len() - i,
    {
        i = i + 1;
    }
    proof {
        lemma_power_index(mgr.records@, id, i as int);
    }
    if i < mgr.records.len() {
        Some(mgr.records[i].current_state)
    } else {
        None
    }
}

/// Registers the power capabilities of a device, which starts in D0.
pub fn register_device_power(mgr: &mut PowerManager, id: DeviceId, supports_d1: bool, supports_d2: bool, supports_d3: bool)
    ensures
        final(mgr).records@ == old(mgr).records@.push(PowerRecord {
            device_id: id,
            current_state: PowerState::D0,
            supports_d1,
            supports_d2,
            supports_d3,
        }),
        final(mgr).system_state == old(mgr).system_state,
{
    mgr.records.push(PowerRecord { device_id: id, current_state: PowerState::D0, supports_d1, supports_d2, supports_d3 });
}

} // verus!
