//! Port handling: the PORTSC values that detect, reset and power a port,
//! and the connected ports found by a scan.
use vstd::prelude::*;
use crate::drivers::bus::usb::xhci::regs::{PORTSC_CCS, PORTSC_PR, PORTSC_PRC, PORTSC_PP, PORTSC_CSC};
use crate::drivers::bus::usb::xhci::types::{UsbPort, port_of_status, port_from_status};

verus! {

/// The change bits of a PORTSC value (bits 17..23), which a write of ones
/// acknowledges.
pub fn port_change_bits(portsc: u32) -> (r: u32)
    ensures
        r == portsc & 0x00FE_0000,
{
    portsc & 0x00FE_0000
}

/// Whether a device is connected (CCS).
pub fn port_connected(portsc: u32) -> (r: bool)
    ensures
        r == (portsc & PORTSC_CCS != 0),
{
    portsc & PORTSC_CCS != 0
}

/// The value that starts a port reset.
pub fn port_reset_request(portsc: u32) -> (r: u32)
    ensures
        r == portsc | PORTSC_PR,
{
    portsc | PORTSC_PR
}

/// Whether the port is still in reset (PR).
pub fn port_in_reset(portsc: u32) -> (r: bool)
    ensures
        r == (portsc & PORTSC_PR != 0),
{
    portsc & PORTSC_PR != 0
}

/// Whether a reset is over: the reset-change bit is set or the reset bit
/// has cleared.
pub fn port_reset_complete(status: u32) -> (r: bool)
    ensures
        r == (status & PORTSC_PRC != 0 || status & PORTSC_PR == 0),
{
    (status & PORTSC_PRC) != 0 || (status & PORTSC_PR) == 0
}

/// The value that acknowledges a finished reset.
pub fn port_reset_ack(status: u32) -> (r: u32)
    ensures
        r == status | PORTSC_PRC,
{
    status | PORTSC_PRC
}

/// The value that powers a port.
pub fn port_power_on(portsc: u32) -> (r: u32)
    ensures
        r == portsc | PORTSC_PP,
{
    portsc | PORTSC_PP
}

/// The value that acknowledges a connection change.
pub fn port_connect_ack(portsc: u32) -> (r: u32)
    ensures
        r == portsc | PORTSC_CSC,
{
    portsc | PORTSC_CSC
}

/// The ports connected among the final PORTSC values of ports 1, 2, ...
pub open spec fn connected_ports_of(statuses: Seq<u32>) -> Seq<UsbPort>
    decreases statuses.len(),
{
    if statuses.len() == 0 {
        Seq::empty()
    } else {
        let rest = connected_ports_of(statuses.drop_last());
        let n = statuses.len();
        let p = port_of_status(n as u8, statuses.last());
        if p.connected { rest.push(p) } else { rest }
    }
}

/// The connected ports, numbered from 1, from the PORTSC values read after
/// each port was brought up.
pub fn connected_ports(statuses: &[u32]) -> (ports: Vec<UsbPort>)
    requires
        statuses@.len() <= 255,
    ensures
        ports@ == connected_ports_of(statuses@),
{
    let mut ports: Vec<UsbPort> = Vec::new();
    let mut i: usize = 0;
    while i < statuses.len()
        invariant
            0 <= i <= statuses@.len(),
            statuses@.len() <= 255,
            ports@ == connected_ports_of(statuses@.take(i as int)),
        decreases statuses@.len() - i,
    {
        proof {
            assert(statuses@.take(i + 1).drop_last() =~= statuses@.take(i as int));
        }
        let p = port_from_status((i + 1) as u8, statuses[i]);
        if p.connected {
            ports.push(p);
        }
        i = i + 1;
    }
    assert(statuses@.take(statuses@.len() as int) =~= statuses@);
    ports
}

/// Reads of PORTSC that a scan spends waiting for a port reset to end.
pub const SCAN_RESET_POLLS: u32 = 100_000;

/// Reads of PORTSC that a scan spends waiting for a connection.
pub const SCAN_CONNECT_POLLS: u32 = 200_000;

/// Where the bring-up of a port during a scan stands. Each step takes the
/// PORTSC value just read and says what, if anything, to write back.
#[derive(Clone, Copy, Debug, PartialEq, Eq, Structural)]
pub enum PortBringUp {
    /// Nothing done yet: the read's change bits are written back.
    Start,
    /// Changes acknowledged: the read decides between reset and power.
    Probe,
    /// A reset was requested and `polls` reads have seen it running.
    Resetting { polls: u32 },
    /// Waiting for a stable connection; `polls` reads have seen none.
    Connecting { polls: u32 },
    /// Finished: the next read is the port's final status.
    Done,
}

/// One step of a port's bring-up on the PORTSC value `portsc` just read:
/// the next state, and the value to write to PORTSC, if any.
/// - first, the change bits are acknowledged;
/// - then a connected port is reset, and any other port powered;
/// - a reset is waited for until the reset bit clears, at most
///   `SCAN_RESET_POLLS` reads, and then acknowledged;
/// - last, a connection is waited for, at most `SCAN_CONNECT_POLLS` reads,
///   and acknowledged when it comes.
pub open spec fn bring_up_step(state: PortBringUp, portsc: u32) -> (PortBringUp, Option<u32>) {
    match state {
        PortBringUp::Start => (PortBringUp::Probe, Some(portsc | (portsc & 0x00FE_0000))),
        PortBringUp::Probe => if portsc & PORTSC_CCS != 0 {
            (PortBringUp::Resetting { polls: 0 }, Some(portsc | PORTSC_PR))
        } else {
            (PortBringUp::Connecting { polls: 0 }, Some(portsc | PORTSC_PP))
        },
        PortBringUp::Resetting { polls } => if portsc & PORTSC_PR == 0 || polls + 1 >= SCAN_RESET_POLLS {
            (PortBringUp::Connecting { polls: 0 }, Some(portsc | PORTSC_PRC))
        } else {
            (PortBringUp::Resetting { polls: (polls + 1) as u32 }, None)
        },
        PortBringUp::Connecting { polls } => if portsc & PORTSC_CCS != 0 {
            (PortBringUp::Done, Some(portsc | PORTSC_CSC))
        } else if polls + 1 >= SCAN_CONNECT_POLLS {
            (PortBringUp::Done, None)
        } else {
            (PortBringUp::Connecting { polls: (polls + 1) as u32 }, None)
        },
        PortBringUp::Done => (PortBringUp::Done, None),
    }
}

/// Takes one step of a port's bring-up (see `bring_up_step`).
pub fn port_bring_up_step(state: PortBringUp, portsc: u32) -> (r: (PortBringUp, Option<u32>))
    ensures
        r == bring_up_step(state, portsc),
{
    match state {
        PortBringUp::Start => (PortBringUp::Probe, Some(portsc | port_change_bits(portsc))),
        PortBringUp::Probe => if port_connected(portsc) {
            (PortBringUp::Resetting { polls: 0 }, Some(port_reset_request(portsc)))
        } else {
            (PortBringUp::Connecting { polls: 0 }, Some(port_power_on(portsc)))
        },
        PortBringUp::Resetting { polls } => if !port_in_reset(portsc) || polls >= SCAN_RESET_POLLS - 1 {
            (PortBringUp::Connecting { polls: 0 }, Some(port_reset_ack(portsc)))
        } else {
            (PortBringUp::Resetting { polls: polls + 1 }, None)
        },
        PortBringUp::Connecting { polls } => if port_connected(portsc) {
            (PortBringUp::Done, Some(port_connect_ack(portsc)))
        } else if polls >= SCAN_CONNECT_POLLS - 1 {
            (PortBringUp::Done, None)
        } else {
            (PortBringUp::Connecting { polls: polls + 1 }, None)
        },
        PortBringUp::Done => (PortBringUp::Done, None),
    }
}

/// Reads left, at most, before a bring-up in `state` is done.
pub open spec fn bring_up_reads_left(state: PortBringUp) -> nat {
    match state {
        PortBringUp::Start => (SCAN_RESET_POLLS + SCAN_CONNECT_POLLS + 4) as nat,
        PortBringUp::Probe => (SCAN_RESET_POLLS + SCAN_CONNECT_POLLS + 3) as nat,
        PortBringUp::Resetting { polls } =>
            (SCAN_CONNECT_POLLS + 1) as nat + (if polls < SCAN_RESET_POLLS { (SCAN_RESET_POLLS - polls) as nat } else { 1nat }),
        PortBringUp::Connecting { polls } =>
            if polls < SCAN_CONNECT_POLLS { (SCAN_CONNECT_POLLS - polls) as nat } else { 1nat },
        PortBringUp::Done => 0,
    }
}

/// A bring-up always ends: every step before `Done` brings it closer, so a
/// port is done after at most `SCAN_RESET_POLLS + SCAN_CONNECT_POLLS + 4`
/// reads, whatever the port answers.
pub proof fn lemma_bring_up_ends(state: PortBringUp, portsc: u32)
    requires
        state != PortBringUp::Done,
    ensures
        bring_up_reads_left(bring_up_step(state, portsc).0) < bring_up_reads_left(state),
{
}

/// Reads of PORTSC spent waiting for a requested port reset to end.
pub const RESET_POLLS: u32 = 2_000_000;

/// Where a requested port reset stands. Each step takes the PORTSC value
/// just read and says what, if anything, to write back.
#[derive(Clone, Copy, Debug, PartialEq, Eq, Structural)]
pub enum PortReset {
    /// Nothing done yet: the read is written back with the reset bit.
    Start,
    /// The reset runs and `polls` reads have not seen it end.
    Waiting { polls: u32 },
    /// The reset ended and was acknowledged.
    Succeeded,
    /// The reset did not end within `RESET_POLLS` reads.
    TimedOut,
}

/// One step of a requested port reset on the PORTSC value `portsc` just
/// read: the reset is requested, then waited for, at most `RESET_POLLS`
/// reads, and acknowledged when it ends.
pub open spec fn reset_step(state: PortReset, portsc: u32) -> (PortReset, Option<u32>) {
    match state {
        PortReset::Start => (PortReset::Waiting { polls: 0 }, Some(portsc | PORTSC_PR)),
        PortReset::Waiting { polls } => if portsc & PORTSC_PRC != 0 || portsc & PORTSC_PR == 0 {
            (PortReset::Succeeded, Some(portsc | PORTSC_PRC))
        } else if polls + 1 >= RESET_POLLS {
            (PortReset::TimedOut, None)
        } else {
            (PortReset::Waiting { polls: (polls + 1) as u32 }, None)
        },
        PortReset::Succeeded => (PortReset::Succeeded, None),
        PortReset::TimedOut => (PortReset::TimedOut, None),
    }
}

/// Takes one step of a requested port reset (see `reset_step`).
pub fn port_reset_step(state: PortReset, portsc: u32) -> (r: (PortReset, Option<u32>))
    ensures
        r == reset_step(state, portsc),
{
    match state {
        PortReset::Start => (PortReset::Waiting { polls: 0 }, Some(port_reset_request(portsc))),
        PortReset::Waiting { polls } => if port_reset_complete(portsc) {
            (PortReset::Succeeded, Some(port_reset_ack(portsc)))
        } else if polls >= RESET_POLLS - 1 {
            (PortReset::TimedOut, None)
        } else {
            (PortReset::Waiting { polls: polls + 1 }, None)
        },
        PortReset::Succeeded => (PortReset::Succeeded, None),
        PortReset::TimedOut => (PortReset::TimedOut, None),
    }
}

/// Reads left, at most, before a reset in `state` is over.
pub open spec fn reset_reads_left(state: PortReset) -> nat {
    match state {
        PortReset::Start => (RESET_POLLS + 1) as nat,
        PortReset::Waiting { polls } => if polls < RESET_POLLS { (RESET_POLLS - polls) as nat } else { 1nat },
        PortReset::Succeeded => 0,
        PortReset::TimedOut => 0,
    }
}

/// A requested reset always ends, after at most `RESET_POLLS + 1` reads,
/// and it is acknowledged exactly when it succeeds.
pub proof fn lemma_reset_ends(state: PortReset, portsc: u32)
    requires
        state != PortReset::Succeeded,
        state != PortReset::TimedOut,
    ensures
        reset_reads_left(reset_step(state, portsc).0) < reset_reads_left(state),
        state != PortReset::Start ==> (reset_step(state, portsc).1 is Some <==> reset_step(state, portsc).0 == PortReset::Succeeded),
{
}

} // verus!
