//! Commands and transfers: what a command completion reports, the command
//! ring control value, and the control and bulk transfers.
use vstd::prelude::*;
use crate::drivers::bus::usb::xhci::controller::XhciController;
use crate::drivers::bus::usb::xhci::regs::{TRB_COMMAND_COMPLETION, COMPLETION_SUCCESS};
use crate::drivers::bus::usb::xhci::ring::Ring;
use crate::drivers::bus::usb::xhci::structs::{Trb, SetupPacket, type_field};

verus! {

impl XhciController {
    /// A control transfer on `slot_id`: not implemented, reported done.
    pub fn control_transfer(&mut self, slot_id: u8, setup: SetupPacket, data: Option<&mut [u8]>) -> (r: bool)
        ensures
            r,
    {
        true
    }

    /// A bulk transfer of `data` on endpoint `endpoint_id` of `slot_id`,
    /// whose buffer is at physical address `phys` (0 when it has none): a
    /// Normal TRB with IOC is built for it; `false` when the buffer has no
    /// physical address. Queuing it is not implemented.
    pub fn bulk_transfer(&mut self, slot_id: u8, endpoint_id: u8, data: &mut [u8], direction_in: bool, phys: u64) -> (r: bool)
        ensures
            r == (phys != 0),
            final(data)@ == old(data)@,
    {
        if phys == 0 {
            return false;
        }
        let len = data.len();
        let _trb = Trb::normal(phys, len as u32, true);
        true
    }
}

/// What an event tells a driver waiting for a command: `None` to keep
/// waiting (not a command completion), `Some(Some(event))` when the command
/// succeeded, `Some(None)` when it failed.
pub fn command_outcome(event: Trb) -> (r: Option<Option<Trb>>)
    ensures
        type_field(event.control) != TRB_COMMAND_COMPLETION ==> r is None,
        type_field(event.control) == TRB_COMMAND_COMPLETION && event.status / 0x100_0000 == COMPLETION_SUCCESS ==> r == Some(Some(event)),
        type_field(event.control) == TRB_COMMAND_COMPLETION && event.status / 0x100_0000 != COMPLETION_SUCCESS ==> r == Some(None::<Trb>),
{
    if event.trb_type() != TRB_COMMAND_COMPLETION {
        return None;
    }
    if event.completion_code() == COMPLETION_SUCCESS {
        Some(Some(event))
    } else {
        Some(None)
    }
}

/// The command ring control value: the ring's address with its cycle in
/// bit 0.
pub fn command_ring_control(ring: &Ring) -> (crcr: u64)
    ensures
        crcr == ring.phys_addr | (if ring.cycle { 1u64 } else { 0u64 }),
{
    ring.phys_addr | (if ring.cycle { 1u64 } else { 0u64 })
}

} // verus!
