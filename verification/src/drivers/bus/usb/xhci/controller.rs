//! The xHCI controller: what it reports of itself, its slots and its rings.
use vstd::prelude::*;
use crate::drivers::bus::usb::xhci::regs::CapabilityRegs;
use crate::drivers::bus::usb::xhci::ring::{Ring, EventRing};

verus! {

/// State of one device slot.
#[derive(Debug, Clone, Copy, PartialEq, Eq, Structural)]
pub struct SlotState {
    pub allocated: bool,
    pub device_address: u8,
    pub port: u8,
    pub speed: u8,
}

impl SlotState {
    /// A free slot.
    pub fn empty() -> (s: SlotState)
        ensures
            s == (SlotState { allocated: false, device_address: 0, port: 0, speed: 0 }),
    {
        SlotState { allocated: false, device_address: 0, port: 0, speed: 0 }
    }
}

/// An xHCI controller.
pub struct XhciController {
    pub mmio_base: u64,
    pub irq: u8,
    pub max_ports: u8,
    pub max_slots: u8,
    pub context_size: usize,
    pub command_ring: Option<Ring>,
    pub event_ring: Option<EventRing>,
    pub dcbaa: Option<u64>,
    pub slots: Vec<SlotState>,
    pub cycle: bool,
    pub running: bool,
}

impl XhciController {
    /// The controller at `mmio_base` whose capability registers read
    /// `caps`: ports, slots and context size from them, one free slot state
    /// per slot, then brought up. Bringing it up (halt, reset, slots, DCBAA,
    /// rings, start) is not implemented beyond marking it running.
    pub fn new(mmio_base: u64, irq: u8, caps: &CapabilityRegs) -> (r: Option<XhciController>)
        ensures
            r matches Some(c) && {
                &&& c.mmio_base == mmio_base
                &&& c.irq == irq
                &&& c.max_ports == caps.hcsparams1 / 0x100_0000
                &&& c.max_slots == caps.hcsparams1 % 0x100
                &&& c.context_size == (if (caps.hccparams1 / 4) % 2 == 1 { 64usize } else { 32usize })
                &&& c.slots@.len() == c.max_slots
                &&& forall|k: int| 0 <= k < c.slots@.len() ==> #[trigger] c.slots@[k] == SlotState { allocated: false, device_address: 0, port: 0, speed: 0 }
                &&& c.command_ring is None && c.event_ring is None && c.dcbaa is None
                &&& c.cycle
                &&& c.running
            },
    {
        let max_ports = caps.max_ports();
        let max_slots = caps.max_slots();
        let context_size = caps.context_size();
        let mut slots: Vec<SlotState> = Vec::new();
        let mut i: u8 = 0;
        while i < max_slots
            invariant
                i <= max_slots,
                slots@.len() == i,
                forall|k: int| 0 <= k < i ==> #[trigger] slots@[k] == (SlotState { allocated: false, device_address: 0, port: 0, speed: 0 }),
            decreases max_slots - i,
        {
            slots.push(SlotState::empty());
            i = i + 1;
        }
        let mut controller = XhciController {
            mmio_base,
            irq,
            max_ports,
            max_slots,
            context_size,
            command_ring: None,
            event_ring: None,
            dcbaa: None,
            slots,
            cycle: true,
            running: false,
        };
        if !controller.initialize() {
            return None;
        }
        Some(controller)
    }

    fn initialize(&mut self) -> (ok: bool)
        ensures
            ok,
            final(self).running,
            final(self).slots@ == old(self).slots@,
            final(self).max_ports == old(self).max_ports,
            final(self).max_slots == old(self).max_slots,
            final(self).context_size == old(self).context_size,
            final(self).mmio_base == old(self).mmio_base,
            final(self).irq == old(self).irq,
            final(self).command_ring == old(self).command_ring,
            final(self).event_ring == old(self).event_ring,
            final(self).dcbaa == old(self).dcbaa,
            final(self).cycle == old(self).cycle,
    {
        self.running = true;
        true
    }

    /// Stops the controller.
    pub fn shutdown(&mut self)
        ensures
            !final(self).running,
            final(self).slots@ == old(self).slots@,
            final(self).max_ports == old(self).max_ports,
    {
        self.running = false;
    }

    /// Number of root ports.
    pub fn port_count(&self) -> (n: u8)
        ensures
            n == self.max_ports,
    {
        self.max_ports
    }

    /// Whether the controller runs.
    pub fn is_running(&self) -> (r: bool)
        ensures
            r == self.running,
    {
        self.running
    }
}

} // verus!
