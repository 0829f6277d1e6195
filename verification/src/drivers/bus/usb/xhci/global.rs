//! The system's xHCI controller: found on PCI and brought up once.
use vstd::prelude::*;
use crate::drivers::bus::pci::device::{PciDevice, bar_addr};
use crate::drivers::bus::usb::xhci::controller::XhciController;
use crate::drivers::bus::usb::xhci::port::{connected_ports, connected_ports_of};
use crate::drivers::bus::usb::xhci::regs::CapabilityRegs;
use crate::drivers::bus::usb::xhci::types::UsbPort;
use crate::drivers::bus::usb::PCI_PROG_IF_XHCI;

verus! {

/// The controller in use, once found.
pub struct XhciGlobal {
    pub controller: Option<XhciController>,
}

impl XhciGlobal {
    /// No controller yet.
    pub fn new() -> (g: XhciGlobal)
        ensures
            g.controller is None,
    {
        XhciGlobal { controller: None }
    }
}

/// Whether a PCI function is an xHCI controller.
pub open spec fn is_xhci(p: PciDevice) -> bool {
    p.class_code == 0x0C && p.subclass_code == 0x03 && p.prog_if == PCI_PROG_IF_XHCI
}

/// Index of the first xHCI controller in `s`, or the length.
pub open spec fn first_xhci(s: Seq<PciDevice>) -> int
    decreases s.len(),
{
    if s.len() == 0 {
        0
    } else if is_xhci(s[0]) {
        0
    } else {
        1 + first_xhci(s.drop_first())
    }
}

proof fn lemma_first_xhci(s: Seq<PciDevice>, i: int)
    requires
        0 <= i <= s.len(),
        forall|k: int| 0 <= k < i ==> !is_xhci(#[trigger] s[k]),
        i == s.len() || is_xhci(s[i]),
    ensures
        first_xhci(s) == i,
    decreases s.len(),
{
    if s.len() > 0 && i > 0 {
        assert forall|k: int| 0 <= k < i - 1 implies !is_xhci(#[trigger] s.drop_first()[k]) by {
            assert(s.drop_first()[k] == s[k + 1]);
        }
        lemma_first_xhci(s.drop_first(), i - 1);
    }
}

/// Index of the first xHCI controller among `pci_devices`, if any.
pub fn find_xhci(pci_devices: &[PciDevice]) -> (r: Option<usize>)
    ensures
        0 <= first_xhci(pci_devices@) <= pci_devices@.len(),
        first_xhci(pci_devices@) < pci_devices@.len() ==> r == Some(first_xhci(pci_devices@) as usize),
        first_xhci(pci_devices@) == pci_devices@.len() ==> r is None,
{
    let mut i: usize = 0;
    while i < pci_devices.len()
        && !(pci_devices[i].class_code == 0x0C && pci_devices[i].subclass_code == 0x03 && pci_devices[i].prog_if == PCI_PROG_IF_XHCI)
        invariant
            0 <= i <= pci_devices@.len(),
            forall|k: int| 0 <= k < i ==> !is_xhci(#[trigger] pci_devices@[k]),
        decreases pci_devices@.len() - i,
    {
        i = i + 1;
    }
    proof {
        lemma_first_xhci(pci_devices@, i as int);
    }
    if i == pci_devices.len() {
        None
    } else {
        Some(i)
    }
}

/// Looks for the first xHCI controller among `pci_devices` and brings it
/// up from its BAR 0 window, interrupt line, and the capability registers
/// read there (`caps`). `false`, with nothing changed, when there is none.
pub fn init(global: &mut XhciGlobal, pci_devices: &[PciDevice], caps: &CapabilityRegs) -> (found: bool)
    ensures
        found == (first_xhci(pci_devices@) < pci_devices@.len()),
        !found ==> final(global).controller == old(global).controller,
        found ==> (final(global).controller matches Some(c)
            && c.mmio_base == bar_addr(pci_devices@[first_xhci(pci_devices@)].bars@, 0)
            && c.irq == pci_devices@[first_xhci(pci_devices@)].interrupt_line
            && c.running),
{
    let i = match find_xhci(pci_devices) {
        Some(i) => i,
        None => return false,
    };
    let dev = &pci_devices[i];
    match XhciController::new(dev.bar_address(0), dev.interrupt_line, caps) {
        Some(c) => {
            global.controller = Some(c);
            true
        },
        None => false,
    }
}

/// The connected root ports of the controller, from the PORTSC values read
/// after bringing each port up; none without a controller.
pub fn scan_ports(global: &XhciGlobal, statuses: &[u32]) -> (ports: Vec<UsbPort>)
    requires
        statuses@.len() <= 255,
    ensures
        global.controller is None ==> ports@.len() == 0,
        global.controller is Some ==> ports@ == connected_ports_of(statuses@),
{
    match &global.controller {
        Some(_) => connected_ports(statuses),
        None => Vec::new(),
    }
}

/// Whether a controller was brought up.
pub fn is_initialized(global: &XhciGlobal) -> (r: bool)
    ensures
        r == global.controller.is_some(),
{
    global.controller.is_some()
}

/// Runs `f` on the controller, when there is one, and hands back its
/// result; `None`, without calling `f`, when there is none.
pub fn with_controller<F, R>(global: &mut XhciGlobal, f: F) -> (r: Option<R>)
    where
        F: FnOnce(&mut XhciController) -> R,
    requires
        forall|c: &mut XhciController| #[trigger] f.requires((c,)),
    ensures
        r is Some <==> old(global).controller is Some,
        final(global).controller is Some <==> old(global).controller is Some,
{
    match &mut global.controller {
        Some(c) => Some(f(c)),
        None => None,
    }
}

} // verus!
