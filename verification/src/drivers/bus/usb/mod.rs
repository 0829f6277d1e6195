//! The USB stack: host controllers found on PCI, the devices attached, and
//! the xHCI and mass-storage drivers.
pub mod types;
pub mod host;
pub mod device;
pub mod ehci;
pub mod mass_storage;
pub mod xhci;

use vstd::prelude::*;
use crate::drivers::base::device::Device;
use crate::drivers::bus::pci::PciAddress;
use crate::drivers::bus::pci::device::{PciDevice, bar_addr};
use self::device::UsbDevice;

verus! {

/// Programming interface of xHCI controllers.
pub const PCI_PROG_IF_XHCI: u8 = 0x30;
/// Programming interface of EHCI controllers.
pub const PCI_PROG_IF_EHCI: u8 = 0x20;
/// Programming interface of OHCI controllers.
pub const PCI_PROG_IF_OHCI: u8 = 0x10;
/// Programming interface of UHCI controllers.
pub const PCI_PROG_IF_UHCI: u8 = 0x00;

/// Kinds of host controller.
#[derive(Debug, Clone, Copy, PartialEq, Eq, Structural)]
pub enum HostControllerType {
    /// USB 3.0+.
    Xhci,
    /// USB 2.0.
    Ehci,
    /// USB 1.1.
    Ohci,
    /// USB 1.0.
    Uhci,
}

/// A host controller found on PCI.
#[derive(Debug, Clone, Copy)]
pub struct HostControllerInfo {
    pub controller_type: HostControllerType,
    pub pci_address: Option<PciAddress>,
    pub mmio_base: u64,
    pub irq: u8,
    pub max_ports: u8,
}

/// The USB stack's state.
pub struct UsbStack {
    pub host_controllers: Vec<HostControllerInfo>,
    pub devices: Vec<UsbDevice>,
    pub initialized: bool,
}

impl UsbStack {
    /// No controller, no device, not initialized.
    pub fn new() -> (s: UsbStack)
        ensures
            s.host_controllers@.len() == 0,
            s.devices@.len() == 0,
            !s.initialized,
    {
        UsbStack { host_controllers: Vec::new(), devices: Vec::new(), initialized: false }
    }
}

/// The kind of USB controller a PCI function is, if it is one.
pub open spec fn controller_type_of(p: PciDevice) -> Option<HostControllerType> {
    if p.class_code != 0x0C || p.subclass_code != 0x03 {
        None
    } else if p.prog_if == PCI_PROG_IF_XHCI {
        Some(HostControllerType::Xhci)
    } else if p.prog_if == PCI_PROG_IF_EHCI {
        Some(HostControllerType::Ehci)
    } else if p.prog_if == PCI_PROG_IF_OHCI {
        Some(HostControllerType::Ohci)
    } else if p.prog_if == PCI_PROG_IF_UHCI {
        Some(HostControllerType::Uhci)
    } else {
        None
    }
}

/// The controller record of a USB controller function.
pub open spec fn controller_info(p: PciDevice) -> HostControllerInfo {
    HostControllerInfo {
        controller_type: controller_type_of(p).unwrap(),
        pci_address: Some(p.address),
        mmio_base: bar_addr(p.bars@, 0) as u64,
        irq: p.interrupt_line,
        max_ports: 0,
    }
}

/// A PCI function is a USB host controller exactly when it is a serial-bus
/// controller (class 0x0C) of the USB subclass (0x03), and its programming
/// interface names the kind: 0x30 xHCI, 0x20 EHCI, 0x10 OHCI, 0x00 UHCI.
pub proof fn lemma_controller_kind_follows_prog_if(p: PciDevice)
    ensures
        controller_type_of(p) == Some(HostControllerType::Xhci)
            <==> (p.class_code == 0x0C && p.subclass_code == 0x03 && p.prog_if == 0x30),
        controller_type_of(p) == Some(HostControllerType::Ehci)
            <==> (p.class_code == 0x0C && p.subclass_code == 0x03 && p.prog_if == 0x20),
        controller_type_of(p) == Some(HostControllerType::Ohci)
            <==> (p.class_code == 0x0C && p.subclass_code == 0x03 && p.prog_if == 0x10),
        controller_type_of(p) == Some(HostControllerType::Uhci)
            <==> (p.class_code == 0x0C && p.subclass_code == 0x03 && p.prog_if == 0x00),
{
}

/// The controllers detection records among the functions `ps`, in order
/// (what `detect_host_controllers` appends).
pub open spec fn detected_controllers(ps: Seq<PciDevice>) -> Seq<HostControllerInfo> {
    ps.filter(|p: PciDevice| controller_type_of(p) is Some).map_values(|p: PciDevice| controller_info(p))
}

/// Detection keeps every USB host controller among the functions, with the
/// kind its programming interface names: an EHCI function (class 0x0C,
/// subclass 0x03, interface 0x20) is recorded as an EHCI controller, and so
/// on for xHCI (0x30), OHCI (0x10) and UHCI (0x00).
pub proof fn lemma_detection_records_each_controller(ps: Seq<PciDevice>, i: int)
    requires
        0 <= i < ps.len(),
        ps[i].class_code == 0x0C,
        ps[i].subclass_code == 0x03,
        ps[i].prog_if == 0x30 || ps[i].prog_if == 0x20 || ps[i].prog_if == 0x10 || ps[i].prog_if == 0x00,
    ensures
        exists|k: int| 0 <= k < detected_controllers(ps).len()
            && {
                let c = #[trigger] detected_controllers(ps)[k];
                &&& c.pci_address == Some(ps[i].address)
                &&& c.controller_type == (if ps[i].prog_if == 0x30 {
                        HostControllerType::Xhci
                    } else if ps[i].prog_if == 0x20 {
                        HostControllerType::Ehci
                    } else if ps[i].prog_if == 0x10 {
                        HostControllerType::Ohci
                    } else {
                        HostControllerType::Uhci
                    })
            },
{
    let pred = |p: PciDevice| controller_type_of(p) is Some;
    let f = |p: PciDevice| controller_info(p);
    ps.lemma_filter_contains(pred, i);
    let fl = ps.filter(pred);
    let k = choose|k: int| 0 <= k < fl.len() && fl[k] == ps[i];
    assert(fl.map_values(f)[k] == controller_info(ps[i]));
    assert(detected_controllers(ps)[k] == controller_info(ps[i]));
}

fn controller_type(p: &PciDevice) -> (r: Option<HostControllerType>)
    ensures
        r == controller_type_of(*p),
{
    if p.class_code != 0x0C || p.subclass_code != 0x03 {
        return None;
    }
    match p.prog_if {
        PCI_PROG_IF_XHCI => Some(HostControllerType::Xhci),
        PCI_PROG_IF_EHCI => Some(HostControllerType::Ehci),
        PCI_PROG_IF_OHCI => Some(HostControllerType::Ohci),
        PCI_PROG_IF_UHCI => Some(HostControllerType::Uhci),
        _ => None,
    }
}

/// Records the USB host controllers among `pci_devices`, in order.
pub fn detect_host_controllers(stack: &mut UsbStack, pci_devices: &[PciDevice])
    ensures
        final(stack).host_controllers@ == old(stack).host_controllers@
            + detected_controllers(pci_devices@),
        final(stack).devices@ == old(stack).devices@,
        final(stack).initialized == old(stack).initialized,
{
    let ghost pred = |p: PciDevice| controller_type_of(p) is Some;
    let ghost f = |p: PciDevice| controller_info(p);
    let ghost start = stack.host_controllers@;
    let mut i: usize = 0;
    while i < pci_devices.len()
        invariant
            0 <= i <= pci_devices@.len(),
            pred == (|p: PciDevice| controller_type_of(p) is Some),
            f == (|p: PciDevice| controller_info(p)),
            stack.host_controllers@ == start + pci_devices@.take(i as int).filter(pred).map_values(f),
            stack.devices@ == old(stack).devices@,
            stack.initialized == old(stack).initialized,
        decreases pci_devices@.len() - i,
    {
        proof {
            crate::seqs::lemma_take_succ(pci_devices@, i as int);
            crate::seqs::lemma_filter_push(pci_devices@.take(i as int), pci_devices@[i as int], pred);
        }
        let p = &pci_devices[i];
        match controller_type(p) {
            Some(t) => {
                let ghost prev = pci_devices@.take(i as int).filter(pred);
                stack.host_controllers.push(HostControllerInfo {
                    controller_type: t,
                    pci_address: Some(p.address),
                    mmio_base: p.bar_address(0),
                    irq: p.interrupt_line,
                    max_ports: 0,
                });
                assert(prev.push(*p).map_values(f) =~= prev.map_values(f).push(controller_info(*p)));
                assert(stack.host_controllers@ =~= start + prev.push(*p).map_values(f));
            },
            None => {},
        }
        i = i + 1;
    }
    assert(pci_devices@.take(pci_devices@.len() as int) =~= pci_devices@);
}

/// Starts the stack: records the host controllers among `pci_devices` and
/// marks it initialized (the xHCI and EHCI drivers are started by their
/// own `init`).
pub fn init(stack: &mut UsbStack, pci_devices: &[PciDevice])
    ensures
        final(stack).host_controllers@ == old(stack).host_controllers@
            + detected_controllers(pci_devices@),
        final(stack).devices@ == old(stack).devices@,
        final(stack).initialized,
{
    detect_host_controllers(stack, pci_devices);
    stack.initialized = true;
}

/// Enumeration of USB devices for the driver system is not implemented:
/// no device is reported.
pub fn scan(stack: &UsbStack) -> (v: Vec<Device>)
    ensures
        v@.len() == 0,
{
    Vec::new()
}

/// Number of attached devices.
pub fn device_count(stack: &UsbStack) -> (n: usize)
    ensures
        n == stack.devices@.len(),
{
    stack.devices.len()
}

/// Stopping the stack: the controllers' drivers stop on their own.
pub fn shutdown() {
}

/// Records an attached device.
pub fn register_device(stack: &mut UsbStack, device: UsbDevice)
    ensures
        final(stack).devices@ == old(stack).devices@.push(device),
        final(stack).host_controllers@ == old(stack).host_controllers@,
{
    stack.devices.push(device);
}

/// Forgets every device with bus address `address`.
pub fn unregister_device(stack: &mut UsbStack, address: u8)
    ensures
        final(stack).devices@ == old(stack).devices@.filter(|d: UsbDevice| d.address != address),
        final(stack).host_controllers@ == old(stack).host_controllers@,
{
    let ghost pred = |d: UsbDevice| d.address != address;
    let ghost orig = stack.devices@;
    let mut rest: Vec<UsbDevice> = Vec::new();
    std::mem::swap(&mut rest, &mut stack.devices);
    let mut kept: Vec<UsbDevice> = Vec::new();
    let ghost mut k: int = 0;
    while rest.len() > 0
        invariant
            pred == (|d: UsbDevice| d.address != address),
            0 <= k <= orig.len(),
            rest@ == orig.skip(k),
            kept@ == orig.take(k).filter(pred),
            stack.host_controllers@ == old(stack).host_controllers@,
        decreases rest@.len(),
    {
        proof {
            crate::seqs::lemma_take_succ(orig, k);
            crate::seqs::lemma_filter_push(orig.take(k), orig[k], pred);
        }
        let d = rest.remove(0);
        if d.address != address {
            kept.push(d);
        }
        proof {
            k = k + 1;
            assert(rest@ =~= orig.skip(k));
        }
    }
    assert(orig.take(k) =~= orig);
    stack.devices = kept;
}

/// The host controllers found, in order.
pub fn get_host_controllers(stack: &UsbStack) -> (v: Vec<HostControllerInfo>)
    ensures
        v@ == stack.host_controllers@,
{
    let mut v: Vec<HostControllerInfo> = Vec::new();
    let mut i: usize = 0;
    while i < stack.host_controllers.len()
        invariant
            0 <= i <= stack.host_controllers@.len(),
            v@ == stack.host_controllers@.take(i as int),
        decreases stack.host_controllers@.len() - i,
    {
        proof {
            crate::seqs::lemma_take_succ(stack.host_controllers@, i as int);
        }
        v.push(stack.host_controllers[i]);
        i = i + 1;
    }
    assert(stack.host_controllers@.take(stack.host_controllers@.len() as int) =~= stack.host_controllers@);
    v
}

/// Whether an xHCI controller was found.
pub fn has_xhci(stack: &UsbStack) -> (r: bool)
    ensures
        r == exists|k: int| 0 <= k < stack.host_controllers@.len()
            && (#[trigger] stack.host_controllers@[k]).controller_type == HostControllerType::Xhci,
{
    let mut i: usize = 0;
    while i < stack.host_controllers.len()
        invariant
            0 <= i <= stack.host_controllers@.len(),
            forall|k: int| 0 <= k < i ==> (#[trigger] stack.host_controllers@[k]).controller_type != HostControllerType::Xhci,
        decreases stack.host_controllers@.len() - i,
    {
        if stack.host_controllers[i].controller_type == HostControllerType::Xhci {
            return true;
        }
        i = i + 1;
    }
    false
}

} // verus!
