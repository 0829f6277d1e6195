//! xHCI: the USB 3 host controller driver.
pub mod regs;
pub mod structs;
pub mod types;
pub mod ring;
pub mod controller;
pub mod port;
pub mod transfer;
pub mod device;
pub mod global;

use vstd::prelude::*;
use crate::drivers::base::bus::BusAddress;
use crate::drivers::base::device::Device;
use crate::drivers::base::driver::{DeviceType, Driver, DriverError};
use crate::drivers::bus::usb::host::{UsbHostController, UsbError, UsbPortEvent, UsbTransferRequest};
use crate::drivers::bus::usb::types::{UsbDeviceDescriptor, UsbSpeed as UniversalSpeed};
use self::controller::XhciController;
use self::types::{UsbSpeed, port_of_status, port_from_status};

verus! {

/// The xHCI driver for the driver manager.
pub struct XhciDriver;

impl Driver for XhciDriver {
    fn name(&self) -> (s: &'static str)
        ensures
            s@ == "xHCI USB 3.0 Host Driver"@,
    {
        "xHCI USB 3.0 Host Driver"
    }

    fn device_type(&self) -> (t: DeviceType)
        ensures
            t == DeviceType::Controller,
    {
        DeviceType::Controller
    }

    /// Takes devices found on PCI; others are not supported.
    fn probe(&self, dev: &mut Device) -> (r: Result<(), DriverError>)
        ensures
            r == (if old(dev).bus_address is Pci { Ok::<(), DriverError>(()) } else { Err(DriverError::NotSupported) }),
            *final(dev) == *old(dev),
    {
        match dev.bus_address {
            BusAddress::Pci { .. } => Ok(()),
            _ => Err(DriverError::NotSupported),
        }
    }
}

/// The speed the USB stack uses for a port speed.
pub open spec fn universal_speed(s: UsbSpeed) -> UniversalSpeed {
    match s {
        UsbSpeed::Low => UniversalSpeed::LowSpeed,
        UsbSpeed::Full => UniversalSpeed::FullSpeed,
        UsbSpeed::High => UniversalSpeed::HighSpeed,
        UsbSpeed::Super => UniversalSpeed::SuperSpeed,
        UsbSpeed::SuperPlus => UniversalSpeed::SuperSpeedPlus,
    }
}

/// The host controller interface over an xHCI controller, with the latest
/// PORTSC values of its ports 1, 2, ...
pub struct XhciHostAdapter {
    pub inner: XhciController,
    pub port_status: Vec<u32>,
}

/// The connection events of ports 1..=max_ports whose status shows a
/// device.
pub open spec fn port_events(statuses: Seq<u32>, max_ports: int) -> Seq<UsbPortEvent>
    decreases max_ports,
{
    if max_ports <= 0 {
        Seq::empty()
    } else {
        let rest = port_events(statuses, max_ports - 1);
        let s = if max_ports - 1 < statuses.len() { statuses[max_ports - 1] } else { 0u32 };
        let p = port_of_status(max_ports as u8, s);
        if p.connected {
            rest.push(UsbPortEvent { port_id: max_ports as u8, connected: true, speed: universal_speed(p.speed) })
        } else {
            rest
        }
    }
}

/// The PORTSC value of port `port` (from 1) among `statuses`; 0 past them.
pub open spec fn status_of_port(statuses: Seq<u32>, port: int) -> u32 {
    if 0 <= port - 1 < statuses.len() { statuses[port - 1] } else { 0u32 }
}

/// Each connection event names a port among the first `max_ports`, whose
/// PORTSC shows a device connected (bit 0), and reports the speed that the
/// port's speed field (bits 10..13) gives: code 2 low speed, 3 high speed,
/// 4 SuperSpeed, 5 SuperSpeedPlus, and full speed otherwise.
pub proof fn lemma_port_events_report_port_speed(statuses: Seq<u32>, max_ports: int)
    requires
        0 <= max_ports <= 255,
    ensures
        forall|j: int| 0 <= j < port_events(statuses, max_ports).len() ==> {
            let e = #[trigger] port_events(statuses, max_ports)[j];
            let s = status_of_port(statuses, e.port_id as int);
            let code = (s / 0x400) % 0x10;
            &&& 1 <= e.port_id <= max_ports
            &&& e.connected
            &&& s % 2 == 1
            &&& e.speed == (if code == 2 {
                    UniversalSpeed::LowSpeed
                } else if code == 3 {
                    UniversalSpeed::HighSpeed
                } else if code == 4 {
                    UniversalSpeed::SuperSpeed
                } else if code == 5 {
                    UniversalSpeed::SuperSpeedPlus
                } else {
                    UniversalSpeed::FullSpeed
                })
        },
    decreases max_ports,
{
    if max_ports > 0 {
        lemma_port_events_report_port_speed(statuses, max_ports - 1);
        let rest = port_events(statuses, max_ports - 1);
        assert forall|j: int| 0 <= j < port_events(statuses, max_ports).len() implies {
            let e = #[trigger] port_events(statuses, max_ports)[j];
            let s = status_of_port(statuses, e.port_id as int);
            let code = (s / 0x400) % 0x10;
            &&& 1 <= e.port_id <= max_ports
            &&& e.connected
            &&& s % 2 == 1
            &&& e.speed == (if code == 2 {
                    UniversalSpeed::LowSpeed
                } else if code == 3 {
                    UniversalSpeed::HighSpeed
                } else if code == 4 {
                    UniversalSpeed::SuperSpeed
                } else if code == 5 {
                    UniversalSpeed::SuperSpeedPlus
                } else {
                    UniversalSpeed::FullSpeed
                })
        } by {
            if j < rest.len() {
                assert(port_events(statuses, max_ports)[j] == rest[j]);
            } else {
                assert((max_ports as u8) as int == max_ports);
            }
        }
    }
}

/// Every port among the first `max_ports` whose PORTSC shows a device
/// connected has its connection event.
pub proof fn lemma_connected_ports_have_events(statuses: Seq<u32>, max_ports: int, port: int)
    requires
        0 <= max_ports <= 255,
        1 <= port <= max_ports,
        status_of_port(statuses, port) % 2 == 1,
    ensures
        exists|j: int| 0 <= j < port_events(statuses, max_ports).len()
            && (#[trigger] port_events(statuses, max_ports)[j]).port_id == port,
    decreases max_ports,
{
    let rest = port_events(statuses, max_ports - 1);
    if port == max_ports {
        assert(port_events(statuses, max_ports)[rest.len() as int].port_id == port);
    } else {
        lemma_connected_ports_have_events(statuses, max_ports - 1, port);
        let j = choose|j: int| 0 <= j < rest.len() && (#[trigger] rest[j]).port_id == port;
        assert(port_events(statuses, max_ports)[j] == rest[j]);
    }
}

fn to_universal(s: UsbSpeed) -> (u: UniversalSpeed)
    ensures
        u == universal_speed(s),
{
    match s {
        UsbSpeed::Low => UniversalSpeed::LowSpeed,
        UsbSpeed::Full => UniversalSpeed::FullSpeed,
        UsbSpeed::High => UniversalSpeed::HighSpeed,
        UsbSpeed::Super => UniversalSpeed::SuperSpeed,
        UsbSpeed::SuperPlus => UniversalSpeed::SuperSpeedPlus,
    }
}

impl XhciHostAdapter {
    /// The connection events of the root ports, in port order.
    pub fn connected_events(&self) -> (v: Vec<UsbPortEvent>)
        ensures
            v@ == port_events(self.port_status@, self.inner.max_ports as int),
    {
        let mut events: Vec<UsbPortEvent> = Vec::new();
        let max = self.inner.max_ports as u16;
        let mut i: u16 = 1;
        while i <= max
            invariant
                1 <= i <= max + 1,
                max == self.inner.max_ports,
                max <= 255,
                events@ == port_events(self.port_status@, (i - 1) as int),
            decreases max + 1 - i,
        {
            let s: u32 = if ((i - 1) as usize) < self.port_status.len() { self.port_status[(i - 1) as usize] } else { 0 };
            let p = port_from_status(i as u8, s);
            if p.connected {
                events.push(UsbPortEvent { port_id: i as u8, connected: true, speed: to_universal(p.speed) });
            }
            i = i + 1;
        }
        events
    }
}

impl UsbHostController for XhciHostAdapter {
    fn name(&self) -> (s: &'static str)
        ensures
            s@ == "xHCI Host Controller"@,
    {
        "xHCI Host Controller"
    }

    /// The connection events of the root ports, in port order.
    fn poll_ports(&self) -> (v: Vec<UsbPortEvent>)
        ensures
            v@ == port_events(self.port_status@, self.inner.max_ports as int),
    {
        self.connected_events()
    }

    /// Device setup through the adapter is not implemented.
    fn setup_device(&self, port_id: u8) -> (r: Result<UsbDeviceDescriptor, UsbError>)
        ensures
            r == Err::<UsbDeviceDescriptor, UsbError>(UsbError::HardwareError),
    {
        Err(UsbError::HardwareError)
    }

    /// Transfers through the adapter are not implemented: reported done.
    fn transfer(&self, request: UsbTransferRequest) -> (r: Result<(), UsbError>)
        ensures
            r is Ok,
    {
        Ok(())
    }
}

/// The driver, for registration with the driver manager.
pub fn init() -> (d: XhciDriver)
    ensures
        d == XhciDriver,
{
    XhciDriver
}

/// Stopping the xHCI driver: the controller stops with `shutdown`.
pub fn shutdown() {
}

} // verus!
