use lib::drivers::base::bus::{Bus, BusAddress, BusType};
use lib::drivers::base::device::DeviceId;
use lib::drivers::base::driver::DeviceType;
use lib::drivers::bus::acpi::madt::{self, LocalApicInfo, MadtInfo};
use lib::drivers::bus::acpi::tables::{self, MADT_SIGNATURE};
use lib::drivers::bus::acpi::{self, AcpiInfo, AcpiTableHeader};
use lib::drivers::bus::isa::IsaBus;
use lib::drivers::bus::pci::access::{self, PciConfigSpace};
use lib::drivers::bus::pci::device::PciDevice;
use lib::drivers::bus::pci::{accepted_function, map_class_to_dev_type, PciAddress, PciBus, PciConfigSource, ScanCursor};
use lib::drivers::bus::usb::device::{UsbDevice, UsbEndpoint, UsbInterface};
use lib::drivers::bus::usb::mass_storage::scsi;
use lib::drivers::bus::usb::mass_storage::transport::{Cbw, Csw, CBW_SIGNATURE};
use lib::drivers::bus::usb::types::{UsbDirection, UsbSpeed, UsbTransferType};
use lib::drivers::bus::usb::xhci::controller::XhciController;
use lib::drivers::bus::usb::xhci::global::{self as xglobal, XhciGlobal};
use lib::drivers::bus::usb::xhci::port as xctl;
use lib::drivers::bus::usb::xhci::port::{PortBringUp, PortReset};
use lib::drivers::bus::usb::xhci::regs::{CapabilityRegs, TRB_LINK, TRB_NORMAL};
use lib::drivers::bus::usb::xhci::ring::{EventRing, Ring};
use lib::drivers::bus::usb::xhci::structs::{EndpointDescriptor, EndpointType, SetupPacket, Trb};
use lib::drivers::bus::usb::{self as usb, HostControllerType, UsbStack};
use lib::drivers::bus::virtio::virtqueue::{virtqueue_size, VirtQueue};
use lib::drivers::bus::virtio::{self, VirtioDeviceType, VirtioRegistry};
use lib::drivers::bus::{self as buslayer, BusLayer};

fn space(vendor: u16, device: u16, class: u8, sub: u8, prog_if: u8) -> PciConfigSpace {
    let mut d = vec![0u32; 64];
    d[0] = (device as u32) << 16 | vendor as u32;
    d[2] = (class as u32) << 24 | (sub as u32) << 16 | (prog_if as u32) << 8 | 0x01;
    d[15] = 0x0109;
    PciConfigSpace { address: PciAddress { bus: 0, device: 3, function: 0 }, dwords: d }
}

#[test]
fn pci_device_from_config_space() {
    let cfg = space(0x8086, 0x100E, 0x02, 0x00, 0x00);
    let d = PciDevice::from_config(&cfg).unwrap();
    assert_eq!((d.vendor_id, d.device_id, d.class_code, d.revision), (0x8086, 0x100E, 0x02, 1));
    assert_eq!((d.interrupt_line, d.interrupt_pin), (9, 1));
    let empty = PciConfigSpace { address: PciAddress { bus: 0, device: 0, function: 0 }, dwords: vec![0xFFFF_FFFF; 64] };
    assert!(PciDevice::from_config(&empty).is_none());
}

#[test]
fn pci_config_sub_dword_access() {
    let mut cfg = space(0x1234, 0x5678, 0x01, 0x06, 0x01);
    assert_eq!(access::read_config_u16(&cfg, 0), 0x1234);
    assert_eq!(access::read_config_u16(&cfg, 2), 0x5678);
    assert_eq!(access::read_config_u8(&cfg, 0x0B), 0x01);
    access::write_config_u8(&mut cfg, 0x3C, 0x0B);
    assert_eq!(access::read_config_u8(&cfg, 0x3C), 0x0B);
    assert_eq!(access::read_config_u8(&cfg, 0x3D), 0x01);
    access::write_config_u16(&mut cfg, 0x06, 0xBEEF);
    assert_eq!(access::read_config_u16(&cfg, 0x06), 0xBEEF);
    assert_eq!(access::read_config_u16(&cfg, 0x04), 0x0000);
    let a = PciAddress { bus: 1, device: 2, function: 3 };
    assert_eq!(access::make_address(a, 0x13), 0x8001_1310);
    assert_eq!(access::ecam_address(0xE000_0000, a, 0x10), 0xE000_0000 + 0x10_0000 + 0x1_0000 + 0x3000 + 0x10);
}

#[test]
fn pci_bars() {
    let mut d = PciDevice::from_config(&space(1, 2, 3, 4, 5)).unwrap();
    d.bars = [0xFEB0_0004, 0x0000_0001, 0xC001, 0xFEA0_0000, 0, 0];
    assert!(!d.is_bar_io(0));
    assert!(d.is_bar_64bit(0));
    assert_eq!(d.bar_address(0), 0x1_FEB0_0000);
    assert!(d.is_bar_io(2));
    assert_eq!(d.bar_address(2), 0xC000);
    assert_eq!(d.bar_address(3), 0xFEA0_0000);
    assert_eq!(d.bar_address(6), 0);
    assert_eq!(d.bar_size(3, 0xFFFF_0000), 0x1_0000);
    assert_eq!(d.bar_size(2, 0xFFFF_FFE1), 0x20);
    assert_eq!(d.bar_size(3, 0), 0);
    assert_eq!(d.bar_size(9, 0xFFFF_0000), 0);
    assert_eq!(d.bar_size(2, 0x0000_0001), 0);
    assert_eq!(d.bar_size(3, 0x0000_0008), 0);
}

#[test]
fn pci_capability_walk() {
    let mut cfg = space(1, 2, 0x0C, 0x03, 0x30);
    cfg.dwords[1] = 0x0010_0000;
    cfg.dwords[13] = 0x40;
    cfg.dwords[16] = 0x0000_5001;
    cfg.dwords[20] = 0x0000_0005;
    let d = PciDevice::from_config(&cfg).unwrap();
    assert!(d.has_capabilities(&cfg));
    assert_eq!(d.capabilities_offset(&cfg), Some(0x40));
    assert_eq!(d.find_capability(&cfg, 0x05), Some(0x50));
    assert!(d.supports_msi(&cfg));
    assert!(!d.supports_msi_x(&cfg));
    assert!(d.is_usb_controller());
    assert!(!d.is_bridge());
    let mut command_only = cfg.clone();
    command_only.dwords[1] = 0x0000_0010;
    assert!(!d.has_capabilities(&command_only));
    assert_eq!(d.capabilities_offset(&command_only), None);
    let mut looped = cfg.clone();
    looped.dwords[20] = 0x0000_4007;
    assert_eq!(d.find_capability(&looped, 0x11), None);
}

#[test]
fn pci_enable_disable_command() {
    let mut cfg = space(1, 2, 3, 4, 5);
    cfg.dwords[1] = 0x0230_0000;
    let d = PciDevice::from_config(&cfg).unwrap();
    d.enable(&mut cfg);
    assert_eq!(cfg.dwords[1], 0x0230_0007);
    d.disable(&mut cfg);
    assert_eq!(cfg.dwords[1], 0x0230_0000);
}

#[derive(Clone)]
struct TwoFunctions;

impl PciConfigSource for TwoFunctions {
    fn read_function(&self, address: PciAddress) -> Option<PciConfigSpace> {
        if address.bus == 0 && address.device == 1 && address.function == 0 {
            let mut s = space(0x1AF4, 0x1001, 0x01, 0x00, 0x00);
            s.address = address;
            Some(s)
        } else if address.bus == 0 && address.device == 2 && address.function == 0 {
            let mut s = space(0x8086, 0x1234, 0x0C, 0x03, 0x30);
            s.address = address;
            Some(s)
        } else {
            None
        }
    }
}

#[test]
fn pci_enumeration_and_virtio_scan() {
    let bus = PciBus::new(TwoFunctions);
    assert_eq!(bus.bus_type(), BusType::Pci);
    let (devs, infos) = bus.enumerate();
    assert_eq!(devs.len(), 2);
    assert_eq!(devs[0].id, DeviceId(0x1AF4_1001));
    assert_eq!(devs[0].device_type, DeviceType::Storage);
    assert_eq!(devs[1].bus_address, BusAddress::Pci { segment: 0, bus: 0, device: 2, function: 0 });
    let mut reg = VirtioRegistry::new();
    let found = virtio::scan(&mut reg, &infos);
    assert_eq!(found.len(), 1);
    assert_eq!(virtio::device_count(&reg), 1);
    assert_eq!(found[0].device_type, DeviceType::Storage);
    assert!(virtio::find_by_type(&reg, VirtioDeviceType::Block).is_some());
    assert!(virtio::find_by_type(&reg, VirtioDeviceType::Network).is_none());
    let mut stack = UsbStack::new();
    usb::init(&mut stack, &infos);
    assert!(usb::has_xhci(&stack));
    assert_eq!(usb::get_host_controllers(&stack)[0].controller_type, HostControllerType::Xhci);
    assert_eq!(map_class_to_dev_type(0x06), DeviceType::Bus);
}

#[test]
fn virtio_types() {
    assert_eq!(VirtioDeviceType::from_device_id(0x1041), VirtioDeviceType::Network);
    assert_eq!(VirtioDeviceType::from_device_id(0x1042), VirtioDeviceType::Block);
    assert_eq!(VirtioDeviceType::from_device_id(0x1001), VirtioDeviceType::Block);
    assert_eq!(VirtioDeviceType::from_device_id(0x1000), VirtioDeviceType::Network);
    assert_eq!(VirtioDeviceType::from_device_id(0x1002), VirtioDeviceType::Balloon);
    assert_eq!(VirtioDeviceType::from_device_id(0x1009), VirtioDeviceType::Transport9P);
    assert_eq!(VirtioDeviceType::from_device_id(0x1006), VirtioDeviceType::Unknown);
    assert_eq!(VirtioDeviceType::from_device_id(0x0FFF), VirtioDeviceType::Unknown);
    assert_eq!(VirtioDeviceType::from_device_id(0x1050), VirtioDeviceType::Gpu);
    assert_eq!(VirtioDeviceType::Entropy.as_str(), "VirtIO RNG");
    assert_eq!(VirtioDeviceType::Console.to_device_type(), DeviceType::Serial);
}

#[test]
fn generic_virtqueue() {
    let mut q = VirtQueue::new(0, 4).unwrap();
    assert_eq!(q.num_free(), 4);
    assert_eq!(q.alloc_desc(), Some(3));
    q.free_desc(3);
    assert_eq!(q.alloc_desc(), Some(3));
    assert_eq!(q.add_buffer(&[(0, 1)], &[(0, 1), (0, 1)]), Some(0));
    assert_eq!(q.add_buffer(&[(0, 1); 4], &[]), None);
    assert_eq!(q.poll_used(), None);
    assert_eq!(virtqueue_size(256), 8192);
    assert_eq!(virtqueue_size(8), 4096);
}

#[test]
fn isa_legacy_devices() {
    let devs = IsaBus::new().scan();
    assert_eq!(devs.len(), 4);
    assert_eq!(devs[0].name_as_str(), "COM1");
    assert_eq!(devs[0].bus_address, BusAddress::IoPort { port: 0x3F8, count: 1 });
    assert_eq!(devs[2].device_type, DeviceType::Timer);
}

fn header(sig: [u8; 4]) -> AcpiTableHeader {
    AcpiTableHeader {
        signature: sig,
        length: 0,
        revision: 0,
        checksum: 0,
        oem_id: [0; 6],
        oem_table_id: [0; 8],
        oem_revision: 0,
        creator_id: 0,
        creator_revision: 0,
    }
}

#[test]
fn acpi_checks() {
    assert!(tables::check_signature(&header(*b"APIC"), &MADT_SIGNATURE));
    assert!(!tables::check_signature(&header(*b"FACP"), &MADT_SIGNATURE));
    assert!(tables::validate_checksum(&[0x10, 0xF0]));
    assert!(tables::validate_checksum(&[]));
    assert!(!tables::validate_checksum(&[1, 2, 3]));
    let mut info = AcpiInfo::new();
    acpi::init(&mut info);
    assert!(!acpi::is_available(&info));
    assert_eq!(acpi::get_madt_address(&info), None);
    info.mcfg_address = 0xB000_0000;
    assert_eq!(acpi::get_mcfg_address(&info), Some(0xB000_0000));
}

#[test]
fn madt_counts_enabled_cpus() {
    let mut m: MadtInfo = madt::parse(0);
    assert_eq!(madt::cpu_count(&m), 0);
    m.local_apics.push(LocalApicInfo { processor_id: 0, apic_id: 0, enabled: true });
    m.local_apics.push(LocalApicInfo { processor_id: 1, apic_id: 1, enabled: false });
    m.local_apics.push(LocalApicInfo { processor_id: 2, apic_id: 2, enabled: true });
    assert_eq!(madt::cpu_count(&m), 2);
}

#[test]
fn usb_device_queries() {
    let mut d = UsbDevice::new(3, UsbSpeed::HighSpeed);
    assert!(!d.is_mass_storage());
    d.interfaces.push(UsbInterface {
        interface_number: 0,
        alternate_setting: 0,
        interface_class: 0x08,
        interface_subclass: 0x06,
        interface_protocol: 0x50,
        endpoints: vec![
            UsbEndpoint { address: 0x01, transfer_type: UsbTransferType::Bulk, max_packet_size: 512, interval: 0 },
            UsbEndpoint { address: 0x82, transfer_type: UsbTransferType::Bulk, max_packet_size: 512, interval: 0 },
        ],
    });
    assert!(d.is_mass_storage());
    assert!(!d.is_hid());
    assert!(!d.is_hub());
    assert_eq!(d.find_interface(0x08).unwrap().interface_protocol, 0x50);
    assert!(d.find_interface(0x03).is_none());
    assert_eq!(d.find_endpoint(0, UsbTransferType::Bulk, UsbDirection::In).unwrap().address, 0x82);
    assert_eq!(d.find_endpoint(0, UsbTransferType::Bulk, UsbDirection::Out).unwrap().address, 0x01);
    assert!(d.find_endpoint(1, UsbTransferType::Bulk, UsbDirection::In).is_none());
    assert_eq!(UsbSpeed::SuperSpeed.name(), "SuperSpeed (5Gbps)");
    let mut stack = UsbStack::new();
    usb::register_device(&mut stack, d);
    usb::register_device(&mut stack, UsbDevice::new(4, UsbSpeed::FullSpeed));
    assert_eq!(usb::device_count(&stack), 2);
    usb::unregister_device(&mut stack, 0);
    assert_eq!(usb::device_count(&stack), 0);
}

#[test]
fn scsi_commands() {
    let c = scsi::read_10(0x0102_0304, 0x0506);
    assert_eq!(c.opcode, scsi::SCSI_READ_10);
    assert_eq!(c.lba, [1, 2, 3, 4]);
    assert_eq!(c.length, [5, 6]);
    assert_eq!(scsi::write_10(1, 2).opcode, scsi::SCSI_WRITE_10);
    assert_eq!(scsi::inquiry(36).length, 36);
    assert_eq!(scsi::test_unit_ready().opcode, scsi::SCSI_TEST_UNIT_READY);
    assert_eq!(scsi::request_sense(18).opcode, scsi::SCSI_REQUEST_SENSE);
    assert_eq!(scsi::read_capacity_10().lba, [0; 4]);
    let cap = scsi::ReadCapacity10Data { last_lba: [0, 0, 0x10, 0], block_length: [0, 0, 2, 0] };
    assert_eq!(cap.last_lba(), 0x1000);
    assert_eq!(cap.block_length(), 512);
}

#[test]
fn bulk_only_wrappers() {
    let cbw = Cbw::new(7, 512, true, 0x12, &[0x28, 1, 2]);
    assert_eq!(cbw.lun, 2);
    assert_eq!(cbw.flags, 0x80);
    assert_eq!(cbw.cb_length, 3);
    let b = cbw.as_bytes();
    assert_eq!(b.len(), 31);
    assert_eq!(&b[0..4], b"USBC");
    assert_eq!(b[4], 7);
    assert_eq!(&b[8..12], &[0, 2, 0, 0]);
    assert_eq!(b[15], 0x28);
    assert_eq!(cbw.signature, CBW_SIGNATURE);
    let mut raw = [0u8; 13];
    raw[..4].copy_from_slice(b"USBS");
    raw[4] = 7;
    let csw = Csw::from_bytes(&raw);
    assert!(csw.is_valid(7));
    assert!(!csw.is_valid(8));
    assert!(csw.is_success());
}

#[test]
fn trb_fields() {
    let mut t = Trb::new();
    t.set_type(TRB_NORMAL);
    t.set_cycle(true);
    assert_eq!(t.trb_type(), TRB_NORMAL);
    assert!(t.cycle());
    t.set_type(0x7F);
    assert_eq!(t.trb_type(), 0x3F);
    assert!(t.cycle());
    t.set_param_ptr(0x1234_5678_9ABC_DEF0);
    assert_eq!(t.param_ptr(), 0x1234_5678_9ABC_DEF0);
    let l = Trb::link(0x8000, true);
    assert_eq!(l.trb_type(), TRB_LINK);
    assert_eq!(l.control & 2, 2);
    let ev = Trb { param_lo: 0, param_hi: 0, status: 0x0100_0200, control: 0 };
    assert_eq!(ev.completion_code(), 1);
    assert_eq!(ev.transfer_length(), 0x200);
    let setup = Trb::setup_stage(SetupPacket::get_descriptor(1, 0, 18), 3);
    assert_eq!(setup.param_lo, 0x0100_0680);
    assert_eq!(setup.param_hi, 0x0012_0000);
    assert_eq!(SetupPacket::set_address(5).to_bytes(), [0, 5, 5, 0, 0, 0, 0, 0]);
}

#[test]
fn endpoint_descriptor_fields() {
    let e = EndpointDescriptor { b_length: 7, b_descriptor_type: 5, b_endpoint_address: 0x83, bm_attributes: 0x02, w_max_packet_size: 512, b_interval: 0 };
    assert_eq!(e.endpoint_number(), 3);
    assert!(e.is_in());
    assert_eq!(e.transfer_type(), EndpointType::Bulk);
}

#[test]
fn producer_ring_wraps_and_flips_cycle() {
    let mut r = Ring::new(4, 0x1000).unwrap();
    assert_eq!(r.enqueue(Trb::noop()), 0);
    assert_eq!(r.enqueue(Trb::noop()), 1);
    assert!(r.cycle());
    assert_eq!(r.enqueue(Trb::noop()), 2);
    assert!(!r.cycle());
    assert_eq!(r.get(3).unwrap().trb_type(), TRB_LINK);
    assert_eq!(r.get(3).unwrap().param_ptr(), 0x1000);
    assert!(r.get(3).unwrap().cycle());
    assert_ne!(r.get(3).unwrap().control & 2, 0);
    assert!(r.get(0).unwrap().cycle());
    assert_eq!(r.enqueue(Trb::noop()), 0);
    assert!(!r.get(0).unwrap().cycle());
    assert_eq!(r.enqueue_ptr(), 0x1010);
}

#[test]
fn event_ring_consumes_in_order() {
    let mut e = EventRing::new(2, 0x2000, 0x3000).unwrap();
    assert_eq!(e.erst_size(), 1);
    assert_eq!(e.erst[0].base_lo, 0x2000);
    assert!(!e.has_events());
    let mut a = Trb::new();
    a.status = 1;
    a.set_cycle(true);
    e.post_event(0, a);
    assert!(e.has_events());
    assert_eq!(e.dequeue().unwrap().status, 1);
    assert!(e.dequeue().is_none());
    let mut b = Trb::new();
    b.status = 2;
    b.set_cycle(true);
    e.post_event(1, b);
    assert_eq!(e.dequeue().unwrap().status, 2);
    assert_eq!(e.dequeue_ptr(), 0x2000);
    assert!(!e.cycle);
}

#[test]
fn xhci_controller_from_capabilities() {
    let caps = CapabilityRegs {
        caplength_hciversion: 0x0110_0020,
        hcsparams1: 0x0400_0840,
        hcsparams2: 0,
        hcsparams3: 0,
        hccparams1: 0x5,
        dboff: 0,
        rtsoff: 0,
        hccparams2: 0,
    };
    assert_eq!(caps.caplength(), 0x20);
    assert_eq!(caps.hci_version(), 0x0110);
    assert_eq!(caps.max_slots(), 0x40);
    assert_eq!(caps.max_interrupters(), 8);
    assert_eq!(caps.max_ports(), 4);
    assert!(caps.is_64bit());
    assert_eq!(caps.context_size(), 64);
    let mut c = XhciController::new(0xF000_0000, 11, &caps).unwrap();
    assert_eq!(c.port_count(), 4);
    assert_eq!(c.slots.len(), 0x40);
    assert!(c.is_running());
    c.shutdown();
    assert!(!c.is_running());
    let ports = xctl::connected_ports(&[0x0000_0000, 0x0000_1203, 0x0000_0000]);
    assert_eq!(ports.len(), 1);
    assert_eq!(ports[0].port_num, 2);
    assert!(xctl::port_reset_complete(0x0020_0000));
    assert!(!xctl::port_reset_complete(0x10));
    assert_eq!(xctl::port_change_bits(0xFFFF_FFFF), 0x00FE_0000);
}

#[test]
fn xhci_global_controller() {
    let caps = CapabilityRegs {
        caplength_hciversion: 0x0110_0020,
        hcsparams1: 0x0200_0010,
        hcsparams2: 0,
        hcsparams3: 0,
        hccparams1: 0,
        dboff: 0,
        rtsoff: 0,
        hccparams2: 0,
    };
    let mut nic = space(0x8086, 0x100E, 0x02, 0x00, 0x00);
    nic.dwords[4] = 0xFEB0_0000;
    let mut host = space(0x8086, 0x1E31, 0x0C, 0x03, 0x30);
    host.dwords[4] = 0xFEC0_0004;
    host.dwords[5] = 0x0000_0001;
    let devs = vec![PciDevice::from_config(&nic).unwrap(), PciDevice::from_config(&host).unwrap()];
    assert_eq!(xglobal::find_xhci(&devs), Some(1));
    assert_eq!(xglobal::find_xhci(&devs[..1]), None);
    let mut g = XhciGlobal::new();
    assert!(!xglobal::is_initialized(&g));
    assert_eq!(xglobal::with_controller(&mut g, |c| c.port_count()), None);
    assert!(xglobal::scan_ports(&g, &[0x1]).is_empty());
    assert!(!xglobal::init(&mut g, &devs[..1], &caps));
    assert!(xglobal::init(&mut g, &devs, &caps));
    assert!(xglobal::is_initialized(&g));
    assert_eq!(g.controller.as_ref().unwrap().mmio_base, 0x1_FEC0_0000);
    assert_eq!(g.controller.as_ref().unwrap().irq, 9);
    assert_eq!(xglobal::with_controller(&mut g, |c| c.port_count()), Some(2));
    let ports = xglobal::scan_ports(&g, &[0x0000_0000, 0x0000_0803]);
    assert_eq!(ports.len(), 1);
    assert_eq!(ports[0].port_num, 2);
    assert!(ports[0].enabled);
    assert!(xctl::port_in_reset(0x10));
    assert!(!xctl::port_in_reset(0x0020_0000));
}

#[test]
fn bus_layer_scans_and_hands_out_buses() {
    let mut layer = BusLayer::new(TwoFunctions);
    buslayer::init(&mut layer);
    let all = buslayer::scan_all(&mut layer);
    assert_eq!(all.len(), 3);
    let st = buslayer::get_stats(&layer);
    assert_eq!((st.pci_devices, st.virtio_devices, st.usb_devices, st.platform_devices), (2, 1, 0, 0));
    let pci = buslayer::get_bus(&layer, BusType::Pci).unwrap();
    assert_eq!(pci.bus_type(), BusType::Pci);
    assert_eq!(pci.scan().len(), 2);
    let vio = buslayer::get_bus(&layer, BusType::Virtio).unwrap();
    assert_eq!(vio.bus_type(), BusType::Virtio);
    assert_eq!(vio.scan().len(), 1);
    assert!(buslayer::get_bus(&layer, BusType::Usb).is_none());
}

struct Functions;

impl PciConfigSource for Functions {
    fn read_function(&self, address: PciAddress) -> Option<PciConfigSpace> {
        let present = address.bus == 0
            && ((address.device == 3 && (address.function == 0 || address.function == 2))
                || (address.device == 4 && address.function <= 1));
        if !present {
            return None;
        }
        let mut s = space(0x8086, 0x2000 + address.function as u16, 0x02, 0x00, 0x00);
        if address.device == 3 && address.function == 0 {
            s.dwords[3] = 0x0080_0000;
        }
        s.address = address;
        Some(s)
    }
}

#[test]
fn pci_functions_only_on_multifunction_devices() {
    let bus = PciBus::new(Functions);
    let (_, infos) = bus.enumerate();
    let found: Vec<(u8, u8)> = infos.iter().map(|i| (i.address.device, i.address.function)).collect();
    assert_eq!(found, vec![(3, 0), (3, 2), (4, 0)]);
}

#[test]
fn scan_cursor_walk() {
    let c = ScanCursor::start();
    assert_eq!(c.address(), PciAddress { bus: 0, device: 0, function: 0 });
    let single = PciDevice::from_config(&space(0x8086, 0x1234, 0x02, 0, 0)).unwrap();
    let mut multi_space = space(0x8086, 0x1235, 0x02, 0, 0);
    multi_space.dwords[3] = 0x0080_0000;
    let multi = PciDevice::from_config(&multi_space).unwrap();
    let n = c.advance(&Some(single));
    assert_eq!((n.bus, n.slot, n.function, n.found_any), (0, 1, 0, true));
    let m = c.advance(&Some(multi));
    assert_eq!((m.bus, m.slot, m.function), (0, 0, 1));
    let f7 = ScanCursor { bus: 3, slot: 4, function: 7, found_any: true };
    let n7 = f7.advance(&None);
    assert_eq!((n7.bus, n7.slot, n7.function), (3, 5, 0));
    let end0 = ScanCursor { bus: 0, slot: 31, function: 0, found_any: false };
    assert_eq!(end0.advance(&None).bus, 256);
    let end0_found = ScanCursor { bus: 0, slot: 31, function: 0, found_any: true };
    assert_eq!(end0_found.advance(&None).bus, 1);
    let last = ScanCursor { bus: 255, slot: 31, function: 0, found_any: true };
    assert_eq!(last.advance(&None).bus, 256);
}

#[test]
fn accepted_function_checks_the_space() {
    let a = PciAddress { bus: 0, device: 3, function: 0 };
    let cfg = space(0x1AF4, 0x1001, 0x01, 0, 0);
    assert_eq!(accepted_function(a, Some(cfg.clone())).unwrap().vendor_id, 0x1AF4);
    let elsewhere = PciAddress { bus: 1, device: 3, function: 0 };
    assert!(accepted_function(elsewhere, Some(cfg.clone())).is_none());
    let mut short = cfg.clone();
    short.dwords.truncate(16);
    assert!(accepted_function(a, Some(short)).is_none());
    assert!(accepted_function(a, Some(space(0xFFFF, 0xFFFF, 0, 0, 0))).is_none());
    assert!(accepted_function(a, None).is_none());
}

#[test]
fn config_half_word_write_reads_back() {
    let mut cfg = space(0x1234, 0x5678, 1, 2, 3);
    cfg.dwords[1] = 0xAAAA_5555;
    access::write_config_u16(&mut cfg, 0x04, 0x0102);
    assert_eq!(access::read_config_u16(&cfg, 0x04), 0x0102);
    assert_eq!(access::read_config_u16(&cfg, 0x06), 0xAAAA);
    assert_eq!(access::read_config_u16(&cfg, 0x00), 0x1234);
    assert_eq!(cfg.dwords[1], 0xAAAA_0102);
}

#[test]
fn port_bring_up_resets_a_connected_port() {
    let connected = 0x0000_0001u32;
    let (s, w) = xctl::port_bring_up_step(PortBringUp::Start, 0x0002_0001);
    assert_eq!((s, w), (PortBringUp::Probe, Some(0x0002_0001)));
    let (s, w) = xctl::port_bring_up_step(s, connected);
    assert_eq!((s, w), (PortBringUp::Resetting { polls: 0 }, Some(0x11)));
    let (s, w) = xctl::port_bring_up_step(s, 0x11);
    assert_eq!((s, w), (PortBringUp::Resetting { polls: 1 }, None));
    let (s, w) = xctl::port_bring_up_step(s, connected);
    assert_eq!((s, w), (PortBringUp::Connecting { polls: 0 }, Some(0x20_0001)));
    let (s, w) = xctl::port_bring_up_step(s, connected);
    assert_eq!((s, w), (PortBringUp::Done, Some(0x2_0001)));
    assert_eq!(xctl::port_bring_up_step(PortBringUp::Done, 7), (PortBringUp::Done, None));
}

#[test]
fn port_bring_up_gives_up_on_an_empty_port() {
    let (s, w) = xctl::port_bring_up_step(PortBringUp::Probe, 0);
    assert_eq!((s, w), (PortBringUp::Connecting { polls: 0 }, Some(0x200)));
    let mut state = s;
    let mut reads = 0u32;
    while state != PortBringUp::Done {
        state = xctl::port_bring_up_step(state, 0x200).0;
        reads += 1;
    }
    assert_eq!(reads, xctl::SCAN_CONNECT_POLLS);
    let (s, _) = xctl::port_bring_up_step(PortBringUp::Resetting { polls: xctl::SCAN_RESET_POLLS - 1 }, 0x11);
    assert_eq!(s, PortBringUp::Connecting { polls: 0 });
}

#[test]
fn port_reset_is_requested_awaited_and_acknowledged() {
    let (s, w) = xctl::port_reset_step(PortReset::Start, 0x201);
    assert_eq!((s, w), (PortReset::Waiting { polls: 0 }, Some(0x211)));
    let (s, w) = xctl::port_reset_step(s, 0x211);
    assert_eq!((s, w), (PortReset::Waiting { polls: 1 }, None));
    let (s, w) = xctl::port_reset_step(s, 0x20_0201);
    assert_eq!((s, w), (PortReset::Succeeded, Some(0x20_0201)));
    let (s, w) = xctl::port_reset_step(PortReset::Waiting { polls: xctl::RESET_POLLS - 1 }, 0x211);
    assert_eq!((s, w), (PortReset::TimedOut, None));
}
