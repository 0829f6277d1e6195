use lib::drivers::base::async_probe::{self, ProbeStatus};
use lib::drivers::base::bus::{self as busreg, BusAddress, BusType};
use lib::drivers::base::class::{is_class_compatible, ClassType};
use lib::drivers::base::context::{apply_recovery_policy, DriverContext, RecoveryPolicy, RequestType};
use lib::drivers::base::deps::{self, DependencyGraph, DependencyNode, DependencyType};
use lib::drivers::base::device::{Device, DeviceId, DeviceState};
use lib::drivers::base::dma::{self, DmaDirection, DmaPoolManager, FakeFrameAllocator, FrameList};
use lib::drivers::base::driver::{DeviceType, Driver, DriverError};
use lib::drivers::base::events::{DeviceEvent, DeviceListener, EventManager};
use lib::drivers::base::fallback::{self, FallbackChain, FallbackEntry, FallbackRegistry};
use lib::drivers::base::memory::{self, DriverMemoryManager, DRIVER_ZONE_START, GUARD_PAGE_SIZE};
use lib::drivers::base::monitor::{self, HealthState};
use lib::drivers::base::parameters::{self, ParameterValue};
use lib::drivers::base::power::{self, PowerState};
use lib::drivers::base::recovery::{RecoveryAction, RecoveryManager};
use lib::drivers::base::resource::{ResourceManager, ResourceType};
use lib::drivers::base::telemetry::{self, TelemetryState, MAX_FAILURE_HISTORY};
use lib::drivers::base::{self as base, DriverManager, MAX_DRIVERS};
use lib::drivers::bus::isa::IsaBus;

fn dev(name: &str, t: DeviceType) -> Device {
    Device::new(DeviceId(0), name, BusType::Platform, BusAddress::Unaddressed, t)
}

struct AcceptType(DeviceType, &'static str);

impl Driver for AcceptType {
    fn name(&self) -> &'static str {
        self.1
    }
    fn device_type(&self) -> DeviceType {
        self.0
    }
    fn probe(&self, dev: &mut Device) -> Result<(), DriverError> {
        if dev.device_type == self.0 {
            Ok(())
        } else {
            Err(DriverError::NotSupported)
        }
    }
}

struct Quiet;

impl DeviceListener for Quiet {
    fn on_event(&self, _event: DeviceEvent) {}
}

fn manager() -> DriverManager {
    let mut m = DriverManager::new();
    base::init(&mut m, Box::new(Quiet));
    m
}

#[test]
fn device_name_is_padded_and_read_back() {
    let d = dev("disk0", DeviceType::Storage);
    assert_eq!(d.name.len(), 32);
    assert_eq!(d.name_as_str(), "disk0");
    assert_eq!(d.state, DeviceState::Initializing);
}

#[test]
fn device_name_is_cut_at_31_bytes() {
    let long = "abcdefghijklmnopqrstuvwxyz0123456789";
    let d = dev(long, DeviceType::Generic);
    assert_eq!(d.name_as_str(), &long[..31]);
}

#[test]
fn set_state_resets_change_time_only_on_change() {
    let mut d = dev("x", DeviceType::Generic);
    d.last_status_change = 7;
    d.set_state(DeviceState::Initializing);
    assert_eq!(d.last_status_change, 7);
    d.set_state(DeviceState::Ready);
    assert_eq!(d.last_status_change, 0);
    assert_eq!(d.state, DeviceState::Ready);
}

#[test]
fn names_of_types_errors_and_states() {
    assert_eq!(DeviceType::Storage.as_str(), "Storage");
    assert_eq!(DriverError::Timeout.as_str(), "Timeout");
    assert_eq!(DeviceState::Dead.as_str(), "Dead");
    assert!(DriverError::NoMemory.is_critical());
    assert!(!DriverError::Timeout.is_critical());
    assert!(DriverError::BusError.is_transient());
    assert!(!DriverError::InitFailed.is_transient());
}

#[test]
fn register_driver_binds_matching_unbound_devices() {
    let mut m = manager();
    let a = base::register_device(&mut m, dev("disk", DeviceType::Storage)).ok().unwrap();
    let b = base::register_device(&mut m, dev("nic", DeviceType::Network)).ok().unwrap();
    assert_eq!(a, DeviceId(1));
    assert_eq!(b, DeviceId(2));
    base::register_driver(&mut m, Box::new(AcceptType(DeviceType::Storage, "ahci")));
    assert_eq!(base::driver_count(&m), 1);
    let da = base::get_device(&m, a).unwrap();
    assert_eq!(da.driver, Some(0));
    assert_eq!(da.state, DeviceState::Ready);
    let db = base::get_device(&m, b).unwrap();
    assert_eq!(db.driver, None);
    assert_eq!(db.state, DeviceState::Initializing);
}

#[test]
fn register_device_probes_drivers_in_order() {
    let mut m = manager();
    base::register_driver(&mut m, Box::new(AcceptType(DeviceType::Network, "e1000")));
    base::register_driver(&mut m, Box::new(AcceptType(DeviceType::Storage, "nvme")));
    let id = base::register_device(&mut m, dev("disk", DeviceType::Storage)).ok().unwrap();
    let d = base::get_device(&m, id).unwrap();
    assert_eq!(d.driver, Some(1));
    assert_eq!(d.state, DeviceState::Ready);
    assert_eq!(base::device_count(&m), 1);
    assert_eq!(m.contexts.len(), 1);
    assert_eq!(m.contexts[0].device_id, id);
    assert_eq!(m.telemetry.events_count, 1);
}

#[test]
fn orphan_device_stays_unbound() {
    let mut m = manager();
    let id = base::register_device(&mut m, dev("odd", DeviceType::Audio)).ok().unwrap();
    assert_eq!(base::get_device(&m, id).unwrap().driver, None);
    assert!(base::get_device(&m, DeviceId(99)).is_none());
}

#[test]
fn driver_table_is_bounded() {
    let mut m = manager();
    for _ in 0..MAX_DRIVERS {
        base::register_driver(&mut m, Box::new(AcceptType(DeviceType::Input, "kbd")));
    }
    assert_eq!(base::driver_count(&m), MAX_DRIVERS);
    base::register_driver(&mut m, Box::new(AcceptType(DeviceType::Input, "extra")));
    assert_eq!(base::driver_count(&m), MAX_DRIVERS);
}

#[test]
fn failures_escalate_to_isolation() {
    let mut m = manager();
    base::register_driver(&mut m, Box::new(AcceptType(DeviceType::Storage, "ahci")));
    let id = base::register_device(&mut m, dev("disk", DeviceType::Storage)).ok().unwrap();
    base::report_failure(&mut m, id, DriverError::Timeout);
    let d = base::get_device(&m, id).unwrap();
    assert_eq!(d.state, DeviceState::Initializing);
    assert_eq!(d.driver, None);
    base::report_failure(&mut m, id, DriverError::Timeout);
    base::report_failure(&mut m, id, DriverError::Timeout);
    assert_eq!(base::get_device(&m, id).unwrap().state, DeviceState::Initializing);
    base::report_failure(&mut m, id, DriverError::Timeout);
    assert_eq!(base::get_device(&m, id).unwrap().state, DeviceState::Dead);
    assert_eq!(m.telemetry.failures_count, 4);
}

#[test]
fn unknown_device_failure_changes_nothing() {
    let mut m = manager();
    base::report_failure(&mut m, DeviceId(42), DriverError::BusError);
    assert_eq!(m.telemetry.failures_count, 0);
    assert_eq!(m.recovery.records.len(), 0);
}

#[test]
fn shutdown_disconnects_bound_devices() {
    let mut m = manager();
    base::register_driver(&mut m, Box::new(AcceptType(DeviceType::Storage, "ahci")));
    let a = base::register_device(&mut m, dev("disk", DeviceType::Storage)).ok().unwrap();
    let b = base::register_device(&mut m, dev("nic", DeviceType::Network)).ok().unwrap();
    base::shutdown_all(&mut m);
    assert_eq!(base::get_device(&m, a).unwrap().state, DeviceState::Disconnected);
    assert_eq!(base::get_device(&m, b).unwrap().state, DeviceState::Initializing);
}

#[test]
fn reload_is_not_supported() {
    assert_eq!(base::request_driver_reload("ahci"), Err(DriverError::NotSupported));
}

#[test]
fn recovery_decisions_follow_retry_count() {
    let mut r = RecoveryManager::new();
    let id = DeviceId(5);
    assert_eq!(r.decide_action(id, DriverError::Timeout), RecoveryAction::Rebind);
    assert_eq!(r.decide_action(id, DriverError::Timeout), RecoveryAction::Rebind);
    assert_eq!(r.decide_action(id, DriverError::Timeout), RecoveryAction::ResetBus);
    assert_eq!(r.decide_action(id, DriverError::Timeout), RecoveryAction::Isolate);
}

#[test]
fn health_degrades_with_errors() {
    let mut t = monitor::init();
    let id = DeviceId(3);
    assert_eq!(monitor::get_health(&t, id), HealthState::Healthy);
    assert!(!monitor::record_error(&mut t, id, DriverError::Timeout));
    assert_eq!(monitor::get_health(&t, id), HealthState::Degraded);
    assert!(!monitor::record_error(&mut t, id, DriverError::NoMemory));
    assert!(!monitor::record_error(&mut t, id, DriverError::NoMemory));
    assert!(monitor::record_error(&mut t, id, DriverError::InitFailed));
    assert_eq!(monitor::get_health(&t, id), HealthState::Dead);
    let s = monitor::get_health_summary(&t);
    assert_eq!((s.healthy, s.degraded, s.failing, s.dead), (0, 0, 0, 1));
}

#[test]
fn ten_errors_make_a_device_failing() {
    let mut t = monitor::init();
    let id = DeviceId(9);
    for _ in 0..9 {
        assert!(!monitor::record_error(&mut t, id, DriverError::BusError));
    }
    assert!(monitor::record_error(&mut t, id, DriverError::BusError));
    assert_eq!(monitor::get_health(&t, id), HealthState::Failing);
}

#[test]
fn resources_are_exclusive() {
    let mut m = ResourceManager::new();
    assert!(m.request(ResourceType::IoPort { port: 0x60, len: 4 }, "ps2", Some(DeviceId(1))));
    assert!(!m.request(ResourceType::IoPort { port: 0x62, len: 2 }, "other", Some(DeviceId(2))));
    assert!(m.request(ResourceType::IoPort { port: 0x64, len: 1 }, "next", Some(DeviceId(2))));
    assert!(m.request(ResourceType::Irq { line: 1 }, "kbd", None));
    assert!(!m.request(ResourceType::Irq { line: 1 }, "kbd2", None));
    m.release(ResourceType::Irq { line: 1 });
    assert!(m.request(ResourceType::Irq { line: 1 }, "kbd2", None));
}

#[test]
fn driver_zone_allocations_skip_guard_pages() {
    let mut mm = DriverMemoryManager::new();
    memory::init(&mut mm);
    let a = memory::zone_alloc(&mut mm, 100, 16, DeviceId(1), "a").unwrap();
    assert_eq!(a, DRIVER_ZONE_START + GUARD_PAGE_SIZE as u64);
    let b = memory::zone_alloc(&mut mm, 100, 16, DeviceId(1), "b").unwrap();
    assert!(b >= a + 100 + GUARD_PAGE_SIZE as u64);
    assert!(memory::zone_alloc(&mut mm, 0, 16, DeviceId(1), "zero").is_none());
    let st = memory::get_stats(&mm);
    assert_eq!(st.allocation_count, 2);
    assert_eq!(st.total_allocated, 200);
    memory::free_all_for_device(&mut mm, DeviceId(1));
    assert_eq!(memory::get_stats(&mm).allocation_count, 0);
    assert!(memory::is_in_driver_zone(a));
    assert!(!memory::is_in_driver_zone(0x1000));
}

#[test]
fn dma_without_frames_fails() {
    let mut pool = DmaPoolManager::new();
    dma::init(&mut pool);
    let mut pmm = FakeFrameAllocator::new();
    assert!(dma::dma_alloc(&mut pool, &mut pmm, 4096, DeviceId(1), DmaDirection::ToDevice).is_none());
    assert_eq!(dma::get_stats(&pool).buffer_count, 0);
    assert_eq!(dma::virt_to_phys(&pool, 0x1234), None);
}

#[test]
fn parameters_set_get_reset() {
    let mut reg = parameters::init();
    parameters::register(&mut reg, parameters::bool_param("verbose", "log more", false, "core"));
    parameters::register(&mut reg, parameters::int_param("retries", "retry count", 3, "core"));
    assert!(!parameters::get_bool(&reg, "verbose", true));
    assert!(parameters::set(&mut reg, "verbose", ParameterValue::Bool(true)));
    assert!(parameters::get_bool(&reg, "verbose", false));
    assert_eq!(parameters::get_int(&reg, "retries", 0), 3);
    assert!(parameters::reset(&mut reg, "verbose"));
    assert!(!parameters::get_bool(&reg, "verbose", true));
    assert!(!parameters::set(&mut reg, "missing", ParameterValue::Int(1)));
    assert_eq!(parameters::get_int(&reg, "missing", -7), -7);
    assert_eq!(ParameterValue::Int(-42).to_string(), "-42");
    assert_eq!(ParameterValue::Bool(true).to_string(), "true");
}

#[test]
fn power_states_and_manager() {
    assert_eq!(PowerState::D0.wake_latency_ms(), 0);
    assert!(PowerState::D3.power_consumption() < PowerState::D0.power_consumption());
    let mut pm = power::init();
    assert_eq!(power::get_system_power_state(&pm), PowerState::D0);
    power::register_device_power(&mut pm, DeviceId(1), true, false, true);
    assert_eq!(power::get_device_power_state(&pm, DeviceId(1)), Some(PowerState::D0));
    assert_eq!(power::get_device_power_state(&pm, DeviceId(2)), None);
}

#[test]
fn async_probe_lifecycle() {
    let mut mgr = async_probe::init();
    assert_eq!(async_probe::check_status(&mgr, DeviceId(1)), ProbeStatus::NotStarted);
    assert_eq!(async_probe::start_probe(&mut mgr, DeviceId(1), "ahci", None), 1);
    assert_eq!(async_probe::check_status(&mgr, DeviceId(1)), ProbeStatus::Pending);
    assert_eq!(async_probe::pending_count(&mgr), 1);
    async_probe::fail_probe(&mut mgr, DeviceId(1), DriverError::Timeout);
    assert_eq!(async_probe::check_status(&mgr, DeviceId(1)), ProbeStatus::NotStarted);
    assert_eq!(async_probe::pending_count(&mgr), 0);
}

#[test]
fn context_pause_resume_and_ids() {
    let mut ctx = DriverContext::new(DeviceId(4));
    let a = ctx.enqueue_request(RequestType::Read, None);
    let b = ctx.enqueue_request(RequestType::Write, Some(vec![1, 2, 3]));
    assert_ne!(a, b);
    assert_eq!(ctx.pending_count(), 2);
    ctx.complete_request(a);
    assert_eq!(ctx.pending_count(), 1);
    ctx.save_state(vec![9]);
    assert_eq!(ctx.restore_state(), Some(vec![9]));
    assert_eq!(ctx.restore_state(), None);
    assert_eq!(RecoveryPolicy::default_for_type(DeviceType::Storage), RecoveryPolicy::PauseAndRetry);
    ctx.set_policy(RecoveryPolicy::DropAndNotify);
    apply_recovery_policy(&mut ctx, DriverError::Timeout);
    assert_eq!(ctx.pending_count(), 0);
    assert_eq!(ctx.failure_count, 1);
}

#[test]
fn dependency_order_and_checks() {
    let mut g = deps::init();
    let order = deps::get_init_order(&g);
    assert_eq!(order[0], "pci");
    assert_eq!(order.len(), 9);
    assert_eq!(*order.last().unwrap(), "usb-storage");
    assert_eq!(deps::check_dependencies(&g, "ahci"), Err(vec!["pci"]));
    assert_eq!(deps::check_dependencies(&g, "unknown"), Ok(()));
    deps::mark_initialized(&mut g, "pci");
    assert_eq!(deps::check_dependencies(&g, "ahci"), Ok(()));
    assert_eq!(deps::get_dependents(&g, "xhci"), vec!["usb-hid", "usb-storage"]);
}

#[test]
fn fallback_chain_walk() {
    let mut reg = FallbackRegistry::new();
    fallback::init(&mut reg);
    assert_eq!(fallback::get_next_fallback(&reg, DeviceType::Storage, "nvme-driver"), Some("ahci-driver"));
    assert_eq!(fallback::get_next_fallback(&reg, DeviceType::Storage, "ramdisk"), None);
    assert_eq!(fallback::get_next_fallback(&reg, DeviceType::Audio, "x"), None);
    let chain = fallback::get_chain(&reg, DeviceType::Display).unwrap();
    assert_eq!(chain.entries.len(), 7);
    assert!(chain.entries[6].is_last_resort);
    let mut d = dev("gpu", DeviceType::Display);
    fallback::try_fallback(&reg, &mut d, DeviceType::Display);
    assert_eq!(d.state, DeviceState::Dead);
    let mut e = dev("snd", DeviceType::Audio);
    fallback::try_fallback(&reg, &mut e, DeviceType::Audio);
    assert_eq!(e.state, DeviceState::Initializing);
}

#[test]
fn telemetry_history_is_bounded() {
    let mut t = TelemetryState::new();
    telemetry::init(&mut t);
    for i in 0..(MAX_FAILURE_HISTORY as u64 + 5) {
        telemetry::record_failure(&mut t, DeviceId(i), DriverError::Timeout);
    }
    let h = telemetry::get_failure_history(&t);
    assert_eq!(h.len(), MAX_FAILURE_HISTORY);
    assert_eq!(h[0].device_id, DeviceId(5));
    let recent = telemetry::get_recent_failures(&t, 3);
    assert_eq!(recent.len(), 3);
    assert_eq!(recent[2].device_id, DeviceId(MAX_FAILURE_HISTORY as u64 + 4));
    telemetry::record_recovery_success(&mut t, DeviceId(50));
    let h = telemetry::get_failure_history(&t);
    assert!(h.iter().any(|l| l.device_id == DeviceId(50) && l.recovered));
    assert_eq!(t.recoveries_count, 1);
}

#[test]
fn events_and_classes() {
    let mut ev = EventManager::new();
    lib::drivers::base::events::init(&mut ev, Box::new(Quiet));
    assert_eq!(lib::drivers::base::events::subscriber_count(&ev), 1);
    let e = DeviceEvent::StateChanged(DeviceId(7), DeviceState::Ready);
    assert_eq!(e.device_id(), DeviceId(7));
    assert_eq!(e.as_str(), "StateChanged");
    assert!(is_class_compatible(ClassType::System, DeviceType::Timer));
    assert!(!is_class_compatible(ClassType::Sound, DeviceType::Audio));
}

#[test]
fn device_errors_escalate_to_recovery() {
    let mut m = manager();
    base::register_driver(&mut m, Box::new(AcceptType(DeviceType::Storage, "ahci")));
    let id = base::register_device(&mut m, dev("disk", DeviceType::Storage)).ok().unwrap();
    assert_eq!(base::get_device(&m, id).unwrap().driver, Some(0));
    assert!(!base::record_device_error(&mut m, id, DriverError::NoMemory));
    assert!(!base::record_device_error(&mut m, id, DriverError::NoMemory));
    assert_eq!(base::get_device(&m, id).unwrap().driver, Some(0));
    assert_eq!(monitor::get_health(&m.monitors, id), HealthState::Degraded);
    assert!(base::record_device_error(&mut m, id, DriverError::NoMemory));
    assert_eq!(monitor::get_health(&m.monitors, id), HealthState::Dead);
    let d = base::get_device(&m, id).unwrap();
    assert_eq!(d.driver, None);
    assert_eq!(d.state, DeviceState::Initializing);
    assert_eq!(m.telemetry.failures_count, 1);
    assert!(!base::record_device_error(&mut m, id, DriverError::Timeout));
    assert_eq!(m.telemetry.failures_count, 1);
}

#[test]
fn invalid_name_bytes_read_as_unknown() {
    let mut d = dev("ok", DeviceType::Generic);
    d.name[0] = 0xFF;
    d.name[1] = 0xFE;
    assert_eq!(d.name_as_str(), "unknown");
    d.name[0] = b'n';
    d.name[1] = 0;
    assert_eq!(d.name_as_str(), "n");
}

#[test]
fn parameter_values_in_decimal() {
    assert_eq!(ParameterValue::Uint(0).to_string(), "0");
    assert_eq!(ParameterValue::Uint(18446744073709551615).to_string(), "18446744073709551615");
    assert_eq!(ParameterValue::Int(i64::MIN).to_string(), "-9223372036854775808");
    assert_eq!(ParameterValue::Int(7).to_string(), "7");
    assert_eq!(ParameterValue::Bool(false).to_string(), "false");
}

#[test]
fn registered_chain_replaces_the_old_one() {
    let mut reg = FallbackRegistry::new();
    fallback::init(&mut reg);
    let entry = |name: &'static str| FallbackEntry { driver_name: name, priority: 0, is_last_resort: true, description: "only" };
    fallback::register_chain(&mut reg, FallbackChain { device_type: DeviceType::Storage, entries: vec![entry("virtio-blk")] });
    assert_eq!(reg.chains.len(), 3);
    assert_eq!(reg.chains[2].device_type, DeviceType::Storage);
    let chain = fallback::get_chain(&reg, DeviceType::Storage).unwrap();
    assert_eq!(chain.entries.len(), 1);
    assert_eq!(chain.entries[0].driver_name, "virtio-blk");
    assert_eq!(fallback::get_next_fallback(&reg, DeviceType::Storage, "nvme-driver"), None);
    fallback::register_chain(&mut reg, FallbackChain { device_type: DeviceType::Audio, entries: vec![entry("hda"), entry("beep")] });
    assert_eq!(fallback::get_next_fallback(&reg, DeviceType::Audio, "hda"), Some("beep"));
}

#[test]
fn builtin_dependencies_start_first() {
    let g = deps::init();
    let order = deps::get_init_order(&g);
    assert_eq!(
        order,
        vec!["pci", "ahci", "nvme", "xhci", "virtio", "virtio-blk", "virtio-net", "usb-hid", "usb-storage"]
    );
    let pos = |name: &str| order.iter().position(|n| *n == name).unwrap();
    for node in g.nodes.iter() {
        for (dep, _) in node.depends_on.iter() {
            assert!(pos(dep) < pos(node.name));
        }
    }
}

#[test]
fn display_fallback_is_progressive() {
    let mut reg = FallbackRegistry::new();
    fallback::init(&mut reg);
    let mut walk = vec!["nvidia-gpu"];
    while let Some(next) = fallback::get_next_fallback(&reg, DeviceType::Display, walk.last().unwrap()) {
        walk.push(next);
    }
    assert_eq!(
        walk,
        vec!["nvidia-gpu", "intel-gpu", "amd-gpu", "vesa-generic", "bochs-vga", "framebuffer-simple", "text-mode"]
    );
    let chain = fallback::get_chain(&reg, DeviceType::Network).unwrap();
    assert!(chain.entries.windows(2).all(|w| w[0].priority <= w[1].priority));
    assert_eq!(chain.entries.last().unwrap().driver_name, "loopback");
}

#[test]
fn bus_registry_holds_different_buses() {
    let mut reg = busreg::init();
    busreg::register(&mut reg, Box::new(IsaBus::new()));
    busreg::register(&mut reg, Box::new(lib::drivers::bus::platform::PlatformBus::new()));
    assert_eq!(busreg::get_all(&reg).len(), 2);
    assert_eq!(busreg::find_by_type(&reg, BusType::Isa), Some(0));
    assert_eq!(busreg::find_by_type(&reg, BusType::Platform), Some(1));
    assert_eq!(busreg::find_by_type(&reg, BusType::Pci), None);
    assert_eq!(busreg::scan_all(&reg).len(), 4);
    busreg::shutdown_all(&reg);
}

#[test]
fn dma_buffers_are_placed_over_their_frames() {
    let mut pool = DmaPoolManager::new();
    dma::init(&mut pool);
    let start = pool.next_virt;
    let mut pmm = FrameList::new(vec![0x10_0000, 0x10_1000, 0x10_2000]);
    let b = dma::dma_alloc(&mut pool, &mut pmm, 5000, DeviceId(7), DmaDirection::FromDevice).unwrap();
    assert_eq!((b.virt, b.phys, b.size, b.owner), (start, 0x10_0000, 8192, DeviceId(7)));
    assert_eq!(b.virt % 4096, 0);
    assert_eq!(pool.next_virt, start + 8192);
    assert!(dma::dma_alloc(&mut pool, &mut pmm, 8192, DeviceId(7), DmaDirection::FromDevice).is_none());
    assert_eq!(pmm.frames, vec![0x10_2000]);
    assert_eq!(pool.buffers.len(), 1);
    let p = dma::place_buffer(&mut pool, 0x20_0000, 1, DeviceId(8), DmaDirection::ToDevice).unwrap();
    assert_eq!((p.virt, p.phys, p.size), (start + 8192, 0x20_0000, 4096));
    assert!(dma::place_buffer(&mut pool, u64::MAX - 100, 1, DeviceId(8), DmaDirection::ToDevice).is_none());
    assert!(dma::place_buffer(&mut pool, 0, 0, DeviceId(8), DmaDirection::ToDevice).is_none());
    assert_eq!(pool.buffers.len(), 2);
    assert_eq!(dma::get_stats(&pool).total_allocated, 8192 + 4096);
}

#[test]
fn device_errors_count_as_critical() {
    let mut t = monitor::init();
    let id = DeviceId(2);
    monitor::record_error(&mut t, id, DriverError::DeviceError);
    monitor::record_error(&mut t, id, DriverError::DeviceError);
    monitor::record_error(&mut t, id, DriverError::DeviceError);
    assert_eq!(monitor::get_health(&t, id), HealthState::Dead);
}

#[test]
fn emitted_events_are_counted() {
    let mut ev = EventManager::new();
    let e = DeviceEvent::StateChanged(DeviceId(7), DeviceState::Ready);
    lib::drivers::base::events::emit(&mut ev, e);
    assert_eq!(lib::drivers::base::events::total_events(&ev), 0);
    lib::drivers::base::events::init(&mut ev, Box::new(Quiet));
    lib::drivers::base::events::emit(&mut ev, e);
    lib::drivers::base::events::emit(&mut ev, e);
    assert_eq!(lib::drivers::base::events::total_events(&ev), 2);
}

#[test]
fn freeing_a_later_block_keeps_the_earlier() {
    let mut mm = DriverMemoryManager::new();
    memory::init(&mut mm);
    let a = memory::zone_alloc(&mut mm, 100, 16, DeviceId(1), "a").unwrap();
    let b = memory::zone_alloc(&mut mm, 200, 16, DeviceId(1), "b").unwrap();
    memory::free(&mut mm, b, 200, DeviceId(1));
    assert!(mm.allocations[0].in_use);
    assert!(!mm.allocations[1].in_use);
    assert_eq!(memory::get_stats(&mm).total_allocated, 100);
    memory::free(&mut mm, a, 100, DeviceId(2));
    assert!(mm.allocations[0].in_use);
    assert_eq!(memory::get_stats(&mm).allocation_count, 1);
}

#[test]
fn large_unsigned_parameters_are_no_signed_integer() {
    assert_eq!(ParameterValue::Uint(7).as_int(), Some(7));
    assert_eq!(ParameterValue::Uint(i64::MAX as u64).as_int(), Some(i64::MAX));
    assert_eq!(ParameterValue::Uint(u64::MAX).as_int(), None);
    assert_eq!(ParameterValue::Bool(true).as_int(), Some(1));
}

#[test]
fn dependencies_start_before_lower_priorities() {
    let mut g = deps::init();
    deps::register(&mut g, DependencyNode { name: "early", depends_on: vec![("late", DependencyType::Hard)], priority: 1, initialized: false });
    deps::register(&mut g, DependencyNode { name: "late", depends_on: vec![], priority: 2, initialized: false });
    let order = deps::get_init_order(&g);
    assert_eq!(
        order,
        vec!["pci", "late", "early", "ahci", "nvme", "xhci", "virtio", "virtio-blk", "virtio-net", "usb-hid", "usb-storage"]
    );
}

#[test]
fn dependency_cycles_fall_back_to_priority() {
    let mut g = DependencyGraph { nodes: vec![], initialized: true };
    deps::register(&mut g, DependencyNode { name: "a", depends_on: vec![("b", DependencyType::Hard)], priority: 5, initialized: false });
    deps::register(&mut g, DependencyNode { name: "b", depends_on: vec![("a", DependencyType::Soft)], priority: 3, initialized: false });
    deps::register(&mut g, DependencyNode { name: "c", depends_on: vec![("missing", DependencyType::Hard)], priority: 9, initialized: false });
    assert_eq!(deps::get_init_order(&g), vec!["c", "b", "a"]);
}

#[test]
fn dma_refuses_scattered_frames() {
    let mut pool = DmaPoolManager::new();
    dma::init(&mut pool);
    let mut pmm = FrameList::new(vec![0x10_0000, 0x10_2000, 0x10_4000]);
    assert!(dma::dma_alloc(&mut pool, &mut pmm, 8192, DeviceId(3), DmaDirection::ToDevice).is_none());
    assert_eq!(pmm.frames, vec![0x10_4000, 0x10_0000, 0x10_2000]);
    assert_eq!(pool.buffers.len(), 0);
    let one = dma::dma_alloc(&mut pool, &mut pmm, 100, DeviceId(3), DmaDirection::ToDevice).unwrap();
    assert_eq!((one.size, one.phys), (4096, 0x10_4000));
    assert_eq!(pmm.frames, vec![0x10_0000, 0x10_2000]);
}

#[test]
fn dma_frames_go_back_when_freed() {
    let mut pool = DmaPoolManager::new();
    dma::init(&mut pool);
    let mut pmm = FrameList::new(vec![0x40_0000, 0x40_1000, 0x50_0000, 0x50_1000, 0x60_0000]);
    let a = dma::dma_alloc(&mut pool, &mut pmm, 8192, DeviceId(1), DmaDirection::ToDevice).unwrap();
    let b = dma::dma_alloc(&mut pool, &mut pmm, 8000, DeviceId(2), DmaDirection::ToDevice).unwrap();
    let c = dma::dma_alloc(&mut pool, &mut pmm, 10, DeviceId(1), DmaDirection::ToDevice).unwrap();
    assert_eq!((a.phys, b.phys, c.phys), (0x40_0000, 0x50_0000, 0x60_0000));
    assert!(pmm.frames.is_empty());
    assert!(dma::dma_alloc(&mut pool, &mut pmm, 10, DeviceId(1), DmaDirection::ToDevice).is_none());
    dma::free(&mut pool, &mut pmm, &b);
    assert_eq!(pmm.frames, vec![0x50_0000, 0x50_1000]);
    assert!(!pool.buffers[1].in_use);
    dma::free_all_for_device(&mut pool, &mut pmm, DeviceId(1));
    assert_eq!(pmm.frames, vec![0x50_0000, 0x50_1000, 0x40_0000, 0x40_1000, 0x60_0000]);
    assert_eq!(dma::get_stats(&pool).buffer_count, 0);
    assert_eq!(dma::get_stats(&pool).total_allocated, 0);
}

#[test]
fn dma_buffers_translate_byte_for_byte() {
    let mut pool = DmaPoolManager::new();
    dma::init(&mut pool);
    let start = pool.next_virt;
    let b = dma::buffer_over_frames(&mut pool, &vec![0x30_0000, 0x30_1000], 5000, DeviceId(4), DmaDirection::Bidirectional).unwrap();
    assert_eq!((b.virt, b.phys, b.size), (start, 0x30_0000, 8192));
    assert_eq!(dma::virt_to_phys(&pool, b.virt + 5000), Some(0x30_0000 + 5000));
    assert_eq!(dma::virt_to_phys(&pool, b.virt + 8192), None);
    assert!(dma::buffer_over_frames(&mut pool, &vec![0x30_0000, 0x30_3000], 5000, DeviceId(4), DmaDirection::ToDevice).is_none());
    assert!(dma::buffer_over_frames(&mut pool, &vec![0x30_0000], 5000, DeviceId(4), DmaDirection::ToDevice).is_none());
    assert_eq!(pool.buffers.len(), 1);
}

#[test]
fn successive_zone_blocks_are_guarded_and_aligned() {
    let mut mm = DriverMemoryManager::new();
    memory::init(&mut mm);
    let a = memory::zone_alloc(&mut mm, 10, 64, DeviceId(1), "a").unwrap();
    let b = memory::zone_alloc(&mut mm, 30, 256, DeviceId(2), "b").unwrap();
    assert_eq!(a % 64, 0);
    assert_eq!(b % 256, 0);
    assert!(a >= DRIVER_ZONE_START + GUARD_PAGE_SIZE as u64);
    assert!(a + 10 + GUARD_PAGE_SIZE as u64 <= b);
}

#[test]
fn resource_conflicts_by_kind() {
    let mut m = ResourceManager::new();
    assert!(m.request(ResourceType::IoPort { port: 0x3F8, len: 8 }, "com1", None));
    assert!(!m.request(ResourceType::IoPort { port: 0x3FF, len: 1 }, "overlap", None));
    assert!(m.request(ResourceType::IoPort { port: 0x400, len: 4 }, "next", None));
    assert!(m.request(ResourceType::Irq { line: 4 }, "irq4", None));
    assert!(m.request(ResourceType::DmaChannel { channel: 4 }, "dma4", None));
    assert!(m.request(ResourceType::Mmio { start: 0x1000, len: 0x1000 }, "mmio", None));
    assert!(!m.request(ResourceType::Mmio { start: 0x1FFF, len: 1 }, "mmio2", None));
    assert!(m.request(ResourceType::Mmio { start: 0x2000, len: 1 }, "mmio3", None));
}

#[test]
fn dma_withdraw_takes_back_the_last_buffer() {
    let mut pool = DmaPoolManager::new();
    dma::init(&mut pool);
    let start = pool.next_virt;
    let mut pmm = FrameList::new(vec![0x70_0000, 0x71_0000]);
    let a = dma::dma_alloc(&mut pool, &mut pmm, 4096, DeviceId(1), DmaDirection::ToDevice).unwrap();
    let b = dma::dma_alloc(&mut pool, &mut pmm, 4096, DeviceId(1), DmaDirection::ToDevice).unwrap();
    assert!(!dma::withdraw_last(&mut pool, &mut pmm, &a));
    assert!(dma::withdraw_last(&mut pool, &mut pmm, &b));
    assert_eq!(pool.next_virt, start + 4096);
    assert_eq!(pool.buffers.len(), 1);
    assert_eq!(dma::get_stats(&pool).total_allocated, 4096);
    assert_eq!(pmm.frames, vec![0x71_0000]);
}

#[test]
fn parameter_numbers_print_in_decimal() {
    assert_eq!(ParameterValue::Int(i64::MIN).to_string(), "-9223372036854775808");
    assert_eq!(ParameterValue::Int(0).to_string(), "0");
    assert_eq!(ParameterValue::Uint(u64::MAX).to_string(), "18446744073709551615");
    assert_eq!(ParameterValue::Uint(1070).to_string(), "1070");
}
