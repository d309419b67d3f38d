use wtg::nvml::probe_context::PerformanceState;
use wtg::nvml::provenance::{
    build_device_facts, build_driver_facts, collect_provenance_stats, map_error_state,
    AutoBoostReading, ClockSurfaceReadings, ClocksReadings, ComputeCapabilityReading,
    CoolingReadings, DeviceHandleReadings, DeviceProvenanceReadings, DriverReadings,
    IdentityReadings, MediaReadings, MemoryInfoReading, NvmlCallError, NvmlErrorKind, NvmlFact,
    NvmlFactState, NvmlFactValue, NvmlNode, PciReading, PcieLinkReadings,
    PowerLimitConstraintsReading, PowerManagementReadings, ProcessesReadings,
    UtilizationRatesReading,
};

fn err(kind: NvmlErrorKind, message: &str) -> NvmlCallError {
    NvmlCallError { kind, message: message.to_string() }
}

fn surface() -> ClockSurfaceReadings {
    ClockSurfaceReadings { current: Ok(1500), max: Ok(2100), applications: Err(err(NvmlErrorKind::NotSupported, "Not supported")) }
}

fn readings() -> DeviceProvenanceReadings {
    DeviceProvenanceReadings {
        name: Ok("RTX".to_string()),
        uuid: Ok("GPU-1".to_string()),
        pci_info: Ok(PciReading {
            bus_id: "00000000:01:00.0".to_string(),
            domain: 0,
            bus: 1,
            device: 0,
            pci_device_id: 0x2684_10de,
            pci_sub_system_id: None,
        }),
        compute_mode: Ok("Default".to_string()),
        performance_state: Ok(PerformanceState::Two),
        memory: Ok(MemoryInfoReading { used: 10, free: 20, total: 30 }),
        utilization: Ok(UtilizationRatesReading { gpu: 3, memory: 4 }),
        temperature: Ok(50),
        power_usage: Err(err(NvmlErrorKind::NoPermission, "Insufficient permissions")),
        enforced_power_limit: Ok(300_000),
        identity: IdentityReadings {
            brand: Ok("GeForce".to_string()),
            board_id: Ok(256),
            vbios_version: Ok("95.02".to_string()),
            cuda_compute_capability: Ok(ComputeCapabilityReading { major: 8, minor: 9 }),
            num_cores: Err(err(NvmlErrorKind::FunctionNotFound, "Function not found")),
        },
        pcie: PcieLinkReadings {
            current_link_gen: Ok(4),
            current_link_width: Ok(16),
            max_link_gen: Ok(4),
            max_link_width: Ok(16),
            throughput_tx: Ok(100),
            throughput_rx: Ok(200),
        },
        clocks: ClocksReadings {
            graphics: surface(),
            sm: surface(),
            memory: surface(),
            video: surface(),
            auto_boost: Ok(AutoBoostReading { is_enabled: true, is_enabled_default: false }),
        },
        bar1: Err(err(NvmlErrorKind::Other, "Unknown error")),
        power_management: PowerManagementReadings {
            limit: Ok(320_000),
            default_limit: Ok(320_000),
            constraints: Ok(PowerLimitConstraintsReading { min_limit: 100_000, max_limit: 400_000 }),
            algorithm_active: Ok(true),
            power_source: Ok("Ac".to_string()),
        },
        media: MediaReadings { encoder: Ok(0), decoder: Ok(1) },
        cooling: CoolingReadings { num_fans: Ok(2), fan_speeds: vec![Ok(30), Err(err(NvmlErrorKind::NotSupported, "Not supported"))] },
        processes: ProcessesReadings { compute_count: Ok(0), graphics_count: Ok(3) },
    }
}

fn entry<'a>(entries: &'a [(String, NvmlNode)], key: &str) -> &'a NvmlNode {
    &entries.iter().find(|(k, _)| k == key).unwrap().1
}

fn fact<'a>(entries: &'a [(String, NvmlNode)], key: &str) -> &'a NvmlFact {
    match entry(entries, key) {
        NvmlNode::Fact(f) => f,
        NvmlNode::Group(_) => panic!("{key} is a group"),
    }
}

fn group<'a>(entries: &'a [(String, NvmlNode)], key: &str) -> &'a [(String, NvmlNode)] {
    match entry(entries, key) {
        NvmlNode::Group(g) => g,
        NvmlNode::Fact(_) => panic!("{key} is a fact"),
    }
}

const KEYS: [&str; 22] = [
    "nvml.device.index",
    "nvml.device.name",
    "nvml.device.uuid",
    "nvml.device.pci.bus_id",
    "nvml.device.compute_mode",
    "nvml.device.performance_state",
    "nvml.memory.used_bytes",
    "nvml.memory.free_bytes",
    "nvml.memory.total_bytes",
    "nvml.utilization.gpu_pct",
    "nvml.utilization.memory_controller_pct",
    "nvml.temperature.gpu_c",
    "nvml.power.draw_mw",
    "nvml.power.enforced_limit_mw",
    "identity",
    "pcie",
    "clocks",
    "bar1",
    "power_management",
    "media",
    "cooling",
    "processes",
];

#[test]
fn error_kinds_map_to_states() {
    assert_eq!(map_error_state(&err(NvmlErrorKind::NotSupported, "")), NvmlFactState::Unsupported);
    assert_eq!(map_error_state(&err(NvmlErrorKind::NoPermission, "")), NvmlFactState::PermissionDenied);
    for kind in [
        NvmlErrorKind::NotFound,
        NvmlErrorKind::NoData,
        NvmlErrorKind::DriverNotLoaded,
        NvmlErrorKind::FunctionNotFound,
        NvmlErrorKind::LibraryNotFound,
    ] {
        assert_eq!(map_error_state(&err(kind, "")), NvmlFactState::NotAvailable);
    }
    assert_eq!(map_error_state(&err(NvmlErrorKind::Other, "")), NvmlFactState::Error);
    assert_eq!(NvmlFactState::Success.as_str(), "ok");
    assert_eq!(NvmlFactState::PermissionDenied.as_str(), "permission_denied");
    assert_eq!(NvmlFactState::NotAvailable.as_str(), "not_available");
}

#[test]
fn device_facts_of_a_device_with_a_handle() {
    let facts = build_device_facts(7, &Ok(readings()));
    let keys: Vec<&str> = facts.iter().map(|(k, _)| k.as_str()).collect();
    assert_eq!(keys, KEYS.to_vec());

    let index = fact(&facts, "nvml.device.index");
    assert_eq!(index.source_api, "nvmlDeviceGetHandleByIndex");
    assert!(matches!(index.raw, Some(NvmlFactValue::U32(7))));

    let perf = fact(&facts, "nvml.device.performance_state");
    assert!(matches!(&perf.raw, Some(NvmlFactValue::String(s)) if s == "P2"));

    let power = fact(&facts, "nvml.power.draw_mw");
    assert_eq!(power.state, NvmlFactState::PermissionDenied);
    assert_eq!(power.unit, Some("milliwatts"));
    assert_eq!(power.error_message.as_deref(), Some("Insufficient permissions"));
    assert!(power.raw.is_none());

    let used = fact(&facts, "nvml.memory.used_bytes");
    assert!(matches!(used.raw, Some(NvmlFactValue::U64(10))));
    assert_eq!(used.unit, Some("bytes"));

    let identity = group(&facts, "identity");
    let capability = fact(identity, "cuda_compute_capability");
    match &capability.raw {
        Some(NvmlFactValue::Object(entries)) => {
            assert_eq!(entries.len(), 2);
            assert_eq!(entries[0].0, "major");
            assert!(matches!(&entries[0].1, NvmlFactValue::String(s) if s == "8"));
            assert!(matches!(&entries[1].1, NvmlFactValue::String(s) if s == "9"));
        }
        _ => panic!("expected an object"),
    }
    assert_eq!(fact(identity, "cuda_cores").state, NvmlFactState::NotAvailable);

    let pcie = group(&facts, "pcie");
    assert_eq!(fact(pcie, "pci_sub_system_id").state, NvmlFactState::NotAvailable);
    assert_eq!(fact(pcie, "throughput_rx_kb_per_s").unit, Some("kb_per_s"));

    let bar1 = group(&facts, "bar1");
    assert_eq!(bar1.len(), 3);
    assert!(bar1.iter().all(|(_, n)| matches!(n, NvmlNode::Fact(f) if f.state == NvmlFactState::Error)));

    let clocks = group(&facts, "clocks");
    let graphics = group(clocks, "graphics");
    assert_eq!(fact(graphics, "applications_mhz").state, NvmlFactState::Unsupported);

    let cooling = group(&facts, "cooling");
    let speeds = group(cooling, "fan_speeds");
    assert_eq!(speeds[0].0, "fan_0_speed_pct");
    assert_eq!(speeds[1].0, "fan_1_speed_pct");
    assert_eq!(fact(speeds, "fan_1_speed_pct").state, NvmlFactState::Unsupported);
}

#[test]
fn device_facts_when_the_handle_is_refused() {
    let facts = build_device_facts(1, &Err(err(NvmlErrorKind::NotFound, "Not found")));
    let keys: Vec<&str> = facts.iter().map(|(k, _)| k.as_str()).collect();
    assert_eq!(keys, KEYS.to_vec());
    for (key, node) in facts.iter().skip(1) {
        match node {
            NvmlNode::Fact(f) => {
                assert_eq!(f.source_api, "nvmlDeviceGetHandleByIndex", "{key}");
                assert_eq!(f.state, NvmlFactState::NotAvailable, "{key}");
                assert_eq!(f.error_message.as_deref(), Some("Not found"));
            }
            NvmlNode::Group(g) => {
                assert_eq!(g.len(), 1);
                assert_eq!(g[0].0, "_category");
            }
        }
    }
}

#[test]
fn cooling_error_gives_first_fan_the_error() {
    let mut r = readings();
    r.cooling = CoolingReadings { num_fans: Err(err(NvmlErrorKind::NotSupported, "Not supported")), fan_speeds: vec![] };
    let facts = build_device_facts(0, &Ok(r));
    let cooling = group(&facts, "cooling");
    assert_eq!(fact(cooling, "num_fans").source_api, "nvmlDeviceGetNumFans");
    let speeds = group(cooling, "fan_speeds");
    assert_eq!(speeds.len(), 1);
    assert_eq!(fact(speeds, "fan_0_speed_pct").source_api, "nvmlDeviceGetFanSpeed_v2");
}

#[test]
fn driver_and_all_devices() {
    let driver = DriverReadings {
        driver_version: Ok("580.88".to_string()),
        cuda_driver_version: Ok(13000),
    };
    let facts = build_driver_facts(&driver);
    assert_eq!(facts[0].0, "nvml.driver.version");
    assert!(matches!(&facts[1].1.raw, Some(NvmlFactValue::String(s)) if s == "13000"));

    let stats = collect_provenance_stats(
        &driver,
        &vec![
            DeviceHandleReadings { index: 0, handle: Ok(readings()) },
            DeviceHandleReadings { index: 1, handle: Err(err(NvmlErrorKind::Other, "Unknown")) },
        ],
    );
    assert_eq!(stats.driver.len(), 2);
    assert_eq!(stats.devices.len(), 2);
}

fn assert_consistent(entries: &[(String, NvmlNode)]) {
    for (key, node) in entries {
        match node {
            NvmlNode::Fact(f) => match f.state {
                NvmlFactState::Success => assert!(f.raw.is_some() && f.error_message.is_none(), "{key}"),
                NvmlFactState::Unsupported | NvmlFactState::PermissionDenied | NvmlFactState::Error => {
                    assert!(f.raw.is_none() && f.error_message.is_some(), "{key}")
                }
                NvmlFactState::NotAvailable => {}
            },
            NvmlNode::Group(g) => assert_consistent(g),
        }
    }
}

#[test]
fn every_provenance_fact_keeps_value_and_error_apart() {
    let mut failing = readings();
    failing.temperature = Err(err(NvmlErrorKind::NoPermission, "Insufficient Permissions"));
    failing.cooling = CoolingReadings { num_fans: Err(err(NvmlErrorKind::NotSupported, "Not supported")), fan_speeds: vec![] };
    let stats = collect_provenance_stats(
        &DriverReadings { driver_version: Err(err(NvmlErrorKind::Other, "Unknown")), cuda_driver_version: Ok(12040) },
        &vec![
            DeviceHandleReadings { index: 0, handle: Ok(readings()) },
            DeviceHandleReadings { index: 1, handle: Ok(failing) },
            DeviceHandleReadings { index: 2, handle: Err(err(NvmlErrorKind::Other, "Unknown")) },
        ],
    );
    for (_, f) in &stats.driver {
        assert_eq!(f.raw.is_some(), f.state == NvmlFactState::Success);
        assert_eq!(f.error_message.is_some(), f.state != NvmlFactState::Success);
    }
    for device in &stats.devices {
        assert_consistent(device);
    }
}
