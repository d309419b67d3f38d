use wtg::providers::intel_level_zero::{
    self, sample_from_outcome, Enumeration, LevelZeroOutcome, LoadedRuntime, collect_visible_sample_with_priming_impl, needs_second_sample, visible_after_first, unavailable_sample, error_fact, fact_number, fact_reason, fact_string, fact_u64, format_human_unavailable,
    format_probe_fact_line, format_probe_snapshot, format_snapshot, format_watch_sample,
    indexed_metric_indexes, not_available_fact, number_fact_u64, ok_fact, sample_status,
    sum_indexed_u64_facts, temperature_reading_c, DecimalText, DeviceRecord, FactRaw, FactScalar,
    IntelFact, ProviderSample, build_device_record, DeviceProperties, PropertiesOutcome, sysman_domain_head, SysmanEnumOutcome,
};

fn text(v: &str) -> FactRaw {
    FactRaw::Plain(FactScalar::Text(v.to_string()))
}

fn uint(v: u64) -> FactRaw {
    FactRaw::Plain(FactScalar::UInt(v))
}

fn decimal(json: &str, one: &str, two: &str) -> FactScalar {
    FactScalar::Decimal(DecimalText {
        json: json.to_string(),
        one_decimal: one.to_string(),
        two_decimals: two.to_string(),
    })
}

fn number_fact_f64(key: &str, api: &'static str, value: FactScalar, unit: Option<&'static str>) -> IntelFact {
    IntelFact {
        metric_key: key.to_string(),
        source_api: api,
        state: "ok",
        raw: FactRaw::Plain(value),
        unit,
        error_message: None,
    }
}

fn sample(status: &'static str, sample_seq: u64, devices: Vec<DeviceRecord>) -> ProviderSample {
    ProviderSample {
        wtg_version: "0.3.0",
        provider: intel_level_zero::provider(),
        provider_authority: intel_level_zero::provider_authority(),
        provider_source: intel_level_zero::provider_source(),
        telemetry_class: intel_level_zero::telemetry_class(),
        status,
        sample_seq,
        timestamp_unix_ms: 0,
        dll_name: None,
        dll_path: None,
        telemetry_exports_matched: 4,
        sysman_exports_matched: 16,
        optional_calls_attempted: 0,
        optional_calls_ok: 0,
        optional_calls_unsupported: 0,
        optional_calls_not_available: 0,
        optional_calls_error: 0,
        driver_record_count: 1,
        device_record_count: devices.len(),
        sysman_facts: Vec::new(),
        devices,
        errors: Vec::new(),
    }
}

fn device(facts: Vec<IntelFact>, unavailable: Vec<&'static str>) -> DeviceRecord {
    DeviceRecord {
        driver_index: 0,
        device_index: 0,
        key: "driver=0,device=0,vendor=0x8086,device=0x4c8b".to_string(),
        facts,
        unavailable,
    }
}

#[test]
fn compact_human_snapshot_uses_typed_sysman_facts_and_reasons() {
    let device = device(
        vec![
            ok_fact("device_name".to_string(), "zeDeviceGetProperties", text("Intel UHD 730")),
            ok_fact(
                "device_key".to_string(),
                "wtg.intel.level_zero.device_key",
                text("driver=0,device=0,vendor=0x8086,device=0x4c8b"),
            ),
            ok_fact("uuid".to_string(), "zeDeviceGetProperties", text("240000002000000086808b4c04000000")),
            number_fact_u64("core_clock_mhz".to_string(), "zeDeviceGetProperties", 1300, Some("mhz")),
            number_fact_u64(
                "sysman.memory_modules.0.used_bytes".to_string(),
                "zesMemoryGetState",
                9_160 * 1024 * 1024,
                Some("bytes"),
            ),
            number_fact_u64(
                "sysman.memory_modules.0.size_bytes".to_string(),
                "zesMemoryGetProperties",
                16_384 * 1024 * 1024,
                Some("bytes"),
            ),
            not_available_fact(
                "sysman.power_domains.0.watts_delta".to_string(),
                "zesPowerGetEnergyCounter",
                "requires previous sample.".to_string(),
            ),
            not_available_fact(
                "sysman.engine_groups.0.utilization_pct_delta".to_string(),
                "zesEngineGetActivity",
                "requires previous sample.".to_string(),
            ),
            number_fact_f64(
                "sysman.frequency_domains.0.actual_mhz",
                "zesFrequencyGetState",
                decimal("1300.0", "1300.0", "1300.00"),
                Some("mhz"),
            ),
            number_fact_f64(
                "sysman.frequency_domains.0.request_mhz",
                "zesFrequencyGetState",
                decimal("350.0", "350.0", "350.00"),
                Some("mhz"),
            ),
            number_fact_f64(
                "sysman.frequency_domains.0.max_mhz",
                "zesFrequencyGetProperties",
                decimal("0.0", "0.0", "0.00"),
                Some("mhz"),
            ),
            not_available_fact(
                "sysman.temperature_sensors.status".to_string(),
                "zesDeviceEnumTemperatureSensors",
                "zesDeviceEnumTemperatureSensors returned zero handles.".to_string(),
            ),
        ],
        vec!["temperature"],
    );
    let sample = sample("ok", 0, vec![device]);

    let rendered = format_snapshot(&sample);
    assert!(rendered.contains("Intel device 0: Intel UHD 730"));
    assert!(rendered.contains("Device key: driver=0,device=0,vendor=0x8086,device=0x4c8b"));
    assert!(rendered.contains("UUID: 240000002000000086808b4c04000000"));
    assert!(rendered.contains("Core clock: 1300 MHz"));
    assert!(rendered.contains("Memory: 9160 MiB / 16384 MiB"));
    assert!(rendered.contains("Power: unavailable, requires previous sample"));
    assert!(rendered.contains("Engine 0: unavailable, requires previous sample"));
    assert!(rendered.contains("Frequency: actual 1300 MHz, requested 350 MHz"));
    assert!(rendered.contains("Temperature: unavailable, zero handles"));
    assert!(!rendered.contains("source_api"));
    assert!(!rendered.contains("buffer_hex"));
    assert!(!rendered.contains("stype"));
    assert!(!rendered.contains("max_mhz"));
}

#[test]
fn compact_watch_output_shows_delta_values() {
    let device = device(
        vec![
            ok_fact("device_name".to_string(), "zeDeviceGetProperties", text("Intel UHD 730")),
            number_fact_u64(
                "sysman.memory_modules.0.used_bytes".to_string(),
                "zesMemoryGetState",
                9_160 * 1024 * 1024,
                Some("bytes"),
            ),
            number_fact_u64(
                "sysman.memory_modules.0.size_bytes".to_string(),
                "zesMemoryGetProperties",
                16_384 * 1024 * 1024,
                Some("bytes"),
            ),
            number_fact_f64(
                "sysman.power_domains.0.watts_delta",
                "zesPowerGetEnergyCounter",
                decimal("12.2", "12.2", "12.20"),
                Some("watts"),
            ),
            number_fact_f64(
                "sysman.engine_groups.0.utilization_pct_delta",
                "zesEngineGetActivity",
                decimal("0.04", "0.0", "0.04"),
                Some("pct"),
            ),
            number_fact_f64(
                "sysman.engine_groups.1.utilization_pct_delta",
                "zesEngineGetActivity",
                decimal("0.0", "0.0", "0.00"),
                Some("pct"),
            ),
            number_fact_f64(
                "sysman.engine_groups.2.utilization_pct_delta",
                "zesEngineGetActivity",
                decimal("0.0", "0.0", "0.00"),
                Some("pct"),
            ),
            number_fact_f64(
                "sysman.frequency_domains.0.actual_mhz",
                "zesFrequencyGetState",
                decimal("1300.0", "1300.0", "1300.00"),
                Some("mhz"),
            ),
            number_fact_f64(
                "sysman.frequency_domains.0.request_mhz",
                "zesFrequencyGetState",
                decimal("350.0", "350.0", "350.00"),
                Some("mhz"),
            ),
            not_available_fact(
                "sysman.temperature_sensors.status".to_string(),
                "zesDeviceEnumTemperatureSensors",
                "zesDeviceEnumTemperatureSensors returned zero handles.".to_string(),
            ),
        ],
        vec!["temperature"],
    );
    let sample = sample("ok", 2, vec![device]);

    let rendered = format_watch_sample(&sample);
    assert!(rendered.contains("sample_seq: 2"));
    assert!(rendered.contains("Intel device 0: Intel UHD 730"));
    assert!(rendered.contains("Power: 12.2 W"));
    assert!(rendered.contains("Engine 0: 0.04%"));
    assert!(rendered.contains("Engine 1: 0.00%"));
    assert!(rendered.contains("Engine 2: 0.00%"));
    assert!(rendered.contains("Frequency: actual 1300 MHz, requested 350 MHz"));
}

#[test]
fn probe_output_includes_existing_device_sysman_facts() {
    let device = device(
        vec![
            ok_fact(
                "device_key".to_string(),
                "wtg.intel.level_zero.device_key",
                text("driver=0,device=0,vendor=0x8086,device=0x4c8b"),
            ),
            ok_fact("device_type".to_string(), "zeDeviceGetProperties", text("gpu")),
            ok_fact("vendor_id".to_string(), "zeDeviceGetProperties", uint(0x8086)),
            ok_fact("device_id".to_string(), "zeDeviceGetProperties", uint(0x4c8b)),
            ok_fact("sysman.engine_groups.count".to_string(), "zesDeviceEnumEngineGroups", uint(3)),
            ok_fact("sysman.engine_groups.status".to_string(), "zesDeviceEnumEngineGroups", text("ok")),
            ok_fact(
                "sysman.engine_groups.0.state".to_string(),
                "zesEngineGetActivity",
                FactRaw::Object(vec![
                    ("buffer_hex".to_string(), FactScalar::Text("abcd".to_string())),
                    ("handle_index".to_string(), FactScalar::UInt(0)),
                ]),
            ),
            not_available_fact(
                "sysman.temperature_sensors.status".to_string(),
                "zesDeviceEnumTemperatureSensors",
                "zesDeviceEnumTemperatureSensors returned zero handles.".to_string(),
            ),
            ok_fact("sysman.temperature_sensors.count".to_string(), "zesDeviceEnumTemperatureSensors", uint(0)),
        ],
        vec!["temperature"],
    );
    let mut sample = sample("ok", 1, vec![device]);
    sample.wtg_version = "0.2.9";
    sample.optional_calls_attempted = 1;
    sample.optional_calls_ok = 1;

    let probe = format_probe_snapshot(&sample);
    assert!(probe.contains("device.sysman.engine_groups.count: ok (raw=3)"));
    assert!(probe.contains("device.sysman.engine_groups.status: ok (raw=\"ok\")"));
    assert!(probe.contains("device.sysman.engine_groups.0.state: ok"));
    assert!(probe.contains("device.sysman.temperature_sensors.count: ok (raw=0)"));
    assert!(probe.contains("device.sysman.temperature_sensors.status: not_available (raw=null)"));
}

#[test]
fn sysman_probe_output_remains_provider_scoped() {
    let mut sample = sample("ok", 7, Vec::new());
    sample.wtg_version = "0.2.9";
    sample.sysman_exports_matched = 1;
    sample.sysman_facts = vec![
        IntelFact {
            metric_key: "zesInit_export".to_string(),
            source_api: "wtg.intel.level_zero.dynamic_load",
            state: "ok",
            raw: FactRaw::Plain(FactScalar::Bool(true)),
            unit: None,
            error_message: None,
        },
        IntelFact {
            metric_key: "zesDeviceEnumEngineGroups_export".to_string(),
            source_api: "wtg.intel.level_zero.dynamic_load",
            state: "not_available",
            raw: FactRaw::Plain(FactScalar::Bool(false)),
            unit: None,
            error_message: Some("missing optional Sysman symbol zesDeviceEnumEngineGroups.".to_string()),
        },
        error_fact("zesInit_result".to_string(), "zesInit", -7, "zesInit failed with status -7.".to_string()),
    ];

    let probe = format_probe_snapshot(&sample);
    assert!(probe.contains("intel.sysman_exports_matched: 1"));
    assert!(probe.contains("intel.sysman.zesInit_export: ok (raw=true)"));
    assert!(probe.contains("intel.sysman.zesDeviceEnumEngineGroups_export: not_available (raw=false)"));
    assert!(probe.contains("intel.sysman.zesInit_result: error (raw=-7)"));
}

#[test]
fn intel_probe_block_is_exact() {
    let device = DeviceRecord {
        device_index: 3,
        ..device(
            vec![
                ok_fact("device_name".to_string(), "zeDeviceGetProperties", text("Arc \"A770\"")),
                ok_fact("vendor_id".to_string(), "zeDeviceGetProperties", uint(0x8086)),
                ok_fact("device_id".to_string(), "zeDeviceGetProperties", uint(0x56)),
                number_fact_u64("core_clock_mhz".to_string(), "zeDeviceGetProperties", 2100, Some("mhz")),
                ok_fact("note".to_string(), "api", text("tab\there")),
            ],
            vec!["temperature", "power"],
        )
    };
    let mut s = sample("ok", 0, vec![device]);
    s.sysman_facts = vec![ok_fact("zesInit_export".to_string(), "api", FactRaw::Plain(FactScalar::Null))];
    assert_eq!(
        format_probe_snapshot(&s),
        "[probe] provider=intel_level_zero\nwtg.version: 0.3.0\nprovider.authority: Intel Level Zero\nprovider.source: wtg.provider.intel.level_zero\ntelemetry.class: provider_telemetry\nprovider.status: ok\n\nintel.driver_records: 1\nintel.device_records: 1\nintel.telemetry_exports_matched: 4\nintel.sysman_exports_matched: 16\nintel.optional_calls_attempted: 0\nintel.optional_calls.ok: 0\nintel.optional_calls.unsupported: 0\nintel.optional_calls.not_available: 0\nintel.optional_calls.error: 0\nintel.sysman.zesInit_export: ok (raw=null)\n\n[probe] device=3\ndevice.name: Arc \"A770\"\ndevice.key: driver=0,device=0,vendor=0x8086,device=0x4c8b\ndevice.vendor_id: 0x8086 (32902)\ndevice.device_id: 0x0056 (86)\ndevice.core_clock_mhz: 2100.0\ndevice.note: ok (raw=\"tab\\there\")\nunavailable: temperature, power"
    );
    let mut failed = sample("unavailable", 4, Vec::new());
    failed.errors = vec!["Intel Level Zero loader not found.".to_string()];
    assert_eq!(
        format_probe_snapshot(&failed),
        "[probe] provider=intel_level_zero\nwtg.version: 0.3.0\nprovider.authority: Intel Level Zero\nprovider.source: wtg.provider.intel.level_zero\ntelemetry.class: provider_telemetry\nprovider.status: unavailable\nreason: Intel Level Zero loader not found."
    );
    assert_eq!(format_snapshot(&failed), "Provider status: unavailable\nReason: Intel Level Zero loader not found.");
    assert_eq!(
        format_watch_sample(&failed),
        "sample_seq: 4\nprovider.status: unavailable\nreason: Intel Level Zero loader not found."
    );
    assert_eq!(sample_status(&failed), "unavailable");
}

#[test]
fn intel_snapshot_separates_devices_and_names_keys() {
    let a = device(vec![], vec![]);
    let b = DeviceRecord { device_index: 1, key: "k1".to_string(), ..device(vec![], vec![]) };
    let s = sample("ok", 9, vec![a, b]);
    let block = "  Memory: unavailable\n  Power: unavailable\n  Engine activity: unavailable\n  Frequency: unavailable\n  Temperature: unavailable";
    assert_eq!(
        format_snapshot(&s),
        format!("Intel device 0 [driver=0,device=0,vendor=0x8086,device=0x4c8b]\n  Device key: driver=0,device=0,vendor=0x8086,device=0x4c8b\n{block}\n\nIntel device 1 [k1]\n  Device key: k1\n{block}")
    );
    assert_eq!(
        format_watch_sample(&s),
        format!("sample_seq: 9\n\nIntel device 0 [driver=0,device=0,vendor=0x8086,device=0x4c8b]\n  Device key: driver=0,device=0,vendor=0x8086,device=0x4c8b\n{block}\n\nIntel device 1 [k1]\n  Device key: k1\n{block}")
    );
    assert_eq!(format_snapshot(&sample("ok", 0, Vec::new())), "");
}

#[test]
fn intel_indexes_sums_and_readings() {
    let d = device(
        vec![
            number_fact_u64("sysman.memory_modules.2.used_bytes".to_string(), "api", 3 * 1024 * 1024, None),
            number_fact_u64("sysman.memory_modules.0.used_bytes".to_string(), "api", 1024 * 1024 + 52429, None),
            number_fact_u64("sysman.memory_modules.02.used_bytes".to_string(), "api", 7, None),
            number_fact_u64("sysman.memory_modules.x.used_bytes".to_string(), "api", 5, None),
            number_fact_u64("sysman.memory_modules.+1.used_bytes".to_string(), "api", u64::MAX, None),
            number_fact_u64("sysman.memory_modules.1.used_bytes".to_string(), "api", u64::MAX, None),
            not_available_fact("sysman.power_domains.4.watts_delta".to_string(), "api", "  counter reset..".to_string()),
            IntelFact {
                metric_key: "sysman.temperature_sensors.1.state".to_string(),
                source_api: "api",
                state: "error",
                raw: FactRaw::Object(vec![
                    ("handle_index".to_string(), FactScalar::UInt(1)),
                    ("temperature_c".to_string(), decimal("47.25", "47.2", "47.25")),
                ]),
                unit: None,
                error_message: None,
            },
        ],
        vec![],
    );
    assert_eq!(indexed_metric_indexes(&d, "sysman.memory_modules.", ".used_bytes"), vec![0, 1, 2]);
    assert_eq!(sum_indexed_u64_facts(&d, "sysman.memory_modules.", ".used_bytes"), Some(u64::MAX));
    assert_eq!(sum_indexed_u64_facts(&d, "sysman.memory_modules.", ".size_bytes"), None);
    assert_eq!(fact_u64(&d, "sysman.memory_modules.2.used_bytes"), Some(3 * 1024 * 1024));
    assert_eq!(fact_reason(&d, "sysman.power_domains.4.watts_delta").as_deref(), Some("counter reset"));
    assert!(fact_number(&d, "sysman.power_domains.4.watts_delta").is_none());
    assert!(fact_string(&d, "device_name").is_none());
    match temperature_reading_c(&d) {
        Some(FactScalar::Decimal(t)) => assert_eq!(t.one_decimal, "47.2"),
        _ => panic!("expected a temperature"),
    }
    let s = sample("ok", 0, vec![d]);
    let rendered = format_snapshot(&s);
    assert!(rendered.contains("  Temperature: 47.2 C"));
    assert!(rendered.contains("  Power: unavailable, counter reset"));
    assert!(rendered.contains("  Memory: unavailable\n"));
    assert_eq!(format_human_unavailable("  GPU", Some(String::new())), "  GPU: unavailable");
    assert_eq!(format_human_unavailable("  GPU", None), "  GPU: unavailable");
}

#[test]
fn intel_memory_rounds_like_float_formatting() {
    let mib = 1024 * 1024;
    let d = device(
        vec![
            number_fact_u64("sysman.memory_modules.0.used_bytes".to_string(), "api", mib + 52429, None),
            number_fact_u64("sysman.memory_modules.0.size_bytes".to_string(), "api", 3 * mib + mib / 2, None),
        ],
        vec![],
    );
    let rendered = format_snapshot(&sample("ok", 0, vec![d]));
    assert!(rendered.contains(&format!("  Memory: {} MiB / {} MiB", format!("{:.1}", (mib + 52429) as f64 / 1024.0 / 1024.0), "3.5")));
    let huge = device(
        vec![
            number_fact_u64("sysman.memory_modules.0.used_bytes".to_string(), "api", u64::MAX, None),
            number_fact_u64("sysman.memory_modules.0.size_bytes".to_string(), "api", (1u64 << 53) + 1, None),
        ],
        vec![],
    );
    let rendered = format_snapshot(&sample("ok", 0, vec![huge]));
    let expected = format!(
        "  Memory: {} MiB / {} MiB",
        format!("{:.1}", u64::MAX as f64 / 1024.0 / 1024.0).trim_end_matches(".0"),
        format!("{:.1}", ((1u64 << 53) + 1) as f64 / 1024.0 / 1024.0).trim_end_matches(".0"),
    );
    assert!(rendered.contains(&expected), "{rendered}");
    let clock = device(
        vec![number_fact_u64("core_clock_mhz".to_string(), "api", (1u64 << 53) + 3, None)],
        vec![],
    );
    let rendered = format_snapshot(&sample("ok", 0, vec![clock]));
    assert!(rendered.contains(&format!("  Core clock: {} MHz", ((1u64 << 53) + 3) as f64)));
}

#[test]
fn intel_probe_fact_line_shows_error() {
    let f = error_fact("x".to_string(), "api", 5, "failed.".to_string());
    assert_eq!(format_probe_fact_line("device", &f), "device.x: error (raw=5) [failed.]");
}

#[test]
fn visible_sample_priming_collects_twice_when_priming_succeeds() {
    let mut collected = Vec::new();
    let mut slept = Vec::new();

    let sample = collect_visible_sample_with_priming_impl(
        0,
        250,
        |sample_seq| {
            collected.push(sample_seq);
            if collected.len() == 1 {
                sample("ok", sample_seq, Vec::new())
            } else {
                sample("ok", sample_seq + 10, Vec::new())
            }
        },
        |ms| slept.push(ms),
    );

    assert_eq!(collected, vec![0, 0]);
    assert_eq!(slept, vec![250]);
    assert_eq!(sample.sample_seq, 10);
    assert_eq!(sample.status, "ok");
}

#[test]
fn visible_sample_priming_returns_first_sample_when_priming_is_unavailable() {
    let mut collected = Vec::new();
    let mut slept = false;

    let sample = collect_visible_sample_with_priming_impl(
        7,
        250,
        |sample_seq| {
            collected.push(sample_seq);
            sample("unavailable", sample_seq, Vec::new())
        },
        |_| slept = true,
    );

    assert_eq!(collected, vec![7]);
    assert!(!slept);
    assert_eq!(sample.sample_seq, 7);
    assert_eq!(sample.status, "unavailable");
}

#[test]
fn intel_unavailable_sample_keeps_sysman_facts() {
    let facts = vec![error_fact("zesInit_result".to_string(), "zesInit", -7, "failed".to_string())];
    let s = unavailable_sample(2, 99, Some("ze_loader.dll".to_string()), None, 4, 1, facts, "zeInit failed with status 1.".to_string());
    assert_eq!(s.status, "unavailable");
    assert_eq!(s.errors, vec!["zeInit failed with status 1.".to_string()]);
    assert_eq!(s.sysman_facts.len(), 1);
    assert_eq!(s.telemetry_exports_matched, 4);
    assert_eq!(s.device_record_count, 0);
    assert!(!needs_second_sample(&s));
    assert!(needs_second_sample(&sample("ok", 0, Vec::new())));
    assert_eq!(
        format_probe_snapshot(&s),
        "[probe] provider=intel_level_zero\nwtg.version: 0.3.0\nprovider.authority: Intel Level Zero\nprovider.source: wtg.provider.intel.level_zero\ntelemetry.class: provider_telemetry\nprovider.status: unavailable\nreason: zeInit failed with status 1."
    );
}

fn runtime() -> LoadedRuntime {
    LoadedRuntime {
        dll_name: "ze_loader.dll".to_string(),
        dll_path: "C:\\Intel\\ze_loader.dll".to_string(),
        telemetry_exports_matched: 4,
        sysman_exports_matched: 2,
        sysman_facts: vec![ok_fact("zesInit_export".to_string(), "api", FactRaw::Plain(FactScalar::Bool(true)))],
    }
}

#[test]
fn intel_sample_follows_outcome() {
    let missing = sample_from_outcome(0, 1, LevelZeroOutcome::LoadFailed("Intel Level Zero runtime DLL ze_loader.dll was not found.".to_string()));
    assert_eq!(missing.status, "unavailable");
    assert_eq!(format_snapshot(&missing), "Provider status: unavailable\nReason: Intel Level Zero runtime DLL ze_loader.dll was not found.");
    let init = sample_from_outcome(0, 1, LevelZeroOutcome::InitFailed { runtime: runtime(), init_result: 2013265921 });
    assert_eq!(init.errors, vec!["zeInit failed with status 2013265921.".to_string()]);
    assert_eq!(init.sysman_facts.len(), 1);
    assert_eq!(init.telemetry_exports_matched, 4);
    let failed = sample_from_outcome(0, 1, LevelZeroOutcome::EnumerationFailed { runtime: runtime(), reason: "zeDriverGet failed.".to_string() });
    assert_eq!(failed.errors, vec!["zeDriverGet failed.".to_string()]);
    let empty = Enumeration {
        driver_record_count: 1,
        device_record_count: 0,
        devices: Vec::new(),
        optional_calls_attempted: 0,
        optional_calls_ok: 0,
        optional_calls_unsupported: 0,
        optional_calls_not_available: 0,
        optional_calls_error: 0,
    };
    let none = sample_from_outcome(5, 1, LevelZeroOutcome::Enumerated { runtime: runtime(), enumeration: empty });
    assert_eq!(none.status, "unavailable");
    assert_eq!(none.errors, vec!["Level Zero initialized but returned zero device handles.".to_string()]);
    let some = Enumeration {
        driver_record_count: 1,
        device_record_count: 1,
        devices: vec![device(vec![], vec![])],
        optional_calls_attempted: 3,
        optional_calls_ok: 2,
        optional_calls_unsupported: 1,
        optional_calls_not_available: 0,
        optional_calls_error: 0,
    };
    let ok = sample_from_outcome(5, 1, LevelZeroOutcome::Enumerated { runtime: runtime(), enumeration: some });
    assert_eq!(ok.status, "ok");
    assert!(ok.errors.is_empty());
    assert_eq!(ok.optional_calls_ok, 2);
    assert_eq!(ok.dll_name.as_deref(), Some("ze_loader.dll"));
    assert!(format_probe_snapshot(&ok).contains("intel.optional_calls.error: 0\nintel.sysman.zesInit_export: ok (raw=true)\n\n[probe] device=0"));
}

#[test]
fn visible_after_first_keeps_a_first_sample_that_is_not_ok() {
    let mut calls = 0;
    let mut slept = false;
    let r = visible_after_first(sample("error", 3, Vec::new()), 3, 100, |_| {
        calls += 1;
        sample("ok", 99, Vec::new())
    }, |_| slept = true);
    assert_eq!(calls, 0);
    assert!(!slept);
    assert_eq!(r.sample_seq, 3);
    assert_eq!(r.status, "error");
}

#[test]
fn visible_after_first_takes_a_second_sample_after_an_ok_one() {
    let mut slept = Vec::new();
    let r = visible_after_first(sample("ok", 3, Vec::new()), 3, 100, |seq| sample("ok", seq + 1, Vec::new()), |ms| slept.push(ms));
    assert_eq!(slept, vec![100]);
    assert_eq!(r.sample_seq, 4);
}

#[test]
fn empty_device_name_is_not_reported_as_ok() {
    let properties = DeviceProperties {
        name: String::new(),
        device_type: 1,
        vendor_id: 0x8086,
        device_id: 0x4c8b,
        core_clock_rate: 1300,
        uuid: vec![
            0x24, 0x00, 0x00, 0x00, 0x20, 0x00, 0x00, 0x00, 0x86, 0x80, 0x8b, 0x4c, 0x04, 0x00,
            0x00, 0x00,
        ],
    };
    let device = build_device_record(0, 0, PropertiesOutcome::Read(properties), Vec::new(), Vec::new());
    let name_fact = device
        .facts
        .iter()
        .find(|fact| fact.metric_key == "device_name")
        .expect("device_name fact");

    assert_eq!(name_fact.state, "not_available");
    assert!(matches!(name_fact.raw, FactRaw::Plain(FactScalar::Null)));
    assert!(device.unavailable.contains(&"name"));

    let sample = sample("ok", 0, vec![device]);
    assert_eq!(sample_status(&sample), "ok");
    let rendered = format_snapshot(&sample);
    assert!(rendered.contains("Intel device 0 [driver=0,device=0,vendor=0x8086,device=0x4c8b]"));
    assert!(rendered.contains("Device key: driver=0,device=0,vendor=0x8086,device=0x4c8b"));
    assert!(rendered.contains("UUID: 240000002000000086808b4c04000000"));
    assert!(rendered.contains("Core clock: 1300 MHz"));
    assert!(rendered.contains("Memory: unavailable"));
    assert!(rendered.contains("Power: unavailable"));
    assert!(rendered.contains("Engine activity: unavailable"));
    assert!(rendered.contains("Frequency: unavailable"));
    assert!(rendered.contains("Temperature: unavailable"));
}

#[test]
fn device_record_without_properties_names_the_failure() {
    let sysman = vec![not_available_fact("sysman.memory.status".to_string(), "zesDeviceEnumMemoryModules", "gone".to_string())];
    let d = build_device_record(1, 2, PropertiesOutcome::Failed(-7), sysman, vec!["memory"]);
    assert_eq!(d.key, "driver=1,device=2");
    assert_eq!(d.facts.len(), 3);
    assert_eq!(d.facts[0].metric_key, "device_key");
    assert_eq!(d.facts[1].state, "error");
    assert_eq!(d.facts[1].error_message.as_deref(), Some("zeDeviceGetProperties failed for driver 1 device 2 with status -7."));
    assert_eq!(d.facts[2].metric_key, "sysman.memory.status");
    assert_eq!(d.unavailable, vec!["name", "type", "memory"]);

    let named = build_device_record(0, 1, PropertiesOutcome::Read(DeviceProperties {
        name: "Intel Arc A770".to_string(), device_type: 1, vendor_id: 0x8086, device_id: 0x56a0, core_clock_rate: 2400, uuid: vec![0; 16],
    }), Vec::new(), Vec::new());
    assert_eq!(named.key, "driver=0,device=1,vendor=0x8086,device=0x56a0");
    assert_eq!(named.facts.len(), 6);
    assert!(named.facts.iter().all(|f| f.metric_key != "uuid"));
    assert!(named.unavailable.is_empty());
    assert_eq!(fact_string(&named, "device_name"), Some("Intel Arc A770"));
}

#[test]
fn sysman_domain_head_reports_each_enumeration_outcome() {
    let (facts, unavailable, proceed) = sysman_domain_head("memory", "zesDeviceEnumMemoryModules", "memory", SysmanEnumOutcome::NotReady);
    assert_eq!(facts.len(), 2);
    assert_eq!(facts[0].metric_key, "sysman.memory.status");
    assert_eq!(facts[0].state, "not_available");
    assert_eq!(facts[1].error_message.as_deref(), Some("Intel Sysman is unavailable because zesInit did not complete successfully."));
    assert_eq!(unavailable, vec!["memory"]);
    assert!(!proceed);

    let (facts, _, _) = sysman_domain_head("power", "zesDeviceEnumPowerDomains", "power", SysmanEnumOutcome::MissingSymbol);
    assert_eq!(facts[0].error_message.as_deref(), Some("missing optional Sysman symbol zesDeviceEnumPowerDomains."));

    let (facts, _, _) = sysman_domain_head("power", "zesDeviceEnumPowerDomains", "power", SysmanEnumOutcome::CountFailed(-3));
    assert_eq!(facts[1].metric_key, "sysman.power.count");
    assert!(matches!(facts[1].raw, FactRaw::Plain(FactScalar::Signed(-3))));
    assert_eq!(facts[1].error_message.as_deref(), Some("zesDeviceEnumPowerDomains(count) failed with status -3."));

    let (facts, unavailable, proceed) = sysman_domain_head("engine", "zesDeviceEnumEngineGroups", "engine", SysmanEnumOutcome::Listed(0));
    assert_eq!(facts[0].metric_key, "sysman.engine.count");
    assert_eq!(facts[1].error_message.as_deref(), Some("zesDeviceEnumEngineGroups returned zero handles."));
    assert_eq!((unavailable.len(), proceed), (1, false));

    let (facts, _, _) = sysman_domain_head("engine", "zesDeviceEnumEngineGroups", "engine", SysmanEnumOutcome::HandlesFailed { count: 2, code: 7 });
    assert_eq!(facts[1].error_message.as_deref(), Some("zesDeviceEnumEngineGroups(handles) failed with status 7."));

    let (facts, unavailable, proceed) = sysman_domain_head("engine", "zesDeviceEnumEngineGroups", "engine", SysmanEnumOutcome::Listed(3));
    assert!(matches!(facts[0].raw, FactRaw::Plain(FactScalar::UInt(3))));
    assert_eq!(facts[1].state, "ok");
    assert!(unavailable.is_empty() && proceed);
}
