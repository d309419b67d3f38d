use wtg::providers::amd_adlx::{
    self, sample_from_outcome, AdlxOutcome, adlx_result_name, classify_status, error_sample, fact_error, fact_not_available, fact_ok,
    fact_unsupported, format_probe_snapshot, format_snapshot, format_watch_sample, metric_i32,
    no_metrics_reason, primary_reason, render_metric, sample_status, snapshot_status_label,
    unavailable_sample, AdlxGpuRecord, MetricDisplay, MetricFact, MetricRaw, ProviderSample,
    gpu_record, AdlxGpuIdentity, GpuMetricReadings, GpuMetricsOutcome, MetricReading,
};

fn number(json: &str, whole: Option<i64>, one: &str, two: &str) -> MetricRaw {
    MetricRaw::Number {
        json: json.to_string(),
        whole,
        one_decimal: one.to_string(),
        two_decimals: two.to_string(),
    }
}

fn sample(status: &'static str, gpus: Vec<AdlxGpuRecord>, errors: Vec<String>) -> ProviderSample {
    ProviderSample {
        wtg_version: "0.3.0",
        source: amd_adlx::provider_source(),
        telemetry_class: amd_adlx::telemetry_class(),
        provider: amd_adlx::provider(),
        provider_authority: amd_adlx::provider_authority(),
        status,
        sample_seq: 0,
        timestamp_unix_ms: 0,
        probe_attempted: true,
        dll_name: None,
        dll_path: None,
        runtime_dll_state: "not found",
        runtime_version: None,
        init_state: "not attempted",
        adlx_initialized: false,
        devices_returned: None,
        gpus,
        errors,
    }
}

fn gpu(metrics: Vec<MetricFact>, errors: Vec<String>) -> AdlxGpuRecord {
    AdlxGpuRecord {
        gpu_index: 0,
        adapter_name: Some("AMD Radeon(TM) Graphics".to_string()),
        vendor_id: Some("1002".to_string()),
        device_id: Some("1638".to_string()),
        unique_id: Some(7),
        total_vram_mb: Some(512),
        driver_path: None,
        pnp_string: None,
        metrics,
        errors,
    }
}

fn ok_sample() -> ProviderSample {
    let mut s = sample(
        "ok",
        vec![gpu(
            vec![
                MetricFact {
                    key: "gpu_activity_pct",
                    source_api: "IADLXGPUMetrics::GPUUsage",
                    state: "ok",
                    raw: number("42.5", None, "42.5", "42.50"),
                    unit: Some("percent"),
                    error_message: None,
                },
                MetricFact {
                    key: "gpu_vram_used_mb",
                    source_api: "IADLXGPUMetrics::GPUVRAM",
                    state: "ok",
                    raw: number("128", Some(128), "128.0", "128.00"),
                    unit: Some("MiB"),
                    error_message: None,
                },
            ],
            Vec::new(),
        )],
        Vec::new(),
    );
    s.dll_name = Some("amdadlx64.dll".to_string());
    s.dll_path = Some("C:\\Windows\\System32\\amdadlx64.dll".to_string());
    s.runtime_dll_state = "found";
    s.runtime_version = Some("1.5.0".to_string());
    s.init_state = "succeeded";
    s.adlx_initialized = true;
    s.devices_returned = Some(1);
    s
}

#[test]
fn unavailable_snapshot_uses_provider_status_block() {
    let sample = sample("unavailable", Vec::new(), vec!["ADLX runtime not present".to_string()]);

    let rendered = format_snapshot(&sample);
    assert!(rendered.contains("ADLX Provider:"));
    assert!(rendered.contains("Probe attempted: yes"));
    assert!(rendered.contains("Runtime/DLL: not found"));
    assert!(rendered.contains("Init: not attempted"));
    assert!(rendered.contains("Status: unavailable"));
    assert!(rendered.contains("ADLX runtime not present"));
    assert_eq!(sample_status(&sample), "unavailable");
}

#[test]
fn ok_snapshot_renders_gpu_activity_without_fake_unavailable_lines() {
    let sample = ok_sample();

    let rendered = format_snapshot(&sample);
    assert!(rendered.contains("ADLX Provider:"));
    assert!(rendered.contains("Status: available"));
    assert!(rendered.contains("Runtime/DLL: found"));
    assert!(rendered.contains("Init: succeeded"));
    assert!(rendered.contains("Devices returned: 1"));
    assert!(rendered.contains("AMD ADLX device 0: AMD Radeon(TM) Graphics"));
    assert!(rendered.contains("GPU activity: 42.50%"));
    assert!(rendered.contains("Memory: 128 MiB / 512 MiB"));
}

#[test]
fn adlx_snapshot_block_is_exact() {
    let rendered = format_snapshot(&ok_sample());
    assert_eq!(
        rendered,
        "ADLX Provider:\n  Probe attempted: yes\n  Status: available\n  Runtime/DLL: found\n  Init: succeeded\n  Devices returned: 1\n\nAMD ADLX device 0: AMD Radeon(TM) Graphics\n  Unique ID: 7\n  PCI IDs: vendor=1002, device=1638\n  Runtime: initialized (1.5.0)\n  Memory: 128 MiB / 512 MiB\n  GPU activity: 42.50%"
    );
    let unavailable = sample("unavailable", Vec::new(), vec!["gone".to_string()]);
    assert_eq!(
        format_snapshot(&unavailable),
        "ADLX Provider:\n  Probe attempted: yes\n  Status: unavailable\n  Runtime/DLL: not found\n  Init: not attempted\n  Devices returned: unknown\n  Reason: gone"
    );
    let mut empty_ok = ok_sample();
    empty_ok.gpus = Vec::new();
    assert!(format_snapshot(&empty_ok).ends_with("  Devices returned: 1\n  Reason: provider returned no additional details"));
}

#[test]
fn adlx_metric_lines_follow_state() {
    let metrics = vec![
        fact_ok("gpu_clock_mhz", "IADLXGPUMetrics::GPUClockSpeed", number("1800", Some(1800), "1800.0", "1800.00"), Some("MHz")),
        fact_not_available("memory_clock_mhz", "IADLXGPUMetrics::GPUVRAMClockSpeed", Some("MHz"), "no reading".to_string()),
        fact_error("gpu_temperature_c", "IADLXGPUMetrics::GPUTemperature", Some("C"), "call failed".to_string()),
        fact_unsupported("gpu_power_w", "IADLXGPUMetrics::GPUPower", Some("W")),
        fact_ok("gpu_fan_speed_rpm", "IADLXGPUMetrics::GPUFanSpeed", MetricRaw::Null, Some("rpm")),
    ];
    let mut g = gpu(metrics, vec!["late failure".to_string()]);
    g.total_vram_mb = Some(4096);
    g.vendor_id = None;
    let s = sample("ok", vec![g], Vec::new());
    let rendered = format_watch_sample(&s);
    assert_eq!(
        rendered,
        "sample_seq: 0\n\nAMD ADLX device 0: AMD Radeon(TM) Graphics\n  Unique ID: 7\n  Runtime: initialized (version unavailable)\n  Total VRAM: 4096 MiB\n  GPU/core clock: 1800MHz\n  Memory clock: unavailable, no reading\n  GPU temperature: unavailable, call failed\n  Metrics: unavailable, late failure"
    );
    let failed = sample("error", Vec::new(), vec!["boom".to_string()]);
    assert_eq!(format_watch_sample(&failed), "sample_seq: 0\nProvider status: error\nReason: boom");
}

#[test]
fn adlx_render_and_lookup() {
    let m = fact_ok("gpu_temperature_c", "api", number("61.25", None, "61.2", "61.25"), Some("C"));
    assert_eq!(render_metric(&m, &MetricDisplay::Float1(" C")), Some("61.2 C".to_string()));
    assert_eq!(render_metric(&m, &MetricDisplay::Float2("%")), Some("61.25%".to_string()));
    assert_eq!(render_metric(&m, &MetricDisplay::Int(" RPM")), None);
    let n = fact_ok("gpu_vram_used_mb", "api", number("-3", Some(-3), "-3.0", "-3.00"), None);
    assert_eq!(render_metric(&n, &MetricDisplay::Int(" MiB")), Some("-3 MiB".to_string()));
    let skipped = fact_not_available("gpu_vram_used_mb", "api", None, "x".to_string());
    let g = gpu(vec![skipped, n], Vec::new());
    assert_eq!(metric_i32(&g, "gpu_vram_used_mb"), Some(-3));
    assert_eq!(metric_i32(&g, "gpu_power_w"), None);
}

#[test]
fn adlx_probe_block_lists_metrics() {
    let mut s = ok_sample();
    s.errors = vec!["outer".to_string()];
    s.gpus[0].metrics[0].error_message = Some("flaky".to_string());
    s.gpus[0].errors = vec!["inner".to_string()];
    let probe = format_probe_snapshot(&s);
    assert_eq!(
        probe,
        "[probe] provider=amd_adlx\nwtg.version: 0.3.0\nprovider.authority: AMD ADLX\nprovider.source: wtg.provider.amd.adlx\ntelemetry.class: provider_telemetry\nprovider.status: ok\nadlx.probe_attempted: true\nadlx.dll_name: amdadlx64.dll\nadlx.dll_path: C:\\Windows\\System32\\amdadlx64.dll\nadlx.runtime_dll_state: found\nadlx.runtime_version: 1.5.0\nadlx.init_state: succeeded\nadlx.initialized: true\nadlx.gpu_count: 1\n\n[probe] amd_adlx_gpu=0\ngpu.name: AMD Radeon(TM) Graphics\ngpu.vendor_id: 1002\ngpu.device_id: 1638\ngpu.unique_id: 7\ngpu.total_vram_mb: 512\ngpu_activity_pct.state: ok\ngpu_activity_pct.source_api: IADLXGPUMetrics::GPUUsage\ngpu_activity_pct.raw: 42.5\ngpu_activity_pct.unit: percent\ngpu_activity_pct.error: flaky\ngpu_vram_used_mb.state: ok\ngpu_vram_used_mb.source_api: IADLXGPUMetrics::GPUVRAM\ngpu_vram_used_mb.raw: 128\ngpu_vram_used_mb.unit: MiB\ngpu.error: inner\nprovider.error: outer"
    );
}

#[test]
fn adlx_names_and_status() {
    assert_eq!(amd_adlx::provider_source(), "wtg.provider.amd.adlx");
    assert_eq!(amd_adlx::telemetry_class(), "provider_telemetry");
    assert_eq!(adlx_result_name(0), "ADLX_OK");
    assert_eq!(adlx_result_name(12), "ADLX_NOT_SUPPORTED");
    assert_eq!(adlx_result_name(99), "ADLX_UNKNOWN_RESULT");
    assert_eq!(snapshot_status_label(&ok_sample()), "available");
    assert_eq!(snapshot_status_label(&sample("error", Vec::new(), Vec::new())), "unavailable");

    let quiet = gpu(vec![fact_unsupported("gpu_power_w", "api", None)], vec![]);
    let failing = gpu(vec![], vec!["boom".to_string()]);
    let working = gpu(vec![fact_ok("gpu_power_w", "api", MetricRaw::Null, None)], vec![]);
    assert_eq!(classify_status(&[]), "unavailable");
    assert_eq!(no_metrics_reason(&[]), "ADLX did not expose any requested metrics for the detected AMD GPUs.");
    let gpus = vec![quiet, failing];
    assert_eq!(classify_status(&gpus), "error");
    assert_eq!(no_metrics_reason(&gpus), "boom");
    let mut s = sample("error", gpus, Vec::new());
    assert_eq!(primary_reason(&s), "boom");
    s.errors = vec!["first".to_string()];
    assert_eq!(primary_reason(&s), "first");
    assert_eq!(primary_reason(&sample("ok", Vec::new(), Vec::new())), "provider returned no additional details");
    assert_eq!(classify_status(&[working]), "ok");
}

#[test]
fn adlx_failed_samples_carry_one_reason() {
    let u = unavailable_sample(3, 9, false, None, None, "not found", None, "not attempted", None, "missing".to_string());
    assert_eq!(u.status, "unavailable");
    assert_eq!(u.errors, vec!["missing".to_string()]);
    assert_eq!(u.sample_seq, 3);
    assert_eq!(u.wtg_version, "0.3.0");
    assert!(u.gpus.is_empty());
    assert!(!u.adlx_initialized);
    let e = error_sample(4, 10, true, Some("a.dll".to_string()), None, "found", Some("1.0".to_string()), "failed", Some(2), "init".to_string());
    assert_eq!(e.status, "error");
    assert_eq!(e.devices_returned, Some(2));
    assert_eq!(e.errors, vec!["init".to_string()]);
    assert_eq!(e.provider, "amd.adlx");
}

#[test]
fn adlx_metric_facts_follow_support_and_read() {
    let failed = amd_adlx::support_fact("gpu_power_w", "IADLXGPUMetricsSupport::IsSupportedGPUPower", Some("W"), 3, false).unwrap();
    assert_eq!(failed.state, "error");
    assert_eq!(failed.error_message.as_deref(), Some("support check failed: ADLX_FAIL"));
    let unsupported = amd_adlx::support_fact("gpu_power_w", "api", Some("W"), 0, false).unwrap();
    assert_eq!(unsupported.state, "unsupported");
    assert!(unsupported.error_message.is_none());
    assert!(amd_adlx::support_fact("gpu_power_w", "api", Some("W"), 0, true).is_none());
    let read_failed = amd_adlx::read_fact("gpu_power_w", "api", Some("W"), 12, MetricRaw::Null);
    assert_eq!(read_failed.state, "not_available");
    assert_eq!(read_failed.error_message.as_deref(), Some("metric read failed: ADLX_NOT_SUPPORTED"));
    let read = amd_adlx::read_fact("gpu_power_w", "api", Some("W"), 0, number("35.5", None, "35.5", "35.50"));
    assert_eq!(read.state, "ok");
    assert_eq!(render_metric(&read, &MetricDisplay::Float1(" W")), Some("35.5 W".to_string()));
}

#[test]
fn adlx_sample_follows_outcome() {
    let missing = sample_from_outcome(1, 5, AdlxOutcome::LoadFailed("AMD ADLX DLL not found via amdadlx64.dll. Install Radeon Software with ADLX runtime support.".to_string()));
    assert_eq!(missing.status, "unavailable");
    assert_eq!(missing.runtime_dll_state, "not found");
    assert_eq!(missing.init_state, "not attempted");
    assert!(missing.dll_name.is_none());
    let rendered = format_snapshot(&missing);
    assert!(rendered.contains("Runtime/DLL: not found"));
    assert!(rendered.contains("Reason: AMD ADLX DLL not found via amdadlx64.dll."));

    let init = sample_from_outcome(0, 0, AdlxOutcome::InitFailed { dll_path: "C:\\x".to_string(), runtime_version: Some("1.2".to_string()), init_api: "ADLXInitialize2", code: 8 });
    assert_eq!(init.status, "unavailable");
    assert_eq!(init.errors, vec!["ADLXInitialize2 failed: ADLX_ADL_INIT_ERROR".to_string()]);
    assert_eq!(init.dll_name.as_deref(), Some("amdadlx64.dll"));
    assert_eq!(init.init_state, "failed");
    let null = sample_from_outcome(0, 0, AdlxOutcome::NullSystem { dll_path: "p".to_string(), runtime_version: None, init_api: "ADLXInitialize" });
    assert_eq!(null.status, "error");
    assert_eq!(null.errors, vec!["ADLXInitialize returned a null system interface.".to_string()]);
    let gpus_failed = sample_from_outcome(0, 0, AdlxOutcome::GetGpusFailed { dll_path: "p".to_string(), runtime_version: None, code: 3 });
    assert_eq!(gpus_failed.errors, vec!["IADLXSystem::GetGPUs failed: ADLX_FAIL".to_string()]);
    assert_eq!(gpus_failed.init_state, "succeeded");
    let list = sample_from_outcome(0, 0, AdlxOutcome::NullGpuList { dll_path: "p".to_string(), runtime_version: None });
    assert_eq!(list.errors, vec!["ADLX returned a null GPU list.".to_string()]);
    let perf = sample_from_outcome(0, 0, AdlxOutcome::PerfServicesFailed { dll_path: "p".to_string(), runtime_version: None, code: 99 });
    assert_eq!(perf.errors, vec!["IADLXSystem::GetPerformanceMonitoringServices failed: ADLX_UNKNOWN_RESULT".to_string()]);
    let zero = sample_from_outcome(0, 0, AdlxOutcome::Gpus { dll_path: "p".to_string(), runtime_version: None, gpus: Vec::new() });
    assert_eq!(zero.devices_returned, Some(0));
    assert_eq!(zero.errors, vec!["ADLX returned zero AMD GPUs.".to_string()]);

    let quiet = gpu(vec![fact_unsupported("gpu_power_w", "api", None)], vec!["no sensors".to_string()]);
    let failing = sample_from_outcome(2, 3, AdlxOutcome::Gpus { dll_path: "p".to_string(), runtime_version: Some("1.5.0".to_string()), gpus: vec![quiet] });
    assert_eq!(failing.status, "error");
    assert_eq!(failing.errors, vec!["no sensors".to_string()]);
    assert!(failing.adlx_initialized);
    assert_eq!(failing.devices_returned, Some(1));
    let ok = sample_from_outcome(2, 3, AdlxOutcome::Gpus { dll_path: "p".to_string(), runtime_version: None, gpus: ok_sample().gpus });
    assert_eq!(ok.status, "ok");
    assert!(ok.errors.is_empty());
    assert_eq!(sample_status(&ok), "ok");
}

fn identity() -> AdlxGpuIdentity {
    AdlxGpuIdentity {
        adapter_name: Some("AMD Radeon RX 7900 XTX".to_string()),
        vendor_id: Some("1002".to_string()),
        device_id: Some("744C".to_string()),
        unique_id: Some(7),
        total_vram_mb: Some(24560),
        driver_path: None,
        pnp_string: None,
    }
}

fn reading(support_result: i32, supported: bool, read_result: i32, value: MetricRaw) -> MetricReading {
    MetricReading { support_result, supported, read_result, value }
}

#[test]
fn gpu_record_reads_each_metric_by_its_support() {
    let readings = GpuMetricReadings {
        usage: reading(0, true, 0, number("37.0", Some(37), "37.0", "37.00")),
        clock: reading(0, true, 0, number("2450", Some(2450), "2450.0", "2450.00")),
        vram_clock: reading(0, false, 0, MetricRaw::Null),
        temperature: reading(0, true, 2, MetricRaw::Null),
        power: reading(1, false, 0, MetricRaw::Null),
        board_power: reading(0, true, 0, number("301.5", None, "301.5", "301.50")),
        fan_speed: reading(0, true, 0, number("1200", Some(1200), "1200.0", "1200.00")),
        vram: reading(0, true, 0, number("8192", Some(8192), "8192.0", "8192.00")),
    };
    let r = gpu_record(0, identity(), GpuMetricsOutcome::Read(readings));
    assert!(r.errors.is_empty());
    let keys: Vec<&str> = r.metrics.iter().map(|m| m.key).collect();
    assert_eq!(keys, vec!["gpu_activity_pct", "gpu_clock_mhz", "memory_clock_mhz", "gpu_temperature_c", "gpu_power_w", "gpu_total_board_power_w", "gpu_fan_speed_rpm", "gpu_vram_used_mb"]);
    assert_eq!(r.metrics[0].state, "ok");
    assert_eq!(r.metrics[0].unit, Some("percent"));
    assert_eq!(r.metrics[2].state, "unsupported");
    assert_eq!(r.metrics[3].state, "not_available");
    assert_eq!(r.metrics[3].error_message.as_deref(), Some(format!("metric read failed: {}", adlx_result_name(2)).as_str()));
    assert_eq!(r.metrics[4].state, "error");
    assert_eq!(r.metrics[4].error_message.as_deref(), Some(format!("support check failed: {}", adlx_result_name(1)).as_str()));
    assert_eq!(metric_i32(&r, "gpu_fan_speed_rpm"), Some(1200));
    assert_eq!(r.adapter_name.as_deref(), Some("AMD Radeon RX 7900 XTX"));
}

#[test]
fn gpu_record_keeps_the_failed_query() {
    let r = gpu_record(1, identity(), GpuMetricsOutcome::SupportQueryFailed(4));
    assert!(r.metrics.is_empty());
    assert_eq!(r.errors, vec![format!("GetSupportedGPUMetrics failed: {}", adlx_result_name(4))]);
    let r = gpu_record(1, identity(), GpuMetricsOutcome::MetricsQueryFailed(2));
    assert_eq!(r.errors, vec![format!("GetCurrentGPUMetrics failed: {}", adlx_result_name(2))]);
    assert_eq!(r.gpu_index, 1);
}
