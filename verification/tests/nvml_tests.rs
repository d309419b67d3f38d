use wtg::nvml::field_values::{
    call_error_values, field_error_value, query_field_values_for_gpu, sample_value_strings,
    FieldQueryStatus, SampleReading,
};
use wtg::nvml::probe_context::{
    format_perf_state, query_probe_context_for_gpu, query_probe_context_for_gpu_with_ctx,
    DeviceProbeReadings, GpuProbeContext, PerformanceState, ProbeReadings,
};
use wtg::nvml::{
    build_snapshot_report, collect_device_snapshot, disconnected_report, snapshot_all,
    snapshot_all_with_ctx, timeout_report, DeviceReading, DeviceValues, GpuSnapshot,
    MemoryReading, NvmlProbe, UtilizationReading,
};

fn values(name: Option<&str>) -> DeviceValues {
    DeviceValues {
        name: name.map(|n| n.to_string()),
        uuid: Some("GPU-1".to_string()),
        memory: Ok(MemoryReading { used: 3 * 1024 * 1024, total: 8 * 1024 * 1024 }),
        utilization: Ok(UtilizationReading { gpu: 40, memory: 5 }),
        temp_c: Some(60),
        power_mw: Some(12_345),
        power_limit_mw: None,
    }
}

fn ok_reading(index: u32) -> DeviceReading {
    DeviceReading { index, handle: Ok(values(Some("RTX"))) }
}

fn bad_reading(index: u32) -> DeviceReading {
    DeviceReading { index, handle: Err("Unknown".to_string()) }
}

#[test]
fn device_snapshot_takes_every_reading() {
    let s = collect_device_snapshot(ok_reading(2)).unwrap();
    assert_eq!(s.index, 2);
    assert_eq!(s.name, "RTX");
    assert_eq!(s.uuid, "GPU-1");
    assert_eq!(s.mem_used_bytes, 3 * 1024 * 1024);
    assert_eq!(s.gpu_util_pct, 40);
    assert_eq!(s.temp_c, Some(60));
    assert_eq!(s.power_limit_mw, None);
}

#[test]
fn device_snapshot_falls_back_to_unknown_name() {
    let s = collect_device_snapshot(DeviceReading { index: 0, handle: Ok(values(None)) }).unwrap();
    assert_eq!(s.name, "<unknown>");
}

#[test]
fn device_snapshot_errors_name_the_call_and_index() {
    assert_eq!(collect_device_snapshot(bad_reading(3)).unwrap_err(), "device_by_index(3) failed: Unknown");
    let mut v = values(Some("x"));
    v.memory = Err("NotSupported".to_string());
    assert_eq!(
        collect_device_snapshot(DeviceReading { index: 1, handle: Ok(v) }).unwrap_err(),
        "memory_info(1) failed: NotSupported"
    );
    let mut v = values(Some("x"));
    v.utilization = Err("GpuLost".to_string());
    assert_eq!(
        collect_device_snapshot(DeviceReading { index: 1, handle: Ok(v) }).unwrap_err(),
        "utilization_rates(1) failed: GpuLost"
    );
}

#[test]
fn report_is_ok_when_one_device_works() {
    let report = build_snapshot_report(NvmlProbe::Devices(vec![bad_reading(0), ok_reading(1)]));
    assert_eq!(report.status, "ok");
    assert!(report.reason.is_none());
    assert_eq!(report.device_results.len(), 2);
    assert_eq!(report.device_results[0].index, 0);
    assert!(report.device_results[0].result.is_err());
    let ok = report.successful_snapshots();
    assert_eq!(ok.len(), 1);
    assert_eq!(ok[0].index, 1);
    let all = snapshot_all(&report).unwrap();
    assert_eq!(all.len(), 1);
}

#[test]
fn report_is_an_error_when_every_device_fails() {
    let report = build_snapshot_report(NvmlProbe::Devices(vec![bad_reading(0)]));
    assert_eq!(report.status, "error");
    assert_eq!(report.reason.as_deref(), Some("all NVIDIA device samples failed"));
    assert_eq!(snapshot_all(&report).unwrap_err(), "all NVIDIA device samples failed");
}

#[test]
fn report_is_unavailable_before_sampling() {
    let r = build_snapshot_report(NvmlProbe::InitFailed("DriverNotLoaded".to_string()));
    assert_eq!(r.status, "unavailable");
    assert_eq!(r.reason.as_deref(), Some("NVML init failed: DriverNotLoaded"));
    let r = build_snapshot_report(NvmlProbe::CountFailed("Uninitialized".to_string()));
    assert_eq!(r.reason.as_deref(), Some("NVML device_count failed: Uninitialized"));
    let r = build_snapshot_report(NvmlProbe::Devices(vec![]));
    assert_eq!(r.reason.as_deref(), Some("NVIDIA NVML returned zero devices."));
    assert!(r.device_results.is_empty());
}

#[test]
fn bounded_snapshot_reports() {
    let r = timeout_report(5000);
    assert_eq!(r.status, "unavailable");
    assert_eq!(
        r.reason.as_deref(),
        Some("NVIDIA NVML snapshot did not return within 5000ms (possible driver/service hang)")
    );
    let r = disconnected_report();
    assert_eq!(r.status, "error");
    assert_eq!(r.reason.as_deref(), Some("NVIDIA NVML snapshot worker disconnected."));
}

#[test]
fn snapshots_of_a_context() {
    assert_eq!(snapshot_all_with_ctx(vec![]).unwrap_err(), "NVIDIA NVML returned zero devices.");
    assert_eq!(snapshot_all_with_ctx(vec![bad_reading(0)]).unwrap_err(), "all NVIDIA device samples failed");
    assert_eq!(snapshot_all_with_ctx(vec![ok_reading(0), bad_reading(1), ok_reading(2)]).unwrap().len(), 2);
}

#[test]
fn snapshot_text_lines() {
    let s: GpuSnapshot = collect_device_snapshot(ok_reading(0)).unwrap();
    let text = s.snapshot_text(Some("12.3".to_string()), None);
    assert_eq!(
        text,
        "NVML device 0: RTX\n  UUID: GPU-1\n  Temp: 60 C\n  Util: 40% (gpu) 5% (mem)\n  VRAM: 3 MiB / 8 MiB\n  Power: 12.3 W\n"
    );
}

#[test]
fn probe_context_of_readings() {
    let c = query_probe_context_for_gpu_with_ctx(ProbeReadings {
        driver_version: Some("580.88".to_string()),
        cuda_driver_version: Some(13000),
        device: Some(DeviceProbeReadings {
            compute_mode: Some("Default".to_string()),
            perf_state: Some(PerformanceState::Eight),
            pci_bus_id: None,
        }),
    });
    assert_eq!(c.driver_version, "580.88");
    assert_eq!(c.cuda_driver_version, "13000");
    assert_eq!(c.compute_mode, "Default");
    assert_eq!(c.perf_state, "P8");
    assert_eq!(c.pci_bus_id, "N/A");

    let none = query_probe_context_for_gpu(None);
    assert_eq!(none.driver_version, "N/A");
    assert_eq!(none.pci_bus_id, "N/A");
    let u = GpuProbeContext::unavailable();
    assert_eq!(u.perf_state, "N/A");
    assert_eq!(format_perf_state(PerformanceState::Fifteen), "P15");
    assert_eq!(format_perf_state(PerformanceState::Unknown), "Unknown");
}

#[test]
fn field_values_follow_the_request() {
    let ids = vec![1u32, 2, 3];
    let out = query_field_values_for_gpu(
        &ids,
        Ok(vec![Ok(Ok(SampleReading::U32(7))), Err("NotSupported".to_string())]),
    );
    assert_eq!(out.len(), 3);
    assert_eq!(out[0].field_id, 1);
    assert!(matches!(out[0].query, FieldQueryStatus::Success));
    assert_eq!(out[0].value_type, "u32");
    assert_eq!(out[0].value, "7");
    assert!(matches!(&out[1].query, FieldQueryStatus::FieldError(e) if e == "NotSupported"));
    assert_eq!(out[1].value, "unavailable");
    assert!(matches!(&out[2].query, FieldQueryStatus::FieldError(e) if e == "missing field result"));

    let failed = query_field_values_for_gpu(&ids, Err("GpuLost".to_string()));
    assert_eq!(failed.len(), 3);
    assert!(failed.iter().all(|f| matches!(&f.query, FieldQueryStatus::CallError(e) if e == "GpuLost")));
    assert_eq!(call_error_values(&vec![], "x").len(), 0);
    assert_eq!(field_error_value(9, "e".to_string()).value_type, "unavailable");
    assert_eq!(sample_value_strings(SampleReading::I64(-5)), ("i64".to_string(), "-5".to_string()));
    assert_eq!(sample_value_strings(SampleReading::U64(5)), ("u64".to_string(), "5".to_string()));
    assert_eq!(
        sample_value_strings(SampleReading::F64("1.5".to_string())),
        ("f64".to_string(), "1.5".to_string())
    );
}

#[test]
fn extra_samples_are_ignored() {
    let ids = vec![4u32];
    let out = query_field_values_for_gpu(
        &ids,
        Ok(vec![Ok(Err("FieldFailed".to_string())), Ok(Ok(SampleReading::U32(1)))]),
    );
    assert_eq!(out.len(), 1);
    assert!(matches!(&out[0].query, FieldQueryStatus::FieldError(e) if e == "FieldFailed"));
}

#[test]
fn reserved_view_hook_renders_nothing() {
    let s = wtg::nvml::GpuSnapshot {
        index: 0,
        name: "GPU".to_string(),
        uuid: "GPU-0".to_string(),
        temp_c: Some(40),
        gpu_util_pct: 1,
        mem_util_pct: 2,
        mem_used_bytes: 0,
        mem_total_bytes: 0,
        power_mw: None,
        power_limit_mw: None,
    };
    assert_eq!(wtg::view::format_snapshot(&s), "");
}
