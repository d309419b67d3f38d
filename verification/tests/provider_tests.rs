use wtg::providers::amd_adl::{
    self, call_from_error, fan_metric_key, fan_unit, parse_args, physical_adapter_key,
    usage_error_message, yes_no, AdapterInfo, CliArgs, Mode, DEFAULT_INTERVAL_MS,
};
use wtg::providers::intel_level_zero::{
    self, concise_unavailable_reason, is_base_probe_fact_key, mem_health_name,
    update_engine_delta, update_power_delta, ze_device_type_name, DeltaTracker, DeltaValue,
};

fn located(vendor: i32, bus: i32, device: i32, function: i32) -> AdapterInfo {
    AdapterInfo {
        i_size: 0,
        i_adapter_index: 0,
        str_udid: String::new(),
        i_bus_number: bus,
        i_device_number: device,
        i_function_number: function,
        i_vendor_id: vendor,
        str_adapter_name: String::new(),
        str_display_name: String::new(),
        i_present: 1,
        i_exist: 1,
        str_driver_path: String::new(),
        str_driver_path_ext: String::new(),
        str_pnp_string: String::new(),
        i_os_display_index: 0,
    }
}

fn words(ws: &[&str]) -> Vec<String> {
    ws.iter().map(|w| w.to_string()).collect()
}

#[test]
fn parse_once_args() {
    let args = parse_args(&vec!["--once".to_string()]).unwrap();
    assert_eq!(args, CliArgs { mode: Mode::Once, interval_ms: DEFAULT_INTERVAL_MS });
}

#[test]
fn parse_watch_args() {
    let args = parse_args(&vec!["--watch".to_string(), "--interval-ms".to_string(), "1500".to_string()])
        .unwrap();
    assert_eq!(args, CliArgs { mode: Mode::Watch, interval_ms: 1500 });
}

#[test]
fn parse_rejects_once_with_interval() {
    let err = parse_args(&vec!["--once".to_string(), "--interval-ms".to_string(), "1500".to_string()])
        .unwrap_err();
    assert!(err.contains("--interval-ms is valid only with --watch"));
}

#[test]
fn amd_adl_provider_constants_match_contract() {
    assert_eq!(amd_adl::source(), "wtg.provider.amd.adl");
    assert_eq!(amd_adl::telemetry_class(), "provider_telemetry");
    assert_eq!(amd_adl::provider(), "amd.adl");
}

#[test]
fn fan_speed_metric_labels_match_speed_type() {
    assert_eq!(fan_metric_key(1), "overdrive5_fan_speed_percent");
    assert_eq!(fan_metric_key(2), "overdrive5_fan_speed_rpm");
    assert_eq!(fan_unit(1), Some("percent"));
    assert_eq!(fan_unit(2), Some("rpm"));
}

#[test]
fn unsupported_return_code_maps_to_unsupported_state() {
    let call = call_from_error("x", "ADL_Test", -8, "boom".to_string());
    assert_eq!(call.state, "unsupported");
}

#[test]
fn physical_adapter_key_uses_vendor_bus_device_function() {
    let info = AdapterInfo {
        i_size: 0,
        i_adapter_index: 7,
        str_udid: String::new(),
        i_bus_number: 6,
        i_device_number: 0,
        i_function_number: 0,
        i_vendor_id: 1002,
        str_adapter_name: String::new(),
        str_display_name: String::new(),
        i_present: 1,
        i_exist: 1,
        str_driver_path: String::new(),
        str_driver_path_ext: String::new(),
        str_pnp_string: String::new(),
        i_os_display_index: 0,
    };

    assert_eq!(physical_adapter_key(&info), "vendor=1002,bus=6,device=0,function=0");
}

#[test]
fn intel_level_zero_provider_constants_match_contract() {
    assert_eq!(intel_level_zero::provider_source(), "wtg.provider.intel.level_zero");
    assert_eq!(intel_level_zero::telemetry_class(), "provider_telemetry");
    assert_eq!(intel_level_zero::provider_authority(), "Intel Level Zero");
}

#[test]
fn power_delta_keeps_same_counter_value_as_idle_zero() {
    let mut tracker = DeltaTracker::new();
    let key = "driver=0,device=0,vendor=0x8086,device=0x4c8b::sysman.power_domains.0";

    let first = update_power_delta(&mut tracker, key, 1_000_000, 10_000);
    assert!(matches!(first, DeltaValue::NotAvailable(_)));

    match update_power_delta(&mut tracker, key, 1_000_000, 20_000) {
        DeltaValue::Rate { amount, elapsed } => assert_eq!(amount as f64 / elapsed as f64, 0.0),
        DeltaValue::NotAvailable(reason) => panic!("expected idle zero, got {reason}"),
    }
}

#[test]
fn engine_delta_keeps_same_counter_value_as_idle_zero() {
    let mut tracker = DeltaTracker::new();
    let key = "driver=0,device=0,vendor=0x8086,device=0x4c8b::sysman.engine_groups.0";

    let first = update_engine_delta(&mut tracker, key, 1_000, 10_000);
    assert!(matches!(first, DeltaValue::NotAvailable(_)));

    match update_engine_delta(&mut tracker, key, 1_000, 20_000) {
        DeltaValue::Rate { amount, elapsed } => assert_eq!((amount as f64 * 100.0) / elapsed as f64, 0.0),
        DeltaValue::NotAvailable(reason) => panic!("expected idle zero, got {reason}"),
    }
}

#[test]
fn engine_delta_gives_active_share() {
    let mut tracker = DeltaTracker::new();
    update_engine_delta(&mut tracker, "e", 1_000, 10_000);
    match update_engine_delta(&mut tracker, "e", 4_000, 20_000) {
        DeltaValue::Rate { amount, elapsed } => {
            assert_eq!((amount, elapsed), (3_000, 10_000));
            assert_eq!((amount as f64 * 100.0) / elapsed as f64, 30.0);
        }
        DeltaValue::NotAvailable(reason) => panic!("expected a delta, got {reason}"),
    }
}

#[test]
fn deltas_are_kept_per_counter() {
    let mut tracker = DeltaTracker::new();
    update_power_delta(&mut tracker, "a", 10, 1);
    update_power_delta(&mut tracker, "b", 500, 1);
    match update_power_delta(&mut tracker, "a", 30, 3) {
        DeltaValue::Rate { amount, elapsed } => assert_eq!((amount, elapsed), (20, 2)),
        DeltaValue::NotAvailable(reason) => panic!("expected a delta, got {reason}"),
    }
    tracker.clear();
    assert!(matches!(update_power_delta(&mut tracker, "a", 40, 4), DeltaValue::NotAvailable(_)));
}

#[test]
fn amd_parse_errors() {
    assert_eq!(parse_args(&words(&[])).unwrap_err(), "one of --once or --watch is required");
    assert_eq!(
        parse_args(&words(&["--once", "--watch"])).unwrap_err(),
        "choose only one of --once or --watch"
    );
    assert_eq!(parse_args(&words(&["--watch", "--interval-ms"])).unwrap_err(), "--interval-ms requires a value");
    assert_eq!(
        parse_args(&words(&["--watch", "--interval-ms", "x"])).unwrap_err(),
        "--interval-ms must be an integer. Got: x"
    );
    assert_eq!(parse_args(&words(&["-h"])).unwrap_err(), "help requested");
    assert_eq!(parse_args(&words(&["--nope"])).unwrap_err(), "unknown argument: --nope");
    assert_eq!(
        usage_error_message("help requested"),
        "WTG AMD ADL provider usage error: help requested"
    );
}

#[test]
fn amd_small_names() {
    assert_eq!(fan_metric_key(9), "overdrive5_fan_speed_unknown");
    assert_eq!(fan_unit(9), None);
    assert_eq!(yes_no(true), "yes");
    assert_eq!(yes_no(false), "no");
    let call = call_from_error("x", "ADL_Test", -1, "boom".to_string());
    assert_eq!(call.state, "error");
    assert_eq!(call.adl_return_code, Some(-1));
    assert_eq!(call.error_message.as_deref(), Some("boom"));
    assert_eq!(
        physical_adapter_key(&located(-1, 1, 2, 3)),
        "vendor=-1,bus=1,device=2,function=3"
    );
    assert_eq!(amd_adl::provider_authority(), "AMD ADL");
}

#[test]
fn intel_names() {
    assert_eq!(mem_health_name(1), Some("ok"));
    assert_eq!(mem_health_name(4), Some("replace"));
    assert_eq!(mem_health_name(5), None);
    assert_eq!(ze_device_type_name(1), "gpu");
    assert_eq!(ze_device_type_name(0), "unknown");
    assert!(is_base_probe_fact_key("uuid"));
    assert!(!is_base_probe_fact_key("power"));
    assert_eq!(intel_level_zero::stats_schema(), "wtg.intel_level_zero.stats.v3");
    assert_eq!(intel_level_zero::provider(), "intel");
}

#[test]
fn concise_reasons() {
    assert_eq!(concise_unavailable_reason(" zesDeviceEnumFans returned zero handles. "), "zero handles");
    assert_eq!(
        concise_unavailable_reason("missing optional Sysman symbol zesFoo."),
        "missing optional symbol"
    );
    assert_eq!(
        concise_unavailable_reason("Intel Sysman is unavailable because zesInit did not complete successfully."),
        "Sysman unavailable"
    );
    assert_eq!(concise_unavailable_reason("  other problem... "), "other problem");
}

#[test]
fn a_counter_delta_ignores_readings_of_other_counters() {
    let mut tracker = DeltaTracker::new();
    assert!(matches!(update_engine_delta(&mut tracker, "engine:0", 1_000, 10_000), DeltaValue::NotAvailable(_)));
    assert!(matches!(update_power_delta(&mut tracker, "power:0", 5, 15_000), DeltaValue::NotAvailable(_)));
    assert!(matches!(update_power_delta(&mut tracker, "power:0", 9, 16_000), DeltaValue::Rate { amount: 4, elapsed: 1_000 }));
    match update_engine_delta(&mut tracker, "engine:0", 4_000, 20_000) {
        DeltaValue::Rate { amount, elapsed } => {
            assert_eq!((amount, elapsed), (3_000, 10_000));
            assert_eq!(amount as f64 * 100.0 / elapsed as f64, 30.0);
        }
        DeltaValue::NotAvailable(reason) => panic!("no delta: {reason}"),
    }
}
