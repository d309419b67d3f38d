use wtg::cli::CliArgs;
use wtg::cli_mqtt::{
    format_ha_discovery_payload, format_state_payload, format_state_topic,
    ha_availability_online_spec, ha_prefix, ha_sensor_metrics, local_hostname, node_id,
    optional_u32_json, topic_prefix,
};
use wtg::nvml::probe_context::GpuProbeContext;
use wtg::nvml::GpuSnapshot;

fn snapshot(index: u32, name: &str) -> GpuSnapshot {
    GpuSnapshot {
        index,
        name: name.to_string(),
        uuid: "uuid".to_string(),
        mem_used_bytes: 512 * 1024 * 1024,
        mem_total_bytes: 1024 * 1024 * 1024,
        gpu_util_pct: 42,
        mem_util_pct: 7,
        temp_c: Some(55),
        power_mw: Some(12_300),
        power_limit_mw: Some(45_600),
    }
}

#[test]
fn state_topic_uses_predictable_shape() {
    assert_eq!(format_state_topic("wtg", "node-a", 2), "wtg/node-a/gpu2/state");
}

#[test]
fn ha_availability_online_publish_is_retained() {
    let spec = ha_availability_online_spec("wtg", "node-a");

    assert_eq!(spec.topic, "wtg/node-a/status");
    assert_eq!(spec.payload, b"online".to_vec());
    assert!(spec.retain);
}

#[test]
fn state_payload_has_expected_fields_and_json_escaping() {
    let snapshot = snapshot(0, "GPU \"A\"");
    let context = GpuProbeContext {
        driver_version: "580.88".to_string(),
        cuda_driver_version: "13000".to_string(),
        compute_mode: "Default".to_string(),
        perf_state: "P8".to_string(),
        pci_bus_id: "00000000:01:00.0".to_string(),
    };

    let payload = format_state_payload(
        "host",
        "node-a",
        &snapshot,
        &context,
        123,
        "1780420000.123",
        Some(format!("{:.1}", 12_300f32 / 1000.0)),
        Some(format!("{:.1}", 45_600f32 / 1000.0)),
    );

    assert!(payload.contains(&format!("\"wtg_version\":\"{}\"", "0.3.0")));
    assert!(payload.contains("\"payload_schema\":1"));
    assert!(payload.contains("\"tick_seq\":123"));
    assert!(payload.contains("\"tick_ts\":\"1780420000.123\""));
    assert!(payload.contains("\"host\":\"host\""));
    assert!(payload.contains("\"node_id\":\"node-a\""));
    assert!(payload.contains("\"gpu_index\":0"));
    assert!(payload.contains("\"gpu_name\":\"GPU \\\"A\\\"\""));
    assert!(payload.contains("\"gpu_uuid\":\"uuid\""));
    assert!(payload.contains("\"driver_version\":\"580.88\""));
    assert!(payload.contains("\"cuda_driver_version\":\"13000\""));
    assert!(payload.contains("\"compute_mode\":\"Default\""));
    assert!(payload.contains("\"perf_state\":\"P8\""));
    assert!(payload.contains("\"pci_bus_id\":\"00000000:01:00.0\""));
    assert!(payload.contains("\"temp_c\":55"));
    assert!(payload.contains("\"util_gpu_pct\":42"));
    assert!(payload.contains("\"util_mem_controller_pct\":7"));
    assert!(payload.contains("\"vram_used_mib\":512"));
    assert!(payload.contains("\"vram_total_mib\":1024"));
    assert!(payload.contains("\"power_w\":12.3"));
    assert!(payload.contains("\"power_limit_w\":45.6"));
}

#[test]
fn ha_discovery_payload_has_expected_numeric_sensor_fields() {
    let snapshot = snapshot(0, "GPU \"A\"");
    let metrics = ha_sensor_metrics();
    let metric = metrics.iter().find(|metric| metric.key == "power_w").unwrap();

    let payload = format_ha_discovery_payload(
        "node-a",
        &snapshot,
        metric,
        "wtg/node-a/gpu0/state",
        "wtg/node-a/status",
    );

    assert!(payload.contains("\"name\":\"GPU 0 Power\""));
    assert!(payload.contains("\"unique_id\":\"wtg_node-a_gpu0_power_w\""));
    assert!(payload.contains("\"state_topic\":\"wtg/node-a/gpu0/state\""));
    assert!(payload.contains("\"value_template\":\"{{ value_json.power_w }}\""));
    assert!(payload.contains("\"availability_topic\":\"wtg/node-a/status\""));
    assert!(payload.contains("\"payload_available\":\"online\""));
    assert!(payload.contains(
        "\"device\":{\"identifiers\":[\"wtg_node-a_gpu0\"],\"name\":\"WTG node-a GPU 0\""
    ));
    assert!(payload.contains("\"manufacturer\":\"WTG\""));
    assert!(payload.contains("\"model\":\"GPU \\\"A\\\"\""));
    assert!(payload.contains(&format!("\"sw_version\":\"{}\"", "0.3.0")));
    assert!(payload.contains("\"unit_of_measurement\":\"W\""));
    assert!(payload.contains("\"device_class\":\"power\""));
    assert!(payload.contains("\"state_class\":\"measurement\""));
}

#[test]
fn ha_discovery_payload_omits_numeric_metadata_for_string_sensor() {
    let snapshot = snapshot(1, "GPU B");
    let metrics = ha_sensor_metrics();
    let metric = metrics.iter().find(|metric| metric.key == "perf_state").unwrap();

    let payload = format_ha_discovery_payload(
        "node-a",
        &snapshot,
        metric,
        "wtg/node-a/gpu1/state",
        "wtg/node-a/status",
    );

    assert!(payload.contains("\"unique_id\":\"wtg_node-a_gpu1_perf_state\""));
    assert!(payload.contains("\"value_template\":\"{{ value_json.perf_state }}\""));
    assert!(!payload.contains("unit_of_measurement"));
    assert!(!payload.contains("device_class"));
    assert!(!payload.contains("state_class"));
}

#[test]
fn discovery_payload_is_exact_json() {
    let snapshot = snapshot(3, "G");
    let metrics = ha_sensor_metrics();
    let temp = metrics.iter().find(|metric| metric.key == "temp_c").unwrap();
    let payload = format_ha_discovery_payload("n", &snapshot, temp, "s", "a");
    assert_eq!(
        payload,
        "{\"name\":\"GPU 3 Temperature\",\"unique_id\":\"wtg_n_gpu3_temp_c\",\"state_topic\":\"s\",\"value_template\":\"{{ value_json.temp_c }}\",\"availability_topic\":\"a\",\"payload_available\":\"online\",\"device\":{\"identifiers\":[\"wtg_n_gpu3\"],\"name\":\"WTG n GPU 3\",\"manufacturer\":\"WTG\",\"model\":\"G\",\"sw_version\":\"0.3.0\"},\"unit_of_measurement\":\"\u{00b0}C\",\"device_class\":\"temperature\",\"state_class\":\"measurement\"}"
    );
}

#[test]
fn sensor_table_has_thirteen_sensors_in_order() {
    let keys: Vec<&str> = ha_sensor_metrics().iter().map(|m| m.key).collect();
    assert_eq!(
        keys,
        vec![
            "util_gpu_pct",
            "util_mem_controller_pct",
            "vram_used_mib",
            "vram_total_mib",
            "power_w",
            "power_limit_w",
            "temp_c",
            "driver_version",
            "cuda_driver_version",
            "compute_mode",
            "perf_state",
            "pci_bus_id",
            "wtg_version",
        ]
    );
}

#[test]
fn state_payload_writes_null_for_missing_readings() {
    let mut s = snapshot(0, "G");
    s.temp_c = None;
    s.power_mw = None;
    s.power_limit_mw = None;
    let context = GpuProbeContext::unavailable();
    let payload = format_state_payload("h", "n", &s, &context, 1, "t", None, None);
    assert!(payload.contains("\"temp_c\":null"));
    assert!(payload.contains("\"power_w\":null,\"power_limit_w\":null}"));
    assert!(payload.contains("\"driver_version\":\"N/A\""));
    assert_eq!(optional_u32_json(Some(5)), "5");
    assert_eq!(optional_u32_json(None), "null");
}

#[test]
fn prefixes_fall_back_to_defaults() {
    let args = CliArgs {
        mqtt_topic_prefix: Some("  ".to_string()),
        mqtt_node_id: Some(" node ".to_string()),
        ..CliArgs::default()
    };
    assert_eq!(topic_prefix(&args), "wtg");
    assert_eq!(node_id(&args), "node");
    assert_eq!(ha_prefix(&args), "homeassistant");
    let args = CliArgs::default();
    assert_eq!(node_id(&args), "");
}

#[test]
fn hostname_prefers_computername_even_when_blank() {
    assert_eq!(local_hostname(Some(" pc ".to_string()), Some("h".to_string())), "pc");
    assert_eq!(local_hostname(None, Some("h".to_string())), "h");
    assert_eq!(local_hostname(Some("  ".to_string()), Some("h".to_string())), "unknown");
    assert_eq!(local_hostname(None, None), "unknown");
}
