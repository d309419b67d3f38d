use wtg::cli::{ProviderKind, SinkKind};
use wtg::exit_code::{exit_code_for_status, snapshot_failure_status};
use wtg::json::json_escape;
use wtg::nvml::field_values::{FieldQueryStatus, NvmlFieldValue};
use wtg::nvml::probe_context::GpuProbeContext;
use wtg::nvml::{build_snapshot_report, DeviceReading, GpuSnapshot, NvmlProbe};
use wtg::probe::{
    field_query_and_status, format_field_value, format_probe_csv_header, format_probe_csv_row,
    format_probe_fields_csv_row, format_probe_fields_snapshot, format_probe_record, ProbeRecord,
};
use wtg::sink::{csv_escape_field, format_csv_row, jsonl_records, sink_filename, timestamp_text};
use wtg::stats::{
    aggregate_provider_status, bytes_to_mib, format_failed_device_blocks, format_snapshot_csv_header,
    format_snapshot_csv_row, format_stats_block, format_stats_csv_header, format_stats_csv_row,
    format_stats_schema_header, mode_header, optional_u32_string, provider_display_name,
    provider_status_block, version_line,
};
use wtg::ui_form::{
    cleanup_error_status, connection_error_status,
    direct_password, env_password,
    clamped_selection, DeviceView, MqttStatus, MqttStatusKind,
    format_power, format_refresh_age, format_refresh_label, format_temperature,
    mqtt_settings_from_config, normalized_config_path, shell_quote, MqttFormState,
};
use wtg::config::{HomeAssistantConfig, MqttConfig, WtgConfig};

fn snap() -> GpuSnapshot {
    GpuSnapshot {
        index: 1,
        name: "RTX, \"Pro\"".to_string(),
        uuid: "GPU-1".to_string(),
        mem_used_bytes: 2 * 1024 * 1024 + 5,
        mem_total_bytes: 4 * 1024 * 1024,
        gpu_util_pct: 9,
        mem_util_pct: 8,
        temp_c: None,
        power_mw: Some(1500),
        power_limit_mw: Some(2000),
    }
}

fn context() -> GpuProbeContext {
    GpuProbeContext {
        driver_version: "580.88".to_string(),
        cuda_driver_version: "13000".to_string(),
        compute_mode: "Default".to_string(),
        perf_state: "P8".to_string(),
        pci_bus_id: "00:01".to_string(),
    }
}

#[test]
fn exit_codes_follow_status() {
    assert_eq!(exit_code_for_status("ok"), 0);
    assert_eq!(exit_code_for_status("unavailable"), 2);
    assert_eq!(exit_code_for_status("error"), 3);
    assert_eq!(exit_code_for_status("other"), 5);
}

#[test]
fn aggregate_status_rules() {
    assert_eq!(aggregate_provider_status("ok", "error"), "ok");
    assert_eq!(aggregate_provider_status("unavailable", "ok"), "ok");
    assert_eq!(aggregate_provider_status("unavailable", "error"), "error");
    assert_eq!(aggregate_provider_status("unavailable", "unavailable"), "unavailable");
    assert_eq!(aggregate_provider_status("unavailable", "weird"), "error");
    assert_eq!(
        aggregate_provider_status("error", "unavailable"),
        aggregate_provider_status("unavailable", "error")
    );
}

#[test]
fn headers_and_names() {
    assert_eq!(format_stats_schema_header(), "stats.schema: 0\n\n");
    assert_eq!(version_line(), "WTG - WhatTheGPU v0.3.0");
    assert_eq!(provider_display_name(None), "NVIDIA NVML");
    assert_eq!(provider_display_name(Some(ProviderKind::Amd)), "AMD ADL");
    assert_eq!(provider_display_name(Some(ProviderKind::Intel)), "Intel Level Zero");
    assert_eq!(mode_header("watch", None, Some(1000)), "WTG watch mode (provider: NVIDIA NVML) - interval 1000 ms");
    assert_eq!(mode_header("snapshot", Some(ProviderKind::Amd), None), "WTG snapshot mode (provider: AMD ADL)");
    assert_eq!(provider_status_block("error", "boom"), "Provider status: error\nReason: boom\n");
    assert_eq!(bytes_to_mib(3 * 1024 * 1024 - 1), 2);
    assert_eq!(optional_u32_string(None), "N/A");
}

#[test]
fn stats_block_lines() {
    let block = format_stats_block(&snap(), Some("1.5".to_string()), Some("2.0".to_string()));
    assert_eq!(
        block,
        "[stats] gpu=1\ngpu.index: 1\ngpu.name: RTX, \"Pro\"\ngpu.uuid: GPU-1\ntemp.c: N/A\nutil.gpu_pct: 9\nutil.mem_controller_pct: 8\nvram.used_mib: 2\nvram.total_mib: 4\npower.w: 1.5\npower.limit_w: 2.0\n\n"
    );
}

#[test]
fn csv_rows_escape_and_order_fields() {
    assert!(format_snapshot_csv_header().starts_with("wtg_version,tick_seq,tick_ts,gpu_index"));
    assert!(format_stats_csv_header().starts_with("wtg_version,stats_schema,tick_seq"));
    let row = format_snapshot_csv_row(&snap(), 4, "1.002", Some("1.5".to_string()), Some("2.0".to_string()));
    assert_eq!(row, "0.3.0,4,1.002,1,\"RTX, \"\"Pro\"\"\",GPU-1,N/A,9,8,2,4,1.5,2.0");
    let row = format_stats_csv_row(&snap(), 4, "1.002", Some("1.5".to_string()), Some("2.0".to_string()));
    assert_eq!(row, "0.3.0,0,4,1.002,1,\"RTX, \"\"Pro\"\"\",GPU-1,N/A,9,8,2,4,1.5,2.0");
}

#[test]
fn csv_escaping() {
    assert_eq!(csv_escape_field("plain"), "plain");
    assert_eq!(csv_escape_field("a,b"), "\"a,b\"");
    assert_eq!(csv_escape_field("say \"hi\""), "\"say \"\"hi\"\"\"");
    assert_eq!(csv_escape_field("line\nbreak"), "\"line\nbreak\"");
    assert_eq!(format_csv_row(&vec![]), "");
    assert_eq!(format_csv_row(&vec!["a".to_string(), "b,c".to_string()]), "a,\"b,c\"");
}

#[test]
fn jsonl_records_mirror_lines() {
    let records = jsonl_records("one\r\n\"two\"\n\nlast");
    assert_eq!(
        records,
        vec![
            "{\"line\":\"one\"}".to_string(),
            "{\"line\":\"\\\"two\\\"\"}".to_string(),
            "{\"line\":\"\"}".to_string(),
            "{\"line\":\"last\"}".to_string(),
        ]
    );
    assert!(jsonl_records("").is_empty());
    assert_eq!(jsonl_records("a\n").len(), 1);
}

#[test]
fn sink_file_names_and_timestamps() {
    assert_eq!(timestamp_text(1707101234, 7), "1707101234.007");
    assert_eq!(timestamp_text(5, 567), "5.567");
    assert_eq!(sink_filename(SinkKind::Csv, "1707101234.567"), "wtg_sink_1707101234_567.csv");
    assert_eq!(sink_filename(SinkKind::Jsonl, "N/A"), "wtg_sink_N/A.jsonl");
}

#[test]
fn json_escaping_of_controls() {
    assert_eq!(json_escape("a\u{1}b\t"), "a\\u0001b\\t");
}

#[test]
fn probe_output() {
    let record = ProbeRecord::from_snapshot(&snap(), None, Some("2.0".to_string()));
    assert_eq!(
        format_probe_record(&record),
        "[probe] gpu=1\ngpu.index: 1\ngpu.name: RTX, \"Pro\"\ngpu.uuid: GPU-1\ntemp.c: N/A\nutil.gpu_pct: 9\nutil.mem_controller_pct: 8\nvram.used_mib: 2\nvram.total_mib: 4\npower.w: N/A\npower.limit_w: 2.0\n\n"
    );
    assert!(format_probe_csv_header().starts_with("gpu_index,"));
    assert_eq!(format_probe_csv_row(&record), "1,\"RTX, \"\"Pro\"\"\",GPU-1,N/A,9,8,2,4,N/A,2.0");
}

#[test]
fn probe_fields_output() {
    let text = format_probe_fields_snapshot(&snap(), &context());
    assert!(text.starts_with("[probe-fields] gpu=1\nwtg.version: 0.3.0\ngpu.index: 1\n"));
    assert!(text.contains("gpu.perf_state: P8\n"));
    assert!(text.ends_with("vram.total_mib: 4\n\n"));

    let field = NvmlFieldValue {
        field_id: 12,
        query: FieldQueryStatus::CallError("GpuLost".to_string()),
        value_type: "unavailable".to_string(),
        value: "unavailable".to_string(),
    };
    assert_eq!(field_query_and_status(&field), ("call_error", "GpuLost"));
    assert_eq!(
        format_field_value(0, &field),
        "[field] gpu=0 field.id=12\nfield.query: call_error\nfield.status: GpuLost\nfield.type: unavailable\nfield.value: unavailable\n\n"
    );
    let row = format_probe_fields_csv_row(&snap(), &context(), &field);
    assert!(row.ends_with(",12,call_error,GpuLost,unavailable,unavailable"));
}

#[test]
fn failed_device_blocks() {
    let report = build_snapshot_report(NvmlProbe::Devices(vec![DeviceReading {
        index: 3,
        handle: Err("GpuLost".to_string()),
    }]));
    assert_eq!(
        format_failed_device_blocks(&report),
        "\nNVML device 3: unavailable\n  Reason: device_by_index(3) failed: GpuLost\n"
    );
}

#[test]
fn form_defaults_and_preview() {
    let mut form = MqttFormState::default();
    assert_eq!(form.config_path, "wtg.toml");
    assert_eq!(form.port, "1883");
    assert_eq!(form.topic_prefix, "wtg");
    assert_eq!(form.cli_preview(), "wtg.exe --watch --sink mqtt");

    let config = WtgConfig {
        mqtt: Some(MqttConfig {
            enabled: Some(true),
            host: Some(" broker ".to_string()),
            port: Some(1884),
            username: Some("user".to_string()),
            password: None,
            password_env: Some("PW VAR".to_string()),
            topic_prefix: None,
            node_id: Some("bench".to_string()),
            home_assistant: Some(HomeAssistantConfig {
                discovery: Some(true),
                discovery_prefix: Some("ha".to_string()),
                retain_discovery: Some(true),
            }),
        }),
    };
    let loaded = mqtt_settings_from_config(&config);
    assert_eq!(loaded.host, "broker");
    assert_eq!(loaded.port, "1884");
    assert_eq!(loaded.topic_prefix, "wtg");
    form.apply_loaded_settings(loaded);
    assert!(form.use_password_env);
    assert_eq!(
        form.cli_preview(),
        "wtg.exe --watch --sink mqtt --mqtt-host broker --mqtt-port 1884 --mqtt-node-id bench --mqtt-username user --mqtt-password-env \"PW VAR\" --mqtt-ha-discovery --mqtt-ha-prefix ha --mqtt-retain-discovery"
    );
    let empty = mqtt_settings_from_config(&WtgConfig { mqtt: None });
    assert_eq!(empty.ha_discovery_prefix, "homeassistant");
}

#[test]
fn form_small_texts() {
    assert_eq!(shell_quote("C:\\path/file.toml"), "C:\\path/file.toml");
    assert_eq!(shell_quote("a \"b\""), "\"a \\\"b\\\"\"");
    assert_eq!(normalized_config_path("  "), "wtg.toml");
    assert_eq!(normalized_config_path(" my.toml "), "my.toml");
    assert_eq!(format_temperature(Some(40)), "40 C");
    assert_eq!(format_temperature(None), "N/A");
    assert_eq!(format_power(Some("1.0".to_string()), None), "1.0 W / N/A");
    assert_eq!(format_power(None, None), "N/A");
    assert_eq!(format_refresh_age(None), "N/A");
    assert_eq!(format_refresh_age(Some(0)), "just now");
    assert_eq!(format_refresh_age(Some(59)), "59s ago");
    assert_eq!(format_refresh_age(Some(125)), "2m 5s ago");
    assert_eq!(format_refresh_label(Some(3), "17.1"), "Refreshed: 3s ago | unix 17.1");
}

#[test]
fn mqtt_status_banner_colors_follow_kind() {
    let idle = MqttStatus::idle("ready".to_string());
    assert_eq!(idle.label(), "Idle");
    assert_eq!(idle.colors(), ((44, 58, 76), (101, 132, 171), (225, 233, 244)));
    let err = MqttStatus::new(MqttStatusKind::Error, "broker refused".to_string());
    assert_eq!(err.label(), "Error");
    assert_eq!(err.colors(), ((105, 34, 41), (218, 95, 109), (255, 234, 237)));
    let running = MqttStatus::new(MqttStatusKind::Running, "publishing".to_string());
    assert_eq!(running.colors().1, (83, 171, 216));
}

#[test]
fn device_view_keeps_snapshot_and_context() {
    let mut s = snap();
    s.mem_used_bytes = 3 * 1024 * 1024 + 5;
    s.mem_total_bytes = 8 * 1024 * 1024;
    s.power_mw = Some(123_400);
    s.power_limit_mw = None;
    let ctx = GpuProbeContext {
        driver_version: "551.86".to_string(),
        cuda_driver_version: "12.4".to_string(),
        compute_mode: "Default".to_string(),
        perf_state: "P2".to_string(),
        pci_bus_id: "00000000:01:00.0".to_string(),
    };
    let v = DeviceView::from_snapshot(&s, ctx, Some("123.4".to_string()), None);
    assert_eq!(v.vram_used_mib, 3);
    assert_eq!(v.vram_total_mib, 8);
    assert_eq!(v.perf_state, "P2");
    assert_eq!(v.power_w.as_deref(), Some("123.4"));
    assert_eq!(v.power_limit_w, None);
    assert_eq!(v.name, s.name);
    assert_eq!(clamped_selection(1, 3), 1);
    assert_eq!(clamped_selection(5, 3), 2);
    assert_eq!(clamped_selection(0, 0), 0);
}

#[test]
fn form_uses_one_password_source() {
    let mut form = MqttFormState::default();
    form.password = "secret".to_string();
    form.password_env = "WTG_PASS".to_string();
    assert_eq!(direct_password(&form), Some("secret"));
    assert_eq!(env_password(&form), None);
    form.use_password_env = true;
    assert_eq!(direct_password(&form), None);
    assert_eq!(env_password(&form), Some("WTG_PASS"));
}

#[test]
fn json_string_quotes_and_escapes() {
    assert_eq!(wtg::json::json_string("a\"b\\c\n"), "\"a\\\"b\\\\c\\n\"");
    assert_eq!(wtg::json::json_string(""), "\"\"");
}

#[test]
fn form_builds_test_and_cleanup_options() {
    let mut form = MqttFormState::default();
    form.host = " broker.local ".to_string();
    form.node_id = "desk".to_string();
    let test = form.connection_test_options(None).unwrap();
    assert_eq!(test.host, "broker.local");
    assert_eq!(test.port, 1883);
    assert!(!test.ha_availability);
    assert!(test.ha_discovery.is_none());
    let cleanup = form.cleanup_options(None).unwrap();
    assert!(!cleanup.ha_availability);
    assert_eq!(cleanup.ha_discovery.as_ref().map(|d| d.prefix.as_str()), Some("homeassistant"));
    form.ha_discovery_enabled = true;
    let with_ha = form.connection_test_options(None).unwrap();
    assert!(with_ha.ha_availability);
    form.port = "not-a-port".to_string();
    assert!(form.connection_test_options(None).is_err());
    form.port = "1883".to_string();
    form.username = "wtg".to_string();
    form.use_password_env = true;
    form.password_env = "WTG_MQTT_PASSWORD".to_string();
    let env = form.connection_test_options(Some("secret".to_string())).unwrap();
    assert!(env.auth.is_some());
    let e = connection_error_status("refused");
    assert_eq!(e.message, "MQTT connection error: refused");
    assert_eq!(e.label(), "Error");
    assert_eq!(cleanup_error_status("x").message, "MQTT cleanup error: x");
}

#[test]
fn failed_snapshot_pass_status() {
    assert_eq!(snapshot_failure_status("all NVIDIA device samples failed"), "error");
    assert_eq!(exit_code_for_status(snapshot_failure_status("all NVIDIA device samples failed")), 3);
    assert_eq!(snapshot_failure_status("NVML init failed: DriverNotLoaded"), "unavailable");
    assert_eq!(exit_code_for_status(snapshot_failure_status("NVML init failed: DriverNotLoaded")), 2);
}

#[test]
fn escaped_text_decodes_back_and_clean_text_is_kept() {
    for s in ["GPU \"A\"", "back\\slash", "line\nbreak\r\t", "bell\u{7}del\u{7f}c1\u{85}", "RTX 4090 – ünïcødé"] {
        let quoted = format!("\"{}\"", json_escape(s));
        let back: String = serde_json::from_str(&quoted).unwrap();
        assert_eq!(back, s);
    }
    assert_eq!(json_escape("GPU \"A\""), "GPU \\\"A\\\"");
    assert_eq!(json_escape("NVIDIA GeForce RTX 4090"), "NVIDIA GeForce RTX 4090");
}
