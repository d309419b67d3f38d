use wtg::cli::{
    apply_config, finish_cli_args, mqtt_is_active, mqtt_options_from_args, parse_cli_args,
    password_env_lookup_for_args, saved_mqtt_config_from_args, validate_args_result,
    validate_save_config_args, CliArgs, ProviderKind, SinkKind,
};
use wtg::config::{HomeAssistantConfig, MqttConfig, WtgConfig};
use wtg::mqtt_settings::{resolve_mqtt_auth, validate_mqtt_auth_combination};

fn s(v: &str) -> Option<String> {
    Some(v.to_string())
}

fn mqtt_config() -> MqttConfig {
    MqttConfig {
        enabled: None,
        host: None,
        port: None,
        username: None,
        password: None,
        password_env: None,
        topic_prefix: None,
        node_id: None,
        home_assistant: None,
    }
}

fn err_of<T>(r: Result<T, String>) -> String {
    match r {
        Ok(_) => panic!("expected an error"),
        Err(e) => e,
    }
}

fn argv(words: &[&str]) -> Vec<String> {
    let mut v = vec!["wtg".to_string()];
    for w in words {
        v.push(w.to_string());
    }
    v
}

#[test]
fn mqtt_auth_combination_accepts_no_auth() {
    assert!(validate_mqtt_auth_combination(None, None, None).is_ok());
}

#[test]
fn provider_amd_accepts_once_stats() {
    let mut args = CliArgs::default();
    args.once = true;
    args.stats = true;
    args.provider = Some(ProviderKind::Amd);

    validate_args_result(&args).unwrap();
}

#[test]
fn provider_amd_accepts_once() {
    let mut args = CliArgs::default();
    args.once = true;
    args.provider = Some(ProviderKind::Amd);

    validate_args_result(&args).unwrap();
}

#[test]
fn provider_amd_accepts_watch() {
    let mut args = CliArgs::default();
    args.watch = true;
    args.provider = Some(ProviderKind::Amd);

    validate_args_result(&args).unwrap();
}

#[test]
fn provider_amd_accepts_watch_stats() {
    let mut args = CliArgs::default();
    args.watch = true;
    args.stats = true;
    args.provider = Some(ProviderKind::Amd);

    validate_args_result(&args).unwrap();
}

#[test]
fn provider_amd_accepts_probe() {
    let mut args = CliArgs::default();
    args.probe = true;
    args.provider = Some(ProviderKind::Amd);

    validate_args_result(&args).unwrap();
}

#[test]
fn provider_amd_rejects_once_and_probe() {
    let mut args = CliArgs::default();
    args.once = true;
    args.probe = true;
    args.provider = Some(ProviderKind::Amd);

    let err = validate_args_result(&args).unwrap_err();

    assert_eq!(err, "--probe is mutually exclusive with --once and --watch.");
}

#[test]
fn provider_amd_rejects_probe_fields() {
    let mut args = CliArgs::default();
    args.probe_fields = true;
    args.provider = Some(ProviderKind::Amd);
    args.field_ids.push(1);

    let err = validate_args_result(&args).unwrap_err();

    assert_eq!(err, "--provider amd does not support --probe-fields.");
}

#[test]
fn provider_amd_rejects_sink() {
    let mut args = CliArgs::default();
    args.once = true;
    args.provider = Some(ProviderKind::Amd);
    args.sink = Some(SinkKind::Jsonl);

    let err = validate_args_result(&args).unwrap_err();

    assert_eq!(err, "--provider amd does not support --sink.");
}

#[test]
fn provider_intel_accepts_once() {
    let mut args = CliArgs::default();
    args.once = true;
    args.provider = Some(ProviderKind::Intel);

    validate_args_result(&args).unwrap();
}

#[test]
fn provider_intel_accepts_watch() {
    let mut args = CliArgs::default();
    args.watch = true;
    args.provider = Some(ProviderKind::Intel);

    validate_args_result(&args).unwrap();
}

#[test]
fn provider_intel_accepts_once_stats() {
    let mut args = CliArgs::default();
    args.once = true;
    args.stats = true;
    args.provider = Some(ProviderKind::Intel);

    validate_args_result(&args).unwrap();
}

#[test]
fn provider_intel_accepts_watch_stats() {
    let mut args = CliArgs::default();
    args.watch = true;
    args.stats = true;
    args.provider = Some(ProviderKind::Intel);

    validate_args_result(&args).unwrap();
}

#[test]
fn provider_intel_accepts_probe() {
    let mut args = CliArgs::default();
    args.probe = true;
    args.provider = Some(ProviderKind::Intel);

    validate_args_result(&args).unwrap();
}

#[test]
fn provider_intel_rejects_once_and_probe() {
    let mut args = CliArgs::default();
    args.once = true;
    args.probe = true;
    args.provider = Some(ProviderKind::Intel);

    let err = validate_args_result(&args).unwrap_err();

    assert_eq!(err, "--probe is mutually exclusive with --once and --watch.");
}

#[test]
fn provider_intel_rejects_probe_fields() {
    let mut args = CliArgs::default();
    args.probe_fields = true;
    args.provider = Some(ProviderKind::Intel);
    args.field_ids.push(1);

    let err = validate_args_result(&args).unwrap_err();

    assert_eq!(err, "--provider intel does not support --probe-fields.");
}

#[test]
fn provider_intel_rejects_sink() {
    let mut args = CliArgs::default();
    args.once = true;
    args.provider = Some(ProviderKind::Intel);
    args.sink = Some(SinkKind::Jsonl);

    let err = validate_args_result(&args).unwrap_err();

    assert_eq!(err, "--provider intel does not support --sink.");
}

#[test]
fn mqtt_auth_combination_accepts_username_and_password() {
    assert!(validate_mqtt_auth_combination(Some("user"), Some("secret"), None).is_ok());
}

#[test]
fn mqtt_auth_combination_accepts_username_and_password_env() {
    assert!(validate_mqtt_auth_combination(Some("user"), None, Some("WTG_MQTT_PASSWORD")).is_ok());
}

#[test]
fn mqtt_auth_combination_rejects_username_alone() {
    let err = validate_mqtt_auth_combination(Some("user"), None, None).unwrap_err();

    assert!(err.contains("--mqtt-username requires"));
}

#[test]
fn mqtt_auth_combination_rejects_password_alone() {
    let err = validate_mqtt_auth_combination(None, Some("secret"), None).unwrap_err();

    assert!(err.contains("--mqtt-password requires"));
}

#[test]
fn mqtt_auth_combination_rejects_password_env_alone() {
    let err = validate_mqtt_auth_combination(None, None, Some("WTG_MQTT_PASSWORD")).unwrap_err();

    assert!(err.contains("--mqtt-password-env requires"));
}

#[test]
fn mqtt_auth_combination_rejects_password_and_password_env_together() {
    let err = validate_mqtt_auth_combination(Some("user"), Some("secret"), Some("WTG_MQTT_PASSWORD"))
        .unwrap_err();

    assert!(err.contains("cannot be used together"));
}

#[test]
fn save_config_rejects_missing_host() {
    let args = CliArgs {
        mqtt_save_config: true,
        mqtt_node_id: s("bench"),
        ..CliArgs::default()
    };

    let err = validate_save_config_args(&args).unwrap_err();
    assert!(err.contains("requires --mqtt-host"));
}

#[test]
fn save_config_rejects_missing_node_id() {
    let args = CliArgs {
        mqtt_save_config: true,
        mqtt_host: s("broker.local"),
        ..CliArgs::default()
    };

    let err = validate_save_config_args(&args).unwrap_err();
    assert!(err.contains("requires --mqtt-node-id"));
}

#[test]
fn save_config_rejects_runtime_modes() {
    let args = CliArgs {
        mqtt_save_config: true,
        mqtt_host: s("broker.local"),
        mqtt_node_id: s("bench"),
        watch: true,
        ..CliArgs::default()
    };

    let err = validate_save_config_args(&args).unwrap_err();
    assert!(err.contains("runtime modes"));
}

#[test]
fn force_config_requires_save_config() {
    let args = CliArgs {
        force_config: true,
        ..CliArgs::default()
    };

    let err = validate_save_config_args(&args).unwrap_err();
    assert!(err.contains("--force-config is valid only"));
}

#[test]
fn config_merge_rejects_both_password_sources() {
    let config = WtgConfig {
        mqtt: Some(MqttConfig {
            enabled: Some(true),
            host: s("broker"),
            node_id: s("bench1"),
            username: s("user"),
            password: s("direct"),
            password_env: s("ENV_PASSWORD"),
            ..mqtt_config()
        }),
    };
    let mut args = CliArgs::default();
    args.watch = true;

    apply_config(&mut args, &config);

    let err = validate_mqtt_auth_combination(
        args.mqtt_username.as_deref(),
        args.mqtt_password.as_deref(),
        args.mqtt_password_env.as_deref(),
    )
    .unwrap_err();

    assert!(err.contains("cannot be used together"));
}

#[test]
fn apply_config_applies_direct_password() {
    let config = WtgConfig {
        mqtt: Some(MqttConfig {
            enabled: Some(true),
            host: s("broker"),
            node_id: s("bench1"),
            username: s("user"),
            password: s("direct"),
            ..mqtt_config()
        }),
    };
    let mut args = CliArgs::default();
    args.watch = true;

    apply_config(&mut args, &config);

    assert_eq!(args.mqtt_password.as_deref(), Some("direct"));
    assert!(args.mqtt_password_env.is_none());
}

#[test]
fn config_disabled_mqtt_does_not_activate_mqtt() {
    let config = WtgConfig {
        mqtt: Some(MqttConfig {
            enabled: Some(false),
            host: s("broker"),
            node_id: s("bench1"),
            ..mqtt_config()
        }),
    };
    let mut args = CliArgs::default();
    args.watch = true;

    apply_config(&mut args, &config);

    assert!(!mqtt_is_active(&args));
    assert!(args.mqtt_host.is_none());
    assert!(args.mqtt_node_id.is_none());
}

#[test]
fn config_enabled_mqtt_activates_mqtt_for_watch_without_sink_flag() {
    let config = WtgConfig {
        mqtt: Some(MqttConfig {
            enabled: Some(true),
            host: s("broker"),
            node_id: s("bench1"),
            ..mqtt_config()
        }),
    };
    let mut args = CliArgs::default();
    args.watch = true;

    apply_config(&mut args, &config);

    assert!(mqtt_is_active(&args));
    assert!(args.mqtt_enabled_from_config);
    assert!(args.sink.is_none());
    assert_eq!(args.mqtt_host.as_deref(), Some("broker"));
    assert_eq!(args.mqtt_node_id.as_deref(), Some("bench1"));
}

#[test]
fn sink_mqtt_activates_mqtt_even_when_config_disables_mqtt() {
    let config = WtgConfig {
        mqtt: Some(MqttConfig {
            enabled: Some(false),
            host: s("broker"),
            node_id: s("bench1"),
            ..mqtt_config()
        }),
    };
    let mut args = CliArgs::default();
    args.watch = true;
    args.sink = Some(SinkKind::Mqtt);

    apply_config(&mut args, &config);

    assert!(mqtt_is_active(&args));
    assert!(!args.mqtt_enabled_from_config);
    assert_eq!(args.mqtt_host.as_deref(), Some("broker"));
    assert_eq!(args.mqtt_node_id.as_deref(), Some("bench1"));
}

#[test]
fn cli_mqtt_values_override_config_values() {
    let config = WtgConfig {
        mqtt: Some(MqttConfig {
            enabled: Some(true),
            host: s("config-broker"),
            port: Some(1883),
            username: s("config-user"),
            password_env: s("CONFIG_PASSWORD"),
            topic_prefix: s("config-prefix"),
            node_id: s("config-node"),
            home_assistant: Some(HomeAssistantConfig {
                discovery: Some(true),
                discovery_prefix: s("config-ha"),
                retain_discovery: Some(true),
            }),
            ..mqtt_config()
        }),
    };
    let mut args = CliArgs::default();
    args.watch = true;
    args.sink = Some(SinkKind::Mqtt);
    args.mqtt_host = s("cli-broker");
    args.mqtt_port = s("1884");
    args.mqtt_node_id = s("cli-node");
    args.mqtt_ha_prefix = s("cli-ha");

    apply_config(&mut args, &config);

    assert_eq!(args.mqtt_host.as_deref(), Some("cli-broker"));
    assert_eq!(args.mqtt_port.as_deref(), Some("1884"));
    assert_eq!(args.mqtt_node_id.as_deref(), Some("cli-node"));
    assert_eq!(args.mqtt_ha_prefix.as_deref(), Some("cli-ha"));
    assert_eq!(args.mqtt_username.as_deref(), Some("config-user"));
    assert_eq!(args.mqtt_password_env.as_deref(), Some("CONFIG_PASSWORD"));
    assert_eq!(args.mqtt_topic_prefix.as_deref(), Some("config-prefix"));
    assert!(args.mqtt_ha_discovery);
    assert!(args.mqtt_retain_discovery);
}

#[test]
fn cleanup_ignores_config_discovery_conflict() {
    let config = WtgConfig {
        mqtt: Some(MqttConfig {
            enabled: Some(true),
            host: s("broker"),
            node_id: s("bench1"),
            home_assistant: Some(HomeAssistantConfig {
                discovery: Some(true),
                discovery_prefix: s("config-ha"),
                retain_discovery: Some(true),
            }),
            ..mqtt_config()
        }),
    };
    let mut args = CliArgs {
        sink: Some(SinkKind::Mqtt),
        mqtt_ha_remove_discovery: true,
        ..CliArgs::default()
    };

    apply_config(&mut args, &config);

    assert!(!args.mqtt_ha_discovery);
    assert!(!args.mqtt_ha_discovery_from_cli);
    assert_eq!(args.mqtt_ha_prefix.as_deref(), Some("config-ha"));
    assert!(args.mqtt_retain_discovery);
    validate_args_result(&args).unwrap();
}

#[test]
fn cleanup_config_loads_mqtt_settings_when_disabled() {
    let config = WtgConfig {
        mqtt: Some(MqttConfig {
            enabled: Some(false),
            host: s("broker"),
            port: Some(1884),
            username: s("user"),
            password: s("direct"),
            topic_prefix: s("wtg-test"),
            node_id: s("bench1"),
            home_assistant: Some(HomeAssistantConfig {
                discovery: Some(false),
                discovery_prefix: s("config-ha"),
                retain_discovery: None,
            }),
            ..mqtt_config()
        }),
    };
    let mut args = CliArgs {
        sink: Some(SinkKind::Mqtt),
        mqtt_ha_remove_discovery: true,
        ..CliArgs::default()
    };

    apply_config(&mut args, &config);

    assert_eq!(args.mqtt_host.as_deref(), Some("broker"));
    assert_eq!(args.mqtt_port.as_deref(), Some("1884"));
    assert_eq!(args.mqtt_username.as_deref(), Some("user"));
    assert_eq!(args.mqtt_password.as_deref(), Some("direct"));
    assert_eq!(args.mqtt_topic_prefix.as_deref(), Some("wtg-test"));
    assert_eq!(args.mqtt_node_id.as_deref(), Some("bench1"));
    assert_eq!(args.mqtt_ha_prefix.as_deref(), Some("config-ha"));
    validate_args_result(&args).unwrap();
    let env_value = None;
    assert!(mqtt_options_from_args(&args, env_value).unwrap().is_some());
}

#[test]
fn cleanup_retain_discovery_is_accepted() {
    let args = CliArgs {
        sink: Some(SinkKind::Mqtt),
        mqtt_host: s("broker"),
        mqtt_node_id: s("bench1"),
        mqtt_ha_remove_discovery: true,
        mqtt_retain_discovery: true,
        ..CliArgs::default()
    };

    validate_args_result(&args).unwrap();
}

#[test]
fn cleanup_does_not_require_ha_discovery() {
    let args = CliArgs {
        sink: Some(SinkKind::Mqtt),
        mqtt_host: s("broker"),
        mqtt_node_id: s("bench1"),
        mqtt_ha_remove_discovery: true,
        ..CliArgs::default()
    };

    validate_args_result(&args).unwrap();
}

#[test]
fn explicit_cli_discovery_and_cleanup_still_conflict() {
    let args = CliArgs {
        sink: Some(SinkKind::Mqtt),
        mqtt_host: s("broker"),
        mqtt_node_id: s("bench1"),
        mqtt_ha_discovery: true,
        mqtt_ha_discovery_from_cli: true,
        mqtt_ha_remove_discovery: true,
        ..CliArgs::default()
    };

    let err = validate_args_result(&args).unwrap_err();
    assert!(err.contains("cannot be combined with --mqtt-ha-discovery"));
}

#[test]
fn empty_config_strings_are_not_applied_to_cli_args() {
    let config = WtgConfig {
        mqtt: Some(MqttConfig {
            enabled: Some(true),
            host: s(""),
            username: s(""),
            password_env: s(""),
            node_id: s(""),
            ..mqtt_config()
        }),
    };
    let mut args = CliArgs::default();
    args.watch = true;

    apply_config(&mut args, &config);

    assert!(mqtt_is_active(&args));
    assert!(args.mqtt_host.is_none());
    assert!(args.mqtt_username.is_none());
    assert!(args.mqtt_password_env.is_none());
    assert!(args.mqtt_node_id.is_none());
}

#[test]
fn mqtt_auth_resolution_rejects_missing_password_env_var() {
    let err = err_of(resolve_mqtt_auth("user", "WTG_MQTT_PASSWORD", None));

    assert!(err.contains("WTG_MQTT_PASSWORD"));
    assert!(err.contains("not set"));
}

#[test]
fn mqtt_auth_resolution_rejects_empty_password_env_var() {
    let err = err_of(resolve_mqtt_auth("user", "WTG_MQTT_PASSWORD", Some(String::new())));

    assert!(err.contains("WTG_MQTT_PASSWORD"));
    assert!(err.contains("must not be empty"));
}

#[test]
fn mqtt_auth_resolution_accepts_username_and_password_env_var() {
    let password = String::from_utf8(vec![115, 101, 99, 114, 101, 116]).unwrap();

    assert!(resolve_mqtt_auth("user", "WTG_MQTT_PASSWORD", Some(password)).is_ok());
}

#[test]
fn force_config_is_rejected_without_save_config() {
    for args in [
        ["--force-config", "--watch"].as_slice(),
        ["--force-config", "--once"].as_slice(),
        ["--mqtt-init-config", "--force-config"].as_slice(),
    ] {
        let err = err_of(parse_cli_args(&argv(args)));
        assert_eq!(err, "--force-config is valid only with --mqtt-save-config.", "args: {args:?}");
    }
}

#[test]
fn parse_reads_flags_and_values() {
    let args = parse_cli_args(&argv(&[
        "--watch",
        "--interval",
        "250",
        "--stats",
        "--field-id",
        "7",
        "--field-id",
        "9",
        "--mqtt-host",
        "broker",
    ]))
    .unwrap();
    assert!(args.watch);
    assert!(args.stats);
    assert_eq!(args.interval_ms, Some(250));
    assert_eq!(args.field_ids, vec![7, 9]);
    assert_eq!(args.mqtt_host.as_deref(), Some("broker"));
}

#[test]
fn parse_reports_each_kind_of_error() {
    assert_eq!(
        err_of(parse_cli_args(&argv(&["--provider", "nvidia"]))),
        "--provider value must be amd or intel. Got: nvidia"
    );
    assert_eq!(
        err_of(parse_cli_args(&argv(&["--interval"]))),
        "--interval requires a value in milliseconds (e.g., --interval 1000)."
    );
    assert_eq!(
        err_of(parse_cli_args(&argv(&["--interval", "soon"]))),
        "--interval value must be an integer milliseconds value. Got: soon"
    );
    assert_eq!(
        err_of(parse_cli_args(&argv(&["--field-id", "4294967296"]))),
        "--field-id value must be a u32 integer. Got: 4294967296"
    );
    assert_eq!(
        err_of(parse_cli_args(&argv(&["--sink", "xml"]))),
        "--sink value must be csv, jsonl, or mqtt. Got: xml"
    );
    assert_eq!(err_of(parse_cli_args(&argv(&["--bogus"]))), "unknown flag: --bogus");
    assert_eq!(err_of(parse_cli_args(&argv(&["bogus"]))), "unexpected argument: bogus");
}

#[test]
fn parse_accepts_short_help_and_version() {
    assert!(parse_cli_args(&argv(&["-h"])).unwrap().help);
    assert!(parse_cli_args(&argv(&["-V"])).unwrap().version);
}

#[test]
fn finish_merges_config_and_checks_rules() {
    let parsed = parse_cli_args(&argv(&["--watch"])).unwrap();
    let config = WtgConfig {
        mqtt: Some(MqttConfig {
            enabled: Some(true),
            host: s("broker"),
            node_id: s("bench1"),
            ..mqtt_config()
        }),
    };
    let args = finish_cli_args(parsed, Some(&config)).unwrap();
    assert!(mqtt_is_active(&args));
    assert_eq!(args.mqtt_host.as_deref(), Some("broker"));
}

#[test]
fn password_env_lookup_names_the_variable_only_when_needed() {
    let args = CliArgs {
        mqtt_username: s("user"),
        mqtt_password_env: s(" WTG_PW "),
        ..CliArgs::default()
    };
    assert_eq!(password_env_lookup_for_args(&args).as_deref(), Some("WTG_PW"));

    let args = CliArgs {
        mqtt_username: s("user"),
        mqtt_password: s("direct"),
        ..CliArgs::default()
    };
    assert_eq!(password_env_lookup_for_args(&args), None);
}

#[test]
fn saved_config_from_args_uses_defaults_and_trims() {
    let args = CliArgs {
        mqtt_save_config: true,
        mqtt_host: s(" broker "),
        mqtt_node_id: s("bench"),
        ..CliArgs::default()
    };
    let saved = saved_mqtt_config_from_args(&args).unwrap();
    assert_eq!(saved.host, "broker");
    assert_eq!(saved.port, 1883);
    assert_eq!(saved.topic_prefix, "wtg");
    assert_eq!(saved.ha_discovery_prefix, "homeassistant");
    assert!(saved.password.is_none());
}

#[test]
fn applying_config_twice_changes_nothing_more() {
    let config = WtgConfig {
        mqtt: Some(MqttConfig {
            enabled: Some(true),
            host: s("config-broker"),
            port: Some(1883),
            node_id: s("config-node"),
            home_assistant: Some(HomeAssistantConfig {
                discovery: Some(true),
                discovery_prefix: s("config-ha"),
                retain_discovery: Some(true),
            }),
            ..mqtt_config()
        }),
    };
    let mut once = CliArgs::default();
    once.watch = true;
    once.mqtt_host = s("cli-broker");
    apply_config(&mut once, &config);
    let mut twice = CliArgs::default();
    twice.watch = true;
    twice.mqtt_host = s("cli-broker");
    apply_config(&mut twice, &config);
    apply_config(&mut twice, &config);
    assert_eq!(once.mqtt_host, twice.mqtt_host);
    assert_eq!(once.mqtt_port, twice.mqtt_port);
    assert_eq!(once.mqtt_node_id, twice.mqtt_node_id);
    assert_eq!(once.mqtt_ha_prefix, twice.mqtt_ha_prefix);
    assert_eq!(once.mqtt_ha_discovery, twice.mqtt_ha_discovery);
    assert_eq!(once.mqtt_retain_discovery, twice.mqtt_retain_discovery);
    assert_eq!(once.mqtt_enabled_from_config, twice.mqtt_enabled_from_config);
    assert_eq!(twice.mqtt_host.as_deref(), Some("cli-broker"));
    assert_eq!(twice.mqtt_port.as_deref(), Some("1883"));
    assert!(twice.mqtt_enabled_from_config);
}
