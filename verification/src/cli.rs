//! The `wtg` command line: arguments, their merge with the config file, and
//! the rules that say which combinations are accepted.
use vstd::prelude::*;

use crate::config::{ov, as_deref, MqttConfig, SavedMqttConfig, WtgConfig};
use crate::mqtt::{default_ha_discovery_prefix_spec, default_topic_prefix_spec, MqttOptions};
use crate::mqtt_settings::{
    auth_values_error, mqtt_options_from_values, options_hold, options_values_spec,
    password_env_lookup, password_env_lookup_spec, saved_config_error,
    saved_mqtt_config_from_values, validate_mqtt_auth_combination, or_empty, or_default, port_spec,
};
use crate::text::{
    dec, dec_string, opt_string_view, opt_view, owned, parse_unsigned,
    parse_unsigned_spec, push_str, str_eq, str_is_blank, trim, trim_to_option_spec,
};

verus! {

/// An experimental provider selected with `--provider`.
#[derive(Clone, Copy, Debug, PartialEq, Eq, Structural)]
pub enum ProviderKind {
    Amd,
    Intel,
}

/// An output sink selected with `--sink`.
#[derive(Clone, Copy, Debug, PartialEq, Eq, Structural)]
pub enum SinkKind {
    Csv,
    Jsonl,
    Mqtt,
}

/// The parsed command line.
pub struct CliArgs {
    pub once: bool,
    pub watch: bool,
    pub probe: bool,
    pub probe_fields: bool,
    pub stats: bool,
    pub help: bool,
    pub version: bool,
    pub provider: Option<ProviderKind>,
    pub config_path: Option<String>,
    pub interval_ms: Option<u64>,
    pub sink: Option<SinkKind>,
    pub mqtt_host: Option<String>,
    pub mqtt_port: Option<String>,
    pub mqtt_topic_prefix: Option<String>,
    pub mqtt_node_id: Option<String>,
    pub mqtt_username: Option<String>,
    pub mqtt_password: Option<String>,
    pub mqtt_password_env: Option<String>,
    pub mqtt_ha_discovery: bool,
    pub mqtt_ha_discovery_from_cli: bool,
    pub mqtt_ha_prefix: Option<String>,
    pub mqtt_ha_remove_discovery: bool,
    pub mqtt_init_config: bool,
    pub mqtt_save_config: bool,
    pub force_config: bool,
    pub mqtt_enabled_from_config: bool,
    pub mqtt_retain_discovery: bool,
    pub field_ids: Vec<u32>,
}

/// The command line as values.
pub struct CliModel {
    pub once: bool,
    pub watch: bool,
    pub probe: bool,
    pub probe_fields: bool,
    pub stats: bool,
    pub help: bool,
    pub version: bool,
    pub provider: Option<ProviderKind>,
    pub config_path: Option<Seq<char>>,
    pub interval_ms: Option<u64>,
    pub sink: Option<SinkKind>,
    pub mqtt_host: Option<Seq<char>>,
    pub mqtt_port: Option<Seq<char>>,
    pub mqtt_topic_prefix: Option<Seq<char>>,
    pub mqtt_node_id: Option<Seq<char>>,
    pub mqtt_username: Option<Seq<char>>,
    pub mqtt_password: Option<Seq<char>>,
    pub mqtt_password_env: Option<Seq<char>>,
    pub mqtt_ha_discovery: bool,
    pub mqtt_ha_discovery_from_cli: bool,
    pub mqtt_ha_prefix: Option<Seq<char>>,
    pub mqtt_ha_remove_discovery: bool,
    pub mqtt_init_config: bool,
    pub mqtt_save_config: bool,
    pub force_config: bool,
    pub mqtt_enabled_from_config: bool,
    pub mqtt_retain_discovery: bool,
    pub field_ids: Seq<u32>,
}

impl View for CliArgs {
    type V = CliModel;

    open spec fn view(&self) -> CliModel {
        CliModel {
            once: self.once,
            watch: self.watch,
            probe: self.probe,
            probe_fields: self.probe_fields,
            stats: self.stats,
            help: self.help,
            version: self.version,
            provider: self.provider,
            config_path: ov(self.config_path),
            interval_ms: self.interval_ms,
            sink: self.sink,
            mqtt_host: ov(self.mqtt_host),
            mqtt_port: ov(self.mqtt_port),
            mqtt_topic_prefix: ov(self.mqtt_topic_prefix),
            mqtt_node_id: ov(self.mqtt_node_id),
            mqtt_username: ov(self.mqtt_username),
            mqtt_password: ov(self.mqtt_password),
            mqtt_password_env: ov(self.mqtt_password_env),
            mqtt_ha_discovery: self.mqtt_ha_discovery,
            mqtt_ha_discovery_from_cli: self.mqtt_ha_discovery_from_cli,
            mqtt_ha_prefix: ov(self.mqtt_ha_prefix),
            mqtt_ha_remove_discovery: self.mqtt_ha_remove_discovery,
            mqtt_init_config: self.mqtt_init_config,
            mqtt_save_config: self.mqtt_save_config,
            force_config: self.force_config,
            mqtt_enabled_from_config: self.mqtt_enabled_from_config,
            mqtt_retain_discovery: self.mqtt_retain_discovery,
            field_ids: self.field_ids@,
        }
    }
}

/// No flag given.
pub open spec fn default_model() -> CliModel {
    CliModel {
        once: false,
        watch: false,
        probe: false,
        probe_fields: false,
        stats: false,
        help: false,
        version: false,
        provider: None,
        config_path: None,
        interval_ms: None,
        sink: None,
        mqtt_host: None,
        mqtt_port: None,
        mqtt_topic_prefix: None,
        mqtt_node_id: None,
        mqtt_username: None,
        mqtt_password: None,
        mqtt_password_env: None,
        mqtt_ha_discovery: false,
        mqtt_ha_discovery_from_cli: false,
        mqtt_ha_prefix: None,
        mqtt_ha_remove_discovery: false,
        mqtt_init_config: false,
        mqtt_save_config: false,
        force_config: false,
        mqtt_enabled_from_config: false,
        mqtt_retain_discovery: false,
        field_ids: Seq::empty(),
    }
}

impl Default for CliArgs {
    /// No flag set, no value given.
    fn default() -> (r: Self)
        ensures
            r@ == default_model(),
    {
        CliArgs {
            once: false,
            watch: false,
            probe: false,
            probe_fields: false,
            stats: false,
            help: false,
            version: false,
            provider: None,
            config_path: None,
            interval_ms: None,
            sink: None,
            mqtt_host: None,
            mqtt_port: None,
            mqtt_topic_prefix: None,
            mqtt_node_id: None,
            mqtt_username: None,
            mqtt_password: None,
            mqtt_password_env: None,
            mqtt_ha_discovery: false,
            mqtt_ha_discovery_from_cli: false,
            mqtt_ha_prefix: None,
            mqtt_ha_remove_discovery: false,
            mqtt_init_config: false,
            mqtt_save_config: false,
            force_config: false,
            mqtt_enabled_from_config: false,
            mqtt_retain_discovery: false,
            field_ids: Vec::new(),
        }
    }
}

/// MQTT is active when `--sink mqtt` was given or the config enabled it.
pub open spec fn mqtt_active_spec(m: CliModel) -> bool {
    m.sink == Some(SinkKind::Mqtt) || m.mqtt_enabled_from_config
}

/// Whether MQTT publishing is active.
pub fn mqtt_is_active(args: &CliArgs) -> (b: bool)
    ensures
        b == mqtt_active_spec(args@),
{
    args.sink == Some(SinkKind::Mqtt) || args.mqtt_enabled_from_config
}

/// Whether a value is absent or blank.
pub open spec fn blank_or_absent(v: Option<Seq<char>>) -> bool {
    match v {
        Some(s) => trim(s).len() == 0,
        None => true,
    }
}

fn is_blank_or_absent(v: &Option<String>) -> (b: bool)
    ensures
        b == blank_or_absent(ov(*v)),
{
    match v {
        Some(s) => str_is_blank(s.as_str()),
        None => true,
    }
}

/// The first rule of the runtime command line that the arguments break.
pub open spec fn validate_error(m: CliModel) -> Option<Seq<char>> {
    let once = m.once;
    let watch = m.watch;
    let probe = m.probe;
    let probe_fields = m.probe_fields;
    let stats = m.stats;
    let mqtt_active = mqtt_active_spec(m);
    let remove = m.mqtt_ha_remove_discovery;
    if once && watch {
        Some("--once and --watch are mutually exclusive."@)
    } else if probe && (once || watch) {
        Some("--probe is mutually exclusive with --once and --watch."@)
    } else if probe_fields && (once || watch || probe) {
        Some("--probe-fields is mutually exclusive with --once, --watch, and --probe."@)
    } else if stats && !once && !watch {
        Some("--stats requires --once or --watch."@)
    } else if m.provider == Some(ProviderKind::Amd) && probe_fields {
        Some("--provider amd does not support --probe-fields."@)
    } else if m.provider == Some(ProviderKind::Amd) && m.sink is Some {
        Some("--provider amd does not support --sink."@)
    } else if m.provider == Some(ProviderKind::Amd) && remove {
        Some("--provider amd does not support --mqtt-ha-remove-discovery."@)
    } else if m.provider == Some(ProviderKind::Intel) && probe_fields {
        Some("--provider intel does not support --probe-fields."@)
    } else if m.provider == Some(ProviderKind::Intel) && m.sink is Some {
        Some("--provider intel does not support --sink."@)
    } else if m.provider == Some(ProviderKind::Intel) && remove {
        Some("--provider intel does not support --mqtt-ha-remove-discovery."@)
    } else if m.provider is Some && !once && !watch && !probe {
        Some("--provider is valid only with --once, --watch, or --probe."@)
    } else if remove && (once || watch || probe || probe_fields || stats) {
        Some(
            "--mqtt-ha-remove-discovery cannot be combined with --once, --watch, --stats, --probe, or --probe-fields."@,
        )
    } else if m.interval_ms is Some && !watch {
        Some("--interval is valid only with --watch."@)
    } else if !probe_fields && m.field_ids.len() > 0 {
        Some("--field-id requires --probe-fields."@)
    } else if probe_fields && m.field_ids.len() == 0 {
        Some("--probe-fields requires at least one --field-id <u32>."@)
    } else if m.sink is Some && !once && !watch && !probe && !probe_fields && !remove {
        Some("--sink requires --once, --watch, --probe, or --probe-fields."@)
    } else if m.mqtt_enabled_from_config && !watch {
        Some("[mqtt].enabled = true in --config requires --watch."@)
    } else if remove && m.mqtt_ha_discovery_from_cli {
        Some("--mqtt-ha-remove-discovery cannot be combined with --mqtt-ha-discovery."@)
    } else if mqtt_active && !watch && !remove {
        Some("--sink mqtt is valid only with --watch, except for --mqtt-ha-remove-discovery."@)
    } else if mqtt_active && blank_or_absent(m.mqtt_host) {
        Some("--sink mqtt requires --mqtt-host <host>."@)
    } else if mqtt_active && blank_or_absent(m.mqtt_node_id) {
        Some("--sink mqtt requires --mqtt-node-id <id>."@)
    } else if m.mqtt_ha_discovery && !mqtt_active {
        Some("--mqtt-ha-discovery is valid only with active MQTT."@)
    } else if remove && m.sink != Some(SinkKind::Mqtt) {
        Some("--mqtt-ha-remove-discovery is valid only with --sink mqtt."@)
    } else if auth_values_error(m.mqtt_username, m.mqtt_password, m.mqtt_password_env) is Some {
        auth_values_error(m.mqtt_username, m.mqtt_password, m.mqtt_password_env)
    } else if (m.mqtt_username is Some || m.mqtt_password is Some || m.mqtt_password_env is Some)
        && !mqtt_active {
        Some(
            "--mqtt-username, --mqtt-password, and --mqtt-password-env are valid only with active MQTT."@,
        )
    } else if m.mqtt_ha_prefix is Some && !m.mqtt_ha_discovery && !remove {
        Some("--mqtt-ha-prefix requires --mqtt-ha-discovery or --mqtt-ha-remove-discovery."@)
    } else if m.mqtt_retain_discovery && !m.mqtt_ha_discovery && !remove {
        Some(
            "--mqtt-retain-discovery requires --mqtt-ha-discovery or --mqtt-ha-remove-discovery."@,
        )
    } else {
        None
    }
}

/// Checks the runtime command line against its rules.
pub fn validate_args_result(parsed: &CliArgs) -> (r: Result<(), String>)
    ensures
        match validate_error(parsed@) {
            Some(e) => r matches Err(m) && m@ == e,
            None => r is Ok,
        },
{
    let once = parsed.once;
    let watch = parsed.watch;
    let probe = parsed.probe;
    let probe_fields = parsed.probe_fields;
    let stats = parsed.stats;
    let mqtt_active = mqtt_is_active(parsed);
    let remove = parsed.mqtt_ha_remove_discovery;
    if once && watch {
        return Err(owned("--once and --watch are mutually exclusive."));
    }
    if probe && (once || watch) {
        return Err(owned("--probe is mutually exclusive with --once and --watch."));
    }
    if probe_fields && (once || watch || probe) {
        return Err(owned("--probe-fields is mutually exclusive with --once, --watch, and --probe."));
    }
    if stats && !once && !watch {
        return Err(owned("--stats requires --once or --watch."));
    }
    if parsed.provider == Some(ProviderKind::Amd) {
        if probe_fields {
            return Err(owned("--provider amd does not support --probe-fields."));
        }
        if parsed.sink.is_some() {
            return Err(owned("--provider amd does not support --sink."));
        }
        if remove {
            return Err(owned("--provider amd does not support --mqtt-ha-remove-discovery."));
        }
    }
    if parsed.provider == Some(ProviderKind::Intel) {
        if probe_fields {
            return Err(owned("--provider intel does not support --probe-fields."));
        }
        if parsed.sink.is_some() {
            return Err(owned("--provider intel does not support --sink."));
        }
        if remove {
            return Err(owned("--provider intel does not support --mqtt-ha-remove-discovery."));
        }
    }
    if parsed.provider.is_some() && !once && !watch && !probe {
        return Err(owned("--provider is valid only with --once, --watch, or --probe."));
    }
    if remove && (once || watch || probe || probe_fields || stats) {
        return Err(
            owned(
                "--mqtt-ha-remove-discovery cannot be combined with --once, --watch, --stats, --probe, or --probe-fields.",
            ),
        );
    }
    if parsed.interval_ms.is_some() && !watch {
        return Err(owned("--interval is valid only with --watch."));
    }
    if !probe_fields && parsed.field_ids.len() > 0 {
        return Err(owned("--field-id requires --probe-fields."));
    }
    if probe_fields && parsed.field_ids.len() == 0 {
        return Err(owned("--probe-fields requires at least one --field-id <u32>."));
    }
    if parsed.sink.is_some() && !once && !watch && !probe && !probe_fields && !remove {
        return Err(owned("--sink requires --once, --watch, --probe, or --probe-fields."));
    }
    if parsed.mqtt_enabled_from_config && !watch {
        return Err(owned("[mqtt].enabled = true in --config requires --watch."));
    }
    if remove && parsed.mqtt_ha_discovery_from_cli {
        return Err(owned("--mqtt-ha-remove-discovery cannot be combined with --mqtt-ha-discovery."));
    }
    if mqtt_active {
        if !watch && !remove {
            return Err(
                owned(
                    "--sink mqtt is valid only with --watch, except for --mqtt-ha-remove-discovery.",
                ),
            );
        }
        if is_blank_or_absent(&parsed.mqtt_host) {
            return Err(owned("--sink mqtt requires --mqtt-host <host>."));
        }
        if is_blank_or_absent(&parsed.mqtt_node_id) {
            return Err(owned("--sink mqtt requires --mqtt-node-id <id>."));
        }
    }
    if parsed.mqtt_ha_discovery && !mqtt_active {
        return Err(owned("--mqtt-ha-discovery is valid only with active MQTT."));
    }
    if remove && parsed.sink != Some(SinkKind::Mqtt) {
        return Err(owned("--mqtt-ha-remove-discovery is valid only with --sink mqtt."));
    }
    match validate_mqtt_auth_combination(
        as_deref(&parsed.mqtt_username),
        as_deref(&parsed.mqtt_password),
        as_deref(&parsed.mqtt_password_env),
    ) {
        Ok(()) => {},
        Err(e) => return Err(e),
    }
    let has_auth = parsed.mqtt_username.is_some() || parsed.mqtt_password.is_some()
        || parsed.mqtt_password_env.is_some();
    if has_auth && !mqtt_active {
        return Err(
            owned(
                "--mqtt-username, --mqtt-password, and --mqtt-password-env are valid only with active MQTT.",
            ),
        );
    }
    if parsed.mqtt_ha_prefix.is_some() && !parsed.mqtt_ha_discovery && !remove {
        return Err(
            owned("--mqtt-ha-prefix requires --mqtt-ha-discovery or --mqtt-ha-remove-discovery."),
        );
    }
    if parsed.mqtt_retain_discovery && !parsed.mqtt_ha_discovery && !remove {
        return Err(
            owned(
                "--mqtt-retain-discovery requires --mqtt-ha-discovery or --mqtt-ha-remove-discovery.",
            ),
        );
    }
    Ok(())
}

/// The first rule of `--mqtt-save-config` that the arguments break.
pub open spec fn save_config_args_error(m: CliModel) -> Option<Seq<char>> {
    if m.force_config && !m.mqtt_save_config {
        Some("--force-config is valid only with --mqtt-save-config."@)
    } else if m.mqtt_init_config {
        Some("--mqtt-save-config cannot be combined with --mqtt-init-config."@)
    } else if m.once || m.watch || m.probe || m.probe_fields || m.stats {
        Some("--mqtt-save-config cannot be combined with runtime modes."@)
    } else if m.sink is Some || m.mqtt_ha_remove_discovery {
        Some("--mqtt-save-config cannot be combined with --sink or --mqtt-ha-remove-discovery."@)
    } else if m.config_path is Some {
        Some("--mqtt-save-config does not load an existing config file."@)
    } else if blank_or_absent(m.mqtt_host) {
        Some("--mqtt-save-config requires --mqtt-host <host>."@)
    } else if blank_or_absent(m.mqtt_node_id) {
        Some("--mqtt-save-config requires --mqtt-node-id <id>."@)
    } else if auth_values_error(m.mqtt_username, m.mqtt_password, m.mqtt_password_env) is Some {
        auth_values_error(m.mqtt_username, m.mqtt_password, m.mqtt_password_env)
    } else if m.mqtt_ha_prefix is Some && !m.mqtt_ha_discovery {
        Some("--mqtt-ha-prefix requires --mqtt-ha-discovery."@)
    } else if m.mqtt_retain_discovery && !m.mqtt_ha_discovery {
        Some("--mqtt-retain-discovery requires --mqtt-ha-discovery."@)
    } else {
        None
    }
}

/// Checks the arguments of `--mqtt-save-config`.
pub fn validate_save_config_args(parsed: &CliArgs) -> (r: Result<(), String>)
    ensures
        match save_config_args_error(parsed@) {
            Some(e) => r matches Err(m) && m@ == e,
            None => r is Ok,
        },
{
    if parsed.force_config && !parsed.mqtt_save_config {
        return Err(owned("--force-config is valid only with --mqtt-save-config."));
    }
    if parsed.mqtt_init_config {
        return Err(owned("--mqtt-save-config cannot be combined with --mqtt-init-config."));
    }
    if parsed.once || parsed.watch || parsed.probe || parsed.probe_fields || parsed.stats {
        return Err(owned("--mqtt-save-config cannot be combined with runtime modes."));
    }
    if parsed.sink.is_some() || parsed.mqtt_ha_remove_discovery {
        return Err(
            owned(
                "--mqtt-save-config cannot be combined with --sink or --mqtt-ha-remove-discovery.",
            ),
        );
    }
    if parsed.config_path.is_some() {
        return Err(owned("--mqtt-save-config does not load an existing config file."));
    }
    if is_blank_or_absent(&parsed.mqtt_host) {
        return Err(owned("--mqtt-save-config requires --mqtt-host <host>."));
    }
    if is_blank_or_absent(&parsed.mqtt_node_id) {
        return Err(owned("--mqtt-save-config requires --mqtt-node-id <id>."));
    }
    match validate_mqtt_auth_combination(
        as_deref(&parsed.mqtt_username),
        as_deref(&parsed.mqtt_password),
        as_deref(&parsed.mqtt_password_env),
    ) {
        Ok(()) => {},
        Err(e) => return Err(e),
    }
    if parsed.mqtt_ha_prefix.is_some() && !parsed.mqtt_ha_discovery {
        return Err(owned("--mqtt-ha-prefix requires --mqtt-ha-discovery."));
    }
    if parsed.mqtt_retain_discovery && !parsed.mqtt_ha_discovery {
        return Err(owned("--mqtt-retain-discovery requires --mqtt-ha-discovery."));
    }
    Ok(())
}

} // verus!

verus! {

/// A command-line value, or the config value when the command line gave
/// none.
pub open spec fn fill(cur: Option<Seq<char>>, v: Option<Seq<char>>) -> Option<Seq<char>> {
    if cur is None {
        v
    } else {
        cur
    }
}

/// The `[mqtt.home_assistant]` part of the merge.
pub open spec fn apply_ha_spec(m: CliModel, mq: MqttConfig) -> CliModel {
    match mq.home_assistant {
        None => m,
        Some(ha) => {
            let config_discovery = ha.discovery == Some(true);
            let discovery = if config_discovery && !m.mqtt_ha_remove_discovery {
                true
            } else {
                m.mqtt_ha_discovery
            };
            let prefix = if discovery || m.mqtt_ha_remove_discovery || config_discovery {
                fill(m.mqtt_ha_prefix, trim_to_option_spec(ov(ha.discovery_prefix)))
            } else {
                m.mqtt_ha_prefix
            };
            let retain = if (discovery || config_discovery) && ha.retain_discovery == Some(true) {
                true
            } else {
                m.mqtt_retain_discovery
            };
            CliModel {
                mqtt_ha_discovery: discovery,
                mqtt_ha_prefix: prefix,
                mqtt_retain_discovery: retain,
                ..m
            }
        },
    }
}

/// The merge of the config file into the command line: command-line values
/// win; MQTT values are taken from the file only when MQTT is enabled there,
/// `--sink mqtt` was given, or discovery cleanup was asked for.
pub open spec fn apply_config_spec(m: CliModel, config: WtgConfig) -> CliModel {
    match config.mqtt {
        None => m,
        Some(mq) => {
            let enabled = mq.enabled == Some(true);
            let m1 = if enabled && m.sink is None {
                CliModel { mqtt_enabled_from_config: true, ..m }
            } else {
                m
            };
            if !(enabled || m.sink == Some(SinkKind::Mqtt) || m.mqtt_ha_remove_discovery) {
                m1
            } else {
                apply_ha_spec(apply_values_spec(m1, mq), mq)
            }
        },
    }
}

/// The `[mqtt]` values of the merge.
pub open spec fn apply_values_spec(m1: CliModel, mq: MqttConfig) -> CliModel {
                CliModel {
                    mqtt_host: fill(m1.mqtt_host, trim_to_option_spec(ov(mq.host))),
                    mqtt_port: fill(
                        m1.mqtt_port,
                        match mq.port {
                            Some(p) => Some(dec(p as nat)),
                            None => None,
                        },
                    ),
                    mqtt_username: fill(m1.mqtt_username, trim_to_option_spec(ov(mq.username))),
                    mqtt_password: fill(m1.mqtt_password, trim_to_option_spec(ov(mq.password))),
                    mqtt_password_env: fill(
                        m1.mqtt_password_env,
                        trim_to_option_spec(ov(mq.password_env)),
                    ),
                    mqtt_topic_prefix: fill(
                        m1.mqtt_topic_prefix,
                        trim_to_option_spec(ov(mq.topic_prefix)),
                    ),
                    mqtt_node_id: fill(m1.mqtt_node_id, trim_to_option_spec(ov(mq.node_id))),
                    ..m1
                }
}

fn filled(cur: &Option<String>, v: Option<&str>) -> (r: Option<String>)
    ensures
        ov(r) == fill(ov(*cur), opt_view(v)),
{
    match cur {
        Some(c) => Some(c.clone()),
        None => match v {
            Some(s) => Some(owned(s)),
            None => None,
        },
    }
}

/// Command-line flags override config values: every MQTT value given on
/// the command line survives the merge unchanged, and so does everything that
/// is not an MQTT setting.
pub proof fn lemma_command_line_wins(m: CliModel, config: WtgConfig)
    ensures
        ({
            let r = apply_config_spec(m, config);
            &&& m.mqtt_host is Some ==> r.mqtt_host == m.mqtt_host
            &&& m.mqtt_port is Some ==> r.mqtt_port == m.mqtt_port
            &&& m.mqtt_username is Some ==> r.mqtt_username == m.mqtt_username
            &&& m.mqtt_password is Some ==> r.mqtt_password == m.mqtt_password
            &&& m.mqtt_password_env is Some ==> r.mqtt_password_env == m.mqtt_password_env
            &&& m.mqtt_topic_prefix is Some ==> r.mqtt_topic_prefix == m.mqtt_topic_prefix
            &&& m.mqtt_node_id is Some ==> r.mqtt_node_id == m.mqtt_node_id
            &&& m.mqtt_ha_prefix is Some ==> r.mqtt_ha_prefix == m.mqtt_ha_prefix
            &&& m.mqtt_ha_discovery ==> r.mqtt_ha_discovery
            &&& m.mqtt_retain_discovery ==> r.mqtt_retain_discovery
            &&& r.once == m.once && r.watch == m.watch && r.probe == m.probe
            &&& r.probe_fields == m.probe_fields && r.stats == m.stats
            &&& r.help == m.help && r.version == m.version
            &&& r.provider == m.provider && r.config_path == m.config_path
            &&& r.interval_ms == m.interval_ms && r.sink == m.sink
            &&& r.mqtt_ha_remove_discovery == m.mqtt_ha_remove_discovery
            &&& r.mqtt_ha_discovery_from_cli == m.mqtt_ha_discovery_from_cli
            &&& r.mqtt_init_config == m.mqtt_init_config
            &&& r.mqtt_save_config == m.mqtt_save_config
            &&& r.force_config == m.force_config
            &&& r.field_ids == m.field_ids
        }),
{
}

proof fn lemma_values_idempotent(m: CliModel, mq: MqttConfig)
    ensures
        apply_values_spec(apply_values_spec(m, mq), mq) == apply_values_spec(m, mq),
{
}

proof fn lemma_ha_idempotent(m: CliModel, mq: MqttConfig)
    ensures
        apply_ha_spec(apply_ha_spec(m, mq), mq) == apply_ha_spec(m, mq),
{
}

proof fn lemma_values_then_ha(m: CliModel, mq: MqttConfig)
    ensures
        apply_values_spec(apply_ha_spec(apply_values_spec(m, mq), mq), mq) == apply_ha_spec(
            apply_values_spec(m, mq),
            mq,
        ),
{
    let v = apply_values_spec(m, mq);
    lemma_values_idempotent(m, mq);
    assert(apply_values_spec(apply_ha_spec(v, mq), mq) == apply_ha_spec(apply_values_spec(v, mq), mq));
}

/// Merging the same config file a second time changes nothing.
pub proof fn lemma_apply_config_idempotent(m: CliModel, config: WtgConfig)
    ensures
        apply_config_spec(apply_config_spec(m, config), config) == apply_config_spec(m, config),
{
    match config.mqtt {
        None => {},
        Some(mq) => {
            let enabled = mq.enabled == Some(true);
            let m1 = if enabled && m.sink is None {
                CliModel { mqtt_enabled_from_config: true, ..m }
            } else {
                m
            };
            if enabled || m.sink == Some(SinkKind::Mqtt) || m.mqtt_ha_remove_discovery {
                let h = apply_ha_spec(apply_values_spec(m1, mq), mq);
                assert(h.sink == m.sink && h.mqtt_ha_remove_discovery == m.mqtt_ha_remove_discovery);
                assert(enabled && m.sink is None ==> h.mqtt_enabled_from_config);
                let h1 = if enabled && h.sink is None {
                    CliModel { mqtt_enabled_from_config: true, ..h }
                } else {
                    h
                };
                assert(h1 == h);
                lemma_values_then_ha(m1, mq);
                lemma_ha_idempotent(apply_values_spec(m1, mq), mq);
                assert(apply_ha_spec(apply_values_spec(h, mq), mq) == h);
            }
        },
    }
}

/// Merges the config file into the parsed command line.
pub fn apply_config(parsed: &mut CliArgs, config: &WtgConfig)
    ensures
        final(parsed)@ == apply_config_spec(old(parsed)@, *config),
{
    let mqtt = match &config.mqtt {
        Some(m) => m,
        None => return,
    };
    let enabled = mqtt.enabled();
    if enabled && parsed.sink.is_none() {
        parsed.mqtt_enabled_from_config = true;
    }
    let apply = enabled || parsed.sink == Some(SinkKind::Mqtt) || parsed.mqtt_ha_remove_discovery;
    if !apply {
        return;
    }
    apply_mqtt_values(parsed, mqtt);
    apply_ha(parsed, mqtt);
}

fn apply_mqtt_values(parsed: &mut CliArgs, mqtt: &MqttConfig)
    ensures
        final(parsed)@ == apply_values_spec(old(parsed)@, *mqtt),
{
    let host = filled(&parsed.mqtt_host, mqtt.host());
    let port = filled_port(&parsed.mqtt_port, mqtt.port);
    let username = filled(&parsed.mqtt_username, mqtt.username());
    let password = filled(&parsed.mqtt_password, mqtt.password());
    let password_env = filled(&parsed.mqtt_password_env, mqtt.password_env());
    let topic_prefix = filled(&parsed.mqtt_topic_prefix, mqtt.topic_prefix());
    let node_id = filled(&parsed.mqtt_node_id, mqtt.node_id());
    parsed.mqtt_host = host;
    parsed.mqtt_port = port;
    parsed.mqtt_username = username;
    parsed.mqtt_password = password;
    parsed.mqtt_password_env = password_env;
    parsed.mqtt_topic_prefix = topic_prefix;
    parsed.mqtt_node_id = node_id;
    assert(parsed@ =~= apply_values_spec(old(parsed)@, *mqtt));
}

fn filled_port(cur: &Option<String>, port: Option<u16>) -> (r: Option<String>)
    ensures
        ov(r) == fill(
            ov(*cur),
            match port {
                Some(p) => Some(dec(p as nat)),
                None => None,
            },
        ),
{
    match cur {
        Some(c) => Some(c.clone()),
        None => match port {
            Some(p) => Some(dec_string(p as u64)),
            None => None,
        },
    }
}

#[verifier::rlimit(100)]
fn apply_ha(parsed: &mut CliArgs, mqtt: &MqttConfig)
    ensures
        final(parsed)@ == apply_ha_spec(old(parsed)@, *mqtt),
{
    match &mqtt.home_assistant {
        Some(ha) => {
            let config_discovery = match ha.discovery {
                Some(b) => b,
                None => false,
            };
            if config_discovery && !parsed.mqtt_ha_remove_discovery {
                parsed.mqtt_ha_discovery = true;
            }
            if parsed.mqtt_ha_discovery || parsed.mqtt_ha_remove_discovery || config_discovery {
                parsed.mqtt_ha_prefix = filled(&parsed.mqtt_ha_prefix, ha.discovery_prefix());
            }
            let retain = match ha.retain_discovery {
                Some(b) => b,
                None => false,
            };
            if (parsed.mqtt_ha_discovery || config_discovery) && retain {
                parsed.mqtt_retain_discovery = true;
            }
        },
        None => {},
    }
}

/// The options of the MQTT sink for these arguments (`None` when MQTT is
/// not active); `env_value` is what the variable named by
/// [`password_env_lookup_for_args`] holds.
pub fn mqtt_options_from_args(args: &CliArgs, env_value: Option<String>) -> (r: Result<
    Option<MqttOptions>,
    String,
>)
    ensures
        !mqtt_active_spec(args@) ==> r matches Ok(None),
        mqtt_active_spec(args@) ==> match options_values_spec(
            args@.mqtt_host,
            args@.mqtt_port,
            args@.mqtt_topic_prefix,
            args@.mqtt_node_id,
            args@.mqtt_username,
            args@.mqtt_password,
            args@.mqtt_password_env,
            args@.mqtt_ha_discovery,
            args@.mqtt_ha_remove_discovery,
            args@.mqtt_ha_prefix,
            opt_string_view(env_value),
        ) {
            Err(e) => r matches Err(m) && m@ == e,
            Ok(v) => r matches Ok(Some(o)) && options_hold(o, v.0, v.1, v.2, v.3, v.4, v.5, v.6),
        },
{
    mqtt_options_from_values(
        mqtt_is_active(args),
        as_deref(&args.mqtt_host),
        as_deref(&args.mqtt_port),
        as_deref(&args.mqtt_topic_prefix),
        as_deref(&args.mqtt_node_id),
        as_deref(&args.mqtt_username),
        as_deref(&args.mqtt_password),
        as_deref(&args.mqtt_password_env),
        args.mqtt_ha_discovery,
        args.mqtt_ha_remove_discovery,
        as_deref(&args.mqtt_ha_prefix),
        args.mqtt_retain_discovery,
        env_value,
    )
}

/// The environment variable to read for the MQTT password, if one is needed.
pub fn password_env_lookup_for_args(args: &CliArgs) -> (r: Option<String>)
    ensures
        opt_string_view(r) == password_env_lookup_spec(
            args@.mqtt_username,
            args@.mqtt_password,
            args@.mqtt_password_env,
        ),
{
    password_env_lookup(
        as_deref(&args.mqtt_username),
        as_deref(&args.mqtt_password),
        as_deref(&args.mqtt_password_env),
    )
}

/// The configuration `--mqtt-save-config` writes for these arguments.
pub fn saved_mqtt_config_from_args(args: &CliArgs) -> (r: Result<SavedMqttConfig, String>)
    ensures
        match saved_config_error(
            args@.mqtt_host,
            args@.mqtt_port,
            args@.mqtt_username,
            args@.mqtt_password,
            args@.mqtt_password_env,
            args@.mqtt_node_id,
            args@.mqtt_ha_discovery,
            args@.mqtt_ha_prefix,
            args@.mqtt_retain_discovery,
        ) {
            Some(e) => r matches Err(m) && m@ == e,
            None => r matches Ok(c) && {
                &&& c.host@ == trim(or_empty(args@.mqtt_host))
                &&& port_spec(args@.mqtt_port) == Ok::<u16, Seq<char>>(c.port)
                &&& c.username@ == trim(or_empty(args@.mqtt_username))
                &&& opt_string_view(c.password) == trim_to_option_spec(args@.mqtt_password)
                &&& opt_string_view(c.password_env) == trim_to_option_spec(args@.mqtt_password_env)
                &&& c.topic_prefix@ == or_default(args@.mqtt_topic_prefix, default_topic_prefix_spec())
                &&& c.node_id@ == trim(or_empty(args@.mqtt_node_id))
                &&& c.ha_discovery == args@.mqtt_ha_discovery
                &&& c.ha_discovery_prefix@ == or_default(
                    args@.mqtt_ha_prefix,
                    default_ha_discovery_prefix_spec(),
                )
                &&& c.ha_retain_discovery == args@.mqtt_retain_discovery
            },
        },
{
    saved_mqtt_config_from_values(
        as_deref(&args.mqtt_host),
        as_deref(&args.mqtt_port),
        as_deref(&args.mqtt_username),
        as_deref(&args.mqtt_password),
        as_deref(&args.mqtt_password_env),
        as_deref(&args.mqtt_topic_prefix),
        as_deref(&args.mqtt_node_id),
        args.mqtt_ha_discovery,
        as_deref(&args.mqtt_ha_prefix),
        args.mqtt_retain_discovery,
    )
}

} // verus!

verus! {

/// What reading one flag (and its value, if it takes one) gives.
pub enum ParseStep {
    /// The arguments after the flag; `two` when the flag took a value.
    Next(CliModel, bool),
    /// A usage error.
    Fail(Seq<char>),
}

/// The flags that take no value.
#[derive(Clone, Copy, PartialEq, Eq, Structural)]
pub enum BoolFlag {
    Once,
    Watch,
    Probe,
    ProbeFields,
    Stats,
    Help,
    Version,
    HaDiscovery,
    HaRemoveDiscovery,
    InitConfig,
    SaveConfig,
    ForceConfig,
    RetainDiscovery,
}

/// The flags that take a value.
#[derive(Clone, Copy, PartialEq, Eq, Structural)]
pub enum ValueFlag {
    Provider,
    Config,
    Interval,
    FieldId,
    Sink,
    MqttHost,
    MqttPort,
    MqttTopicPrefix,
    MqttNodeId,
    MqttUsername,
    MqttPassword,
    MqttPasswordEnv,
    MqttHaPrefix,
}

/// The flag without value that an argument spells, if any.
pub open spec fn bool_flag_of(a: Seq<char>) -> Option<BoolFlag> {
    if a == "--once"@ {
        Some(BoolFlag::Once)
    } else if a == "--watch"@ {
        Some(BoolFlag::Watch)
    } else if a == "--probe"@ {
        Some(BoolFlag::Probe)
    } else if a == "--probe-fields"@ {
        Some(BoolFlag::ProbeFields)
    } else if a == "--stats"@ {
        Some(BoolFlag::Stats)
    } else if a == "--help"@ || a == "-h"@ {
        Some(BoolFlag::Help)
    } else if a == "--version"@ || a == "-V"@ {
        Some(BoolFlag::Version)
    } else if a == "--mqtt-ha-discovery"@ {
        Some(BoolFlag::HaDiscovery)
    } else if a == "--mqtt-ha-remove-discovery"@ {
        Some(BoolFlag::HaRemoveDiscovery)
    } else if a == "--mqtt-init-config"@ {
        Some(BoolFlag::InitConfig)
    } else if a == "--mqtt-save-config"@ {
        Some(BoolFlag::SaveConfig)
    } else if a == "--force-config"@ {
        Some(BoolFlag::ForceConfig)
    } else if a == "--mqtt-retain-discovery"@ {
        Some(BoolFlag::RetainDiscovery)
    } else {
        None
    }
}

/// The effect of a flag without value: it sets its own switch (and
/// `--mqtt-ha-discovery` also records that it came from the command line).
pub open spec fn apply_bool_spec(f: BoolFlag, m: CliModel) -> CliModel {
    CliModel {
        once: m.once || f == BoolFlag::Once,
        watch: m.watch || f == BoolFlag::Watch,
        probe: m.probe || f == BoolFlag::Probe,
        probe_fields: m.probe_fields || f == BoolFlag::ProbeFields,
        stats: m.stats || f == BoolFlag::Stats,
        help: m.help || f == BoolFlag::Help,
        version: m.version || f == BoolFlag::Version,
        mqtt_ha_discovery: m.mqtt_ha_discovery || f == BoolFlag::HaDiscovery,
        mqtt_ha_discovery_from_cli: m.mqtt_ha_discovery_from_cli || f == BoolFlag::HaDiscovery,
        mqtt_ha_remove_discovery: m.mqtt_ha_remove_discovery || f == BoolFlag::HaRemoveDiscovery,
        mqtt_init_config: m.mqtt_init_config || f == BoolFlag::InitConfig,
        mqtt_save_config: m.mqtt_save_config || f == BoolFlag::SaveConfig,
        force_config: m.force_config || f == BoolFlag::ForceConfig,
        mqtt_retain_discovery: m.mqtt_retain_discovery || f == BoolFlag::RetainDiscovery,
        ..m
    }
}

/// The flag with value that an argument spells, if any.
pub open spec fn value_flag_of(a: Seq<char>) -> Option<ValueFlag> {
    if a == "--provider"@ {
        Some(ValueFlag::Provider)
    } else if a == "--config"@ {
        Some(ValueFlag::Config)
    } else if a == "--interval"@ {
        Some(ValueFlag::Interval)
    } else if a == "--field-id"@ {
        Some(ValueFlag::FieldId)
    } else if a == "--sink"@ {
        Some(ValueFlag::Sink)
    } else if a == "--mqtt-host"@ {
        Some(ValueFlag::MqttHost)
    } else if a == "--mqtt-port"@ {
        Some(ValueFlag::MqttPort)
    } else if a == "--mqtt-topic-prefix"@ {
        Some(ValueFlag::MqttTopicPrefix)
    } else if a == "--mqtt-node-id"@ {
        Some(ValueFlag::MqttNodeId)
    } else if a == "--mqtt-username"@ {
        Some(ValueFlag::MqttUsername)
    } else if a == "--mqtt-password"@ {
        Some(ValueFlag::MqttPassword)
    } else if a == "--mqtt-password-env"@ {
        Some(ValueFlag::MqttPasswordEnv)
    } else if a == "--mqtt-ha-prefix"@ {
        Some(ValueFlag::MqttHaPrefix)
    } else {
        None
    }
}

/// The error when a flag that needs a value ends the command line.
pub open spec fn missing_value_message(f: ValueFlag) -> Seq<char> {
    match f {
        ValueFlag::Provider => "--provider requires a value. Supported: amd, intel."@,
        ValueFlag::Config => "--config requires a TOML file path."@,
        ValueFlag::Interval => "--interval requires a value in milliseconds (e.g., --interval 1000)."@,
        ValueFlag::FieldId => "--field-id requires a u32 field ID value."@,
        ValueFlag::Sink => "--sink requires a value (csv, jsonl, or mqtt)."@,
        ValueFlag::MqttHost => "--mqtt-host requires a host value."@,
        ValueFlag::MqttPort => "--mqtt-port requires a port value."@,
        ValueFlag::MqttTopicPrefix => "--mqtt-topic-prefix requires a topic prefix value."@,
        ValueFlag::MqttNodeId => "--mqtt-node-id requires a node ID value."@,
        ValueFlag::MqttUsername => "--mqtt-username requires a username value."@,
        ValueFlag::MqttPassword => "--mqtt-password requires a password value."@,
        ValueFlag::MqttPasswordEnv => "--mqtt-password-env requires an environment variable name."@,
        ValueFlag::MqttHaPrefix => "--mqtt-ha-prefix requires a discovery prefix value."@,
    }
}

/// The effect of a flag with its value `v`.
pub open spec fn value_flag_step(f: ValueFlag, v: Seq<char>, m: CliModel) -> ParseStep {
    match f {
        ValueFlag::Provider => if v == "amd"@ {
            ParseStep::Next(CliModel { provider: Some(ProviderKind::Amd), ..m }, true)
        } else if v == "intel"@ {
            ParseStep::Next(CliModel { provider: Some(ProviderKind::Intel), ..m }, true)
        } else {
            ParseStep::Fail("--provider value must be amd or intel. Got: "@ + v)
        },
        ValueFlag::Interval => match parse_unsigned_spec(v, u64::MAX as nat) {
            Some(n) => ParseStep::Next(CliModel { interval_ms: Some(n as u64), ..m }, true),
            None => ParseStep::Fail(
                "--interval value must be an integer milliseconds value. Got: "@ + v,
            ),
        },
        ValueFlag::FieldId => match parse_unsigned_spec(v, u32::MAX as nat) {
            Some(n) => ParseStep::Next(CliModel { field_ids: m.field_ids.push(n as u32), ..m }, true),
            None => ParseStep::Fail("--field-id value must be a u32 integer. Got: "@ + v),
        },
        ValueFlag::Sink => if v == "csv"@ {
            ParseStep::Next(CliModel { sink: Some(SinkKind::Csv), ..m }, true)
        } else if v == "jsonl"@ {
            ParseStep::Next(CliModel { sink: Some(SinkKind::Jsonl), ..m }, true)
        } else if v == "mqtt"@ {
            ParseStep::Next(CliModel { sink: Some(SinkKind::Mqtt), ..m }, true)
        } else {
            ParseStep::Fail("--sink value must be csv, jsonl, or mqtt. Got: "@ + v)
        },
        _ => ParseStep::Next(set_text_value(f, v, m), true),
    }
}

/// The effect of a flag whose value is kept as given: it records the value
/// in its own field.
pub open spec fn set_text_value(f: ValueFlag, v: Seq<char>, m: CliModel) -> CliModel {
    match f {
        ValueFlag::Config => CliModel { config_path: Some(v), ..m },
        ValueFlag::MqttHost => CliModel { mqtt_host: Some(v), ..m },
        ValueFlag::MqttPort => CliModel { mqtt_port: Some(v), ..m },
        ValueFlag::MqttTopicPrefix => CliModel { mqtt_topic_prefix: Some(v), ..m },
        ValueFlag::MqttNodeId => CliModel { mqtt_node_id: Some(v), ..m },
        ValueFlag::MqttUsername => CliModel { mqtt_username: Some(v), ..m },
        ValueFlag::MqttPassword => CliModel { mqtt_password: Some(v), ..m },
        ValueFlag::MqttPasswordEnv => CliModel { mqtt_password_env: Some(v), ..m },
        _ => CliModel { mqtt_ha_prefix: Some(v), ..m },
    }
}

/// Reads the flag at position `i`.
pub open spec fn parse_step(args: Seq<Seq<char>>, i: int, m: CliModel) -> ParseStep {
    let a = args[i];
    match bool_flag_of(a) {
        Some(f) => ParseStep::Next(apply_bool_spec(f, m), false),
        None => match value_flag_of(a) {
            Some(f) => if i + 1 >= args.len() {
                ParseStep::Fail(missing_value_message(f))
            } else {
                value_flag_step(f, args[i + 1], m)
            },
            None => if a.len() > 0 && a[0] == '-' {
                ParseStep::Fail("unknown flag: "@ + a)
            } else {
                ParseStep::Fail("unexpected argument: "@ + a)
            },
        },
    }
}

/// Reads the flags from position `i` on.
pub open spec fn parse_from(args: Seq<Seq<char>>, i: int, m: CliModel) -> Result<
    CliModel,
    Seq<char>,
>
    decreases args.len() - i,
{
    if i >= args.len() || i < 0 {
        Ok(m)
    } else {
        match parse_step(args, i, m) {
            ParseStep::Next(m2, two) => parse_from(
                args,
                if two {
                    i + 2
                } else {
                    i + 1
                },
                m2,
            ),
            ParseStep::Fail(e) => Err(e),
        }
    }
}

/// The command line read from the program's arguments (the first being the
/// program itself), before any config file is merged in.
pub open spec fn parse_args_spec(args: Seq<Seq<char>>) -> Result<CliModel, Seq<char>> {
    match parse_from(args, 1, default_model()) {
        Err(e) => Err(e),
        Ok(m) => if m.force_config && !m.mqtt_save_config {
            Err("--force-config is valid only with --mqtt-save-config."@)
        } else if m.mqtt_save_config && save_config_args_error(m) is Some {
            Err(save_config_args_error(m)->Some_0)
        } else {
            Ok(m)
        },
    }
}

/// The views of a list of strings.
pub open spec fn views(args: Seq<String>) -> Seq<Seq<char>> {
    args.map_values(|s: String| s@)
}

fn bool_flag(a: &str) -> (r: Option<BoolFlag>)
    ensures
        r == bool_flag_of(a@),
{
    if str_eq(a, "--once") {
        Some(BoolFlag::Once)
    } else if str_eq(a, "--watch") {
        Some(BoolFlag::Watch)
    } else if str_eq(a, "--probe") {
        Some(BoolFlag::Probe)
    } else if str_eq(a, "--probe-fields") {
        Some(BoolFlag::ProbeFields)
    } else if str_eq(a, "--stats") {
        Some(BoolFlag::Stats)
    } else if str_eq(a, "--help") || str_eq(a, "-h") {
        Some(BoolFlag::Help)
    } else if str_eq(a, "--version") || str_eq(a, "-V") {
        Some(BoolFlag::Version)
    } else if str_eq(a, "--mqtt-ha-discovery") {
        Some(BoolFlag::HaDiscovery)
    } else if str_eq(a, "--mqtt-ha-remove-discovery") {
        Some(BoolFlag::HaRemoveDiscovery)
    } else if str_eq(a, "--mqtt-init-config") {
        Some(BoolFlag::InitConfig)
    } else if str_eq(a, "--mqtt-save-config") {
        Some(BoolFlag::SaveConfig)
    } else if str_eq(a, "--force-config") {
        Some(BoolFlag::ForceConfig)
    } else if str_eq(a, "--mqtt-retain-discovery") {
        Some(BoolFlag::RetainDiscovery)
    } else {
        None
    }
}

fn apply_bool_flag(f: BoolFlag, parsed: &mut CliArgs)
    ensures
        final(parsed)@ == apply_bool_spec(f, old(parsed)@),
{
    match f {
        BoolFlag::Once => {
            parsed.once = true;
            return ;
        },
        BoolFlag::Watch => {
            parsed.watch = true;
            return ;
        },
        BoolFlag::Probe => {
            parsed.probe = true;
            return ;
        },
        BoolFlag::ProbeFields => {
            parsed.probe_fields = true;
            return ;
        },
        BoolFlag::Stats => {
            parsed.stats = true;
            return ;
        },
        BoolFlag::Help => {
            parsed.help = true;
            return ;
        },
        BoolFlag::Version => {
            parsed.version = true;
            return ;
        },
        BoolFlag::HaDiscovery => {
            parsed.mqtt_ha_discovery = true;
            parsed.mqtt_ha_discovery_from_cli = true;
            return ;
        },
        BoolFlag::HaRemoveDiscovery => {
            parsed.mqtt_ha_remove_discovery = true;
            return ;
        },
        BoolFlag::InitConfig => {
            parsed.mqtt_init_config = true;
            return ;
        },
        BoolFlag::SaveConfig => {
            parsed.mqtt_save_config = true;
            return ;
        },
        BoolFlag::ForceConfig => {
            parsed.force_config = true;
            return ;
        },
        BoolFlag::RetainDiscovery => {
            parsed.mqtt_retain_discovery = true;
            return ;
        },
    }
}

fn value_flag(a: &str) -> (r: Option<ValueFlag>)
    ensures
        r == value_flag_of(a@),
{
    if str_eq(a, "--provider") {
        Some(ValueFlag::Provider)
    } else if str_eq(a, "--config") {
        Some(ValueFlag::Config)
    } else if str_eq(a, "--interval") {
        Some(ValueFlag::Interval)
    } else if str_eq(a, "--field-id") {
        Some(ValueFlag::FieldId)
    } else if str_eq(a, "--sink") {
        Some(ValueFlag::Sink)
    } else if str_eq(a, "--mqtt-host") {
        Some(ValueFlag::MqttHost)
    } else if str_eq(a, "--mqtt-port") {
        Some(ValueFlag::MqttPort)
    } else if str_eq(a, "--mqtt-topic-prefix") {
        Some(ValueFlag::MqttTopicPrefix)
    } else if str_eq(a, "--mqtt-node-id") {
        Some(ValueFlag::MqttNodeId)
    } else if str_eq(a, "--mqtt-username") {
        Some(ValueFlag::MqttUsername)
    } else if str_eq(a, "--mqtt-password") {
        Some(ValueFlag::MqttPassword)
    } else if str_eq(a, "--mqtt-password-env") {
        Some(ValueFlag::MqttPasswordEnv)
    } else if str_eq(a, "--mqtt-ha-prefix") {
        Some(ValueFlag::MqttHaPrefix)
    } else {
        None
    }
}

fn missing_value(f: ValueFlag) -> (r: &'static str)
    ensures
        r@ == missing_value_message(f),
{
    match f {
        ValueFlag::Provider => "--provider requires a value. Supported: amd, intel.",
        ValueFlag::Config => "--config requires a TOML file path.",
        ValueFlag::Interval => "--interval requires a value in milliseconds (e.g., --interval 1000).",
        ValueFlag::FieldId => "--field-id requires a u32 field ID value.",
        ValueFlag::Sink => "--sink requires a value (csv, jsonl, or mqtt).",
        ValueFlag::MqttHost => "--mqtt-host requires a host value.",
        ValueFlag::MqttPort => "--mqtt-port requires a port value.",
        ValueFlag::MqttTopicPrefix => "--mqtt-topic-prefix requires a topic prefix value.",
        ValueFlag::MqttNodeId => "--mqtt-node-id requires a node ID value.",
        ValueFlag::MqttUsername => "--mqtt-username requires a username value.",
        ValueFlag::MqttPassword => "--mqtt-password requires a password value.",
        ValueFlag::MqttPasswordEnv => "--mqtt-password-env requires an environment variable name.",
        ValueFlag::MqttHaPrefix => "--mqtt-ha-prefix requires a discovery prefix value.",
    }
}

fn fail_with(prefix: &str, v: &str) -> (r: Result<(), String>)
    ensures
        r matches Err(e) && e@ == prefix@ + v@,
{
    let mut e = owned(prefix);
    push_str(&mut e, v);
    Err(e)
}

#[verifier::rlimit(80)]
fn apply_choice_flag(f: ValueFlag, v: &str, parsed: &mut CliArgs) -> (r: Result<(), String>)
    requires
        f == ValueFlag::Provider || f == ValueFlag::Sink || f == ValueFlag::Interval || f
            == ValueFlag::FieldId,
    ensures
        match value_flag_step(f, v@, old(parsed)@) {
            ParseStep::Next(m2, _) => r is Ok && final(parsed)@ == m2,
            ParseStep::Fail(e) => r matches Err(m) && m@ == e,
        },
{
    match f {
        ValueFlag::Provider => {
            if str_eq(v, "amd") {
                parsed.provider = Some(ProviderKind::Amd);
            } else if str_eq(v, "intel") {
                parsed.provider = Some(ProviderKind::Intel);
            } else {
                return fail_with("--provider value must be amd or intel. Got: ", v);
            }
        },
        ValueFlag::Sink => {
            if str_eq(v, "csv") {
                parsed.sink = Some(SinkKind::Csv);
            } else if str_eq(v, "jsonl") {
                parsed.sink = Some(SinkKind::Jsonl);
            } else if str_eq(v, "mqtt") {
                parsed.sink = Some(SinkKind::Mqtt);
            } else {
                return fail_with("--sink value must be csv, jsonl, or mqtt. Got: ", v);
            }
        },
        ValueFlag::Interval => {
            match parse_unsigned(v, u64::MAX) {
                Some(n) => {
                    parsed.interval_ms = Some(n);
                },
                None => {
                    return fail_with(
                        "--interval value must be an integer milliseconds value. Got: ",
                        v,
                    );
                },
            }
        },
        _ => {
            match parse_unsigned(v, u32::MAX as u64) {
                Some(n) => {
                    parsed.field_ids.push(n as u32);
                },
                None => {
                    return fail_with("--field-id value must be a u32 integer. Got: ", v);
                },
            }
        },
    }
    Ok(())
}

fn apply_text_flag(f: ValueFlag, v: &str, parsed: &mut CliArgs)
    requires
        !(f == ValueFlag::Provider || f == ValueFlag::Sink || f == ValueFlag::Interval || f
            == ValueFlag::FieldId),
    ensures
        final(parsed)@ == set_text_value(f, v@, old(parsed)@),
{
    match f {
        ValueFlag::Config => {
            parsed.config_path = Some(owned(v));
            return ;
        },
        ValueFlag::MqttHost => {
            parsed.mqtt_host = Some(owned(v));
            return ;
        },
        ValueFlag::MqttPort => {
            parsed.mqtt_port = Some(owned(v));
            return ;
        },
        ValueFlag::MqttTopicPrefix => {
            parsed.mqtt_topic_prefix = Some(owned(v));
            return ;
        },
        ValueFlag::MqttNodeId => {
            parsed.mqtt_node_id = Some(owned(v));
            return ;
        },
        ValueFlag::MqttUsername => {
            parsed.mqtt_username = Some(owned(v));
            return ;
        },
        ValueFlag::MqttPassword => {
            parsed.mqtt_password = Some(owned(v));
            return ;
        },
        ValueFlag::MqttPasswordEnv => {
            parsed.mqtt_password_env = Some(owned(v));
            return ;
        },
        ValueFlag::MqttHaPrefix => {
            parsed.mqtt_ha_prefix = Some(owned(v));
            return ;
        },
        ValueFlag::Provider | ValueFlag::Sink | ValueFlag::Interval | ValueFlag::FieldId => {
            return ;
        },
    }
}

fn apply_value_flag(f: ValueFlag, v: &str, parsed: &mut CliArgs) -> (r: Result<(), String>)
    ensures
        match value_flag_step(f, v@, old(parsed)@) {
            ParseStep::Next(m2, _) => r is Ok && final(parsed)@ == m2,
            ParseStep::Fail(e) => r matches Err(m) && m@ == e,
        },
{
    if f == ValueFlag::Provider || f == ValueFlag::Sink || f == ValueFlag::Interval || f
        == ValueFlag::FieldId {
        apply_choice_flag(f, v, parsed)
    } else {
        apply_text_flag(f, v, parsed);
        Ok(())
    }
}

fn starts_with_dash(a: &str) -> (b: bool)
    ensures
        b == (a@.len() > 0 && a@[0] == '-'),
{
    if a.unicode_len() == 0 {
        false
    } else {
        a.get_char(0) == '-'
    }
}

/// Reads the command line (the first argument being the program itself).
/// The config file named by `--config` is not read here: see
/// [`finish_cli_args`].
pub fn parse_cli_args(args: &Vec<String>) -> (r: Result<CliArgs, String>)
    ensures
        match parse_args_spec(views(args@)) {
            Ok(m) => r matches Ok(p) && p@ == m,
            Err(e) => r matches Err(m) && m@ == e,
        },
{
    let ghost argv = views(args@);
    let mut parsed = CliArgs::default();
    let mut i: usize = 1;
    while i < args.len()
        invariant
            argv == views(args@),
            1 <= i,
            parse_from(argv, 1, default_model()) == parse_from(argv, i as int, parsed@),
        decreases args.len() - i,
    {
        let a = args[i].as_str();
        assert(argv[i as int] == a@);
        match bool_flag(a) {
            Some(f) => {
                apply_bool_flag(f, &mut parsed);
                i = i + 1;
            },
            None => match value_flag(a) {
                Some(f) => {
                    if i + 1 >= args.len() {
                        return Err(owned(missing_value(f)));
                    }
                    assert(argv[i + 1] == args@[i + 1]@);
                    match apply_value_flag(f, args[i + 1].as_str(), &mut parsed) {
                        Ok(()) => {},
                        Err(e) => return Err(e),
                    }
                    i = i + 2;
                },
                None => {
                    if starts_with_dash(a) {
                        let mut e = owned("unknown flag: ");
                        push_str(&mut e, a);
                        return Err(e);
                    } else {
                        let mut e = owned("unexpected argument: ");
                        push_str(&mut e, a);
                        return Err(e);
                    }
                },
            },
        }
    }
    if parsed.force_config && !parsed.mqtt_save_config {
        return Err(owned("--force-config is valid only with --mqtt-save-config."));
    }
    if parsed.mqtt_save_config {
        match validate_save_config_args(&parsed) {
            Ok(()) => {},
            Err(e) => return Err(e),
        }
    }
    Ok(parsed)
}

/// What the arguments become once the config file (when `--config` named
/// one, and no config-writing mode was asked for) is merged in and the
/// rules are checked.
pub open spec fn finish_spec(m: CliModel, config: Option<WtgConfig>) -> Result<CliModel, Seq<char>> {
    if m.mqtt_init_config || m.mqtt_save_config {
        Ok(m)
    } else {
        let merged = match config {
            Some(c) => apply_config_spec(m, c),
            None => m,
        };
        match validate_error(merged) {
            Some(e) => Err(e),
            None => Ok(merged),
        }
    }
}

/// Merges the loaded config file, if any, and checks the runtime rules;
/// the config-writing modes are returned as they are.
pub fn finish_cli_args(parsed: CliArgs, config: Option<&WtgConfig>) -> (r: Result<CliArgs, String>)
    ensures
        match finish_spec(
            parsed@,
            match config {
                Some(c) => Some(*c),
                None => None,
            },
        ) {
            Ok(m) => r matches Ok(p) && p@ == m,
            Err(e) => r matches Err(m) && m@ == e,
        },
{
    let mut parsed = parsed;
    if parsed.mqtt_init_config || parsed.mqtt_save_config {
        return Ok(parsed);
    }
    match config {
        Some(c) => apply_config(&mut parsed, c),
        None => {},
    }
    match validate_args_result(&parsed) {
        Ok(()) => Ok(parsed),
        Err(e) => Err(e),
    }
}

} // verus!
