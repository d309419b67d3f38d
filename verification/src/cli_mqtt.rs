//! What the command line publishes over MQTT: the state topic and payload of
//! each GPU, and the Home Assistant discovery configs of its sensors.
use vstd::prelude::*;

use crate::cli::CliArgs;
use crate::config::as_deref;
use crate::json::{json_string_spec, push_json_string};
use crate::mqtt::{
    availability_topic_spec, default_ha_discovery_prefix, default_ha_discovery_prefix_spec,
    default_topic_prefix, default_topic_prefix_spec, format_availability_topic, MqttPublishSpec,
    publish_view,
};
use crate::nvml::probe_context::{GpuProbeContext, ProbeContextModel};
use crate::nvml::{mib, opt_text, GpuSnapshot, GpuSnapshotModel};
use crate::stats::{bytes_to_mib, wtg_version, wtg_version_spec};
use crate::text::{dec, join_with, non_blank, opt_view, owned, push_dec, push_str, trim};

verus! {

// ---------------------------------------------------------------------------
// Which prefixes and node the command line gives.
// ---------------------------------------------------------------------------
/// A value that is something once trimmed, or the default.
pub open spec fn trimmed_or(value: Option<Seq<char>>, default: Seq<char>) -> Seq<char> {
    match value {
        Some(v) => if trim(v).len() > 0 {
            trim(v)
        } else {
            default
        },
        None => default,
    }
}

fn trimmed_or_default<'a>(value: Option<&'a str>, default: &'a str) -> (r: &'a str)
    ensures
        r@ == trimmed_or(opt_view(value), default@),
{
    match non_blank(value) {
        Some(v) => v,
        None => default,
    }
}

/// The topic prefix: the one given, trimmed, or `wtg`.
pub fn topic_prefix(args: &CliArgs) -> (r: &str)
    ensures
        r@ == trimmed_or(args@.mqtt_topic_prefix, default_topic_prefix_spec()),
{
    trimmed_or_default(as_deref(&args.mqtt_topic_prefix), default_topic_prefix())
}

/// The node id: the one given, trimmed, or empty.
pub fn node_id(args: &CliArgs) -> (r: &str)
    ensures
        r@ == trimmed_or(args@.mqtt_node_id, Seq::empty()),
{
    let empty = "";
    proof {
        reveal_strlit("");
    }
    trimmed_or_default(as_deref(&args.mqtt_node_id), empty)
}

/// The Home Assistant discovery prefix: the one given, trimmed, or
/// `homeassistant`.
pub fn ha_prefix(args: &CliArgs) -> (r: &str)
    ensures
        r@ == trimmed_or(args@.mqtt_ha_prefix, default_ha_discovery_prefix_spec()),
{
    trimmed_or_default(as_deref(&args.mqtt_ha_prefix), default_ha_discovery_prefix())
}

/// `<prefix>/<node>/gpu<index>/state`.
pub open spec fn state_topic_spec(topic_prefix: Seq<char>, node_id: Seq<char>, gpu_index: u32) -> Seq<char> {
    topic_prefix + "/"@ + node_id + "/gpu"@ + dec(gpu_index as nat) + "/state"@
}

/// The state topic of one GPU.
pub fn format_state_topic(topic_prefix: &str, node_id: &str, gpu_index: u32) -> (r: String)
    ensures
        r@ == state_topic_spec(topic_prefix@, node_id@, gpu_index),
{
    let mut t = owned(topic_prefix);
    push_str(&mut t, "/");
    push_str(&mut t, node_id);
    push_str(&mut t, "/gpu");
    push_dec(&mut t, gpu_index as u64);
    push_str(&mut t, "/state");
    t
}

/// The retained `online` message on the availability topic.
pub fn ha_availability_online_spec(topic_prefix: &str, node_id: &str) -> (r: MqttPublishSpec)
    ensures
        publish_view(r) == (availability_topic_spec(topic_prefix@, node_id@), "online"@.map_values(
            |c: char| c as u8,
        ), true),
{
    let payload: Vec<u8> = vec![111u8, 110u8, 108u8, 105u8, 110u8, 101u8];
    proof {
        reveal_strlit("online");
        assert(payload@ =~= "online"@.map_values(|c: char| c as u8));
    }
    MqttPublishSpec { topic: format_availability_topic(topic_prefix, node_id), payload, retain: true }
}

/// The host name given in the payloads: `COMPUTERNAME` if it is set, else
/// `HOSTNAME`, trimmed; `unknown` when that leaves nothing.
pub open spec fn hostname_spec(computername: Option<Seq<char>>, hostname: Option<Seq<char>>) -> Seq<char> {
    let chosen = match computername {
        Some(c) => Some(c),
        None => hostname,
    };
    trimmed_or(chosen, "unknown"@)
}

/// The host name given in the payloads, from the values of the
/// `COMPUTERNAME` and `HOSTNAME` environment variables (`None` when unset).
pub fn local_hostname(computername: Option<String>, hostname: Option<String>) -> (r: String)
    ensures
        r@ == hostname_spec(opt_text(computername), opt_text(hostname)),
{
    let chosen = match computername {
        Some(c) => Some(c),
        None => hostname,
    };
    let ghost cv = opt_text(chosen);
    let r = match &chosen {
        Some(c) => owned(trimmed_or_default(Some(c.as_str()), "unknown")),
        None => owned("unknown"),
    };
    assert(r@ == trimmed_or(cv, "unknown"@));
    r
}

// ---------------------------------------------------------------------------
// Home Assistant sensors.
// ---------------------------------------------------------------------------
/// One sensor announced to Home Assistant.
pub struct HaSensorMetric {
    pub key: &'static str,
    pub name: &'static str,
    pub unit: Option<&'static str>,
    pub device_class: Option<&'static str>,
    pub state_class: Option<&'static str>,
}

/// A sensor as values: key, name, unit, device class and state class.
pub type MetricModel = (Seq<char>, Seq<char>, Option<Seq<char>>, Option<Seq<char>>, Option<Seq<char>>);

/// An optional static text as values.
pub open spec fn ostr(v: Option<&'static str>) -> Option<Seq<char>> {
    match v {
        Some(s) => Some(s@),
        None => None,
    }
}

/// A sensor as values.
pub open spec fn metric_view(m: HaSensorMetric) -> MetricModel {
    (m.key@, m.name@, ostr(m.unit), ostr(m.device_class), ostr(m.state_class))
}

/// A numeric sensor.
pub open spec fn numeric(key: Seq<char>, name: Seq<char>, unit: Seq<char>, class: Option<Seq<char>>) -> MetricModel {
    (key, name, Some(unit), class, Some("measurement"@))
}

/// A text sensor.
pub open spec fn textual(key: Seq<char>, name: Seq<char>) -> MetricModel {
    (key, name, None, None, None)
}

/// The sensors of each GPU, in order.
pub open spec fn ha_sensor_metrics_spec() -> Seq<MetricModel> {
    seq![
        numeric("util_gpu_pct"@, "GPU utilization"@, "%"@, None),
        numeric("util_mem_controller_pct"@, "Memory controller utilization"@, "%"@, None),
        numeric("vram_used_mib"@, "VRAM used"@, "MiB"@, None),
        numeric("vram_total_mib"@, "VRAM total"@, "MiB"@, None),
        numeric("power_w"@, "Power"@, "W"@, Some("power"@)),
        numeric("power_limit_w"@, "Power limit"@, "W"@, Some("power"@)),
        numeric("temp_c"@, "Temperature"@, "\u{00b0}C"@, Some("temperature"@)),
        textual("driver_version"@, "Driver version"@),
        textual("cuda_driver_version"@, "CUDA driver version"@),
        textual("compute_mode"@, "Compute mode"@),
        textual("perf_state"@, "Performance state"@),
        textual("pci_bus_id"@, "PCI bus ID"@),
        textual("wtg_version"@, "WTG version"@),
    ]
}

fn numeric_metric(key: &'static str, name: &'static str, unit: &'static str, class: Option<&'static str>) -> (m:
    HaSensorMetric)
    ensures
        metric_view(m) == numeric(key@, name@, unit@, ostr(class)),
{
    HaSensorMetric { key, name, unit: Some(unit), device_class: class, state_class: Some("measurement") }
}

fn textual_metric(key: &'static str, name: &'static str) -> (m: HaSensorMetric)
    ensures
        metric_view(m) == textual(key@, name@),
{
    HaSensorMetric { key, name, unit: None, device_class: None, state_class: None }
}

/// The sensors announced for each GPU.
pub fn ha_sensor_metrics() -> (v: Vec<HaSensorMetric>)
    ensures
        v@.map_values(|m: HaSensorMetric| metric_view(m)) == ha_sensor_metrics_spec(),
{
    let v = vec![
        numeric_metric("util_gpu_pct", "GPU utilization", "%", None),
        numeric_metric("util_mem_controller_pct", "Memory controller utilization", "%", None),
        numeric_metric("vram_used_mib", "VRAM used", "MiB", None),
        numeric_metric("vram_total_mib", "VRAM total", "MiB", None),
        numeric_metric("power_w", "Power", "W", Some("power")),
        numeric_metric("power_limit_w", "Power limit", "W", Some("power")),
        numeric_metric("temp_c", "Temperature", "\u{00b0}C", Some("temperature")),
        textual_metric("driver_version", "Driver version"),
        textual_metric("cuda_driver_version", "CUDA driver version"),
        textual_metric("compute_mode", "Compute mode"),
        textual_metric("perf_state", "Performance state"),
        textual_metric("pci_bus_id", "PCI bus ID"),
        textual_metric("wtg_version", "WTG version"),
    ];
    assert(v@.map_values(|m: HaSensorMetric| metric_view(m)) =~= ha_sensor_metrics_spec());
    v
}

/// An optional `,"<key>":"<value>"` member.
pub open spec fn optional_member(key: Seq<char>, value: Option<Seq<char>>) -> Seq<char> {
    match value {
        Some(v) => ","@ + json_string_spec(key) + ":"@ + json_string_spec(v),
        None => Seq::empty(),
    }
}

/// The discovery config of one sensor of one GPU: its name, ids, topics and
/// device, then its unit and classes when it has them.
pub open spec fn ha_discovery_payload_spec(
    node_id: Seq<char>,
    s: GpuSnapshotModel,
    m: MetricModel,
    state_topic: Seq<char>,
    availability_topic: Seq<char>,
) -> Seq<char> {
    let idx = dec(s.index as nat);
    "{"@ + "\"name\":"@ + json_string_spec("GPU "@ + idx + " "@ + m.1) + ","@ + "\"unique_id\":"@
        + json_string_spec("wtg_"@ + node_id + "_gpu"@ + idx + "_"@ + m.0) + ","@
        + "\"state_topic\":"@ + json_string_spec(state_topic) + ","@ + "\"value_template\":"@
        + json_string_spec("{{ value_json."@ + m.0 + " }}"@) + ","@ + "\"availability_topic\":"@
        + json_string_spec(availability_topic) + ","@ + "\"payload_available\":\"online\","@
        + "\"device\":{"@ + "\"identifiers\":["@ + json_string_spec(
        "wtg_"@ + node_id + "_gpu"@ + idx,
    ) + "],"@ + "\"name\":"@ + json_string_spec("WTG "@ + node_id + " GPU "@ + idx) + ","@
        + "\"manufacturer\":\"WTG\","@ + "\"model\":"@ + json_string_spec(s.name) + ","@
        + "\"sw_version\":"@ + json_string_spec(wtg_version_spec()) + "}"@ + optional_member(
        "unit_of_measurement"@,
        m.2,
    ) + optional_member("device_class"@, m.3) + optional_member("state_class"@, m.4) + "}"@
}

fn push_optional_member(r: &mut String, key: &str, value: Option<&'static str>)
    ensures
        final(r)@ == old(r)@ + optional_member(key@, ostr(value)),
{
    match value {
        Some(v) => {
            let ghost before = r@;
            push_str(r, ",");
            push_json_string(r, key);
            push_str(r, ":");
            push_json_string(r, v);
            assert(r@ =~= before + optional_member(key@, ostr(value)));
        },
        None => {
            assert(r@ =~= old(r)@ + optional_member(key@, ostr(value)));
        },
    }
}

/// The discovery config of one sensor of one GPU.
pub fn format_ha_discovery_payload(
    node_id: &str,
    snapshot: &GpuSnapshot,
    metric: &HaSensorMetric,
    state_topic: &str,
    availability_topic: &str,
) -> (r: String)
    ensures
        r@ == ha_discovery_payload_spec(
            node_id@,
            snapshot@,
            metric_view(*metric),
            state_topic@,
            availability_topic@,
        ),
{
    let mut display = owned("GPU ");
    push_dec(&mut display, snapshot.index as u64);
    push_str(&mut display, " ");
    push_str(&mut display, metric.name);
    let mut device_id = owned("wtg_");
    push_str(&mut device_id, node_id);
    push_str(&mut device_id, "_gpu");
    push_dec(&mut device_id, snapshot.index as u64);
    let mut unique_id = device_id.clone();
    push_str(&mut unique_id, "_");
    push_str(&mut unique_id, metric.key);
    let mut template = owned("{{ value_json.");
    push_str(&mut template, metric.key);
    push_str(&mut template, " }}");
    let mut device_name = owned("WTG ");
    push_str(&mut device_name, node_id);
    push_str(&mut device_name, " GPU ");
    push_dec(&mut device_name, snapshot.index as u64);

    let mut r = owned("{");
    push_str(&mut r, "\"name\":");
    push_json_string(&mut r, display.as_str());
    push_str(&mut r, ",");
    push_str(&mut r, "\"unique_id\":");
    push_json_string(&mut r, unique_id.as_str());
    push_str(&mut r, ",");
    push_str(&mut r, "\"state_topic\":");
    push_json_string(&mut r, state_topic);
    push_str(&mut r, ",");
    push_str(&mut r, "\"value_template\":");
    push_json_string(&mut r, template.as_str());
    push_str(&mut r, ",");
    push_str(&mut r, "\"availability_topic\":");
    push_json_string(&mut r, availability_topic);
    push_str(&mut r, ",");
    push_str(&mut r, "\"payload_available\":\"online\",");
    push_str(&mut r, "\"device\":{");
    push_str(&mut r, "\"identifiers\":[");
    push_json_string(&mut r, device_id.as_str());
    push_str(&mut r, "],");
    push_str(&mut r, "\"name\":");
    push_json_string(&mut r, device_name.as_str());
    push_str(&mut r, ",");
    push_str(&mut r, "\"manufacturer\":\"WTG\",");
    push_str(&mut r, "\"model\":");
    push_json_string(&mut r, snapshot.name.as_str());
    push_str(&mut r, ",");
    push_str(&mut r, "\"sw_version\":");
    push_json_string(&mut r, wtg_version());
    push_str(&mut r, "}");
    let ghost body = r@;
    push_optional_member(&mut r, "unit_of_measurement", metric.unit);
    push_optional_member(&mut r, "device_class", metric.device_class);
    push_optional_member(&mut r, "state_class", metric.state_class);
    push_str(&mut r, "}");
    assert(r@ =~= ha_discovery_payload_spec(
        node_id@,
        snapshot@,
        metric_view(*metric),
        state_topic@,
        availability_topic@,
    ));
    r
}

// ---------------------------------------------------------------------------
// State payloads.
// ---------------------------------------------------------------------------
/// A number, or `null`.
pub open spec fn optional_u32_json_spec(value: Option<u32>) -> Seq<char> {
    match value {
        Some(v) => dec(v as nat),
        None => "null"@,
    }
}

/// A number, or `null`.
pub fn optional_u32_json(value: Option<u32>) -> (r: String)
    ensures
        r@ == optional_u32_json_spec(value),
{
    match value {
        Some(v) => crate::text::dec_string(v as u64),
        None => owned("null"),
    }
}

/// A number already written, or `null`.
pub open spec fn optional_number_json(value: Option<Seq<char>>) -> Seq<char> {
    match value {
        Some(v) => v,
        None => "null"@,
    }
}

/// The state payload of one GPU: a JSON object of the tick, the host, the
/// GPU's identity and context, and its readings (`null` where absent).
pub open spec fn state_payload_spec(
    host_name: Seq<char>,
    node_id: Seq<char>,
    s: GpuSnapshotModel,
    c: ProbeContextModel,
    tick_seq: u64,
    tick_ts: Seq<char>,
    power_w: Option<Seq<char>>,
    limit_w: Option<Seq<char>>,
) -> Seq<char> {
    "{"@ + "\"wtg_version\":"@ + json_string_spec(wtg_version_spec()) + ","@
        + "\"payload_schema\":1,"@ + "\"tick_seq\":"@ + dec(tick_seq as nat) + ","@
        + "\"tick_ts\":"@ + json_string_spec(tick_ts) + ","@ + "\"host\":"@ + json_string_spec(
        host_name,
    ) + ","@ + "\"node_id\":"@ + json_string_spec(node_id) + ","@ + "\"gpu_index\":"@ + dec(
        s.index as nat,
    ) + ","@ + "\"gpu_name\":"@ + json_string_spec(s.name) + ","@ + "\"gpu_uuid\":"@
        + json_string_spec(s.uuid) + ","@ + "\"driver_version\":"@ + json_string_spec(
        c.driver_version,
    ) + ","@ + "\"cuda_driver_version\":"@ + json_string_spec(c.cuda_driver_version) + ","@
        + "\"compute_mode\":"@ + json_string_spec(c.compute_mode) + ","@ + "\"perf_state\":"@
        + json_string_spec(c.perf_state) + ","@ + "\"pci_bus_id\":"@ + json_string_spec(
        c.pci_bus_id,
    ) + ","@ + "\"temp_c\":"@ + optional_u32_json_spec(s.temp_c) + ","@ + "\"util_gpu_pct\":"@
        + dec(s.gpu_util_pct as nat) + ","@ + "\"util_mem_controller_pct\":"@ + dec(
        s.mem_util_pct as nat,
    ) + ","@ + "\"vram_used_mib\":"@ + dec(mib(s.mem_used_bytes)) + ","@ + "\"vram_total_mib\":"@
        + dec(mib(s.mem_total_bytes)) + ","@ + "\"power_w\":"@ + optional_number_json(power_w)
        + ","@ + "\"power_limit_w\":"@ + optional_number_json(limit_w) + "}"@
}

fn push_json_member(r: &mut String, key: &str, value: &str)
    ensures
        final(r)@ == old(r)@ + key@ + json_string_spec(value@) + ","@,
{
    push_str(r, key);
    push_json_string(r, value);
    push_str(r, ",");
}

fn push_num_member(r: &mut String, key: &str, value: u64)
    ensures
        final(r)@ == old(r)@ + key@ + dec(value as nat) + ","@,
{
    push_str(r, key);
    push_dec(r, value);
    push_str(r, ",");
}

/// The state payload of one GPU. `power_w` and `limit_w` are the power
/// readings in watts, written by the caller; each is given exactly when the
/// snapshot holds that reading.
pub fn format_state_payload(
    host_name: &str,
    node_id: &str,
    snapshot: &GpuSnapshot,
    context: &GpuProbeContext,
    tick_seq: u64,
    tick_ts: &str,
    power_w: Option<String>,
    limit_w: Option<String>,
) -> (r: String)
    requires
        power_w is Some == snapshot.power_mw is Some,
        limit_w is Some == snapshot.power_limit_mw is Some,
    ensures
        r@ == state_payload_spec(
            host_name@,
            node_id@,
            snapshot@,
            context@,
            tick_seq,
            tick_ts@,
            opt_text(power_w),
            opt_text(limit_w),
        ),
{
    let ghost pw = opt_text(power_w);
    let ghost lw = opt_text(limit_w);
    let mut r = owned("{");
    push_json_member(&mut r, "\"wtg_version\":", wtg_version());
    push_str(&mut r, "\"payload_schema\":1,");
    push_num_member(&mut r, "\"tick_seq\":", tick_seq);
    push_json_member(&mut r, "\"tick_ts\":", tick_ts);
    push_json_member(&mut r, "\"host\":", host_name);
    push_json_member(&mut r, "\"node_id\":", node_id);
    push_num_member(&mut r, "\"gpu_index\":", snapshot.index as u64);
    push_json_member(&mut r, "\"gpu_name\":", snapshot.name.as_str());
    push_json_member(&mut r, "\"gpu_uuid\":", snapshot.uuid.as_str());
    push_json_member(&mut r, "\"driver_version\":", context.driver_version.as_str());
    push_json_member(&mut r, "\"cuda_driver_version\":", context.cuda_driver_version.as_str());
    push_json_member(&mut r, "\"compute_mode\":", context.compute_mode.as_str());
    push_json_member(&mut r, "\"perf_state\":", context.perf_state.as_str());
    push_json_member(&mut r, "\"pci_bus_id\":", context.pci_bus_id.as_str());
    push_str(&mut r, "\"temp_c\":");
    let t = optional_u32_json(snapshot.temp_c);
    push_str(&mut r, t.as_str());
    push_str(&mut r, ",");
    push_num_member(&mut r, "\"util_gpu_pct\":", snapshot.gpu_util_pct as u64);
    push_num_member(&mut r, "\"util_mem_controller_pct\":", snapshot.mem_util_pct as u64);
    push_num_member(&mut r, "\"vram_used_mib\":", bytes_to_mib(snapshot.mem_used_bytes));
    push_num_member(&mut r, "\"vram_total_mib\":", bytes_to_mib(snapshot.mem_total_bytes));
    push_str(&mut r, "\"power_w\":");
    match power_w {
        Some(p) => push_str(&mut r, p.as_str()),
        None => push_str(&mut r, "null"),
    }
    push_str(&mut r, ",");
    push_str(&mut r, "\"power_limit_w\":");
    match limit_w {
        Some(l) => push_str(&mut r, l.as_str()),
        None => push_str(&mut r, "null"),
    }
    push_str(&mut r, "}");
    assert(r@ =~= state_payload_spec(
        host_name@,
        node_id@,
        snapshot@,
        context@,
        tick_seq,
        tick_ts@,
        pw,
        lw,
    ));
    r
}

} // verus!

verus! {

/// The quantity that a sensor key stands for, as Home Assistant shows it.
pub open spec fn sensor_name_for_key(key: Seq<char>) -> Option<Seq<char>> {
    if key == "util_gpu_pct"@ {
        Some("GPU utilization"@)
    } else if key == "util_mem_controller_pct"@ {
        Some("Memory controller utilization"@)
    } else if key == "vram_used_mib"@ {
        Some("VRAM used"@)
    } else if key == "vram_total_mib"@ {
        Some("VRAM total"@)
    } else if key == "power_w"@ {
        Some("Power"@)
    } else if key == "power_limit_w"@ {
        Some("Power limit"@)
    } else if key == "temp_c"@ {
        Some("Temperature"@)
    } else if key == "driver_version"@ {
        Some("Driver version"@)
    } else if key == "cuda_driver_version"@ {
        Some("CUDA driver version"@)
    } else if key == "compute_mode"@ {
        Some("Compute mode"@)
    } else if key == "perf_state"@ {
        Some("Performance state"@)
    } else if key == "pci_bus_id"@ {
        Some("PCI bus ID"@)
    } else if key == "wtg_version"@ {
        Some("WTG version"@)
    } else {
        None
    }
}

/// Every announced sensor's display name names the quantity of its key
/// (`vram_used_mib` is "VRAM used", `vram_total_mib` is "VRAM total", and so
/// on), its key is a member of the state payload, and no two sensors share
/// a key; the discovery config of a sensor is named `GPU <index> <name>`.
pub proof fn lemma_sensor_names_match_keys()
    ensures
        forall|i: int|
            0 <= i < ha_sensor_metrics_spec().len() ==> sensor_name_for_key(#[trigger] ha_sensor_metrics_spec()[i].0)
                == Some(ha_sensor_metrics_spec()[i].1),
        forall|i: int, j: int|
            0 <= i < j < ha_sensor_metrics_spec().len() ==> #[trigger] ha_sensor_metrics_spec()[i].0
                != #[trigger] ha_sensor_metrics_spec()[j].0,
{
    reveal_strlit("util_gpu_pct");
    reveal_strlit("util_mem_controller_pct");
    reveal_strlit("vram_used_mib");
    reveal_strlit("vram_total_mib");
    reveal_strlit("power_w");
    reveal_strlit("power_limit_w");
    reveal_strlit("temp_c");
    reveal_strlit("driver_version");
    reveal_strlit("cuda_driver_version");
    reveal_strlit("compute_mode");
    reveal_strlit("perf_state");
    reveal_strlit("pci_bus_id");
    reveal_strlit("wtg_version");
    let t = ha_sensor_metrics_spec();
    assert(t.len() == 13);
    assert forall|i: int, j: int| 0 <= i < j < t.len() implies #[trigger] t[i].0 != #[trigger] t[j].0 by {
        if i == 0 && j == 1 {
            assert(t[0].0 == "util_gpu_pct"@ && t[1].0 == "util_mem_controller_pct"@);
            assert(t[0].0.len() != t[1].0.len());
        }
        if i == 0 && j == 2 {
            assert(t[0].0 == "util_gpu_pct"@ && t[2].0 == "vram_used_mib"@);
            assert(t[0].0.len() != t[2].0.len());
        }
        if i == 0 && j == 3 {
            assert(t[0].0 == "util_gpu_pct"@ && t[3].0 == "vram_total_mib"@);
            assert(t[0].0.len() != t[3].0.len());
        }
        if i == 0 && j == 4 {
            assert(t[0].0 == "util_gpu_pct"@ && t[4].0 == "power_w"@);
            assert(t[0].0.len() != t[4].0.len());
        }
        if i == 0 && j == 5 {
            assert(t[0].0 == "util_gpu_pct"@ && t[5].0 == "power_limit_w"@);
            assert(t[0].0.len() != t[5].0.len());
        }
        if i == 0 && j == 6 {
            assert(t[0].0 == "util_gpu_pct"@ && t[6].0 == "temp_c"@);
            assert(t[0].0.len() != t[6].0.len());
        }
        if i == 0 && j == 7 {
            assert(t[0].0 == "util_gpu_pct"@ && t[7].0 == "driver_version"@);
            assert(t[0].0.len() != t[7].0.len());
        }
        if i == 0 && j == 8 {
            assert(t[0].0 == "util_gpu_pct"@ && t[8].0 == "cuda_driver_version"@);
            assert(t[0].0.len() != t[8].0.len());
        }
        if i == 0 && j == 9 {
            assert(t[0].0 == "util_gpu_pct"@ && t[9].0 == "compute_mode"@);
            assert(t[0].0[0] != t[9].0[0]);
        }
        if i == 0 && j == 10 {
            assert(t[0].0 == "util_gpu_pct"@ && t[10].0 == "perf_state"@);
            assert(t[0].0.len() != t[10].0.len());
        }
        if i == 0 && j == 11 {
            assert(t[0].0 == "util_gpu_pct"@ && t[11].0 == "pci_bus_id"@);
            assert(t[0].0.len() != t[11].0.len());
        }
        if i == 0 && j == 12 {
            assert(t[0].0 == "util_gpu_pct"@ && t[12].0 == "wtg_version"@);
            assert(t[0].0.len() != t[12].0.len());
        }
        if i == 1 && j == 2 {
            assert(t[1].0 == "util_mem_controller_pct"@ && t[2].0 == "vram_used_mib"@);
            assert(t[1].0.len() != t[2].0.len());
        }
        if i == 1 && j == 3 {
            assert(t[1].0 == "util_mem_controller_pct"@ && t[3].0 == "vram_total_mib"@);
            assert(t[1].0.len() != t[3].0.len());
        }
        if i == 1 && j == 4 {
            assert(t[1].0 == "util_mem_controller_pct"@ && t[4].0 == "power_w"@);
            assert(t[1].0.len() != t[4].0.len());
        }
        if i == 1 && j == 5 {
            assert(t[1].0 == "util_mem_controller_pct"@ && t[5].0 == "power_limit_w"@);
            assert(t[1].0.len() != t[5].0.len());
        }
        if i == 1 && j == 6 {
            assert(t[1].0 == "util_mem_controller_pct"@ && t[6].0 == "temp_c"@);
            assert(t[1].0.len() != t[6].0.len());
        }
        if i == 1 && j == 7 {
            assert(t[1].0 == "util_mem_controller_pct"@ && t[7].0 == "driver_version"@);
            assert(t[1].0.len() != t[7].0.len());
        }
        if i == 1 && j == 8 {
            assert(t[1].0 == "util_mem_controller_pct"@ && t[8].0 == "cuda_driver_version"@);
            assert(t[1].0.len() != t[8].0.len());
        }
        if i == 1 && j == 9 {
            assert(t[1].0 == "util_mem_controller_pct"@ && t[9].0 == "compute_mode"@);
            assert(t[1].0.len() != t[9].0.len());
        }
        if i == 1 && j == 10 {
            assert(t[1].0 == "util_mem_controller_pct"@ && t[10].0 == "perf_state"@);
            assert(t[1].0.len() != t[10].0.len());
        }
        if i == 1 && j == 11 {
            assert(t[1].0 == "util_mem_controller_pct"@ && t[11].0 == "pci_bus_id"@);
            assert(t[1].0.len() != t[11].0.len());
        }
        if i == 1 && j == 12 {
            assert(t[1].0 == "util_mem_controller_pct"@ && t[12].0 == "wtg_version"@);
            assert(t[1].0.len() != t[12].0.len());
        }
        if i == 2 && j == 3 {
            assert(t[2].0 == "vram_used_mib"@ && t[3].0 == "vram_total_mib"@);
            assert(t[2].0.len() != t[3].0.len());
        }
        if i == 2 && j == 4 {
            assert(t[2].0 == "vram_used_mib"@ && t[4].0 == "power_w"@);
            assert(t[2].0.len() != t[4].0.len());
        }
        if i == 2 && j == 5 {
            assert(t[2].0 == "vram_used_mib"@ && t[5].0 == "power_limit_w"@);
            assert(t[2].0[0] != t[5].0[0]);
        }
        if i == 2 && j == 6 {
            assert(t[2].0 == "vram_used_mib"@ && t[6].0 == "temp_c"@);
            assert(t[2].0.len() != t[6].0.len());
        }
        if i == 2 && j == 7 {
            assert(t[2].0 == "vram_used_mib"@ && t[7].0 == "driver_version"@);
            assert(t[2].0.len() != t[7].0.len());
        }
        if i == 2 && j == 8 {
            assert(t[2].0 == "vram_used_mib"@ && t[8].0 == "cuda_driver_version"@);
            assert(t[2].0.len() != t[8].0.len());
        }
        if i == 2 && j == 9 {
            assert(t[2].0 == "vram_used_mib"@ && t[9].0 == "compute_mode"@);
            assert(t[2].0.len() != t[9].0.len());
        }
        if i == 2 && j == 10 {
            assert(t[2].0 == "vram_used_mib"@ && t[10].0 == "perf_state"@);
            assert(t[2].0.len() != t[10].0.len());
        }
        if i == 2 && j == 11 {
            assert(t[2].0 == "vram_used_mib"@ && t[11].0 == "pci_bus_id"@);
            assert(t[2].0.len() != t[11].0.len());
        }
        if i == 2 && j == 12 {
            assert(t[2].0 == "vram_used_mib"@ && t[12].0 == "wtg_version"@);
            assert(t[2].0.len() != t[12].0.len());
        }
        if i == 3 && j == 4 {
            assert(t[3].0 == "vram_total_mib"@ && t[4].0 == "power_w"@);
            assert(t[3].0.len() != t[4].0.len());
        }
        if i == 3 && j == 5 {
            assert(t[3].0 == "vram_total_mib"@ && t[5].0 == "power_limit_w"@);
            assert(t[3].0.len() != t[5].0.len());
        }
        if i == 3 && j == 6 {
            assert(t[3].0 == "vram_total_mib"@ && t[6].0 == "temp_c"@);
            assert(t[3].0.len() != t[6].0.len());
        }
        if i == 3 && j == 7 {
            assert(t[3].0 == "vram_total_mib"@ && t[7].0 == "driver_version"@);
            assert(t[3].0[0] != t[7].0[0]);
        }
        if i == 3 && j == 8 {
            assert(t[3].0 == "vram_total_mib"@ && t[8].0 == "cuda_driver_version"@);
            assert(t[3].0.len() != t[8].0.len());
        }
        if i == 3 && j == 9 {
            assert(t[3].0 == "vram_total_mib"@ && t[9].0 == "compute_mode"@);
            assert(t[3].0.len() != t[9].0.len());
        }
        if i == 3 && j == 10 {
            assert(t[3].0 == "vram_total_mib"@ && t[10].0 == "perf_state"@);
            assert(t[3].0.len() != t[10].0.len());
        }
        if i == 3 && j == 11 {
            assert(t[3].0 == "vram_total_mib"@ && t[11].0 == "pci_bus_id"@);
            assert(t[3].0.len() != t[11].0.len());
        }
        if i == 3 && j == 12 {
            assert(t[3].0 == "vram_total_mib"@ && t[12].0 == "wtg_version"@);
            assert(t[3].0.len() != t[12].0.len());
        }
        if i == 4 && j == 5 {
            assert(t[4].0 == "power_w"@ && t[5].0 == "power_limit_w"@);
            assert(t[4].0.len() != t[5].0.len());
        }
        if i == 4 && j == 6 {
            assert(t[4].0 == "power_w"@ && t[6].0 == "temp_c"@);
            assert(t[4].0.len() != t[6].0.len());
        }
        if i == 4 && j == 7 {
            assert(t[4].0 == "power_w"@ && t[7].0 == "driver_version"@);
            assert(t[4].0.len() != t[7].0.len());
        }
        if i == 4 && j == 8 {
            assert(t[4].0 == "power_w"@ && t[8].0 == "cuda_driver_version"@);
            assert(t[4].0.len() != t[8].0.len());
        }
        if i == 4 && j == 9 {
            assert(t[4].0 == "power_w"@ && t[9].0 == "compute_mode"@);
            assert(t[4].0.len() != t[9].0.len());
        }
        if i == 4 && j == 10 {
            assert(t[4].0 == "power_w"@ && t[10].0 == "perf_state"@);
            assert(t[4].0.len() != t[10].0.len());
        }
        if i == 4 && j == 11 {
            assert(t[4].0 == "power_w"@ && t[11].0 == "pci_bus_id"@);
            assert(t[4].0.len() != t[11].0.len());
        }
        if i == 4 && j == 12 {
            assert(t[4].0 == "power_w"@ && t[12].0 == "wtg_version"@);
            assert(t[4].0.len() != t[12].0.len());
        }
        if i == 5 && j == 6 {
            assert(t[5].0 == "power_limit_w"@ && t[6].0 == "temp_c"@);
            assert(t[5].0.len() != t[6].0.len());
        }
        if i == 5 && j == 7 {
            assert(t[5].0 == "power_limit_w"@ && t[7].0 == "driver_version"@);
            assert(t[5].0.len() != t[7].0.len());
        }
        if i == 5 && j == 8 {
            assert(t[5].0 == "power_limit_w"@ && t[8].0 == "cuda_driver_version"@);
            assert(t[5].0.len() != t[8].0.len());
        }
        if i == 5 && j == 9 {
            assert(t[5].0 == "power_limit_w"@ && t[9].0 == "compute_mode"@);
            assert(t[5].0.len() != t[9].0.len());
        }
        if i == 5 && j == 10 {
            assert(t[5].0 == "power_limit_w"@ && t[10].0 == "perf_state"@);
            assert(t[5].0.len() != t[10].0.len());
        }
        if i == 5 && j == 11 {
            assert(t[5].0 == "power_limit_w"@ && t[11].0 == "pci_bus_id"@);
            assert(t[5].0.len() != t[11].0.len());
        }
        if i == 5 && j == 12 {
            assert(t[5].0 == "power_limit_w"@ && t[12].0 == "wtg_version"@);
            assert(t[5].0.len() != t[12].0.len());
        }
        if i == 6 && j == 7 {
            assert(t[6].0 == "temp_c"@ && t[7].0 == "driver_version"@);
            assert(t[6].0.len() != t[7].0.len());
        }
        if i == 6 && j == 8 {
            assert(t[6].0 == "temp_c"@ && t[8].0 == "cuda_driver_version"@);
            assert(t[6].0.len() != t[8].0.len());
        }
        if i == 6 && j == 9 {
            assert(t[6].0 == "temp_c"@ && t[9].0 == "compute_mode"@);
            assert(t[6].0.len() != t[9].0.len());
        }
        if i == 6 && j == 10 {
            assert(t[6].0 == "temp_c"@ && t[10].0 == "perf_state"@);
            assert(t[6].0.len() != t[10].0.len());
        }
        if i == 6 && j == 11 {
            assert(t[6].0 == "temp_c"@ && t[11].0 == "pci_bus_id"@);
            assert(t[6].0.len() != t[11].0.len());
        }
        if i == 6 && j == 12 {
            assert(t[6].0 == "temp_c"@ && t[12].0 == "wtg_version"@);
            assert(t[6].0.len() != t[12].0.len());
        }
        if i == 7 && j == 8 {
            assert(t[7].0 == "driver_version"@ && t[8].0 == "cuda_driver_version"@);
            assert(t[7].0.len() != t[8].0.len());
        }
        if i == 7 && j == 9 {
            assert(t[7].0 == "driver_version"@ && t[9].0 == "compute_mode"@);
            assert(t[7].0.len() != t[9].0.len());
        }
        if i == 7 && j == 10 {
            assert(t[7].0 == "driver_version"@ && t[10].0 == "perf_state"@);
            assert(t[7].0.len() != t[10].0.len());
        }
        if i == 7 && j == 11 {
            assert(t[7].0 == "driver_version"@ && t[11].0 == "pci_bus_id"@);
            assert(t[7].0.len() != t[11].0.len());
        }
        if i == 7 && j == 12 {
            assert(t[7].0 == "driver_version"@ && t[12].0 == "wtg_version"@);
            assert(t[7].0.len() != t[12].0.len());
        }
        if i == 8 && j == 9 {
            assert(t[8].0 == "cuda_driver_version"@ && t[9].0 == "compute_mode"@);
            assert(t[8].0.len() != t[9].0.len());
        }
        if i == 8 && j == 10 {
            assert(t[8].0 == "cuda_driver_version"@ && t[10].0 == "perf_state"@);
            assert(t[8].0.len() != t[10].0.len());
        }
        if i == 8 && j == 11 {
            assert(t[8].0 == "cuda_driver_version"@ && t[11].0 == "pci_bus_id"@);
            assert(t[8].0.len() != t[11].0.len());
        }
        if i == 8 && j == 12 {
            assert(t[8].0 == "cuda_driver_version"@ && t[12].0 == "wtg_version"@);
            assert(t[8].0.len() != t[12].0.len());
        }
        if i == 9 && j == 10 {
            assert(t[9].0 == "compute_mode"@ && t[10].0 == "perf_state"@);
            assert(t[9].0.len() != t[10].0.len());
        }
        if i == 9 && j == 11 {
            assert(t[9].0 == "compute_mode"@ && t[11].0 == "pci_bus_id"@);
            assert(t[9].0.len() != t[11].0.len());
        }
        if i == 9 && j == 12 {
            assert(t[9].0 == "compute_mode"@ && t[12].0 == "wtg_version"@);
            assert(t[9].0.len() != t[12].0.len());
        }
        if i == 10 && j == 11 {
            assert(t[10].0 == "perf_state"@ && t[11].0 == "pci_bus_id"@);
            assert(t[10].0[1] != t[11].0[1]);
        }
        if i == 10 && j == 12 {
            assert(t[10].0 == "perf_state"@ && t[12].0 == "wtg_version"@);
            assert(t[10].0.len() != t[12].0.len());
        }
        if i == 11 && j == 12 {
            assert(t[11].0 == "pci_bus_id"@ && t[12].0 == "wtg_version"@);
            assert(t[11].0.len() != t[12].0.len());
        }
    }
    assert forall|i: int| 0 <= i < t.len() implies sensor_name_for_key(#[trigger] t[i].0) == Some(t[i].1) by {
        if i == 0 {
            assert(t[0].0 == "util_gpu_pct"@);

        }
        if i == 1 {
            assert(t[1].0 == "util_mem_controller_pct"@);
            assert(t[0].0 == "util_gpu_pct"@ && t[0].0 != t[1].0);
        }
        if i == 2 {
            assert(t[2].0 == "vram_used_mib"@);
            assert(t[0].0 == "util_gpu_pct"@ && t[0].0 != t[2].0);
            assert(t[1].0 == "util_mem_controller_pct"@ && t[1].0 != t[2].0);
        }
        if i == 3 {
            assert(t[3].0 == "vram_total_mib"@);
            assert(t[0].0 == "util_gpu_pct"@ && t[0].0 != t[3].0);
            assert(t[1].0 == "util_mem_controller_pct"@ && t[1].0 != t[3].0);
            assert(t[2].0 == "vram_used_mib"@ && t[2].0 != t[3].0);
        }
        if i == 4 {
            assert(t[4].0 == "power_w"@);
            assert(t[0].0 == "util_gpu_pct"@ && t[0].0 != t[4].0);
            assert(t[1].0 == "util_mem_controller_pct"@ && t[1].0 != t[4].0);
            assert(t[2].0 == "vram_used_mib"@ && t[2].0 != t[4].0);
            assert(t[3].0 == "vram_total_mib"@ && t[3].0 != t[4].0);
        }
        if i == 5 {
            assert(t[5].0 == "power_limit_w"@);
            assert(t[0].0 == "util_gpu_pct"@ && t[0].0 != t[5].0);
            assert(t[1].0 == "util_mem_controller_pct"@ && t[1].0 != t[5].0);
            assert(t[2].0 == "vram_used_mib"@ && t[2].0 != t[5].0);
            assert(t[3].0 == "vram_total_mib"@ && t[3].0 != t[5].0);
            assert(t[4].0 == "power_w"@ && t[4].0 != t[5].0);
        }
        if i == 6 {
            assert(t[6].0 == "temp_c"@);
            assert(t[0].0 == "util_gpu_pct"@ && t[0].0 != t[6].0);
            assert(t[1].0 == "util_mem_controller_pct"@ && t[1].0 != t[6].0);
            assert(t[2].0 == "vram_used_mib"@ && t[2].0 != t[6].0);
            assert(t[3].0 == "vram_total_mib"@ && t[3].0 != t[6].0);
            assert(t[4].0 == "power_w"@ && t[4].0 != t[6].0);
            assert(t[5].0 == "power_limit_w"@ && t[5].0 != t[6].0);
        }
        if i == 7 {
            assert(t[7].0 == "driver_version"@);
            assert(t[0].0 == "util_gpu_pct"@ && t[0].0 != t[7].0);
            assert(t[1].0 == "util_mem_controller_pct"@ && t[1].0 != t[7].0);
            assert(t[2].0 == "vram_used_mib"@ && t[2].0 != t[7].0);
            assert(t[3].0 == "vram_total_mib"@ && t[3].0 != t[7].0);
            assert(t[4].0 == "power_w"@ && t[4].0 != t[7].0);
            assert(t[5].0 == "power_limit_w"@ && t[5].0 != t[7].0);
            assert(t[6].0 == "temp_c"@ && t[6].0 != t[7].0);
        }
        if i == 8 {
            assert(t[8].0 == "cuda_driver_version"@);
            assert(t[0].0 == "util_gpu_pct"@ && t[0].0 != t[8].0);
            assert(t[1].0 == "util_mem_controller_pct"@ && t[1].0 != t[8].0);
            assert(t[2].0 == "vram_used_mib"@ && t[2].0 != t[8].0);
            assert(t[3].0 == "vram_total_mib"@ && t[3].0 != t[8].0);
            assert(t[4].0 == "power_w"@ && t[4].0 != t[8].0);
            assert(t[5].0 == "power_limit_w"@ && t[5].0 != t[8].0);
            assert(t[6].0 == "temp_c"@ && t[6].0 != t[8].0);
            assert(t[7].0 == "driver_version"@ && t[7].0 != t[8].0);
        }
        if i == 9 {
            assert(t[9].0 == "compute_mode"@);
            assert(t[0].0 == "util_gpu_pct"@ && t[0].0 != t[9].0);
            assert(t[1].0 == "util_mem_controller_pct"@ && t[1].0 != t[9].0);
            assert(t[2].0 == "vram_used_mib"@ && t[2].0 != t[9].0);
            assert(t[3].0 == "vram_total_mib"@ && t[3].0 != t[9].0);
            assert(t[4].0 == "power_w"@ && t[4].0 != t[9].0);
            assert(t[5].0 == "power_limit_w"@ && t[5].0 != t[9].0);
            assert(t[6].0 == "temp_c"@ && t[6].0 != t[9].0);
            assert(t[7].0 == "driver_version"@ && t[7].0 != t[9].0);
            assert(t[8].0 == "cuda_driver_version"@ && t[8].0 != t[9].0);
        }
        if i == 10 {
            assert(t[10].0 == "perf_state"@);
            assert(t[0].0 == "util_gpu_pct"@ && t[0].0 != t[10].0);
            assert(t[1].0 == "util_mem_controller_pct"@ && t[1].0 != t[10].0);
            assert(t[2].0 == "vram_used_mib"@ && t[2].0 != t[10].0);
            assert(t[3].0 == "vram_total_mib"@ && t[3].0 != t[10].0);
            assert(t[4].0 == "power_w"@ && t[4].0 != t[10].0);
            assert(t[5].0 == "power_limit_w"@ && t[5].0 != t[10].0);
            assert(t[6].0 == "temp_c"@ && t[6].0 != t[10].0);
            assert(t[7].0 == "driver_version"@ && t[7].0 != t[10].0);
            assert(t[8].0 == "cuda_driver_version"@ && t[8].0 != t[10].0);
            assert(t[9].0 == "compute_mode"@ && t[9].0 != t[10].0);
        }
        if i == 11 {
            assert(t[11].0 == "pci_bus_id"@);
            assert(t[0].0 == "util_gpu_pct"@ && t[0].0 != t[11].0);
            assert(t[1].0 == "util_mem_controller_pct"@ && t[1].0 != t[11].0);
            assert(t[2].0 == "vram_used_mib"@ && t[2].0 != t[11].0);
            assert(t[3].0 == "vram_total_mib"@ && t[3].0 != t[11].0);
            assert(t[4].0 == "power_w"@ && t[4].0 != t[11].0);
            assert(t[5].0 == "power_limit_w"@ && t[5].0 != t[11].0);
            assert(t[6].0 == "temp_c"@ && t[6].0 != t[11].0);
            assert(t[7].0 == "driver_version"@ && t[7].0 != t[11].0);
            assert(t[8].0 == "cuda_driver_version"@ && t[8].0 != t[11].0);
            assert(t[9].0 == "compute_mode"@ && t[9].0 != t[11].0);
            assert(t[10].0 == "perf_state"@ && t[10].0 != t[11].0);
        }
        if i == 12 {
            assert(t[12].0 == "wtg_version"@);
            assert(t[0].0 == "util_gpu_pct"@ && t[0].0 != t[12].0);
            assert(t[1].0 == "util_mem_controller_pct"@ && t[1].0 != t[12].0);
            assert(t[2].0 == "vram_used_mib"@ && t[2].0 != t[12].0);
            assert(t[3].0 == "vram_total_mib"@ && t[3].0 != t[12].0);
            assert(t[4].0 == "power_w"@ && t[4].0 != t[12].0);
            assert(t[5].0 == "power_limit_w"@ && t[5].0 != t[12].0);
            assert(t[6].0 == "temp_c"@ && t[6].0 != t[12].0);
            assert(t[7].0 == "driver_version"@ && t[7].0 != t[12].0);
            assert(t[8].0 == "cuda_driver_version"@ && t[8].0 != t[12].0);
            assert(t[9].0 == "compute_mode"@ && t[9].0 != t[12].0);
            assert(t[10].0 == "perf_state"@ && t[10].0 != t[12].0);
            assert(t[11].0 == "pci_bus_id"@ && t[11].0 != t[12].0);
        }
    }

}

} // verus!

verus! {

/// A member of a JSON object whose key needs no escape: the key in double
/// quotes, a colon and the value's JSON text.
pub open spec fn json_member(key: Seq<char>, value: Seq<char>) -> Seq<char> {
    "\""@ + key + "\":"@ + value
}

/// A JSON object of the given members: in braces, separated by one comma
/// each.
pub open spec fn json_object_of(members: Seq<Seq<char>>) -> Seq<char> {
    "{"@ + join_with(members, ","@) + "}"@
}

/// The members of a GPU's state payload, by key, in order.
pub open spec fn state_payload_members(
    host_name: Seq<char>,
    node_id: Seq<char>,
    s: GpuSnapshotModel,
    c: ProbeContextModel,
    tick_seq: u64,
    tick_ts: Seq<char>,
    power_w: Option<Seq<char>>,
    limit_w: Option<Seq<char>>,
) -> Seq<Seq<char>> {
    seq![
        json_member("wtg_version"@, json_string_spec(wtg_version_spec())),
        json_member("payload_schema"@, "1"@),
        json_member("tick_seq"@, dec(tick_seq as nat)),
        json_member("tick_ts"@, json_string_spec(tick_ts)),
        json_member("host"@, json_string_spec(host_name)),
        json_member("node_id"@, json_string_spec(node_id)),
        json_member("gpu_index"@, dec(s.index as nat)),
        json_member("gpu_name"@, json_string_spec(s.name)),
        json_member("gpu_uuid"@, json_string_spec(s.uuid)),
        json_member("driver_version"@, json_string_spec(c.driver_version)),
        json_member("cuda_driver_version"@, json_string_spec(c.cuda_driver_version)),
        json_member("compute_mode"@, json_string_spec(c.compute_mode)),
        json_member("perf_state"@, json_string_spec(c.perf_state)),
        json_member("pci_bus_id"@, json_string_spec(c.pci_bus_id)),
        json_member("temp_c"@, optional_u32_json_spec(s.temp_c)),
        json_member("util_gpu_pct"@, dec(s.gpu_util_pct as nat)),
        json_member("util_mem_controller_pct"@, dec(s.mem_util_pct as nat)),
        json_member("vram_used_mib"@, dec(mib(s.mem_used_bytes))),
        json_member("vram_total_mib"@, dec(mib(s.mem_total_bytes))),
        json_member("power_w"@, optional_number_json(power_w)),
        json_member("power_limit_w"@, optional_number_json(limit_w)),
    ]
}

proof fn lemma_join_step(parts: Seq<Seq<char>>, sep: Seq<char>, k: int)
    requires
        1 <= k < parts.len(),
    ensures
        join_with(parts.take(k + 1), sep) == join_with(parts.take(k), sep) + sep + parts[k],
{
    assert(parts.take(k + 1).drop_last() =~= parts.take(k));
    assert(parts.take(k + 1).last() == parts[k]);
}

proof fn lemma_object_step(ms: Seq<Seq<char>>, i: int, prev: Seq<char>, key: Seq<char>, key_text: Seq<char>, value: Seq<char>)
    requires
        1 <= i < ms.len(),
        "{"@ + join_with(ms.take(i), ","@) == prev,
        ms[i] == json_member(key, value),
        key_text == "\""@ + key + "\":"@,
    ensures
        "{"@ + join_with(ms.take(i + 1), ","@) == prev + ","@ + key_text + value,
{
    lemma_join_step(ms, ","@, i);
    assert("{"@ + join_with(ms.take(i + 1), ","@) =~= prev + ","@ + key_text + value);
}

proof fn lemma_concat_three(x: Seq<char>, a: Seq<char>, b: Seq<char>, c: Seq<char>, d: Seq<char>)
    requires
        d == a + b + c,
    ensures
        x + a + b + c == x + d,
{
    assert(x + a + b + c =~= x + d);
}

/// The state payload up to its seventh member.
#[verifier::opaque]
pub open spec fn state_prefix_7(
    host_name: Seq<char>,
    node_id: Seq<char>,
    s: GpuSnapshotModel,
    c: ProbeContextModel,
    tick_seq: u64,
    tick_ts: Seq<char>,
    power_w: Option<Seq<char>>,
    limit_w: Option<Seq<char>>,
) -> Seq<char> {
    "{"@ + "\"wtg_version\":"@ + json_string_spec(wtg_version_spec()) + ","@ + "\"payload_schema\":1,"@ + "\"tick_seq\":"@ + dec(tick_seq as nat) + ","@ + "\"tick_ts\":"@ + json_string_spec(tick_ts) + ","@ + "\"host\":"@ + json_string_spec(host_name) + ","@ + "\"node_id\":"@ + json_string_spec(node_id) + ","@ + "\"gpu_index\":"@ + dec(s.index as nat)
}

/// The state payload up to its fourteenth member.
#[verifier::opaque]
pub open spec fn state_prefix_14(
    host_name: Seq<char>,
    node_id: Seq<char>,
    s: GpuSnapshotModel,
    c: ProbeContextModel,
    tick_seq: u64,
    tick_ts: Seq<char>,
    power_w: Option<Seq<char>>,
    limit_w: Option<Seq<char>>,
) -> Seq<char> {
    state_prefix_7(host_name, node_id, s, c, tick_seq, tick_ts, power_w, limit_w) + ","@ + "\"gpu_name\":"@ + json_string_spec(s.name) + ","@ + "\"gpu_uuid\":"@ + json_string_spec(s.uuid) + ","@ + "\"driver_version\":"@ + json_string_spec(c.driver_version) + ","@ + "\"cuda_driver_version\":"@ + json_string_spec(c.cuda_driver_version) + ","@ + "\"compute_mode\":"@ + json_string_spec(c.compute_mode) + ","@ + "\"perf_state\":"@ + json_string_spec(c.perf_state) + ","@ + "\"pci_bus_id\":"@ + json_string_spec(c.pci_bus_id)
}

/// The state payload up to its last member.
#[verifier::opaque]
pub open spec fn state_prefix_21(
    host_name: Seq<char>,
    node_id: Seq<char>,
    s: GpuSnapshotModel,
    c: ProbeContextModel,
    tick_seq: u64,
    tick_ts: Seq<char>,
    power_w: Option<Seq<char>>,
    limit_w: Option<Seq<char>>,
) -> Seq<char> {
    state_prefix_14(host_name, node_id, s, c, tick_seq, tick_ts, power_w, limit_w) + ","@ + "\"temp_c\":"@ + optional_u32_json_spec(s.temp_c) + ","@ + "\"util_gpu_pct\":"@ + dec(s.gpu_util_pct as nat) + ","@ + "\"util_mem_controller_pct\":"@ + dec(s.mem_util_pct as nat) + ","@ + "\"vram_used_mib\":"@ + dec(mib(s.mem_used_bytes)) + ","@ + "\"vram_total_mib\":"@ + dec(mib(s.mem_total_bytes)) + ","@ + "\"power_w\":"@ + optional_number_json(power_w) + ","@ + "\"power_limit_w\":"@ + optional_number_json(limit_w)
}

#[verifier::spinoff_prover]
#[verifier::rlimit(50)]
proof fn lemma_payload_prefix_7(
    host_name: Seq<char>,
    node_id: Seq<char>,
    s: GpuSnapshotModel,
    c: ProbeContextModel,
    tick_seq: u64,
    tick_ts: Seq<char>,
    power_w: Option<Seq<char>>,
    limit_w: Option<Seq<char>>,
)
    ensures
        "{"@ + join_with(state_payload_members(host_name, node_id, s, c, tick_seq, tick_ts, power_w, limit_w).take(7), ","@) == state_prefix_7(host_name, node_id, s, c, tick_seq, tick_ts, power_w, limit_w),
{
    reveal(state_prefix_7);
    let ms = state_payload_members(host_name, node_id, s, c, tick_seq, tick_ts, power_w, limit_w);
    assert(ms.len() == 21);
    assert("\"wtg_version\":"@ == "\""@ + "wtg_version"@ + "\":"@) by {
        reveal_strlit("\"");
        reveal_strlit("\":");
        reveal_strlit("wtg_version");
        reveal_strlit("\"wtg_version\":");
        assert("\"wtg_version\":"@ =~= "\""@ + "wtg_version"@ + "\":"@);
    }
    let t0 = "{"@ + "\"wtg_version\":"@ + json_string_spec(wtg_version_spec());
    assert("{"@ + join_with(ms.take(1), ","@) == t0) by {
        assert(ms.take(1) =~= seq![ms[0]]);
        assert("{"@ + ms[0] =~= t0);
    }
    assert("\"payload_schema\":"@ == "\""@ + "payload_schema"@ + "\":"@) by {
        reveal_strlit("\"");
        reveal_strlit("\":");
        reveal_strlit("payload_schema");
        reveal_strlit("\"payload_schema\":");
        assert("\"payload_schema\":"@ =~= "\""@ + "payload_schema"@ + "\":"@);
    }
    lemma_object_step(ms, 1, t0, "payload_schema"@, "\"payload_schema\":"@, "1"@);
    let t1 = t0 + ","@ + "\"payload_schema\":"@ + "1"@;
    assert("\"payload_schema\":1,"@ == "\"payload_schema\":"@ + "1"@ + ","@) by {
        reveal_strlit("\"payload_schema\":");
        reveal_strlit("1");
        reveal_strlit(",");
        reveal_strlit("\"payload_schema\":1,");
        assert("\"payload_schema\":1,"@ =~= "\"payload_schema\":"@ + "1"@ + ","@);
    }
    lemma_concat_three(t0 + ","@, "\"payload_schema\":"@, "1"@, ","@, "\"payload_schema\":1,"@);
    assert("\"tick_seq\":"@ == "\""@ + "tick_seq"@ + "\":"@) by {
        reveal_strlit("\"");
        reveal_strlit("\":");
        reveal_strlit("tick_seq");
        reveal_strlit("\"tick_seq\":");
        assert("\"tick_seq\":"@ =~= "\""@ + "tick_seq"@ + "\":"@);
    }
    lemma_object_step(ms, 2, t1, "tick_seq"@, "\"tick_seq\":"@, dec(tick_seq as nat));
    let t2 = t0 + ","@ + "\"payload_schema\":1,"@ + "\"tick_seq\":"@ + dec(tick_seq as nat);
    assert("{"@ + join_with(ms.take(3), ","@) == t2);
    assert("\"tick_ts\":"@ == "\""@ + "tick_ts"@ + "\":"@) by {
        reveal_strlit("\"");
        reveal_strlit("\":");
        reveal_strlit("tick_ts");
        reveal_strlit("\"tick_ts\":");
        assert("\"tick_ts\":"@ =~= "\""@ + "tick_ts"@ + "\":"@);
    }
    lemma_object_step(ms, 3, t2, "tick_ts"@, "\"tick_ts\":"@, json_string_spec(tick_ts));
    let t3 = t2 + ","@ + "\"tick_ts\":"@ + json_string_spec(tick_ts);
    assert("\"host\":"@ == "\""@ + "host"@ + "\":"@) by {
        reveal_strlit("\"");
        reveal_strlit("\":");
        reveal_strlit("host");
        reveal_strlit("\"host\":");
        assert("\"host\":"@ =~= "\""@ + "host"@ + "\":"@);
    }
    lemma_object_step(ms, 4, t3, "host"@, "\"host\":"@, json_string_spec(host_name));
    let t4 = t3 + ","@ + "\"host\":"@ + json_string_spec(host_name);
    assert("\"node_id\":"@ == "\""@ + "node_id"@ + "\":"@) by {
        reveal_strlit("\"");
        reveal_strlit("\":");
        reveal_strlit("node_id");
        reveal_strlit("\"node_id\":");
        assert("\"node_id\":"@ =~= "\""@ + "node_id"@ + "\":"@);
    }
    lemma_object_step(ms, 5, t4, "node_id"@, "\"node_id\":"@, json_string_spec(node_id));
    let t5 = t4 + ","@ + "\"node_id\":"@ + json_string_spec(node_id);
    assert("\"gpu_index\":"@ == "\""@ + "gpu_index"@ + "\":"@) by {
        reveal_strlit("\"");
        reveal_strlit("\":");
        reveal_strlit("gpu_index");
        reveal_strlit("\"gpu_index\":");
        assert("\"gpu_index\":"@ =~= "\""@ + "gpu_index"@ + "\":"@);
    }
    lemma_object_step(ms, 6, t5, "gpu_index"@, "\"gpu_index\":"@, dec(s.index as nat));
    let t6 = t5 + ","@ + "\"gpu_index\":"@ + dec(s.index as nat);
}

#[verifier::spinoff_prover]
#[verifier::rlimit(50)]
proof fn lemma_payload_prefix_14(
    host_name: Seq<char>,
    node_id: Seq<char>,
    s: GpuSnapshotModel,
    c: ProbeContextModel,
    tick_seq: u64,
    tick_ts: Seq<char>,
    power_w: Option<Seq<char>>,
    limit_w: Option<Seq<char>>,
)
    ensures
        "{"@ + join_with(state_payload_members(host_name, node_id, s, c, tick_seq, tick_ts, power_w, limit_w).take(14), ","@) == state_prefix_14(host_name, node_id, s, c, tick_seq, tick_ts, power_w, limit_w),
{
    reveal(state_prefix_14);
    let ms = state_payload_members(host_name, node_id, s, c, tick_seq, tick_ts, power_w, limit_w);
    assert(ms.len() == 21);
    lemma_payload_prefix_7(host_name, node_id, s, c, tick_seq, tick_ts, power_w, limit_w);
    assert("\"gpu_name\":"@ == "\""@ + "gpu_name"@ + "\":"@) by {
        reveal_strlit("\"");
        reveal_strlit("\":");
        reveal_strlit("gpu_name");
        reveal_strlit("\"gpu_name\":");
        assert("\"gpu_name\":"@ =~= "\""@ + "gpu_name"@ + "\":"@);
    }
    lemma_object_step(ms, 7, state_prefix_7(host_name, node_id, s, c, tick_seq, tick_ts, power_w, limit_w), "gpu_name"@, "\"gpu_name\":"@, json_string_spec(s.name));
    let t7 = state_prefix_7(host_name, node_id, s, c, tick_seq, tick_ts, power_w, limit_w) + ","@ + "\"gpu_name\":"@ + json_string_spec(s.name);
    assert("\"gpu_uuid\":"@ == "\""@ + "gpu_uuid"@ + "\":"@) by {
        reveal_strlit("\"");
        reveal_strlit("\":");
        reveal_strlit("gpu_uuid");
        reveal_strlit("\"gpu_uuid\":");
        assert("\"gpu_uuid\":"@ =~= "\""@ + "gpu_uuid"@ + "\":"@);
    }
    lemma_object_step(ms, 8, t7, "gpu_uuid"@, "\"gpu_uuid\":"@, json_string_spec(s.uuid));
    let t8 = t7 + ","@ + "\"gpu_uuid\":"@ + json_string_spec(s.uuid);
    assert("\"driver_version\":"@ == "\""@ + "driver_version"@ + "\":"@) by {
        reveal_strlit("\"");
        reveal_strlit("\":");
        reveal_strlit("driver_version");
        reveal_strlit("\"driver_version\":");
        assert("\"driver_version\":"@ =~= "\""@ + "driver_version"@ + "\":"@);
    }
    lemma_object_step(ms, 9, t8, "driver_version"@, "\"driver_version\":"@, json_string_spec(c.driver_version));
    let t9 = t8 + ","@ + "\"driver_version\":"@ + json_string_spec(c.driver_version);
    assert("\"cuda_driver_version\":"@ == "\""@ + "cuda_driver_version"@ + "\":"@) by {
        reveal_strlit("\"");
        reveal_strlit("\":");
        reveal_strlit("cuda_driver_version");
        reveal_strlit("\"cuda_driver_version\":");
        assert("\"cuda_driver_version\":"@ =~= "\""@ + "cuda_driver_version"@ + "\":"@);
    }
    lemma_object_step(ms, 10, t9, "cuda_driver_version"@, "\"cuda_driver_version\":"@, json_string_spec(c.cuda_driver_version));
    let t10 = t9 + ","@ + "\"cuda_driver_version\":"@ + json_string_spec(c.cuda_driver_version);
    assert("\"compute_mode\":"@ == "\""@ + "compute_mode"@ + "\":"@) by {
        reveal_strlit("\"");
        reveal_strlit("\":");
        reveal_strlit("compute_mode");
        reveal_strlit("\"compute_mode\":");
        assert("\"compute_mode\":"@ =~= "\""@ + "compute_mode"@ + "\":"@);
    }
    lemma_object_step(ms, 11, t10, "compute_mode"@, "\"compute_mode\":"@, json_string_spec(c.compute_mode));
    let t11 = t10 + ","@ + "\"compute_mode\":"@ + json_string_spec(c.compute_mode);
    assert("\"perf_state\":"@ == "\""@ + "perf_state"@ + "\":"@) by {
        reveal_strlit("\"");
        reveal_strlit("\":");
        reveal_strlit("perf_state");
        reveal_strlit("\"perf_state\":");
        assert("\"perf_state\":"@ =~= "\""@ + "perf_state"@ + "\":"@);
    }
    lemma_object_step(ms, 12, t11, "perf_state"@, "\"perf_state\":"@, json_string_spec(c.perf_state));
    let t12 = t11 + ","@ + "\"perf_state\":"@ + json_string_spec(c.perf_state);
    assert("\"pci_bus_id\":"@ == "\""@ + "pci_bus_id"@ + "\":"@) by {
        reveal_strlit("\"");
        reveal_strlit("\":");
        reveal_strlit("pci_bus_id");
        reveal_strlit("\"pci_bus_id\":");
        assert("\"pci_bus_id\":"@ =~= "\""@ + "pci_bus_id"@ + "\":"@);
    }
    lemma_object_step(ms, 13, t12, "pci_bus_id"@, "\"pci_bus_id\":"@, json_string_spec(c.pci_bus_id));
    let t13 = t12 + ","@ + "\"pci_bus_id\":"@ + json_string_spec(c.pci_bus_id);
}

#[verifier::spinoff_prover]
#[verifier::rlimit(50)]
proof fn lemma_payload_prefix_21(
    host_name: Seq<char>,
    node_id: Seq<char>,
    s: GpuSnapshotModel,
    c: ProbeContextModel,
    tick_seq: u64,
    tick_ts: Seq<char>,
    power_w: Option<Seq<char>>,
    limit_w: Option<Seq<char>>,
)
    ensures
        "{"@ + join_with(state_payload_members(host_name, node_id, s, c, tick_seq, tick_ts, power_w, limit_w).take(21), ","@) == state_prefix_21(host_name, node_id, s, c, tick_seq, tick_ts, power_w, limit_w),
{
    reveal(state_prefix_21);
    let ms = state_payload_members(host_name, node_id, s, c, tick_seq, tick_ts, power_w, limit_w);
    assert(ms.len() == 21);
    lemma_payload_prefix_14(host_name, node_id, s, c, tick_seq, tick_ts, power_w, limit_w);
    assert("\"temp_c\":"@ == "\""@ + "temp_c"@ + "\":"@) by {
        reveal_strlit("\"");
        reveal_strlit("\":");
        reveal_strlit("temp_c");
        reveal_strlit("\"temp_c\":");
        assert("\"temp_c\":"@ =~= "\""@ + "temp_c"@ + "\":"@);
    }
    lemma_object_step(ms, 14, state_prefix_14(host_name, node_id, s, c, tick_seq, tick_ts, power_w, limit_w), "temp_c"@, "\"temp_c\":"@, optional_u32_json_spec(s.temp_c));
    let t14 = state_prefix_14(host_name, node_id, s, c, tick_seq, tick_ts, power_w, limit_w) + ","@ + "\"temp_c\":"@ + optional_u32_json_spec(s.temp_c);
    assert("\"util_gpu_pct\":"@ == "\""@ + "util_gpu_pct"@ + "\":"@) by {
        reveal_strlit("\"");
        reveal_strlit("\":");
        reveal_strlit("util_gpu_pct");
        reveal_strlit("\"util_gpu_pct\":");
        assert("\"util_gpu_pct\":"@ =~= "\""@ + "util_gpu_pct"@ + "\":"@);
    }
    lemma_object_step(ms, 15, t14, "util_gpu_pct"@, "\"util_gpu_pct\":"@, dec(s.gpu_util_pct as nat));
    let t15 = t14 + ","@ + "\"util_gpu_pct\":"@ + dec(s.gpu_util_pct as nat);
    assert("\"util_mem_controller_pct\":"@ == "\""@ + "util_mem_controller_pct"@ + "\":"@) by {
        reveal_strlit("\"");
        reveal_strlit("\":");
        reveal_strlit("util_mem_controller_pct");
        reveal_strlit("\"util_mem_controller_pct\":");
        assert("\"util_mem_controller_pct\":"@ =~= "\""@ + "util_mem_controller_pct"@ + "\":"@);
    }
    lemma_object_step(ms, 16, t15, "util_mem_controller_pct"@, "\"util_mem_controller_pct\":"@, dec(s.mem_util_pct as nat));
    let t16 = t15 + ","@ + "\"util_mem_controller_pct\":"@ + dec(s.mem_util_pct as nat);
    assert("\"vram_used_mib\":"@ == "\""@ + "vram_used_mib"@ + "\":"@) by {
        reveal_strlit("\"");
        reveal_strlit("\":");
        reveal_strlit("vram_used_mib");
        reveal_strlit("\"vram_used_mib\":");
        assert("\"vram_used_mib\":"@ =~= "\""@ + "vram_used_mib"@ + "\":"@);
    }
    lemma_object_step(ms, 17, t16, "vram_used_mib"@, "\"vram_used_mib\":"@, dec(mib(s.mem_used_bytes)));
    let t17 = t16 + ","@ + "\"vram_used_mib\":"@ + dec(mib(s.mem_used_bytes));
    assert("\"vram_total_mib\":"@ == "\""@ + "vram_total_mib"@ + "\":"@) by {
        reveal_strlit("\"");
        reveal_strlit("\":");
        reveal_strlit("vram_total_mib");
        reveal_strlit("\"vram_total_mib\":");
        assert("\"vram_total_mib\":"@ =~= "\""@ + "vram_total_mib"@ + "\":"@);
    }
    lemma_object_step(ms, 18, t17, "vram_total_mib"@, "\"vram_total_mib\":"@, dec(mib(s.mem_total_bytes)));
    let t18 = t17 + ","@ + "\"vram_total_mib\":"@ + dec(mib(s.mem_total_bytes));
    assert("\"power_w\":"@ == "\""@ + "power_w"@ + "\":"@) by {
        reveal_strlit("\"");
        reveal_strlit("\":");
        reveal_strlit("power_w");
        reveal_strlit("\"power_w\":");
        assert("\"power_w\":"@ =~= "\""@ + "power_w"@ + "\":"@);
    }
    lemma_object_step(ms, 19, t18, "power_w"@, "\"power_w\":"@, optional_number_json(power_w));
    let t19 = t18 + ","@ + "\"power_w\":"@ + optional_number_json(power_w);
    assert("\"power_limit_w\":"@ == "\""@ + "power_limit_w"@ + "\":"@) by {
        reveal_strlit("\"");
        reveal_strlit("\":");
        reveal_strlit("power_limit_w");
        reveal_strlit("\"power_limit_w\":");
        assert("\"power_limit_w\":"@ =~= "\""@ + "power_limit_w"@ + "\":"@);
    }
    lemma_object_step(ms, 20, t19, "power_limit_w"@, "\"power_limit_w\":"@, optional_number_json(limit_w));
    let t20 = t19 + ","@ + "\"power_limit_w\":"@ + optional_number_json(limit_w);
}

/// The state payload of a GPU is a JSON object whose members, separated by
/// exactly one comma each, are, in order: the WTG version, the payload
/// schema 1, the tick sequence number, the tick timestamp, the host, the
/// node, the GPU's index, name and UUID, its driver, CUDA driver, compute
/// mode, performance state and PCI bus ID, its temperature (`null` when
/// absent), GPU and memory controller utilisation, VRAM used and total in
/// MiB, and its power and power limit (`null` when absent).
#[verifier::spinoff_prover]
#[verifier::rlimit(50)]
pub proof fn lemma_state_payload_is_json_object(
    host_name: Seq<char>,
    node_id: Seq<char>,
    s: GpuSnapshotModel,
    c: ProbeContextModel,
    tick_seq: u64,
    tick_ts: Seq<char>,
    power_w: Option<Seq<char>>,
    limit_w: Option<Seq<char>>,
)
    ensures
        state_payload_spec(host_name, node_id, s, c, tick_seq, tick_ts, power_w, limit_w) == json_object_of(state_payload_members(host_name, node_id, s, c, tick_seq, tick_ts, power_w, limit_w)),
        state_payload_members(host_name, node_id, s, c, tick_seq, tick_ts, power_w, limit_w)[2] == json_member("tick_seq"@, dec(tick_seq as nat)),
        state_payload_members(host_name, node_id, s, c, tick_seq, tick_ts, power_w, limit_w)[3] == json_member("tick_ts"@, json_string_spec(tick_ts)),
{
    let ms = state_payload_members(host_name, node_id, s, c, tick_seq, tick_ts, power_w, limit_w);
    lemma_payload_prefix_21(host_name, node_id, s, c, tick_seq, tick_ts, power_w, limit_w);
    assert(ms.take(21) =~= ms);
    reveal(state_prefix_7);
    reveal(state_prefix_14);
    reveal(state_prefix_21);
    assert(state_payload_spec(host_name, node_id, s, c, tick_seq, tick_ts, power_w, limit_w) == state_prefix_21(host_name, node_id, s, c, tick_seq, tick_ts, power_w, limit_w) + "}"@);
}

} // verus!
