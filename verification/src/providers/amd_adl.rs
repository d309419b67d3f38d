//! The AMD ADL provider: its identity, its command line, and how it names and
//! judges what ADL returns.
use vstd::prelude::*;

use crate::json::{json_as_bool, json_get, JsonValue};
use crate::stats::{wtg_version, wtg_version_spec};
use crate::text::{
    cat, cat3, dec, dec_signed, dec_string, dec_string_signed, join_strings, join_with, owned,
    parse_unsigned, parse_unsigned_spec, push_line, push_str, str_eq, views,
};

verus! {

/// The source every ADL sample names.
pub fn source() -> (r: &'static str)
    ensures
        r@ == "wtg.provider.amd.adl"@,
{
    "wtg.provider.amd.adl"
}

/// The telemetry class of ADL samples.
pub fn telemetry_class() -> (r: &'static str)
    ensures
        r@ == "provider_telemetry"@,
{
    "provider_telemetry"
}

/// The provider name of ADL samples.
pub fn provider() -> (r: &'static str)
    ensures
        r@ == "amd.adl"@,
{
    "amd.adl"
}

/// The authority behind ADL samples.
pub fn provider_authority() -> (r: &'static str)
    ensures
        r@ == "AMD ADL"@,
{
    "AMD ADL"
}

/// The interval of `--watch` when none is given.
pub const DEFAULT_INTERVAL_MS: u64 = 1000;

/// One sample, or a sample at every interval.
#[derive(Clone, Copy, Debug, PartialEq, Eq, Structural)]
pub enum Mode {
    Once,
    Watch,
}

/// The provider's command line.
#[derive(Clone, Copy, Debug, PartialEq, Eq, Structural)]
pub struct CliArgs {
    pub mode: Mode,
    pub interval_ms: u64,
}

/// The message when both modes are asked for.
pub open spec fn one_mode_message() -> Seq<char> {
    "choose only one of --once or --watch"@
}

/// The provider's command line read from position `i` on, with the mode and
/// interval read so far.
pub open spec fn parse_from(args: Seq<Seq<char>>, i: int, mode: Option<Mode>, interval_ms: u64) -> Result<
    CliArgs,
    Seq<char>,
>
    decreases args.len() - i,
{
    if i >= args.len() || i < 0 {
        match mode {
            None => Err("one of --once or --watch is required"@),
            Some(m) => if m == Mode::Once && interval_ms != DEFAULT_INTERVAL_MS {
                Err("--interval-ms is valid only with --watch"@)
            } else {
                Ok(CliArgs { mode: m, interval_ms })
            },
        }
    } else {
        let a = args[i];
        if a == "--once"@ {
            if mode is Some {
                Err(one_mode_message())
            } else {
                parse_from(args, i + 1, Some(Mode::Once), interval_ms)
            }
        } else if a == "--watch"@ {
            if mode is Some {
                Err(one_mode_message())
            } else {
                parse_from(args, i + 1, Some(Mode::Watch), interval_ms)
            }
        } else if a == "--interval-ms"@ {
            if i + 1 >= args.len() {
                Err("--interval-ms requires a value"@)
            } else {
                match parse_unsigned_spec(args[i + 1], u64::MAX as nat) {
                    Some(n) => parse_from(args, i + 2, mode, n as u64),
                    None => Err("--interval-ms must be an integer. Got: "@ + args[i + 1]),
                }
            }
        } else if a == "--help"@ || a == "-h"@ {
            Err("help requested"@)
        } else {
            Err("unknown argument: "@ + a)
        }
    }
}

/// The views of the arguments.
pub open spec fn arg_views(args: Seq<String>) -> Seq<Seq<char>> {
    args.map_values(|s: String| s@)
}

fn prefixed(prefix: &str, v: &str) -> (r: String)
    ensures
        r@ == prefix@ + v@,
{
    let mut r = owned(prefix);
    push_str(&mut r, v);
    r
}

/// Reads the provider's command line (without the program name): exactly one
/// of `--once` and `--watch`, and `--interval-ms` only with `--watch`.
pub fn parse_args(args: &Vec<String>) -> (r: Result<CliArgs, String>)
    ensures
        match (r, parse_from(arg_views(args@), 0, None, DEFAULT_INTERVAL_MS)) {
            (Ok(a), Ok(b)) => a == b,
            (Err(e), Err(m)) => e@ == m,
            _ => false,
        },
{
    let ghost argv = arg_views(args@);
    let mut mode: Option<Mode> = None;
    let mut interval_ms: u64 = DEFAULT_INTERVAL_MS;
    let mut i: usize = 0;
    while i < args.len()
        invariant
            argv == arg_views(args@),
            i <= args.len(),
            parse_from(argv, 0, None, DEFAULT_INTERVAL_MS) == parse_from(argv, i as int, mode, interval_ms),
        decreases args.len() - i,
    {
        let a = args[i].as_str();
        assert(argv[i as int] == a@);
        if str_eq(a, "--once") {
            if mode.is_some() {
                return Err(owned("choose only one of --once or --watch"));
            }
            mode = Some(Mode::Once);
            i = i + 1;
        } else if str_eq(a, "--watch") {
            if mode.is_some() {
                return Err(owned("choose only one of --once or --watch"));
            }
            mode = Some(Mode::Watch);
            i = i + 1;
        } else if str_eq(a, "--interval-ms") {
            if i + 1 >= args.len() {
                return Err(owned("--interval-ms requires a value"));
            }
            let v = args[i + 1].as_str();
            assert(argv[i + 1] == v@);
            match parse_unsigned(v, u64::MAX) {
                Some(n) => {
                    interval_ms = n;
                    i = i + 2;
                },
                None => {
                    return Err(prefixed("--interval-ms must be an integer. Got: ", v));
                },
            }
        } else if str_eq(a, "--help") || str_eq(a, "-h") {
            return Err(owned("help requested"));
        } else {
            return Err(prefixed("unknown argument: ", a));
        }
    }
    match mode {
        None => Err(owned("one of --once or --watch is required")),
        Some(m) => {
            if m == Mode::Once && interval_ms != DEFAULT_INTERVAL_MS {
                Err(owned("--interval-ms is valid only with --watch"))
            } else {
                Ok(CliArgs { mode: m, interval_ms })
            }
        },
    }
}

/// The message printed for a usage error.
pub open spec fn usage_error_text(message: Seq<char>) -> Seq<char> {
    "WTG AMD ADL provider usage error: "@ + message
}

/// The message printed for a usage error; the provider then exits with
/// [`USAGE_EXIT_CODE`].
pub fn usage_error_message(message: &str) -> (r: String)
    ensures
        r@ == usage_error_text(message@),
{
    prefixed("WTG AMD ADL provider usage error: ", message)
}

/// The exit code of a usage error.
pub const USAGE_EXIT_CODE: i32 = 2;

// ---------------------------------------------------------------------------
// Fans, calls and adapters.
// ---------------------------------------------------------------------------
/// ADL's code for a fan speed in percent.
pub const FAN_SPEED_TYPE_PERCENT: i32 = 1;

/// ADL's code for a fan speed in revolutions per minute.
pub const FAN_SPEED_TYPE_RPM: i32 = 2;

/// The metric key of a fan speed of the given type.
pub open spec fn fan_metric_key_spec(speed_type: i32) -> Seq<char> {
    if speed_type == FAN_SPEED_TYPE_PERCENT {
        "overdrive5_fan_speed_percent"@
    } else if speed_type == FAN_SPEED_TYPE_RPM {
        "overdrive5_fan_speed_rpm"@
    } else {
        "overdrive5_fan_speed_unknown"@
    }
}

/// The metric key of a fan speed of the given type.
pub fn fan_metric_key(speed_type: i32) -> (r: &'static str)
    ensures
        r@ == fan_metric_key_spec(speed_type),
{
    if speed_type == FAN_SPEED_TYPE_PERCENT {
        "overdrive5_fan_speed_percent"
    } else if speed_type == FAN_SPEED_TYPE_RPM {
        "overdrive5_fan_speed_rpm"
    } else {
        "overdrive5_fan_speed_unknown"
    }
}

/// The unit of a fan speed of the given type.
pub open spec fn fan_unit_spec(speed_type: i32) -> Option<Seq<char>> {
    if speed_type == FAN_SPEED_TYPE_PERCENT {
        Some("percent"@)
    } else if speed_type == FAN_SPEED_TYPE_RPM {
        Some("rpm"@)
    } else {
        None
    }
}

/// The unit of a fan speed of the given type.
pub fn fan_unit(speed_type: i32) -> (r: Option<&'static str>)
    ensures
        match r {
            Some(u) => fan_unit_spec(speed_type) == Some(u@),
            None => fan_unit_spec(speed_type) is None,
        },
{
    if speed_type == FAN_SPEED_TYPE_PERCENT {
        Some("percent")
    } else if speed_type == FAN_SPEED_TYPE_RPM {
        Some("rpm")
    } else {
        None
    }
}

/// ADL's return code for an unsupported call.
pub const ADL_ERR_NOT_SUPPORTED: i32 = -8;

/// The state of a failed ADL call: `unsupported` for ADL's "not supported"
/// code, else `error`.
pub open spec fn error_state_spec(result: i32) -> Seq<char> {
    if result == ADL_ERR_NOT_SUPPORTED {
        "unsupported"@
    } else {
        "error"@
    }
}

/// One ADL call and what came of it: the metric it was for, the ADL
/// function, its state, the code ADL returned, the raw values, the unit and
/// the error met.
pub struct AdlApiCall {
    pub metric_key: &'static str,
    pub source_api: &'static str,
    pub state: &'static str,
    pub adl_return_code: Option<i32>,
    pub raw: JsonValue,
    pub unit: Option<&'static str>,
    pub error_message: Option<String>,
}

/// The record of an ADL call that returned `result`.
pub fn call_from_error(metric_key: &'static str, source_api: &'static str, result: i32, message: String) -> (r:
    AdlApiCall)
    ensures
        r.metric_key == metric_key,
        r.source_api == source_api,
        r.state@ == error_state_spec(result),
        r.adl_return_code == Some(result),
        r.raw == JsonValue::Null,
        r.unit is None,
        r.error_message == Some(message),
{
    AdlApiCall {
        metric_key,
        source_api,
        state: if result == ADL_ERR_NOT_SUPPORTED {
            "unsupported"
        } else {
            "error"
        },
        adl_return_code: Some(result),
        raw: JsonValue::Null,
        unit: None,
        error_message: Some(message),
    }
}

/// The record of a call that this ADL does not offer.
pub fn unsupported_call(metric_key: &'static str, source_api: &'static str, message: &str) -> (r: AdlApiCall)
    ensures
        r.metric_key == metric_key,
        r.source_api == source_api,
        r.state@ == "unsupported"@,
        r.adl_return_code is None,
        r.raw == JsonValue::Null,
        r.unit is None,
        r.error_message matches Some(m) && m@ == message@,
{
    AdlApiCall {
        metric_key,
        source_api,
        state: "unsupported",
        adl_return_code: None,
        raw: JsonValue::Null,
        unit: None,
        error_message: Some(owned(message)),
    }
}

/// Whether the members are `reason`, naming a duplicate physical adapter
/// record, then `primary_adapter_index`.
pub open spec fn duplicate_record_members(entries: Seq<(String, JsonValue)>, primary_adapter_index: i32) -> bool {
    &&& entries.len() == 2
    &&& entries[0].0@ == "reason"@
    &&& entries[0].1 matches JsonValue::Text(t) && t@ == "duplicate_physical_adapter_record"@
    &&& entries[1].0@ == "primary_adapter_index"@
    &&& entries[1].1 == JsonValue::Int(primary_adapter_index as i64)
}

/// The record that stands for the extended discovery of an ADL record that
/// duplicates a physical adapter already probed: `not_available`, with the
/// primary record's index in its raw values.
pub fn duplicate_extended_discovery_call(primary_adapter_index: i32) -> (r: AdlApiCall)
    ensures
        r.metric_key@ == "extended_discovery"@,
        r.source_api@ == "WTG_ADL_PROVIDER_DEDUP"@,
        r.state@ == "not_available"@,
        r.adl_return_code is None,
        r.raw matches JsonValue::Object(entries) && duplicate_record_members(entries@, primary_adapter_index),
        r.unit is None,
        r.error_message matches Some(m) && m@
            == "Extended AMD ADL telemetry discovery skipped because this ADL record duplicates an already-probed physical AMD adapter."@,
{
    let mut entries: Vec<(String, JsonValue)> = Vec::new();
    entries.push((owned("reason"), JsonValue::Text(owned("duplicate_physical_adapter_record"))));
    entries.push((owned("primary_adapter_index"), JsonValue::Int(primary_adapter_index as i64)));
    AdlApiCall {
        metric_key: "extended_discovery",
        source_api: "WTG_ADL_PROVIDER_DEDUP",
        state: "not_available",
        adl_return_code: None,
        raw: JsonValue::Object(entries),
        unit: None,
        error_message: Some(
            owned(
                "Extended AMD ADL telemetry discovery skipped because this ADL record duplicates an already-probed physical AMD adapter.",
            ),
        ),
    }
}

/// The range of an OverDrive parameter.
pub struct AdlOdParameterRange {
    pub min: i32,
    pub max: i32,
    pub step: i32,
}

/// Whether the members are the range's `min`, `max` and `step`, in order.
pub open spec fn range_members(entries: Seq<(String, JsonValue)>, range: AdlOdParameterRange) -> bool {
    &&& entries.len() == 3
    &&& entries[0].0@ == "min"@
    &&& entries[0].1 == JsonValue::Int(range.min as i64)
    &&& entries[1].0@ == "max"@
    &&& entries[1].1 == JsonValue::Int(range.max as i64)
    &&& entries[2].0@ == "step"@
    &&& entries[2].1 == JsonValue::Int(range.step as i64)
}

/// The raw values of a range: its `min`, `max` and `step`.
pub fn range_json(range: &AdlOdParameterRange) -> (r: JsonValue)
    ensures
        r matches JsonValue::Object(entries) && range_members(entries@, *range),
{
    let mut entries: Vec<(String, JsonValue)> = Vec::new();
    entries.push((owned("min"), JsonValue::Int(range.min as i64)));
    entries.push((owned("max"), JsonValue::Int(range.max as i64)));
    entries.push((owned("step"), JsonValue::Int(range.step as i64)));
    JsonValue::Object(entries)
}

/// What ADL says of one adapter record, with its texts already read.
pub struct AdapterInfo {
    pub i_size: i32,
    pub i_adapter_index: i32,
    pub str_udid: String,
    pub i_bus_number: i32,
    pub i_device_number: i32,
    pub i_function_number: i32,
    pub i_vendor_id: i32,
    pub str_adapter_name: String,
    pub str_display_name: String,
    pub i_present: i32,
    pub i_exist: i32,
    pub str_driver_path: String,
    pub str_driver_path_ext: String,
    pub str_pnp_string: String,
    pub i_os_display_index: i32,
}

/// The key of a physical adapter: `vendor=..,bus=..,device=..,function=..`.
pub open spec fn physical_adapter_key_spec(a: AdapterInfo) -> Seq<char> {
    "vendor="@ + dec_signed(a.i_vendor_id as int) + ",bus="@ + dec_signed(a.i_bus_number as int)
        + ",device="@ + dec_signed(a.i_device_number as int) + ",function="@ + dec_signed(
        a.i_function_number as int,
    )
}

/// The key of a physical adapter; ADL records with the same key are the same
/// adapter.
pub fn physical_adapter_key(a: &AdapterInfo) -> (r: String)
    ensures
        r@ == physical_adapter_key_spec(*a),
{
    let mut r = owned("vendor=");
    let v = dec_string_signed(a.i_vendor_id as i64);
    push_str(&mut r, v.as_str());
    push_str(&mut r, ",bus=");
    let b = dec_string_signed(a.i_bus_number as i64);
    push_str(&mut r, b.as_str());
    push_str(&mut r, ",device=");
    let d = dec_string_signed(a.i_device_number as i64);
    push_str(&mut r, d.as_str());
    push_str(&mut r, ",function=");
    let f = dec_string_signed(a.i_function_number as i64);
    push_str(&mut r, f.as_str());
    assert(r@ =~= physical_adapter_key_spec(*a));
    r
}

/// `yes` or `no`.
pub fn yes_no(value: bool) -> (r: &'static str)
    ensures
        r@ == (if value {
            "yes"@
        } else {
            "no"@
        }),
{
    if value {
        "yes"
    } else {
        "no"
    }
}

/// What ADL said of one adapter record.
pub struct AdlRawIdentity {
    pub adl_adapter_index: i32,
    pub adl_udid: String,
    pub adl_adapter_name: String,
    pub adl_display_name: String,
    pub adl_vendor_id: i32,
    pub adl_present: bool,
    pub adl_exists: bool,
    pub adl_bus_number: i32,
    pub adl_device_number: i32,
    pub adl_function_number: i32,
    pub adl_driver_path: String,
    pub adl_driver_path_ext: String,
    pub adl_pnp_string: String,
    pub adl_os_display_index: i32,
}

/// One ADL adapter record: its identity, the physical adapter it belongs to,
/// the calls made for it and what went wrong.
pub struct AdlAdapterRecord {
    pub adl_raw_identity: AdlRawIdentity,
    pub physical_adapter_key: String,
    pub physical_adapter_role: &'static str,
    pub physical_adapter_primary_index: i32,
    pub logical_record_kind: &'static str,
    pub adl_calls: Vec<AdlApiCall>,
    pub provider_warnings: Vec<String>,
    pub provider_errors: Vec<String>,
}

/// The ADL records that belong to one physical adapter.
pub struct PhysicalAdapterGroup {
    pub physical_adapter_key: String,
    pub physical_vendor_id: i32,
    pub physical_adapter_primary_index: i32,
    pub logical_record_kind: &'static str,
    pub logical_adapter_indices: Vec<i32>,
    pub logical_record_count: usize,
    pub extended_amd_discovery_attempted: bool,
}

/// The codes ADL returned from the calls that start a sample.
pub struct SampleReturnCodes {
    pub adl_main_control_create: Option<i32>,
    pub adl_adapter_number_of_adapters_get: Option<i32>,
    pub adl_adapter_adapter_info_get: Option<i32>,
}

/// One ADL sample.
pub struct ProviderSample {
    pub wtg_version: &'static str,
    pub source: &'static str,
    pub telemetry_class: &'static str,
    pub provider: &'static str,
    pub provider_authority: &'static str,
    pub status: &'static str,
    pub sample_seq: u64,
    pub timestamp_unix_ms: u128,
    pub dll_name: Option<String>,
    pub dll_path: Option<String>,
    pub adl_initialized: bool,
    pub adl_return_codes: SampleReturnCodes,
    pub physical_adapter_group_count: usize,
    pub amd_physical_adapter_count: usize,
    pub non_amd_physical_adapter_count: usize,
    pub extended_amd_discovery_run_count: usize,
    pub physical_adapter_groups: Vec<PhysicalAdapterGroup>,
    pub adapters: Vec<AdlAdapterRecord>,
    pub errors: Vec<String>,
}

/// The first call with the given metric key.
pub open spec fn first_call(calls: Seq<AdlApiCall>, key: Seq<char>) -> Option<AdlApiCall>
    decreases calls.len(),
{
    if calls.len() == 0 {
        None
    } else if calls[0].metric_key@ == key {
        Some(calls[0])
    } else {
        first_call(calls.drop_first(), key)
    }
}

/// Whether an adapter is active: the `value` that its `adapter_active` call
/// recorded, when it recorded a boolean.
pub open spec fn adapter_active_spec(adapter: AdlAdapterRecord) -> Option<bool> {
    match first_call(adapter.adl_calls@, "adapter_active"@) {
        Some(call) => match json_get(call.raw, "value"@) {
            Some(v) => json_as_bool(v),
            None => None,
        },
        None => None,
    }
}

/// Whether an adapter is active, as its `adapter_active` call recorded it.
pub fn adapter_active_value(adapter: &AdlAdapterRecord) -> (r: Option<bool>)
    ensures
        r == adapter_active_spec(*adapter),
{
    let calls = &adapter.adl_calls;
    let mut i: usize = 0;
    assert(calls@.subrange(0, calls@.len() as int) =~= calls@);
    while i < calls.len()
        invariant
            i <= calls@.len(),
            calls@ == adapter.adl_calls@,
            first_call(calls@, "adapter_active"@) == first_call(
                calls@.subrange(i as int, calls@.len() as int),
                "adapter_active"@,
            ),
        decreases calls.len() - i,
    {
        let ghost rest = calls@.subrange(i as int, calls@.len() as int);
        assert(rest[0] == calls@[i as int]);
        if str_eq(calls[i].metric_key, "adapter_active") {
            return match calls[i].raw.get("value") {
                Some(v) => v.as_bool(),
                None => None,
            };
        }
        assert(rest.drop_first() =~= calls@.subrange(i + 1, calls@.len() as int));
        i = i + 1;
    }
    None
}

/// The first adapter record with the given ADL index.
pub open spec fn adapter_with_index(adapters: Seq<AdlAdapterRecord>, index: i32) -> Option<AdlAdapterRecord>
    decreases adapters.len(),
{
    if adapters.len() == 0 {
        None
    } else if adapters[0].adl_raw_identity.adl_adapter_index == index {
        Some(adapters[0])
    } else {
        adapter_with_index(adapters.drop_first(), index)
    }
}

fn find_adapter(adapters: &Vec<AdlAdapterRecord>, index: i32) -> (r: Option<&AdlAdapterRecord>)
    ensures
        match r {
            Some(a) => adapter_with_index(adapters@, index) == Some(*a),
            None => adapter_with_index(adapters@, index) is None,
        },
{
    let mut i: usize = 0;
    assert(adapters@.subrange(0, adapters@.len() as int) =~= adapters@);
    while i < adapters.len()
        invariant
            i <= adapters@.len(),
            adapter_with_index(adapters@, index) == adapter_with_index(
                adapters@.subrange(i as int, adapters@.len() as int),
                index,
            ),
        decreases adapters.len() - i,
    {
        let ghost rest = adapters@.subrange(i as int, adapters@.len() as int);
        assert(rest[0] == adapters@[i as int]);
        if adapters[i].adl_raw_identity.adl_adapter_index == index {
            return Some(&adapters[i]);
        }
        assert(rest.drop_first() =~= adapters@.subrange(i + 1, adapters@.len() as int));
        i = i + 1;
    }
    None
}

/// The decimal texts of the indexes.
pub open spec fn index_texts(indices: Seq<i32>) -> Seq<Seq<char>> {
    indices.map_values(|i: i32| dec_signed(i as int))
}

fn join_indices(indices: &Vec<i32>) -> (r: String)
    ensures
        r@ == join_with(index_texts(indices@), ", "@),
{
    let mut parts: Vec<String> = Vec::new();
    let mut i: usize = 0;
    while i < indices.len()
        invariant
            i <= indices@.len(),
            views(parts@) == index_texts(indices@.take(i as int)),
        decreases indices.len() - i,
    {
        push_line(&mut parts, dec_string_signed(indices[i] as i64));
        assert(index_texts(indices@.take(i + 1)) =~= index_texts(indices@.take(i as int)).push(
            dec_signed(indices@[i as int] as int),
        ));
        i = i + 1;
    }
    assert(indices@.take(indices.len() as int) =~= indices@);
    join_strings(&parts, ", ")
}

/// `yes` or `no`, as a text.
pub open spec fn yes_no_spec(value: bool) -> Seq<char> {
    if value {
        "yes"@
    } else {
        "no"@
    }
}

/// The lines shown for one physical adapter group: its key, the name of its
/// primary record, its vendor, its record indexes, whether extended discovery
/// ran and whether the adapter is active; then a blank line.
pub open spec fn group_lines(adapters: Seq<AdlAdapterRecord>, g: PhysicalAdapterGroup) -> Seq<Seq<char>> {
    let primary = adapter_with_index(adapters, g.physical_adapter_primary_index);
    let name = match primary {
        Some(a) => a.adl_raw_identity.adl_adapter_name@,
        None => "unknown"@,
    };
    let active = match primary {
        Some(a) => match adapter_active_spec(a) {
            Some(b) => b,
            None => false,
        },
        None => false,
    };
    seq![
        "Physical adapter group "@ + g.physical_adapter_key@,
        "  Adapter name: "@ + name,
        "  Vendor kind: "@ + (if g.physical_vendor_id == 1002 {
            "AMD"@
        } else {
            "non-AMD"@
        }),
        "  Primary ADL adapter index: "@ + dec_signed(g.physical_adapter_primary_index as int),
        "  Logical ADL record indexes: "@ + join_with(index_texts(g.logical_adapter_indices@), ", "@),
        "  Extended AMD discovery attempted: "@ + yes_no_spec(g.extended_amd_discovery_attempted),
        "  Active: "@ + yes_no_spec(active),
        Seq::<char>::empty(),
    ]
}

/// The lines of the groups, in order.
pub open spec fn groups_lines(adapters: Seq<AdlAdapterRecord>, groups: Seq<PhysicalAdapterGroup>) -> Seq<Seq<char>>
    decreases groups.len(),
{
    if groups.len() == 0 {
        seq![]
    } else {
        groups_lines(adapters, groups.drop_last()) + group_lines(adapters, groups.last())
    }
}

fn push_group_lines(lines: &mut Vec<String>, adapters: &Vec<AdlAdapterRecord>, g: &PhysicalAdapterGroup)
    ensures
        views(final(lines)@) == views(old(lines)@) + group_lines(adapters@, *g),
{
    let ghost start = views(lines@);
    let primary = find_adapter(adapters, g.physical_adapter_primary_index);
    let active = match primary {
        Some(a) => match adapter_active_value(a) {
            Some(b) => b,
            None => false,
        },
        None => false,
    };
    push_line(lines, cat("Physical adapter group ", g.physical_adapter_key.as_str()));
    match primary {
        Some(a) => push_line(lines, cat("  Adapter name: ", a.adl_raw_identity.adl_adapter_name.as_str())),
        None => push_line(lines, cat("  Adapter name: ", "unknown")),
    }
    push_line(
        lines,
        cat(
            "  Vendor kind: ",
            if g.physical_vendor_id == 1002 {
                "AMD"
            } else {
                "non-AMD"
            },
        ),
    );
    let p = dec_string_signed(g.physical_adapter_primary_index as i64);
    push_line(lines, cat("  Primary ADL adapter index: ", p.as_str()));
    let ix = join_indices(&g.logical_adapter_indices);
    push_line(lines, cat("  Logical ADL record indexes: ", ix.as_str()));
    push_line(lines, cat("  Extended AMD discovery attempted: ", yes_no(g.extended_amd_discovery_attempted)));
    push_line(lines, cat("  Active: ", yes_no(active)));
    push_line(lines, String::new());
    assert(views(lines@) =~= start + group_lines(adapters@, *g));
}

/// Lines without a blank last line.
pub open spec fn without_trailing_blank(lines: Seq<Seq<char>>) -> Seq<Seq<char>> {
    if lines.len() > 0 && lines.last().len() == 0 {
        lines.drop_last()
    } else {
        lines
    }
}

/// The lines of an `ok` sample: the counts, then each physical adapter group,
/// or a note that there is none.
pub open spec fn ok_snapshot_lines(s: ProviderSample) -> Seq<Seq<char>> {
    seq![
        "WTG snapshot (AMD ADL)"@,
        Seq::<char>::empty(),
        "ADL adapter records returned: "@ + dec(s.adapters@.len()),
        "Physical adapter groups: "@ + dec(s.physical_adapter_group_count as nat),
        "AMD physical adapters: "@ + dec(s.amd_physical_adapter_count as nat),
        "Non-AMD physical adapters seen through ADL: "@ + dec(s.non_amd_physical_adapter_count as nat),
        "Extended AMD discovery ran: "@ + dec(s.extended_amd_discovery_run_count as nat),
        Seq::<char>::empty(),
    ] + (if s.physical_adapter_groups@.len() == 0 {
        seq!["No physical adapter groups returned by ADL."@]
    } else {
        groups_lines(s.adapters@, s.physical_adapter_groups@)
    })
}

/// The reason shown for a sample: its first error, or a note that there is
/// none.
pub open spec fn reason_spec(s: ProviderSample) -> Seq<char> {
    if s.errors@.len() > 0 {
        s.errors@[0]@
    } else {
        "provider returned no additional details"@
    }
}

/// The snapshot text of a sample: for an `ok` sample its counts and adapter
/// groups, otherwise its status and reason.
pub open spec fn format_snapshot_spec(s: ProviderSample) -> Seq<char> {
    if s.status@ == "ok"@ {
        join_with(without_trailing_blank(ok_snapshot_lines(s)), "\n"@)
    } else {
        "WTG snapshot (AMD ADL)\n\n  Status: "@ + s.status@ + "\n  Reason: "@ + reason_spec(s)
    }
}

fn push_ok_counts(lines: &mut Vec<String>, sample: &ProviderSample)
    ensures
        views(final(lines)@) == views(old(lines)@) + ok_snapshot_lines(*sample).take(8),
{
    let ghost start = views(lines@);
    push_line(lines, owned("WTG snapshot (AMD ADL)"));
    push_line(lines, String::new());
    let a = dec_string(sample.adapters.len() as u64);
    push_line(lines, cat("ADL adapter records returned: ", a.as_str()));
    let g = dec_string(sample.physical_adapter_group_count as u64);
    push_line(lines, cat("Physical adapter groups: ", g.as_str()));
    let m = dec_string(sample.amd_physical_adapter_count as u64);
    push_line(lines, cat("AMD physical adapters: ", m.as_str()));
    let n = dec_string(sample.non_amd_physical_adapter_count as u64);
    push_line(lines, cat("Non-AMD physical adapters seen through ADL: ", n.as_str()));
    let e = dec_string(sample.extended_amd_discovery_run_count as u64);
    push_line(lines, cat("Extended AMD discovery ran: ", e.as_str()));
    push_line(lines, String::new());
    assert(views(lines@) =~= start + ok_snapshot_lines(*sample).take(8));
}

/// The snapshot text of an ADL sample.
pub fn format_snapshot(sample: &ProviderSample) -> (r: String)
    ensures
        r@ == format_snapshot_spec(*sample),
{
    if !str_eq(sample.status, "ok") {
        let mut r = cat3("WTG snapshot (AMD ADL)\n\n  Status: ", sample.status, "\n  Reason: ");
        if sample.errors.len() > 0 {
            push_str(&mut r, sample.errors[0].as_str());
        } else {
            push_str(&mut r, "provider returned no additional details");
        }
        assert(r@ =~= format_snapshot_spec(*sample));
        return r;
    }
    let mut lines: Vec<String> = Vec::new();
    push_ok_counts(&mut lines, sample);
    if sample.physical_adapter_groups.len() == 0 {
        push_line(&mut lines, owned("No physical adapter groups returned by ADL."));
    } else {
        let ghost before = views(lines@);
        let groups = &sample.physical_adapter_groups;
        let mut i: usize = 0;
        while i < groups.len()
            invariant
                i <= groups@.len(),
                groups == &sample.physical_adapter_groups,
                views(lines@) == before + groups_lines(sample.adapters@, groups@.take(i as int)),
            decreases groups.len() - i,
        {
            push_group_lines(&mut lines, &sample.adapters, &groups[i]);
            assert(groups@.take(i + 1).drop_last() =~= groups@.take(i as int));
            i = i + 1;
        }
        assert(groups@.take(groups.len() as int) =~= groups@);
    }
    assert(views(lines@) =~= ok_snapshot_lines(*sample));
    if lines.len() > 0 && lines[lines.len() - 1].as_str().is_empty() {
        lines.pop();
        assert(views(lines@) =~= without_trailing_blank(ok_snapshot_lines(*sample)));
    }
    join_strings(&lines, "\n")
}

// ---------------------------------------------------------------------------
// Physical adapters: ADL lists one record per display output, several of them
// for one card; records with the same vendor and PCI location are one card.
// ---------------------------------------------------------------------------
/// AMD's PCI vendor ID.
pub const AMD_VENDOR_ID: i32 = 1002;

/// A physical adapter group as values: its key, vendor, primary record and
/// the indexes of its records.
pub struct GroupModel {
    pub key: Seq<char>,
    pub vendor: i32,
    pub primary: i32,
    pub indices: Seq<i32>,
}

/// Where a record stands as values: its physical key, its role, the primary
/// record of its adapter, and whether it repeats an AMD adapter.
pub struct PlacementModel {
    pub key: Seq<char>,
    pub role: Seq<char>,
    pub primary: i32,
    pub duplicate_amd: bool,
}

/// A group as values.
pub open spec fn group_view(g: PhysicalAdapterGroup) -> GroupModel {
    GroupModel {
        key: g.physical_adapter_key@,
        vendor: g.physical_vendor_id,
        primary: g.physical_adapter_primary_index,
        indices: g.logical_adapter_indices@,
    }
}

/// Whether a group's derived fields agree with it: its record kind, its
/// count of records, and extended discovery exactly for AMD adapters.
pub open spec fn group_consistent(g: PhysicalAdapterGroup) -> bool {
    &&& g.logical_record_kind@ == "adl_display_record"@
    &&& g.logical_record_count == g.logical_adapter_indices@.len()
    &&& g.extended_amd_discovery_attempted == (g.physical_vendor_id == AMD_VENDOR_ID)
}

/// Where a record stands among the physical adapters.
pub struct AdapterPlacement {
    pub physical_adapter_key: String,
    pub physical_adapter_role: &'static str,
    pub physical_adapter_primary_index: i32,
    pub duplicate_amd_record: bool,
}

/// A placement as values.
pub open spec fn placement_view(p: AdapterPlacement) -> PlacementModel {
    PlacementModel {
        key: p.physical_adapter_key@,
        role: p.physical_adapter_role@,
        primary: p.physical_adapter_primary_index,
        duplicate_amd: p.duplicate_amd_record,
    }
}

/// The index of the first group with the given key.
pub open spec fn find_group(gs: Seq<GroupModel>, key: Seq<char>) -> Option<int>
    decreases gs.len(),
{
    if gs.len() == 0 {
        None
    } else {
        match find_group(gs.drop_last(), key) {
            Some(i) => Some(i),
            None => if gs.last().key == key {
                Some(gs.len() - 1)
            } else {
                None
            },
        }
    }
}

/// The physical adapter groups, the placement of each record, and how many
/// AMD adapters get extended discovery, for the records in order: a record
/// whose key is new starts a group and is its primary record; a record with
/// a known key joins that group.
pub open spec fn grouping_spec(infos: Seq<AdapterInfo>) -> (Seq<GroupModel>, Seq<PlacementModel>, nat)
    decreases infos.len(),
{
    if infos.len() == 0 {
        (seq![], seq![], 0)
    } else {
        let (gs, ps, ext) = grouping_spec(infos.drop_last());
        let info = infos.last();
        let key = physical_adapter_key_spec(info);
        match find_group(gs, key) {
            Some(gi) => (
                gs.update(gi, GroupModel { indices: gs[gi].indices.push(info.i_adapter_index), ..gs[gi] }),
                ps.push(
                    PlacementModel {
                        key,
                        role: "duplicate_logical_record"@,
                        primary: gs[gi].primary,
                        duplicate_amd: info.i_vendor_id == AMD_VENDOR_ID,
                    },
                ),
                ext,
            ),
            None => (
                gs.push(
                    GroupModel {
                        key,
                        vendor: info.i_vendor_id,
                        primary: info.i_adapter_index,
                        indices: seq![info.i_adapter_index],
                    },
                ),
                ps.push(
                    PlacementModel {
                        key,
                        role: "primary_physical_record"@,
                        primary: info.i_adapter_index,
                        duplicate_amd: false,
                    },
                ),
                if info.i_vendor_id == AMD_VENDOR_ID {
                    ext + 1
                } else {
                    ext
                },
            ),
        }
    }
}

proof fn lemma_find_group_none(gs: Seq<GroupModel>, key: Seq<char>)
    ensures
        find_group(gs, key) is None <==> forall|g: int| 0 <= g < gs.len() ==> gs[g].key != key,
        find_group(gs, key) matches Some(i) ==> 0 <= i < gs.len() && gs[i].key == key,
    decreases gs.len(),
{
    if gs.len() > 0 {
        lemma_find_group_none(gs.drop_last(), key);
        if find_group(gs.drop_last(), key) is None && gs.last().key != key {
            assert forall|g: int| 0 <= g < gs.len() implies gs[g].key != key by {
                if g < gs.len() - 1 {
                    assert(gs.drop_last()[g] == gs[g]);
                }
            }
        }
        match find_group(gs.drop_last(), key) {
            Some(i) => {
                assert(gs.drop_last()[i] == gs[i]);
            },
            None => {},
        }
    }
}

/// Records are grouped without loss or overlap: each record has a place
/// under its own physical key, in a group of that key whose primary record
/// is the one its place names, and no two groups share a key.
pub proof fn lemma_grouping_partitions(infos: Seq<AdapterInfo>)
    ensures
        ({
            let (gs, ps, ext) = grouping_spec(infos);
            &&& ps.len() == infos.len()
            &&& forall|g1: int, g2: int| 0 <= g1 < g2 < gs.len() ==> gs[g1].key != gs[g2].key
            &&& forall|k: int|
                0 <= k < ps.len() ==> ps[k].key == physical_adapter_key_spec(infos[k]) && exists|g: int|
                    0 <= g < gs.len() && gs[g].key == ps[k].key && gs[g].primary == ps[k].primary
        }),
    decreases infos.len(),
{
    if infos.len() > 0 {
        let init = infos.drop_last();
        lemma_grouping_partitions(init);
        let (gs, ps, ext) = grouping_spec(init);
        let info = infos.last();
        let key = physical_adapter_key_spec(info);
        lemma_find_group_none(gs, key);
        let (gs2, ps2, ext2) = grouping_spec(infos);
        assert forall|k: int| 0 <= k < ps.len() implies ps2[k] == ps[k] && infos[k] == init[k] by {}
        match find_group(gs, key) {
            Some(gi) => {
                assert forall|g: int| 0 <= g < gs.len() implies gs2[g].key == gs[g].key && gs2[g].primary
                    == gs[g].primary by {}
                assert forall|k: int|
                    0 <= k < ps2.len() implies ps2[k].key == physical_adapter_key_spec(infos[k]) && exists|g: int|
                    0 <= g < gs2.len() && gs2[g].key == ps2[k].key && gs2[g].primary == ps2[k].primary by {
                    if k < ps.len() {
                        let g = choose|g: int|
                            0 <= g < gs.len() && gs[g].key == ps[k].key && gs[g].primary == ps[k].primary;
                        assert(gs2[g].key == ps2[k].key && gs2[g].primary == ps2[k].primary);
                    } else {
                        assert(gs2[gi].key == ps2[k].key && gs2[gi].primary == ps2[k].primary);
                    }
                }
            },
            None => {
                assert forall|g1: int, g2: int| 0 <= g1 < g2 < gs2.len() implies gs2[g1].key != gs2[g2].key by {
                    if g2 == gs.len() {
                        assert(gs2[g1] == gs[g1]);
                    }
                }
                assert forall|k: int|
                    0 <= k < ps2.len() implies ps2[k].key == physical_adapter_key_spec(infos[k]) && exists|g: int|
                    0 <= g < gs2.len() && gs2[g].key == ps2[k].key && gs2[g].primary == ps2[k].primary by {
                    if k < ps.len() {
                        let g = choose|g: int|
                            0 <= g < gs.len() && gs[g].key == ps[k].key && gs[g].primary == ps[k].primary;
                        assert(gs2[g] == gs[g]);
                    } else {
                        assert(gs2[gs.len() as int].key == ps2[k].key);
                    }
                }
            },
        }
    }
}

/// The groups of records, the place of each record, and the number of
/// extended discovery runs.
pub struct AdapterGrouping {
    pub groups: Vec<PhysicalAdapterGroup>,
    pub placements: Vec<AdapterPlacement>,
    pub extended_amd_discovery_run_count: usize,
}

/// The models of a sequence of groups.
pub open spec fn group_views(gs: Seq<PhysicalAdapterGroup>) -> Seq<GroupModel> {
    gs.map_values(|g: PhysicalAdapterGroup| group_view(g))
}

/// The models of a sequence of placements.
pub open spec fn placement_views(ps: Seq<AdapterPlacement>) -> Seq<PlacementModel> {
    ps.map_values(|p: AdapterPlacement| placement_view(p))
}

fn find_group_index(groups: &Vec<PhysicalAdapterGroup>, key: &str) -> (r: Option<usize>)
    ensures
        match r {
            Some(i) => find_group(group_views(groups@), key@) == Some(i as int) && i < groups@.len(),
            None => find_group(group_views(groups@), key@) is None,
        },
{
    let ghost gv = group_views(groups@);
    let mut i: usize = 0;
    while i < groups.len()
        invariant
            i <= groups@.len(),
            gv == group_views(groups@),
            find_group(gv.take(i as int), key@) is None,
        decreases groups.len() - i,
    {
        assert(gv.take(i + 1).drop_last() =~= gv.take(i as int));
        if str_eq(groups[i].physical_adapter_key.as_str(), key) {
            proof {
                lemma_find_group_prefix(gv, key@, i as int);
            }
            return Some(i);
        }
        i = i + 1;
    }
    assert(gv.take(groups.len() as int) =~= gv);
    None
}

proof fn lemma_find_group_prefix(gs: Seq<GroupModel>, key: Seq<char>, i: int)
    requires
        0 <= i < gs.len(),
        find_group(gs.take(i), key) is None,
        gs[i].key == key,
    ensures
        find_group(gs, key) == Some(i),
    decreases gs.len(),
{
    if i < gs.len() - 1 {
        assert(gs.drop_last().take(i) =~= gs.take(i));
        assert(gs.drop_last()[i] == gs[i]);
        lemma_find_group_prefix(gs.drop_last(), key, i);
    } else {
        assert(gs.drop_last() =~= gs.take(i));
    }
}

/// Groups the adapter records by physical adapter.
pub fn group_adapters(infos: &Vec<AdapterInfo>) -> (r: AdapterGrouping)
    ensures
        (group_views(r.groups@), placement_views(r.placements@), r.extended_amd_discovery_run_count as nat)
            == grouping_spec(infos@),
        forall|k: int| 0 <= k < r.groups@.len() ==> group_consistent(#[trigger] r.groups@[k]),
{
    let mut groups: Vec<PhysicalAdapterGroup> = Vec::new();
    let mut placements: Vec<AdapterPlacement> = Vec::new();
    let mut ext: usize = 0;
    let mut k: usize = 0;
    while k < infos.len()
        invariant
            k <= infos@.len(),
            (group_views(groups@), placement_views(placements@), ext as nat) == grouping_spec(
                infos@.take(k as int),
            ),
            forall|g: int| 0 <= g < groups@.len() ==> group_consistent(#[trigger] groups@[g]),
            ext <= k,
        decreases infos.len() - k,
    {
        let info = &infos[k];
        assert(infos@.take(k + 1).drop_last() =~= infos@.take(k as int));
        assert(infos@.take(k + 1).last() == infos@[k as int]);
        let key = physical_adapter_key(info);
        let ghost gv = group_views(groups@);
        let ghost pv = placement_views(placements@);
        match find_group_index(&groups, key.as_str()) {
            Some(gi) => {
                let primary = groups[gi].physical_adapter_primary_index;
                let mut indices = groups[gi].logical_adapter_indices.clone();
                assert(indices@ =~= groups@[gi as int].logical_adapter_indices@);
                indices.push(info.i_adapter_index);
                let count = indices.len();
                let updated = PhysicalAdapterGroup {
                    physical_adapter_key: groups[gi].physical_adapter_key.clone(),
                    physical_vendor_id: groups[gi].physical_vendor_id,
                    physical_adapter_primary_index: primary,
                    logical_record_kind: groups[gi].logical_record_kind,
                    logical_adapter_indices: indices,
                    logical_record_count: count,
                    extended_amd_discovery_attempted: groups[gi].extended_amd_discovery_attempted,
                };
                groups.set(gi, updated);
                placements.push(
                    AdapterPlacement {
                        physical_adapter_key: key,
                        physical_adapter_role: "duplicate_logical_record",
                        physical_adapter_primary_index: primary,
                        duplicate_amd_record: info.i_vendor_id == AMD_VENDOR_ID,
                    },
                );
                assert(group_views(groups@) =~= gv.update(
                    gi as int,
                    GroupModel { indices: gv[gi as int].indices.push(info.i_adapter_index), ..gv[gi as int] },
                ));
                assert(placement_views(placements@) =~= pv.push(
                    PlacementModel {
                        key: physical_adapter_key_spec(*info),
                        role: "duplicate_logical_record"@,
                        primary: gv[gi as int].primary,
                        duplicate_amd: info.i_vendor_id == AMD_VENDOR_ID,
                    },
                ));
            },
            None => {
                let mut indices: Vec<i32> = Vec::new();
                indices.push(info.i_adapter_index);
                groups.push(
                    PhysicalAdapterGroup {
                        physical_adapter_key: key.clone(),
                        physical_vendor_id: info.i_vendor_id,
                        physical_adapter_primary_index: info.i_adapter_index,
                        logical_record_kind: "adl_display_record",
                        logical_adapter_indices: indices,
                        logical_record_count: 1,
                        extended_amd_discovery_attempted: info.i_vendor_id == AMD_VENDOR_ID,
                    },
                );
                placements.push(
                    AdapterPlacement {
                        physical_adapter_key: key,
                        physical_adapter_role: "primary_physical_record",
                        physical_adapter_primary_index: info.i_adapter_index,
                        duplicate_amd_record: false,
                    },
                );
                if info.i_vendor_id == AMD_VENDOR_ID {
                    ext = ext + 1;
                }
                assert(group_views(groups@) =~= gv.push(
                    GroupModel {
                        key: physical_adapter_key_spec(*info),
                        vendor: info.i_vendor_id,
                        primary: info.i_adapter_index,
                        indices: seq![info.i_adapter_index],
                    },
                ));
                assert(placement_views(placements@) =~= pv.push(
                    PlacementModel {
                        key: physical_adapter_key_spec(*info),
                        role: "primary_physical_record"@,
                        primary: info.i_adapter_index,
                        duplicate_amd: false,
                    },
                ));
            },
        }
        k = k + 1;
    }
    assert(infos@.take(infos.len() as int) =~= infos@);
    AdapterGrouping { groups, placements, extended_amd_discovery_run_count: ext }
}

/// The number of groups that are AMD adapters.
pub open spec fn amd_group_count(gs: Seq<PhysicalAdapterGroup>) -> nat
    decreases gs.len(),
{
    if gs.len() == 0 {
        0
    } else {
        amd_group_count(gs.drop_last()) + if gs.last().physical_vendor_id == AMD_VENDOR_ID {
            1nat
        } else {
            0nat
        }
    }
}

fn count_amd_groups(gs: &Vec<PhysicalAdapterGroup>) -> (r: usize)
    ensures
        r == amd_group_count(gs@),
        r <= gs@.len(),
{
    let mut n: usize = 0;
    let mut i: usize = 0;
    while i < gs.len()
        invariant
            i <= gs@.len(),
            n == amd_group_count(gs@.take(i as int)),
            n <= i,
        decreases gs.len() - i,
    {
        assert(gs@.take(i + 1).drop_last() =~= gs@.take(i as int));
        if gs[i].physical_vendor_id == AMD_VENDOR_ID {
            n = n + 1;
        }
        i = i + 1;
    }
    assert(gs@.take(gs.len() as int) =~= gs@);
    n
}

/// Which ADL calls are made for a record: only whether it is active for a
/// non-AMD adapter; that and a note standing for extended discovery for a
/// record that repeats an AMD adapter; every call otherwise.
pub enum AdlCallPlan {
    ActiveOnly,
    ActiveThenDuplicate,
    Full,
}

/// Which ADL calls are made for a record.
pub fn call_plan(info: &AdapterInfo, duplicate_amd_record: bool) -> (r: AdlCallPlan)
    ensures
        r == (if info.i_vendor_id != AMD_VENDOR_ID {
            AdlCallPlan::ActiveOnly
        } else if duplicate_amd_record {
            AdlCallPlan::ActiveThenDuplicate
        } else {
            AdlCallPlan::Full
        }),
{
    if info.i_vendor_id != AMD_VENDOR_ID {
        AdlCallPlan::ActiveOnly
    } else if duplicate_amd_record {
        AdlCallPlan::ActiveThenDuplicate
    } else {
        AdlCallPlan::Full
    }
}

/// The warning kept on a record of another vendor.
pub open spec fn non_amd_warning() -> Seq<char> {
    "ADL returned non-AMD adapter identity; record preserved, but extended AMD ADL telemetry discovery was skipped for this adapter."@
}

/// The messages of the calls in the given states, in order.
pub open spec fn call_messages(calls: Seq<AdlApiCall>, errors: bool) -> Seq<Seq<char>>
    decreases calls.len(),
{
    if calls.len() == 0 {
        seq![]
    } else {
        let rest = call_messages(calls.drop_last(), errors);
        let c = calls.last();
        let wanted = if errors {
            c.state@ == "error"@
        } else {
            c.state@ == "unsupported"@ || c.state@ == "not_available"@
        };
        match c.error_message {
            Some(m) => if wanted {
                rest.push(m@)
            } else {
                rest
            },
            None => rest,
        }
    }
}

fn push_call_messages(out: &mut Vec<String>, calls: &Vec<AdlApiCall>, errors: bool)
    ensures
        views(final(out)@) == views(old(out)@) + call_messages(calls@, errors),
{
    let ghost start = views(out@);
    let mut i: usize = 0;
    while i < calls.len()
        invariant
            i <= calls@.len(),
            views(out@) == start + call_messages(calls@.take(i as int), errors),
        decreases calls.len() - i,
    {
        assert(calls@.take(i + 1).drop_last() =~= calls@.take(i as int));
        assert(calls@.take(i + 1).last() == calls@[i as int]);
        let c = &calls[i];
        let wanted = if errors {
            str_eq(c.state, "error")
        } else {
            str_eq(c.state, "unsupported") || str_eq(c.state, "not_available")
        };
        if wanted {
            if let Some(m) = &c.error_message {
                push_line(out, m.clone());
            }
        }
        assert(views(out@) =~= start + call_messages(calls@.take(i + 1), errors));
        i = i + 1;
    }
    assert(calls@.take(calls.len() as int) =~= calls@);
}

/// The record of an adapter: what ADL said of it, where it stands, the calls
/// made for it, the warnings (the note on another vendor first, then the
/// messages of unsupported and unavailable calls) and the errors of failed
/// calls.
pub fn finish_adapter_record(info: AdapterInfo, placement: AdapterPlacement, adl_calls: Vec<AdlApiCall>) -> (r:
    AdlAdapterRecord)
    ensures
        r.adl_raw_identity.adl_adapter_index == info.i_adapter_index,
        r.adl_raw_identity.adl_udid == info.str_udid,
        r.adl_raw_identity.adl_adapter_name == info.str_adapter_name,
        r.adl_raw_identity.adl_display_name == info.str_display_name,
        r.adl_raw_identity.adl_vendor_id == info.i_vendor_id,
        r.adl_raw_identity.adl_present == (info.i_present != 0),
        r.adl_raw_identity.adl_exists == (info.i_exist != 0),
        r.adl_raw_identity.adl_bus_number == info.i_bus_number,
        r.adl_raw_identity.adl_device_number == info.i_device_number,
        r.adl_raw_identity.adl_function_number == info.i_function_number,
        r.adl_raw_identity.adl_driver_path == info.str_driver_path,
        r.adl_raw_identity.adl_driver_path_ext == info.str_driver_path_ext,
        r.adl_raw_identity.adl_pnp_string == info.str_pnp_string,
        r.adl_raw_identity.adl_os_display_index == info.i_os_display_index,
        r.physical_adapter_key == placement.physical_adapter_key,
        r.physical_adapter_role == placement.physical_adapter_role,
        r.physical_adapter_primary_index == placement.physical_adapter_primary_index,
        r.logical_record_kind@ == "adl_display_record"@,
        r.adl_calls == adl_calls,
        views(r.provider_warnings@) == (if info.i_vendor_id != AMD_VENDOR_ID {
            seq![non_amd_warning()]
        } else {
            seq![]
        }) + call_messages(adl_calls@, false),
        views(r.provider_errors@) == call_messages(adl_calls@, true),
{
    let mut provider_warnings: Vec<String> = Vec::new();
    if info.i_vendor_id != AMD_VENDOR_ID {
        push_line(
            &mut provider_warnings,
            owned(
                "ADL returned non-AMD adapter identity; record preserved, but extended AMD ADL telemetry discovery was skipped for this adapter.",
            ),
        );
    }
    let mut provider_errors: Vec<String> = Vec::new();
    push_call_messages(&mut provider_errors, &adl_calls, true);
    push_call_messages(&mut provider_warnings, &adl_calls, false);
    proof {
        if info.i_vendor_id == AMD_VENDOR_ID {
            assert(views(provider_warnings@) =~= seq![] + call_messages(adl_calls@, false));
        }
    }
    AdlAdapterRecord {
        adl_raw_identity: AdlRawIdentity {
            adl_adapter_index: info.i_adapter_index,
            adl_udid: info.str_udid,
            adl_adapter_name: info.str_adapter_name,
            adl_display_name: info.str_display_name,
            adl_vendor_id: info.i_vendor_id,
            adl_present: info.i_present != 0,
            adl_exists: info.i_exist != 0,
            adl_bus_number: info.i_bus_number,
            adl_device_number: info.i_device_number,
            adl_function_number: info.i_function_number,
            adl_driver_path: info.str_driver_path,
            adl_driver_path_ext: info.str_driver_path_ext,
            adl_pnp_string: info.str_pnp_string,
            adl_os_display_index: info.i_os_display_index,
        },
        physical_adapter_key: placement.physical_adapter_key,
        physical_adapter_role: placement.physical_adapter_role,
        physical_adapter_primary_index: placement.physical_adapter_primary_index,
        logical_record_kind: "adl_display_record",
        adl_calls,
        provider_warnings,
        provider_errors,
    }
}

/// What enumerating the adapters gave: the codes of the two ADL calls, the
/// counts of physical adapters, the groups and the records.
pub struct EnumerationResult {
    pub adapter_number_of_adapters_get: i32,
    pub adapter_adapter_info_get: i32,
    pub physical_adapter_group_count: usize,
    pub amd_physical_adapter_count: usize,
    pub non_amd_physical_adapter_count: usize,
    pub extended_amd_discovery_run_count: usize,
    pub physical_adapter_groups: Vec<PhysicalAdapterGroup>,
    pub adapters: Vec<AdlAdapterRecord>,
}

/// Why enumerating the adapters failed: the codes returned so far and the
/// message.
pub struct EnumerationError {
    pub adl_adapter_number_of_adapters_get: Option<i32>,
    pub adl_adapter_adapter_info_get: Option<i32>,
    pub message: String,
}

/// The failure of `ADL_Adapter_NumberOfAdapters_Get`.
pub fn count_failure(count_result: i32) -> (r: EnumerationError)
    ensures
        r.adl_adapter_number_of_adapters_get == Some(count_result),
        r.adl_adapter_adapter_info_get is None,
        r.message@ == "ADL_Adapter_NumberOfAdapters_Get failed with status "@ + dec_signed(count_result as int)
            + "."@,
{
    let code = dec_string_signed(count_result as i64);
    EnumerationError {
        adl_adapter_number_of_adapters_get: Some(count_result),
        adl_adapter_adapter_info_get: None,
        message: cat3("ADL_Adapter_NumberOfAdapters_Get failed with status ", code.as_str(), "."),
    }
}

/// The failure of `ADL_Adapter_AdapterInfo_Get`.
pub fn info_failure(count_result: i32, info_result: i32) -> (r: EnumerationError)
    ensures
        r.adl_adapter_number_of_adapters_get == Some(count_result),
        r.adl_adapter_adapter_info_get == Some(info_result),
        r.message@ == "ADL_Adapter_AdapterInfo_Get failed with status "@ + dec_signed(info_result as int) + "."@,
{
    let code = dec_string_signed(info_result as i64);
    EnumerationError {
        adl_adapter_number_of_adapters_get: Some(count_result),
        adl_adapter_adapter_info_get: Some(info_result),
        message: cat3("ADL_Adapter_AdapterInfo_Get failed with status ", code.as_str(), "."),
    }
}

/// ADL's success code.
pub const ADL_OK: i32 = 0;

/// The enumeration of an ADL that reports no adapters.
pub fn empty_enumeration(count_result: i32) -> (r: EnumerationResult)
    ensures
        r.adapter_number_of_adapters_get == count_result,
        r.adapter_adapter_info_get == ADL_OK,
        r.physical_adapter_group_count == 0 && r.amd_physical_adapter_count == 0,
        r.non_amd_physical_adapter_count == 0 && r.extended_amd_discovery_run_count == 0,
        r.physical_adapter_groups@.len() == 0 && r.adapters@.len() == 0,
{
    EnumerationResult {
        adapter_number_of_adapters_get: count_result,
        adapter_adapter_info_get: ADL_OK,
        physical_adapter_group_count: 0,
        amd_physical_adapter_count: 0,
        non_amd_physical_adapter_count: 0,
        extended_amd_discovery_run_count: 0,
        physical_adapter_groups: Vec::new(),
        adapters: Vec::new(),
    }
}

/// The enumeration of the grouped records: the counts of groups, of AMD
/// groups and of the others.
pub fn enumeration_result(
    count_result: i32,
    info_result: i32,
    grouping: AdapterGrouping,
    adapters: Vec<AdlAdapterRecord>,
) -> (r: EnumerationResult)
    ensures
        r.adapter_number_of_adapters_get == count_result,
        r.adapter_adapter_info_get == info_result,
        r.physical_adapter_group_count == grouping.groups@.len(),
        r.amd_physical_adapter_count == amd_group_count(grouping.groups@),
        r.non_amd_physical_adapter_count == grouping.groups@.len() - amd_group_count(grouping.groups@),
        r.extended_amd_discovery_run_count == grouping.extended_amd_discovery_run_count,
        r.physical_adapter_groups == grouping.groups,
        r.adapters == adapters,
{
    let amd = count_amd_groups(&grouping.groups);
    let total = grouping.groups.len();
    EnumerationResult {
        adapter_number_of_adapters_get: count_result,
        adapter_adapter_info_get: info_result,
        physical_adapter_group_count: total,
        amd_physical_adapter_count: amd,
        non_amd_physical_adapter_count: total - amd,
        extended_amd_discovery_run_count: grouping.extended_amd_discovery_run_count,
        physical_adapter_groups: grouping.groups,
        adapters,
    }
}

/// How far one ADL sample got: the DLL did not load; it loaded but ADL did
/// not start; ADL started but listing the adapters failed; or the adapters
/// were listed.
pub enum AdlOutcome {
    LoadFailed(String),
    CreateFailed { dll_name: String, dll_path: String, code: i32, message: String },
    EnumerationFailed { dll_name: String, dll_path: String, error: EnumerationError },
    Enumerated { dll_name: String, dll_path: String, enumeration: EnumerationResult },
}

/// Whether a sample names this provider and version.
pub open spec fn names_provider(r: ProviderSample) -> bool {
    &&& r.wtg_version@ == wtg_version_spec()
    &&& r.source@ == "wtg.provider.amd.adl"@
    &&& r.telemetry_class@ == "provider_telemetry"@
    &&& r.provider@ == "amd.adl"@
    &&& r.provider_authority@ == "AMD ADL"@
}

/// Whether a sample has no adapters and no counts.
pub open spec fn has_no_adapters(r: ProviderSample) -> bool {
    &&& r.physical_adapter_group_count == 0 && r.amd_physical_adapter_count == 0
    &&& r.non_amd_physical_adapter_count == 0 && r.extended_amd_discovery_run_count == 0
    &&& r.physical_adapter_groups@.len() == 0 && r.adapters@.len() == 0
}

/// The sample of one ADL pass: `unavailable` when the DLL is missing or ADL
/// lists no adapter, `error` when ADL fails to start or to list them, `ok`
/// otherwise, with the codes ADL returned and the reason as its only error.
pub fn sample_from_outcome(sample_seq: u64, timestamp_unix_ms: u128, outcome: AdlOutcome) -> (r: ProviderSample)
    ensures
        names_provider(r),
        r.sample_seq == sample_seq,
        r.timestamp_unix_ms == timestamp_unix_ms,
        match outcome {
            AdlOutcome::LoadFailed(reason) => {
                &&& r.status@ == "unavailable"@
                &&& r.dll_name is None && r.dll_path is None && !r.adl_initialized
                &&& r.adl_return_codes == (SampleReturnCodes {
                    adl_main_control_create: None,
                    adl_adapter_number_of_adapters_get: None,
                    adl_adapter_adapter_info_get: None,
                })
                &&& has_no_adapters(r)
                &&& r.errors@ == seq![reason]
            },
            AdlOutcome::CreateFailed { dll_name, dll_path, code, message } => {
                &&& r.status@ == "error"@
                &&& r.dll_name == Some(dll_name) && r.dll_path == Some(dll_path) && !r.adl_initialized
                &&& r.adl_return_codes == (SampleReturnCodes {
                    adl_main_control_create: Some(code),
                    adl_adapter_number_of_adapters_get: None,
                    adl_adapter_adapter_info_get: None,
                })
                &&& has_no_adapters(r)
                &&& r.errors@ == seq![message]
            },
            AdlOutcome::EnumerationFailed { dll_name, dll_path, error } => {
                &&& r.status@ == "error"@
                &&& r.dll_name == Some(dll_name) && r.dll_path == Some(dll_path) && r.adl_initialized
                &&& r.adl_return_codes == (SampleReturnCodes {
                    adl_main_control_create: Some(ADL_OK),
                    adl_adapter_number_of_adapters_get: error.adl_adapter_number_of_adapters_get,
                    adl_adapter_adapter_info_get: error.adl_adapter_adapter_info_get,
                })
                &&& has_no_adapters(r)
                &&& r.errors@ == seq![error.message]
            },
            AdlOutcome::Enumerated { dll_name, dll_path, enumeration } => {
                &&& r.status@ == (if enumeration.adapters@.len() == 0 {
                    "unavailable"@
                } else {
                    "ok"@
                })
                &&& r.dll_name == Some(dll_name) && r.dll_path == Some(dll_path) && r.adl_initialized
                &&& r.adl_return_codes == (SampleReturnCodes {
                    adl_main_control_create: Some(ADL_OK),
                    adl_adapter_number_of_adapters_get: Some(enumeration.adapter_number_of_adapters_get),
                    adl_adapter_adapter_info_get: Some(enumeration.adapter_adapter_info_get),
                })
                &&& r.physical_adapter_group_count == enumeration.physical_adapter_group_count
                &&& r.amd_physical_adapter_count == enumeration.amd_physical_adapter_count
                &&& r.non_amd_physical_adapter_count == enumeration.non_amd_physical_adapter_count
                &&& r.extended_amd_discovery_run_count == enumeration.extended_amd_discovery_run_count
                &&& r.physical_adapter_groups == enumeration.physical_adapter_groups
                &&& r.adapters == enumeration.adapters
                &&& views(r.errors@) == (if enumeration.adapters@.len() == 0 {
                    seq!["ADL initialized but returned zero adapters."@]
                } else {
                    seq![]
                })
            },
        },
{
    match outcome {
        AdlOutcome::LoadFailed(reason) => {
            let mut errors: Vec<String> = Vec::new();
            errors.push(reason);
            ProviderSample {
                wtg_version: wtg_version(),
                source: source(),
                telemetry_class: telemetry_class(),
                provider: provider(),
                provider_authority: provider_authority(),
                status: "unavailable",
                sample_seq,
                timestamp_unix_ms,
                dll_name: None,
                dll_path: None,
                adl_initialized: false,
                adl_return_codes: SampleReturnCodes {
                    adl_main_control_create: None,
                    adl_adapter_number_of_adapters_get: None,
                    adl_adapter_adapter_info_get: None,
                },
                physical_adapter_group_count: 0,
                amd_physical_adapter_count: 0,
                non_amd_physical_adapter_count: 0,
                extended_amd_discovery_run_count: 0,
                physical_adapter_groups: Vec::new(),
                adapters: Vec::new(),
                errors,
            }
        },
        AdlOutcome::CreateFailed { dll_name, dll_path, code, message } => {
            let mut errors: Vec<String> = Vec::new();
            errors.push(message);
            ProviderSample {
                wtg_version: wtg_version(),
                source: source(),
                telemetry_class: telemetry_class(),
                provider: provider(),
                provider_authority: provider_authority(),
                status: "error",
                sample_seq,
                timestamp_unix_ms,
                dll_name: Some(dll_name),
                dll_path: Some(dll_path),
                adl_initialized: false,
                adl_return_codes: SampleReturnCodes {
                    adl_main_control_create: Some(code),
                    adl_adapter_number_of_adapters_get: None,
                    adl_adapter_adapter_info_get: None,
                },
                physical_adapter_group_count: 0,
                amd_physical_adapter_count: 0,
                non_amd_physical_adapter_count: 0,
                extended_amd_discovery_run_count: 0,
                physical_adapter_groups: Vec::new(),
                adapters: Vec::new(),
                errors,
            }
        },
        AdlOutcome::EnumerationFailed { dll_name, dll_path, error } => {
            let mut errors: Vec<String> = Vec::new();
            errors.push(error.message);
            ProviderSample {
                wtg_version: wtg_version(),
                source: source(),
                telemetry_class: telemetry_class(),
                provider: provider(),
                provider_authority: provider_authority(),
                status: "error",
                sample_seq,
                timestamp_unix_ms,
                dll_name: Some(dll_name),
                dll_path: Some(dll_path),
                adl_initialized: true,
                adl_return_codes: SampleReturnCodes {
                    adl_main_control_create: Some(ADL_OK),
                    adl_adapter_number_of_adapters_get: error.adl_adapter_number_of_adapters_get,
                    adl_adapter_adapter_info_get: error.adl_adapter_adapter_info_get,
                },
                physical_adapter_group_count: 0,
                amd_physical_adapter_count: 0,
                non_amd_physical_adapter_count: 0,
                extended_amd_discovery_run_count: 0,
                physical_adapter_groups: Vec::new(),
                adapters: Vec::new(),
                errors,
            }
        },
        AdlOutcome::Enumerated { dll_name, dll_path, enumeration } => {
            let empty = enumeration.adapters.len() == 0;
            let mut errors: Vec<String> = Vec::new();
            if empty {
                push_line(&mut errors, owned("ADL initialized but returned zero adapters."));
            }
            assert(views(errors@) =~= (if empty {
                seq!["ADL initialized but returned zero adapters."@]
            } else {
                seq![]
            }));
            ProviderSample {
                wtg_version: wtg_version(),
                source: source(),
                telemetry_class: telemetry_class(),
                provider: provider(),
                provider_authority: provider_authority(),
                status: if empty {
                    "unavailable"
                } else {
                    "ok"
                },
                sample_seq,
                timestamp_unix_ms,
                dll_name: Some(dll_name),
                dll_path: Some(dll_path),
                adl_initialized: true,
                adl_return_codes: SampleReturnCodes {
                    adl_main_control_create: Some(ADL_OK),
                    adl_adapter_number_of_adapters_get: Some(enumeration.adapter_number_of_adapters_get),
                    adl_adapter_adapter_info_get: Some(enumeration.adapter_adapter_info_get),
                },
                physical_adapter_group_count: enumeration.physical_adapter_group_count,
                amd_physical_adapter_count: enumeration.amd_physical_adapter_count,
                non_amd_physical_adapter_count: enumeration.non_amd_physical_adapter_count,
                extended_amd_discovery_run_count: enumeration.extended_amd_discovery_run_count,
                physical_adapter_groups: enumeration.physical_adapter_groups,
                adapters: enumeration.adapters,
                errors,
            }
        },
    }
}

} // verus!
