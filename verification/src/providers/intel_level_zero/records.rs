//! The Intel Level Zero sample record and the text shown for it: the compact
//! device lines of snapshots and watch ticks, and the probe block.
use vstd::prelude::*;

use crate::decimal::{mib_text, push_mib, push_u64_one_decimal, push_u64_two_decimals, u64_one_decimal, u64_two_decimals};
use crate::json::{push_serde_string, serde_string_spec};
use crate::text::{
    cat, cat3, dec, dec_signed, hex_char, hex_digit, push_char, dec_string, dec_string_signed, has_prefix, has_suffix,
    join_strings, join_with, owned, parse_unsigned, parse_unsigned_spec, push_dec, push_line,
    push_str, str_ends_with, str_eq, str_starts_with, views,
};
use crate::stats::{wtg_version, wtg_version_spec};
use super::{concise_reason_spec, concise_unavailable_reason, is_base_probe_fact_key, is_base_probe_fact_key_spec};

verus! {

/// A number that is not whole: how JSON writes it, and how it is written
/// with one and with two decimals.
pub struct DecimalText {
    pub json: String,
    pub one_decimal: String,
    pub two_decimals: String,
}

/// A plain JSON value that a fact holds.
pub enum FactScalar {
    Null,
    Bool(bool),
    /// A whole number that is not negative.
    UInt(u64),
    /// A result code.
    Signed(i32),
    Decimal(DecimalText),
    Text(String),
}

/// The raw value of a fact: a plain value, or an object of plain values
/// whose members are listed in key order, as a JSON map holds them.
pub enum FactRaw {
    Plain(FactScalar),
    Object(Vec<(String, FactScalar)>),
}

/// One fact that Level Zero gave: its key, the function that gave it, its
/// state, its raw value, its unit and the error met.
pub struct IntelFact {
    pub metric_key: String,
    pub source_api: &'static str,
    pub state: &'static str,
    pub raw: FactRaw,
    pub unit: Option<&'static str>,
    pub error_message: Option<String>,
}

/// The facts of one device, and the areas it could not report.
pub struct DeviceRecord {
    pub driver_index: usize,
    pub device_index: usize,
    pub key: String,
    pub facts: Vec<IntelFact>,
    pub unavailable: Vec<&'static str>,
}

/// One Level Zero sample.
pub struct ProviderSample {
    pub wtg_version: &'static str,
    pub provider: &'static str,
    pub provider_authority: &'static str,
    pub provider_source: &'static str,
    pub telemetry_class: &'static str,
    pub status: &'static str,
    pub sample_seq: u64,
    pub timestamp_unix_ms: u128,
    pub dll_name: Option<String>,
    pub dll_path: Option<String>,
    pub telemetry_exports_matched: usize,
    pub sysman_exports_matched: usize,
    pub optional_calls_attempted: usize,
    pub optional_calls_ok: usize,
    pub optional_calls_unsupported: usize,
    pub optional_calls_not_available: usize,
    pub optional_calls_error: usize,
    pub driver_record_count: usize,
    pub device_record_count: usize,
    pub sysman_facts: Vec<IntelFact>,
    pub devices: Vec<DeviceRecord>,
    pub errors: Vec<String>,
}

/// The status of a sample.
pub fn sample_status(sample: &ProviderSample) -> (r: &'static str)
    ensures
        r == sample.status,
{
    sample.status
}

/// A sample in which Level Zero could not be asked, with the reason: no
/// devices, no optional calls, and the Sysman facts gathered so far.
pub fn unavailable_sample(
    sample_seq: u64,
    timestamp_unix_ms: u128,
    dll_name: Option<String>,
    dll_path: Option<String>,
    telemetry_exports_matched: usize,
    sysman_exports_matched: usize,
    sysman_facts: Vec<IntelFact>,
    reason: String,
) -> (r: ProviderSample)
    ensures
        r.wtg_version@ == wtg_version_spec(),
        r.provider@ == "intel"@,
        r.provider_authority@ == "Intel Level Zero"@,
        r.provider_source@ == "wtg.provider.intel.level_zero"@,
        r.telemetry_class@ == "provider_telemetry"@,
        r.status@ == "unavailable"@,
        r.sample_seq == sample_seq,
        r.timestamp_unix_ms == timestamp_unix_ms,
        r.dll_name == dll_name,
        r.dll_path == dll_path,
        r.telemetry_exports_matched == telemetry_exports_matched,
        r.sysman_exports_matched == sysman_exports_matched,
        r.optional_calls_attempted == 0 && r.optional_calls_ok == 0 && r.optional_calls_unsupported == 0,
        r.optional_calls_not_available == 0 && r.optional_calls_error == 0,
        r.driver_record_count == 0 && r.device_record_count == 0,
        r.sysman_facts == sysman_facts,
        r.devices@.len() == 0,
        r.errors@.len() == 1 && r.errors@[0] == reason,
{
    let mut errors: Vec<String> = Vec::new();
    errors.push(reason);
    ProviderSample {
        wtg_version: wtg_version(),
        provider: super::provider(),
        provider_authority: super::provider_authority(),
        provider_source: super::provider_source(),
        telemetry_class: super::telemetry_class(),
        status: "unavailable",
        sample_seq,
        timestamp_unix_ms,
        dll_name,
        dll_path,
        telemetry_exports_matched,
        sysman_exports_matched,
        optional_calls_attempted: 0,
        optional_calls_ok: 0,
        optional_calls_unsupported: 0,
        optional_calls_not_available: 0,
        optional_calls_error: 0,
        driver_record_count: 0,
        device_record_count: 0,
        sysman_facts,
        devices: Vec::new(),
        errors,
    }
}

/// What enumerating the drivers and devices gave: the counts, the device
/// records and the tally of optional calls.
pub struct Enumeration {
    pub driver_record_count: usize,
    pub device_record_count: usize,
    pub devices: Vec<DeviceRecord>,
    pub optional_calls_attempted: usize,
    pub optional_calls_ok: usize,
    pub optional_calls_unsupported: usize,
    pub optional_calls_not_available: usize,
    pub optional_calls_error: usize,
}

/// What the loaded runtime gave before enumeration: its DLL, how many of
/// its telemetry and Sysman exports were found, and the Sysman facts.
pub struct LoadedRuntime {
    pub dll_name: String,
    pub dll_path: String,
    pub telemetry_exports_matched: usize,
    pub sysman_exports_matched: usize,
    pub sysman_facts: Vec<IntelFact>,
}

/// How far one Level Zero pass got.
pub enum LevelZeroOutcome {
    /// The loader DLL or a required symbol is missing.
    LoadFailed(String),
    /// `zeInit` returned the code.
    InitFailed { runtime: LoadedRuntime, init_result: i32 },
    /// Enumerating drivers or devices failed with the reason.
    EnumerationFailed { runtime: LoadedRuntime, reason: String },
    /// The drivers and devices were enumerated.
    Enumerated { runtime: LoadedRuntime, enumeration: Enumeration },
}

/// The sample of one Level Zero pass: `unavailable` with the reason when it
/// stopped early or found no device, `ok` with the devices otherwise.
pub fn sample_from_outcome(sample_seq: u64, timestamp_unix_ms: u128, outcome: LevelZeroOutcome) -> (r:
    ProviderSample)
    ensures
        r.wtg_version@ == wtg_version_spec(),
        r.provider@ == "intel"@,
        r.provider_source@ == "wtg.provider.intel.level_zero"@,
        r.sample_seq == sample_seq,
        r.timestamp_unix_ms == timestamp_unix_ms,
        match outcome {
            LevelZeroOutcome::LoadFailed(reason) => {
                &&& r.status@ == "unavailable"@
                &&& r.dll_name is None && r.dll_path is None
                &&& r.telemetry_exports_matched == 0 && r.sysman_exports_matched == 0
                &&& r.sysman_facts@.len() == 0 && r.devices@.len() == 0
                &&& r.errors@ == seq![reason]
            },
            LevelZeroOutcome::InitFailed { runtime, init_result } => {
                &&& r.status@ == "unavailable"@
                &&& r.dll_name == Some(runtime.dll_name) && r.dll_path == Some(runtime.dll_path)
                &&& r.telemetry_exports_matched == runtime.telemetry_exports_matched
                &&& r.sysman_exports_matched == runtime.sysman_exports_matched
                &&& r.sysman_facts == runtime.sysman_facts && r.devices@.len() == 0
                &&& r.errors@.len() == 1
                &&& r.errors@[0]@ == "zeInit failed with status "@ + dec_signed(init_result as int) + "."@
            },
            LevelZeroOutcome::EnumerationFailed { runtime, reason } => {
                &&& r.status@ == "unavailable"@
                &&& r.dll_name == Some(runtime.dll_name) && r.dll_path == Some(runtime.dll_path)
                &&& r.telemetry_exports_matched == runtime.telemetry_exports_matched
                &&& r.sysman_exports_matched == runtime.sysman_exports_matched
                &&& r.sysman_facts == runtime.sysman_facts && r.devices@.len() == 0
                &&& r.errors@ == seq![reason]
            },
            LevelZeroOutcome::Enumerated { runtime, enumeration } => {
                &&& r.status@ == (if enumeration.device_record_count == 0 {
                    "unavailable"@
                } else {
                    "ok"@
                })
                &&& r.dll_name == Some(runtime.dll_name) && r.dll_path == Some(runtime.dll_path)
                &&& r.telemetry_exports_matched == runtime.telemetry_exports_matched
                &&& r.sysman_exports_matched == runtime.sysman_exports_matched
                &&& r.sysman_facts == runtime.sysman_facts
                &&& r.optional_calls_attempted == enumeration.optional_calls_attempted
                &&& r.optional_calls_ok == enumeration.optional_calls_ok
                &&& r.optional_calls_unsupported == enumeration.optional_calls_unsupported
                &&& r.optional_calls_not_available == enumeration.optional_calls_not_available
                &&& r.optional_calls_error == enumeration.optional_calls_error
                &&& r.driver_record_count == enumeration.driver_record_count
                &&& r.device_record_count == enumeration.device_record_count
                &&& r.devices == enumeration.devices
                &&& views(r.errors@) == (if enumeration.device_record_count == 0 {
                    seq!["Level Zero initialized but returned zero device handles."@]
                } else {
                    seq![]
                })
            },
        },
{
    match outcome {
        LevelZeroOutcome::LoadFailed(reason) => unavailable_sample(
            sample_seq,
            timestamp_unix_ms,
            None,
            None,
            0,
            0,
            Vec::new(),
            reason,
        ),
        LevelZeroOutcome::InitFailed { runtime, init_result } => {
            let code = dec_string_signed(init_result as i64);
            unavailable_sample(
                sample_seq,
                timestamp_unix_ms,
                Some(runtime.dll_name),
                Some(runtime.dll_path),
                runtime.telemetry_exports_matched,
                runtime.sysman_exports_matched,
                runtime.sysman_facts,
                cat3("zeInit failed with status ", code.as_str(), "."),
            )
        },
        LevelZeroOutcome::EnumerationFailed { runtime, reason } => unavailable_sample(
            sample_seq,
            timestamp_unix_ms,
            Some(runtime.dll_name),
            Some(runtime.dll_path),
            runtime.telemetry_exports_matched,
            runtime.sysman_exports_matched,
            runtime.sysman_facts,
            reason,
        ),
        LevelZeroOutcome::Enumerated { runtime, enumeration } => {
            let empty = enumeration.device_record_count == 0;
            let mut errors: Vec<String> = Vec::new();
            if empty {
                push_line(&mut errors, owned("Level Zero initialized but returned zero device handles."));
            }
            assert(views(errors@) =~= (if empty {
                seq!["Level Zero initialized but returned zero device handles."@]
            } else {
                seq![]
            }));
            ProviderSample {
                wtg_version: wtg_version(),
                provider: super::provider(),
                provider_authority: super::provider_authority(),
                provider_source: super::provider_source(),
                telemetry_class: super::telemetry_class(),
                status: if empty {
                    "unavailable"
                } else {
                    "ok"
                },
                sample_seq,
                timestamp_unix_ms,
                dll_name: Some(runtime.dll_name),
                dll_path: Some(runtime.dll_path),
                telemetry_exports_matched: runtime.telemetry_exports_matched,
                sysman_exports_matched: runtime.sysman_exports_matched,
                optional_calls_attempted: enumeration.optional_calls_attempted,
                optional_calls_ok: enumeration.optional_calls_ok,
                optional_calls_unsupported: enumeration.optional_calls_unsupported,
                optional_calls_not_available: enumeration.optional_calls_not_available,
                optional_calls_error: enumeration.optional_calls_error,
                driver_record_count: enumeration.driver_record_count,
                device_record_count: enumeration.device_record_count,
                sysman_facts: runtime.sysman_facts,
                devices: enumeration.devices,
                errors,
            }
        },
    }
}

/// Whether a first sample is followed, after the priming delay, by a
/// second one that is shown instead: only when the first is `ok`.
pub fn needs_second_sample(first: &ProviderSample) -> (b: bool)
    ensures
        b == (first.status@ == "ok"@),
{
    str_eq(first.status, "ok")
}

/// What is shown after a first sample: the first itself when it is not
/// `ok`, with no sleep; otherwise, after sleeping the priming delay in
/// milliseconds, a second sample for the same sequence number.
pub fn visible_after_first<F: FnMut(u64) -> ProviderSample, S: FnOnce(u64)>(
    first: ProviderSample,
    sample_seq: u64,
    priming_delay_ms: u64,
    mut collect: F,
    sleep: S,
) -> (r: ProviderSample)
    requires
        call_requires(collect, (sample_seq,)),
        call_requires(sleep, (priming_delay_ms,)),
    ensures
        first.status@ != "ok"@ ==> r == first,
        first.status@ == "ok"@ ==> call_ensures(collect, (sample_seq,), r),
{
    if !needs_second_sample(&first) {
        return first;
    }
    sleep(priming_delay_ms);
    collect(sample_seq)
}

/// A sample fit to show: one sample, and when it is `ok` (the counters have
/// a baseline), a second one taken after sleeping the priming delay in
/// milliseconds; `visible_after_first` states which is returned.
pub fn collect_visible_sample_with_priming_impl<F: FnMut(u64) -> ProviderSample, S: FnOnce(u64)>(
    sample_seq: u64,
    priming_delay_ms: u64,
    mut collect: F,
    sleep: S,
) -> (r: ProviderSample)
    requires
        call_requires(collect, (sample_seq,)),
        call_requires(sleep, (priming_delay_ms,)),
    ensures
        call_ensures(collect, (sample_seq,), r),
{
    let first = collect(sample_seq);
    visible_after_first(first, sample_seq, priming_delay_ms, collect, sleep)
}

/// A fact that Level Zero gave.
pub fn ok_fact(metric_key: String, source_api: &'static str, raw: FactRaw) -> (r: IntelFact)
    ensures
        r == (IntelFact { metric_key, source_api, state: "ok", raw, unit: None, error_message: None }),
{
    IntelFact { metric_key, source_api, state: "ok", raw, unit: None, error_message: None }
}

/// A fact holding a whole number, with its unit.
pub fn number_fact_u64(metric_key: String, source_api: &'static str, raw: u64, unit: Option<&'static str>) -> (r:
    IntelFact)
    ensures
        r == (IntelFact {
            metric_key,
            source_api,
            state: "ok",
            raw: FactRaw::Plain(FactScalar::UInt(raw)),
            unit,
            error_message: None,
        }),
{
    IntelFact {
        metric_key,
        source_api,
        state: "ok",
        raw: FactRaw::Plain(FactScalar::UInt(raw)),
        unit,
        error_message: None,
    }
}

/// A fact that Level Zero did not give, with the reason.
pub fn not_available_fact(metric_key: String, source_api: &'static str, error_message: String) -> (r: IntelFact)
    ensures
        r == (IntelFact {
            metric_key,
            source_api,
            state: "not_available",
            raw: FactRaw::Plain(FactScalar::Null),
            unit: None,
            error_message: Some(error_message),
        }),
{
    IntelFact {
        metric_key,
        source_api,
        state: "not_available",
        raw: FactRaw::Plain(FactScalar::Null),
        unit: None,
        error_message: Some(error_message),
    }
}

/// A fact whose call failed: the code it returned and the error.
pub fn error_fact(metric_key: String, source_api: &'static str, raw_code: i32, error_message: String) -> (r:
    IntelFact)
    ensures
        r == (IntelFact {
            metric_key,
            source_api,
            state: "error",
            raw: FactRaw::Plain(FactScalar::Signed(raw_code)),
            unit: None,
            error_message: Some(error_message),
        }),
{
    IntelFact {
        metric_key,
        source_api,
        state: "error",
        raw: FactRaw::Plain(FactScalar::Signed(raw_code)),
        unit: None,
        error_message: Some(error_message),
    }
}

// ---------------------------------------------------------------------------
// JSON text of raw values.
// ---------------------------------------------------------------------------
/// How JSON writes a plain value.
pub open spec fn scalar_json(s: FactScalar) -> Seq<char> {
    match s {
        FactScalar::Null => "null"@,
        FactScalar::Bool(b) => if b {
            "true"@
        } else {
            "false"@
        },
        FactScalar::UInt(n) => dec(n as nat),
        FactScalar::Signed(c) => dec_signed(c as int),
        FactScalar::Decimal(d) => d.json@,
        FactScalar::Text(t) => serde_string_spec(t@),
    }
}

fn push_scalar_json(out: &mut String, s: &FactScalar)
    ensures
        final(out)@ == old(out)@ + scalar_json(*s),
{
    match s {
        FactScalar::Null => push_str(out, "null"),
        FactScalar::Bool(b) => push_str(
            out,
            if *b {
                "true"
            } else {
                "false"
            },
        ),
        FactScalar::UInt(n) => push_dec(out, *n),
        FactScalar::Signed(c) => {
            let t = dec_string_signed(*c as i64);
            push_str(out, t.as_str());
        },
        FactScalar::Decimal(d) => push_str(out, d.json.as_str()),
        FactScalar::Text(t) => push_serde_string(out, t.as_str()),
    }
}

/// How JSON writes one member of an object.
pub open spec fn member_json(m: (String, FactScalar)) -> Seq<char> {
    serde_string_spec(m.0@) + ":"@ + scalar_json(m.1)
}

/// How JSON writes the members of an object, in order.
pub open spec fn members_json(ms: Seq<(String, FactScalar)>) -> Seq<char> {
    join_with(ms.map_values(|m: (String, FactScalar)| member_json(m)), ","@)
}

/// How JSON writes a raw value, compactly.
pub open spec fn raw_json(r: FactRaw) -> Seq<char> {
    match r {
        FactRaw::Plain(s) => scalar_json(s),
        FactRaw::Object(ms) => "{"@ + members_json(ms@) + "}"@,
    }
}

fn raw_json_string(r: &FactRaw) -> (t: String)
    ensures
        t@ == raw_json(*r),
{
    match r {
        FactRaw::Plain(s) => {
            let mut t = String::new();
            push_scalar_json(&mut t, s);
            t
        },
        FactRaw::Object(ms) => {
            let mut parts: Vec<String> = Vec::new();
            let mut i: usize = 0;
            while i < ms.len()
                invariant
                    i <= ms@.len(),
                    views(parts@) == ms@.take(i as int).map_values(
                        |m: (String, FactScalar)| member_json(m),
                    ),
                decreases ms.len() - i,
            {
                let mut p = String::new();
                push_serde_string(&mut p, ms[i].0.as_str());
                push_str(&mut p, ":");
                push_scalar_json(&mut p, &ms[i].1);
                push_line(&mut parts, p);
                assert(ms@.take(i + 1).map_values(|m: (String, FactScalar)| member_json(m))
                    =~= ms@.take(i as int).map_values(|m: (String, FactScalar)| member_json(m)).push(
                    member_json(ms@[i as int]),
                ));
                i = i + 1;
            }
            assert(ms@.take(ms.len() as int) =~= ms@);
            let inner = join_strings(&parts, ",");
            cat3("{", inner.as_str(), "}")
        },
    }
}

/// The probe line of a fact: its key after the prefix, its state, its raw
/// value as JSON, and the error when it has one.
pub open spec fn probe_fact_line_spec(prefix: Seq<char>, f: IntelFact) -> Seq<char> {
    let head = prefix + "."@ + f.metric_key@ + ": "@ + f.state@ + " (raw="@ + raw_json(f.raw) + ")"@;
    match f.error_message {
        Some(e) => head + " ["@ + e@ + "]"@,
        None => head,
    }
}

/// The probe line of a fact.
pub fn format_probe_fact_line(prefix: &str, fact: &IntelFact) -> (r: String)
    ensures
        r@ == probe_fact_line_spec(prefix@, *fact),
{
    let raw = raw_json_string(&fact.raw);
    let mut r = cat3(prefix, ".", fact.metric_key.as_str());
    push_str(&mut r, ": ");
    push_str(&mut r, fact.state);
    push_str(&mut r, " (raw=");
    push_str(&mut r, raw.as_str());
    push_str(&mut r, ")");
    if let Some(e) = &fact.error_message {
        push_str(&mut r, " [");
        push_str(&mut r, e.as_str());
        push_str(&mut r, "]");
    }
    r
}

// ---------------------------------------------------------------------------
// Looking facts up.
// ---------------------------------------------------------------------------
/// The first fact with the given key.
pub open spec fn first_fact(facts: Seq<IntelFact>, key: Seq<char>) -> Option<IntelFact>
    decreases facts.len(),
{
    if facts.len() == 0 {
        None
    } else if facts[0].metric_key@ == key {
        Some(facts[0])
    } else {
        first_fact(facts.drop_first(), key)
    }
}

/// The first fact with the given key whose state is `ok`.
pub open spec fn first_ok_fact(facts: Seq<IntelFact>, key: Seq<char>) -> Option<IntelFact>
    decreases facts.len(),
{
    if facts.len() == 0 {
        None
    } else if facts[0].metric_key@ == key && facts[0].state@ == "ok"@ {
        Some(facts[0])
    } else {
        first_ok_fact(facts.drop_first(), key)
    }
}

fn find_fact<'a>(facts: &'a Vec<IntelFact>, key: &str, ok_only: bool) -> (r: Option<&'a IntelFact>)
    ensures
        ok_only ==> match r {
            Some(f) => first_ok_fact(facts@, key@) == Some(*f),
            None => first_ok_fact(facts@, key@) is None,
        },
        !ok_only ==> match r {
            Some(f) => first_fact(facts@, key@) == Some(*f),
            None => first_fact(facts@, key@) is None,
        },
{
    let mut i: usize = 0;
    assert(facts@.subrange(0, facts@.len() as int) =~= facts@);
    while i < facts.len()
        invariant
            i <= facts@.len(),
            !ok_only ==> first_fact(facts@, key@) == first_fact(
                facts@.subrange(i as int, facts@.len() as int),
                key@,
            ),
            ok_only ==> first_ok_fact(facts@, key@) == first_ok_fact(
                facts@.subrange(i as int, facts@.len() as int),
                key@,
            ),
        decreases facts.len() - i,
    {
        let ghost rest = facts@.subrange(i as int, facts@.len() as int);
        assert(rest[0] == facts@[i as int]);
        let f = &facts[i];
        if str_eq(f.metric_key.as_str(), key) && (!ok_only || str_eq(f.state, "ok")) {
            return Some(f);
        }
        assert(rest.drop_first() =~= facts@.subrange(i + 1, facts@.len() as int));
        i = i + 1;
    }
    None
}

/// The first fact of a device with the given key, whatever its state.
pub fn find_fact_any<'a>(device: &'a DeviceRecord, metric_key: &str) -> (r: Option<&'a IntelFact>)
    ensures
        match r {
            Some(f) => first_fact(device.facts@, metric_key@) == Some(*f),
            None => first_fact(device.facts@, metric_key@) is None,
        },
{
    find_fact(&device.facts, metric_key, false)
}

/// The text of the first `ok` fact with the given key, when it holds one.
pub open spec fn fact_string_spec(facts: Seq<IntelFact>, key: Seq<char>) -> Option<Seq<char>> {
    match first_ok_fact(facts, key) {
        Some(f) => match f.raw {
            FactRaw::Plain(FactScalar::Text(t)) => Some(t@),
            _ => None,
        },
        None => None,
    }
}

/// The text of the first `ok` fact of a device with the given key.
pub fn fact_string<'a>(device: &'a DeviceRecord, metric_key: &str) -> (r: Option<&'a str>)
    ensures
        match r {
            Some(t) => fact_string_spec(device.facts@, metric_key@) == Some(t@),
            None => fact_string_spec(device.facts@, metric_key@) is None,
        },
{
    match find_fact(&device.facts, metric_key, true) {
        Some(f) => match &f.raw {
            FactRaw::Plain(FactScalar::Text(t)) => Some(t.as_str()),
            _ => None,
        },
        None => None,
    }
}

/// The value of a plain value as an unsigned whole number, when it is one.
pub open spec fn scalar_as_u64(s: FactScalar) -> Option<u64> {
    match s {
        FactScalar::UInt(n) => Some(n),
        FactScalar::Signed(c) => if c >= 0 {
            Some(c as u64)
        } else {
            None
        },
        _ => None,
    }
}

/// The unsigned whole number of the first `ok` fact with the given key,
/// when it holds one.
pub open spec fn fact_u64_spec(facts: Seq<IntelFact>, key: Seq<char>) -> Option<u64> {
    match first_ok_fact(facts, key) {
        Some(f) => match f.raw {
            FactRaw::Plain(s) => scalar_as_u64(s),
            _ => None,
        },
        None => None,
    }
}

/// The unsigned whole number of the first `ok` fact of a device with the
/// given key.
pub fn fact_u64(device: &DeviceRecord, metric_key: &str) -> (r: Option<u64>)
    ensures
        r == fact_u64_spec(device.facts@, metric_key@),
{
    match find_fact(&device.facts, metric_key, true) {
        Some(f) => match &f.raw {
            FactRaw::Plain(FactScalar::UInt(n)) => Some(*n),
            FactRaw::Plain(FactScalar::Signed(c)) => if *c >= 0 {
                Some(*c as u64)
            } else {
                None
            },
            _ => None,
        },
        None => None,
    }
}

/// Whether a plain value is a number.
pub open spec fn is_number(s: FactScalar) -> bool {
    s is UInt || s is Signed || s is Decimal
}

/// The number of the first `ok` fact with the given key, when it holds one.
pub open spec fn fact_number_spec(facts: Seq<IntelFact>, key: Seq<char>) -> Option<FactScalar> {
    match first_ok_fact(facts, key) {
        Some(f) => match f.raw {
            FactRaw::Plain(s) => if is_number(s) {
                Some(s)
            } else {
                None
            },
            _ => None,
        },
        None => None,
    }
}

/// The number of the first `ok` fact of a device with the given key.
pub fn fact_number<'a>(device: &'a DeviceRecord, metric_key: &str) -> (r: Option<&'a FactScalar>)
    ensures
        match r {
            Some(s) => fact_number_spec(device.facts@, metric_key@) == Some(*s),
            None => fact_number_spec(device.facts@, metric_key@) is None,
        },
{
    match find_fact(&device.facts, metric_key, true) {
        Some(f) => match &f.raw {
            FactRaw::Plain(s) => match s {
                FactScalar::UInt(_) | FactScalar::Signed(_) | FactScalar::Decimal(_) => Some(s),
                _ => None,
            },
            _ => None,
        },
        None => None,
    }
}

/// The short reason of a device's first fact with the given key, when it
/// is `not_available` or `error` and says why.
pub open spec fn fact_reason_spec(facts: Seq<IntelFact>, key: Seq<char>) -> Option<Seq<char>> {
    match first_fact(facts, key) {
        Some(f) => if f.state@ == "not_available"@ || f.state@ == "error"@ {
            match f.error_message {
                Some(e) => Some(concise_reason_spec(e@)),
                None => None,
            }
        } else {
            None
        },
        None => None,
    }
}

/// The short reason of a device's first fact with the given key.
pub fn fact_reason(device: &DeviceRecord, metric_key: &str) -> (r: Option<String>)
    ensures
        match r {
            Some(t) => fact_reason_spec(device.facts@, metric_key@) == Some(t@),
            None => fact_reason_spec(device.facts@, metric_key@) is None,
        },
{
    match find_fact_any(device, metric_key) {
        Some(f) => if str_eq(f.state, "not_available") || str_eq(f.state, "error") {
            match &f.error_message {
                Some(e) => Some(concise_unavailable_reason(e.as_str())),
                None => None,
            }
        } else {
            None
        },
        None => None,
    }
}

/// A line saying that something is unavailable, with the reason when there
/// is one.
pub open spec fn human_unavailable_spec(label: Seq<char>, reason: Option<Seq<char>>) -> Seq<char> {
    match reason {
        Some(r) => if r.len() > 0 {
            label + ": unavailable, "@ + r
        } else {
            label + ": unavailable"@
        },
        None => label + ": unavailable"@,
    }
}

/// A line saying that something is unavailable.
pub fn format_human_unavailable(label: &str, reason: Option<String>) -> (r: String)
    ensures
        r@ == human_unavailable_spec(label@, match reason {
            Some(t) => Some(t@),
            None => None,
        }),
{
    match reason {
        Some(r) => if r.as_str().unicode_len() > 0 {
            cat3(label, ": unavailable, ", r.as_str())
        } else {
            cat(label, ": unavailable")
        },
        None => cat(label, ": unavailable"),
    }
}

// ---------------------------------------------------------------------------
// Indexed facts: keys of the form `<prefix><index><suffix>`.
// ---------------------------------------------------------------------------
/// The index a key carries between `prefix` and `suffix`, read as `usize`
/// reads it.
pub open spec fn key_index(key: Seq<char>, prefix: Seq<char>, suffix: Seq<char>) -> Option<nat> {
    if has_prefix(key, prefix) && has_suffix(key.skip(prefix.len() as int), suffix) {
        parse_unsigned_spec(key.subrange(prefix.len() as int, key.len() - suffix.len()), usize::MAX as nat)
    } else {
        None
    }
}

fn index_of_key(key: &str, prefix: &str, suffix: &str) -> (r: Option<usize>)
    ensures
        match r {
            Some(i) => key_index(key@, prefix@, suffix@) == Some(i as nat),
            None => key_index(key@, prefix@, suffix@) is None,
        },
{
    if !str_starts_with(key, prefix) {
        return None;
    }
    let n = key.unicode_len();
    let p = prefix.unicode_len();
    let rest = key.substring_char(p, n);
    if !str_ends_with(rest, suffix) {
        return None;
    }
    let q = suffix.unicode_len();
    let middle = key.substring_char(p, n - q);
    assert(rest@ == key@.skip(p as int));
    match parse_unsigned(middle, usize::MAX as u64) {
        Some(v) => Some(v as usize),
        None => None,
    }
}

/// `x` put in its place in an ascending list, unless it is there already.
pub open spec fn insert_sorted(s: Seq<usize>, x: usize) -> Seq<usize>
    decreases s.len(),
{
    if s.len() == 0 {
        seq![x]
    } else if x < s[0] {
        seq![x] + s
    } else if x == s[0] {
        s
    } else {
        seq![s[0]] + insert_sorted(s.drop_first(), x)
    }
}

/// Whether a list is strictly ascending.
pub open spec fn strictly_ascending(s: Seq<usize>) -> bool {
    forall|i: int, j: int| 0 <= i < j < s.len() ==> s[i] < s[j]
}

proof fn lemma_insert_at(s: Seq<usize>, x: usize, i: int)
    requires
        0 <= i <= s.len(),
        forall|j: int| 0 <= j < i ==> s[j] < x,
        i < s.len() ==> s[i] >= x,
    ensures
        insert_sorted(s, x) == (if i < s.len() && s[i] == x {
            s
        } else {
            s.take(i) + seq![x] + s.skip(i)
        }),
    decreases i,
{
    if i == 0 {
        assert(s.take(0) + seq![x] + s.skip(0) =~= seq![x] + s);
    } else {
        lemma_insert_at(s.drop_first(), x, i - 1);
        if i < s.len() && s[i] == x {
            assert(seq![s[0]] + s.drop_first() =~= s);
        } else {
            assert(seq![s[0]] + (s.drop_first().take(i - 1) + seq![x] + s.drop_first().skip(i - 1)) =~= s.take(
                i,
            ) + seq![x] + s.skip(i));
        }
    }
}

#[verifier::spinoff_prover]
proof fn lemma_insert_sorted_keeps_order(s: Seq<usize>, x: usize)
    requires
        strictly_ascending(s),
    ensures
        strictly_ascending(insert_sorted(s, x)),
        forall|y: usize| #[trigger] insert_sorted(s, x).contains(y) <==> (s.contains(y) || y == x),
    decreases s.len(),
{
    if s.len() == 0 {
        assert forall|y: usize| insert_sorted(s, x).contains(y) <==> (s.contains(y) || y == x) by {
            assert(insert_sorted(s, x) == seq![x]);
            if y == x {
                assert(seq![x][0] == y);
            }
        }
    } else {
        if x < s[0] {
            assert forall|y: usize| (seq![x] + s).contains(y) <==> (s.contains(y) || y == x) by {
                if (seq![x] + s).contains(y) {
                    let k = choose|k: int| 0 <= k < (seq![x] + s).len() && (seq![x] + s)[k] == y;
                    if k > 0 {
                        assert(s[k - 1] == y);
                    }
                }
                if s.contains(y) {
                    let k = choose|k: int| 0 <= k < s.len() && s[k] == y;
                    assert((seq![x] + s)[k + 1] == y);
                }
                if y == x {
                    assert((seq![x] + s)[0] == y);
                }
            }
            assert(insert_sorted(s, x) == seq![x] + s);
        } else if x == s[0] {
            assert(insert_sorted(s, x) == s);
            assert(s[0] == x);
            assert(s.contains(x));
            assert forall|y: usize| insert_sorted(s, x).contains(y) <==> (s.contains(y) || y == x) by {
                if y == x {
                    assert(s[0] == y);
                }
            }
        } else {
            let t = s.drop_first();
            lemma_insert_sorted_keeps_order(t, x);
            let r = insert_sorted(t, x);
            assert(insert_sorted(s, x) == seq![s[0]] + r);
            assert forall|k: int| 0 <= k < r.len() implies s[0] < r[k] by {
                assert(r.contains(r[k]));
                if r[k] != x {
                    assert(t.contains(r[k]));
                    let m = choose|m: int| 0 <= m < t.len() && t[m] == r[k];
                    assert(s[m + 1] == r[k]);
                }
            }
            assert forall|y: usize| (seq![s[0]] + r).contains(y) <==> (s.contains(y) || y == x) by {
                if (seq![s[0]] + r).contains(y) {
                    let k = choose|k: int| 0 <= k < (seq![s[0]] + r).len() && (seq![s[0]] + r)[k] == y;
                    if k > 0 {
                        assert(r[k - 1] == y);
                        assert(r.contains(y));
                        if t.contains(y) {
                            let m = choose|m: int| 0 <= m < t.len() && t[m] == y;
                            assert(s[m + 1] == y);
                        }
                    } else {
                        assert(s[0] == y);
                    }
                }
                if s.contains(y) {
                    let k = choose|k: int| 0 <= k < s.len() && s[k] == y;
                    if k == 0 {
                        assert((seq![s[0]] + r)[0] == y);
                    } else {
                        assert(t[k - 1] == y);
                        assert(t.contains(y));
                        assert(r.contains(y));
                        let m = choose|m: int| 0 <= m < r.len() && r[m] == y;
                        assert((seq![s[0]] + r)[m + 1] == y);
                    }
                }
                if y == x {
                    assert(r.contains(x));
                    let m = choose|m: int| 0 <= m < r.len() && r[m] == x;
                    assert((seq![s[0]] + r)[m + 1] == y);
                }
            }
        }
    }
}

fn insert_index(v: &mut Vec<usize>, x: usize)
    ensures
        final(v)@ == insert_sorted(old(v)@, x),
{
    let mut i: usize = 0;
    while i < v.len() && v[i] < x
        invariant
            i <= v@.len(),
            v@ == old(v)@,
            forall|j: int| 0 <= j < i ==> v@[j] < x,
        decreases v.len() - i,
    {
        i = i + 1;
    }
    proof {
        lemma_insert_at(v@, x, i as int);
    }
    if i < v.len() && v[i] == x {
        return;
    }
    v.insert(i, x);
    assert(v@ =~= old(v)@.take(i as int) + seq![x] + old(v)@.skip(i as int));
}

/// The distinct indexes that the keys of the facts carry between `prefix`
/// and `suffix`, in ascending order.
pub open spec fn fact_indexes(facts: Seq<IntelFact>, prefix: Seq<char>, suffix: Seq<char>) -> Seq<usize>
    decreases facts.len(),
{
    if facts.len() == 0 {
        seq![]
    } else {
        let rest = fact_indexes(facts.drop_last(), prefix, suffix);
        match key_index(facts.last().metric_key@, prefix, suffix) {
            Some(i) => insert_sorted(rest, i as usize),
            None => rest,
        }
    }
}

/// Whether some fact's key carries the index.
pub open spec fn carries_index(facts: Seq<IntelFact>, prefix: Seq<char>, suffix: Seq<char>, i: usize) -> bool {
    exists|k: int| 0 <= k < facts.len() && key_index(facts[k].metric_key@, prefix, suffix) == Some(i as nat)
}

proof fn lemma_fact_indexes(facts: Seq<IntelFact>, prefix: Seq<char>, suffix: Seq<char>)
    ensures
        strictly_ascending(fact_indexes(facts, prefix, suffix)),
        forall|i: usize|
            fact_indexes(facts, prefix, suffix).contains(i) <==> carries_index(facts, prefix, suffix, i),
    decreases facts.len(),
{
    if facts.len() > 0 {
        let init = facts.drop_last();
        lemma_fact_indexes(init, prefix, suffix);
        let rest = fact_indexes(init, prefix, suffix);
        match key_index(facts.last().metric_key@, prefix, suffix) {
            Some(i) => {
                lemma_insert_sorted_keeps_order(rest, i as usize);
            },
            None => {},
        }
        assert forall|i: usize|
            fact_indexes(facts, prefix, suffix).contains(i) <==> carries_index(facts, prefix, suffix, i) by {
            if carries_index(facts, prefix, suffix, i) {
                let k = choose|k: int|
                    0 <= k < facts.len() && key_index(facts[k].metric_key@, prefix, suffix) == Some(
                        i as nat,
                    );
                if k < facts.len() - 1 {
                    assert(init[k] == facts[k]);
                    assert(carries_index(init, prefix, suffix, i));
                }
            }
            if carries_index(init, prefix, suffix, i) {
                let k = choose|k: int|
                    0 <= k < init.len() && key_index(init[k].metric_key@, prefix, suffix) == Some(
                        i as nat,
                    );
                assert(facts[k] == init[k]);
            }
            if key_index(facts.last().metric_key@, prefix, suffix) == Some(i as nat) {
                assert(facts[facts.len() - 1] == facts.last());
            }
        }
    }
}

/// The distinct indexes that a device's fact keys carry between `prefix`
/// and `suffix`, in ascending order.
pub fn indexed_metric_indexes(device: &DeviceRecord, prefix: &str, suffix: &str) -> (r: Vec<usize>)
    ensures
        r@ == fact_indexes(device.facts@, prefix@, suffix@),
        strictly_ascending(r@),
        forall|i: usize| r@.contains(i) <==> carries_index(device.facts@, prefix@, suffix@, i),
{
    let facts = &device.facts;
    let mut r: Vec<usize> = Vec::new();
    let mut k: usize = 0;
    while k < facts.len()
        invariant
            k <= facts@.len(),
            facts@ == device.facts@,
            r@ == fact_indexes(facts@.take(k as int), prefix@, suffix@),
        decreases facts.len() - k,
    {
        assert(facts@.take(k + 1).drop_last() =~= facts@.take(k as int));
        assert(facts@.take(k + 1).last() == facts@[k as int]);
        if let Some(i) = index_of_key(facts[k].metric_key.as_str(), prefix, suffix) {
            insert_index(&mut r, i);
        }
        k = k + 1;
    }
    assert(facts@.take(facts.len() as int) =~= facts@);
    proof {
        lemma_fact_indexes(device.facts@, prefix@, suffix@);
    }
    r
}

/// The key `<prefix><index><suffix>`.
pub open spec fn indexed_key(prefix: Seq<char>, index: usize, suffix: Seq<char>) -> Seq<char> {
    prefix + dec(index as nat) + suffix
}

fn indexed_key_string(prefix: &str, index: usize, suffix: &str) -> (r: String)
    ensures
        r@ == indexed_key(prefix@, index, suffix@),
{
    let mut r = owned(prefix);
    push_dec(&mut r, index as u64);
    push_str(&mut r, suffix);
    r
}

/// `a + b`, or the largest `u64` when that overflows.
pub open spec fn saturating_sum(a: u64, b: u64) -> u64 {
    if a + b > u64::MAX {
        u64::MAX
    } else {
        (a + b) as u64
    }
}

/// The saturating sum of the whole numbers at the given indexes, or nothing
/// when none of them has one.
pub open spec fn sum_at(facts: Seq<IntelFact>, prefix: Seq<char>, suffix: Seq<char>, idx: Seq<usize>) -> Option<
    u64,
>
    decreases idx.len(),
{
    if idx.len() == 0 {
        None
    } else {
        let before = sum_at(facts, prefix, suffix, idx.drop_last());
        match fact_u64_spec(facts, indexed_key(prefix, idx.last(), suffix)) {
            Some(v) => Some(
                saturating_sum(
                    match before {
                        Some(t) => t,
                        None => 0,
                    },
                    v,
                ),
            ),
            None => before,
        }
    }
}

/// The saturating sum of the whole numbers of a device's indexed facts, or
/// nothing when none has one.
pub open spec fn sum_indexed_spec(facts: Seq<IntelFact>, prefix: Seq<char>, suffix: Seq<char>) -> Option<u64> {
    sum_at(facts, prefix, suffix, fact_indexes(facts, prefix, suffix))
}

/// The saturating sum of the whole numbers of a device's indexed facts.
pub fn sum_indexed_u64_facts(device: &DeviceRecord, prefix: &str, suffix: &str) -> (r: Option<u64>)
    ensures
        r == sum_indexed_spec(device.facts@, prefix@, suffix@),
{
    let indexes = indexed_metric_indexes(device, prefix, suffix);
    let mut total: u64 = 0;
    let mut saw_any = false;
    let mut i: usize = 0;
    while i < indexes.len()
        invariant
            i <= indexes@.len(),
            indexes@ == fact_indexes(device.facts@, prefix@, suffix@),
            sum_at(device.facts@, prefix@, suffix@, indexes@.take(i as int)) == (if saw_any {
                Some(total)
            } else {
                None::<u64>
            }),
            !saw_any ==> total == 0,
        decreases indexes.len() - i,
    {
        assert(indexes@.take(i + 1).drop_last() =~= indexes@.take(i as int));
        let key = indexed_key_string(prefix, indexes[i], suffix);
        if let Some(v) = fact_u64(device, key.as_str()) {
            total = total.saturating_add(v);
            saw_any = true;
        }
        i = i + 1;
    }
    assert(indexes@.take(indexes.len() as int) =~= indexes@);
    if saw_any {
        Some(total)
    } else {
        None
    }
}

// ---------------------------------------------------------------------------
// Numbers as the compact lines show them.
// ---------------------------------------------------------------------------
/// How `{:.1}` writes a number.
pub open spec fn one_decimal(s: FactScalar) -> Seq<char> {
    match s {
        FactScalar::UInt(n) => u64_one_decimal(n as nat),
        FactScalar::Signed(c) => dec_signed(c as int) + ".0"@,
        FactScalar::Decimal(d) => d.one_decimal@,
        _ => seq![],
    }
}

/// How `{:.2}` writes a number.
pub open spec fn two_decimals(s: FactScalar) -> Seq<char> {
    match s {
        FactScalar::UInt(n) => u64_two_decimals(n as nat),
        FactScalar::Signed(c) => dec_signed(c as int) + ".00"@,
        FactScalar::Decimal(d) => d.two_decimals@,
        _ => seq![],
    }
}

fn push_one_decimal(out: &mut String, s: &FactScalar)
    ensures
        final(out)@ == old(out)@ + one_decimal(*s),
{
    match s {
        FactScalar::UInt(n) => push_u64_one_decimal(out, *n),
        FactScalar::Signed(c) => {
            let t = dec_string_signed(*c as i64);
            push_str(out, t.as_str());
            push_str(out, ".0");
        },
        FactScalar::Decimal(d) => push_str(out, d.one_decimal.as_str()),
        _ => {},
    }
    assert(out@ =~= old(out)@ + one_decimal(*s));
}

fn push_two_decimals(out: &mut String, s: &FactScalar)
    ensures
        final(out)@ == old(out)@ + two_decimals(*s),
{
    match s {
        FactScalar::UInt(n) => push_u64_two_decimals(out, *n),
        FactScalar::Signed(c) => {
            let t = dec_string_signed(*c as i64);
            push_str(out, t.as_str());
            push_str(out, ".00");
        },
        FactScalar::Decimal(d) => push_str(out, d.two_decimals.as_str()),
        _ => {},
    }
    assert(out@ =~= old(out)@ + two_decimals(*s));
}

/// A rendering without a final `.0`.
pub open spec fn without_point_zero(t: Seq<char>) -> Seq<char> {
    if has_suffix(t, ".0"@) {
        t.subrange(0, t.len() - 2)
    } else {
        t
    }
}

/// How a number is shown with one decimal, without a final `.0`.
pub open spec fn short_decimal(s: FactScalar) -> Seq<char> {
    without_point_zero(one_decimal(s))
}

fn push_short_decimal(out: &mut String, s: &FactScalar)
    ensures
        final(out)@ == old(out)@ + short_decimal(*s),
{
    let mut t = String::new();
    push_one_decimal(&mut t, s);
    let ts = t.as_str();
    if str_ends_with(ts, ".0") {
        proof {
            reveal_strlit(".0");
        }
        let n = ts.unicode_len();
        push_str(out, ts.substring_char(0, n - 2));
    } else {
        push_str(out, ts);
    }
}

/// The first option, or the second when the first is empty.
pub open spec fn or_else(a: Option<Seq<char>>, b: Option<Seq<char>>) -> Option<Seq<char>> {
    match a {
        Some(x) => Some(x),
        None => b,
    }
}

fn or_else_string(a: Option<String>, b: Option<String>) -> (r: Option<String>)
    ensures
        match r {
            Some(t) => or_else(
                match a {
                    Some(x) => Some(x@),
                    None => None,
                },
                match b {
                    Some(x) => Some(x@),
                    None => None,
                },
            ) == Some(t@),
            None => a is None && b is None,
        },
{
    match a {
        Some(x) => Some(x),
        None => b,
    }
}

/// The view of an optional text.
pub open spec fn opt_view(v: Option<String>) -> Option<Seq<char>> {
    match v {
        Some(t) => Some(t@),
        None => None,
    }
}

// ---------------------------------------------------------------------------
// The compact lines of a device.
// ---------------------------------------------------------------------------
/// The memory line: used and total memory over all memory modules, or why
/// there is none.
pub open spec fn memory_line(facts: Seq<IntelFact>) -> Seq<char> {
    let used = sum_indexed_spec(facts, "sysman.memory_modules."@, ".used_bytes"@);
    let size = sum_indexed_spec(facts, "sysman.memory_modules."@, ".size_bytes"@);
    match (used, size) {
        (Some(u), Some(z)) => "  Memory: "@ + mib_text(u as nat) + " MiB / "@ + mib_text(z as nat) + " MiB"@,
        _ => human_unavailable_spec("  Memory"@, fact_reason_spec(facts, "sysman.memory_modules.status"@)),
    }
}

fn memory_line_string(device: &DeviceRecord) -> (r: String)
    ensures
        r@ == memory_line(device.facts@),
{
    let used = sum_indexed_u64_facts(device, "sysman.memory_modules.", ".used_bytes");
    let size = sum_indexed_u64_facts(device, "sysman.memory_modules.", ".size_bytes");
    match (used, size) {
        (Some(u), Some(z)) => {
            let mut r = owned("  Memory: ");
            push_mib(&mut r, u);
            push_str(&mut r, " MiB / ");
            push_mib(&mut r, z);
            push_str(&mut r, " MiB");
            r
        },
        _ => format_human_unavailable("  Memory", fact_reason(device, "sysman.memory_modules.status")),
    }
}

/// The power line: the first power domain's watts over the last interval,
/// or why there are none.
pub open spec fn power_line(facts: Seq<IntelFact>) -> Seq<char> {
    let prefix = "sysman.power_domains."@;
    let idx = fact_indexes(facts, prefix, ".watts_delta"@);
    let status_reason = fact_reason_spec(facts, "sysman.power_domains.status"@);
    if idx.len() > 0 {
        let key = indexed_key(prefix, idx[0], ".watts_delta"@);
        match fact_number_spec(facts, key) {
            Some(v) => "  Power: "@ + short_decimal(v) + " W"@,
            None => human_unavailable_spec("  Power"@, or_else(fact_reason_spec(facts, key), status_reason)),
        }
    } else {
        human_unavailable_spec("  Power"@, status_reason)
    }
}

fn power_line_string(device: &DeviceRecord) -> (r: String)
    ensures
        r@ == power_line(device.facts@),
{
    let indexes = indexed_metric_indexes(device, "sysman.power_domains.", ".watts_delta");
    if indexes.len() > 0 {
        let key = indexed_key_string("sysman.power_domains.", indexes[0], ".watts_delta");
        match fact_number(device, key.as_str()) {
            Some(v) => {
                let mut r = owned("  Power: ");
                push_short_decimal(&mut r, v);
                push_str(&mut r, " W");
                r
            },
            None => format_human_unavailable(
                "  Power",
                or_else_string(
                    fact_reason(device, key.as_str()),
                    fact_reason(device, "sysman.power_domains.status"),
                ),
            ),
        }
    } else {
        format_human_unavailable("  Power", fact_reason(device, "sysman.power_domains.status"))
    }
}

/// The line of one engine group: its activity over the last interval, or
/// why there is none.
pub open spec fn engine_line(facts: Seq<IntelFact>, i: usize) -> Seq<char> {
    let key = indexed_key("sysman.engine_groups."@, i, ".utilization_pct_delta"@);
    match fact_number_spec(facts, key) {
        Some(v) => "  Engine "@ + dec(i as nat) + ": "@ + two_decimals(v) + "%"@,
        None => human_unavailable_spec(
            "  Engine "@ + dec(i as nat),
            or_else(fact_reason_spec(facts, key), fact_reason_spec(facts, "sysman.engine_groups.status"@)),
        ),
    }
}

/// The lines of the engine groups at the given indexes, in order.
pub open spec fn engine_lines_at(facts: Seq<IntelFact>, idx: Seq<usize>) -> Seq<Seq<char>>
    decreases idx.len(),
{
    if idx.len() == 0 {
        seq![]
    } else {
        engine_lines_at(facts, idx.drop_last()).push(engine_line(facts, idx.last()))
    }
}

/// The engine lines: one per engine group, or one saying why there are none.
pub open spec fn engine_lines(facts: Seq<IntelFact>) -> Seq<Seq<char>> {
    let idx = fact_indexes(facts, "sysman.engine_groups."@, ".utilization_pct_delta"@);
    if idx.len() == 0 {
        seq![
            human_unavailable_spec(
                "  Engine activity"@,
                fact_reason_spec(facts, "sysman.engine_groups.status"@),
            ),
        ]
    } else {
        engine_lines_at(facts, idx)
    }
}

fn engine_line_string(device: &DeviceRecord, i: usize) -> (r: String)
    ensures
        r@ == engine_line(device.facts@, i),
{
    let key = indexed_key_string("sysman.engine_groups.", i, ".utilization_pct_delta");
    let label = {
        let mut l = owned("  Engine ");
        push_dec(&mut l, i as u64);
        l
    };
    match fact_number(device, key.as_str()) {
        Some(v) => {
            let mut r = label;
            push_str(&mut r, ": ");
            push_two_decimals(&mut r, v);
            push_str(&mut r, "%");
            r
        },
        None => format_human_unavailable(
            label.as_str(),
            or_else_string(
                fact_reason(device, key.as_str()),
                fact_reason(device, "sysman.engine_groups.status"),
            ),
        ),
    }
}

fn push_engine_lines(lines: &mut Vec<String>, device: &DeviceRecord)
    ensures
        views(final(lines)@) == views(old(lines)@) + engine_lines(device.facts@),
{
    let ghost start = views(lines@);
    let indexes = indexed_metric_indexes(device, "sysman.engine_groups.", ".utilization_pct_delta");
    if indexes.len() == 0 {
        push_line(
            lines,
            format_human_unavailable("  Engine activity", fact_reason(device, "sysman.engine_groups.status")),
        );
        return;
    }
    let mut i: usize = 0;
    while i < indexes.len()
        invariant
            i <= indexes@.len(),
            indexes@ == fact_indexes(device.facts@, "sysman.engine_groups."@, ".utilization_pct_delta"@),
            views(lines@) == start + engine_lines_at(device.facts@, indexes@.take(i as int)),
        decreases indexes.len() - i,
    {
        assert(indexes@.take(i + 1).drop_last() =~= indexes@.take(i as int));
        push_line(lines, engine_line_string(device, indexes[i]));
        i = i + 1;
    }
    assert(indexes@.take(indexes.len() as int) =~= indexes@);
}

/// The ascending list of `a` with each index of `b` put in its place.
pub open spec fn merge_sorted(a: Seq<usize>, b: Seq<usize>) -> Seq<usize>
    decreases b.len(),
{
    if b.len() == 0 {
        a
    } else {
        insert_sorted(merge_sorted(a, b.drop_last()), b.last())
    }
}

/// The frequency parts of one domain: its actual and requested clocks, when
/// they are known.
pub open spec fn frequency_parts(facts: Seq<IntelFact>, i: usize) -> Seq<Seq<char>> {
    let prefix = "sysman.frequency_domains."@;
    (match fact_number_spec(facts, indexed_key(prefix, i, ".actual_mhz"@)) {
        Some(a) => seq!["actual "@ + short_decimal(a) + " MHz"@],
        None => seq![],
    }) + (match fact_number_spec(facts, indexed_key(prefix, i, ".request_mhz"@)) {
        Some(q) => seq!["requested "@ + short_decimal(q) + " MHz"@],
        None => seq![],
    })
}

/// The frequency line of the first domain, in the given order, with a known
/// clock.
pub open spec fn frequency_from(facts: Seq<IntelFact>, idx: Seq<usize>) -> Option<Seq<char>>
    decreases idx.len(),
{
    if idx.len() == 0 {
        None
    } else if frequency_parts(facts, idx[0]).len() == 0 {
        frequency_from(facts, idx.drop_first())
    } else {
        Some("  Frequency: "@ + join_with(frequency_parts(facts, idx[0]), ", "@))
    }
}

/// The domains that report an actual or a requested clock, in ascending
/// order.
pub open spec fn frequency_indexes(facts: Seq<IntelFact>) -> Seq<usize> {
    merge_sorted(
        fact_indexes(facts, "sysman.frequency_domains."@, ".actual_mhz"@),
        fact_indexes(facts, "sysman.frequency_domains."@, ".request_mhz"@),
    )
}

/// The frequency line: the first domain with a known clock, or why there is
/// none.
pub open spec fn frequency_line(facts: Seq<IntelFact>) -> Seq<char> {
    match frequency_from(facts, frequency_indexes(facts)) {
        Some(l) => l,
        None => human_unavailable_spec("  Frequency"@, fact_reason_spec(facts, "sysman.frequency_domains.status"@)),
    }
}

fn frequency_parts_vec(device: &DeviceRecord, i: usize) -> (r: Vec<String>)
    ensures
        views(r@) == frequency_parts(device.facts@, i),
{
    let mut parts: Vec<String> = Vec::new();
    let a_key = indexed_key_string("sysman.frequency_domains.", i, ".actual_mhz");
    if let Some(a) = fact_number(device, a_key.as_str()) {
        let mut p = owned("actual ");
        push_short_decimal(&mut p, a);
        push_str(&mut p, " MHz");
        push_line(&mut parts, p);
    }
    let q_key = indexed_key_string("sysman.frequency_domains.", i, ".request_mhz");
    if let Some(q) = fact_number(device, q_key.as_str()) {
        let mut p = owned("requested ");
        push_short_decimal(&mut p, q);
        push_str(&mut p, " MHz");
        push_line(&mut parts, p);
    }
    assert(views(parts@) =~= frequency_parts(device.facts@, i));
    parts
}

fn frequency_line_string(device: &DeviceRecord) -> (r: String)
    ensures
        r@ == frequency_line(device.facts@),
{
    let mut indexes = indexed_metric_indexes(device, "sysman.frequency_domains.", ".actual_mhz");
    let requested = indexed_metric_indexes(device, "sysman.frequency_domains.", ".request_mhz");
    let ghost actual = indexes@;
    let mut k: usize = 0;
    while k < requested.len()
        invariant
            k <= requested@.len(),
            indexes@ == merge_sorted(actual, requested@.take(k as int)),
        decreases requested.len() - k,
    {
        assert(requested@.take(k + 1).drop_last() =~= requested@.take(k as int));
        insert_index(&mut indexes, requested[k]);
        k = k + 1;
    }
    assert(requested@.take(requested.len() as int) =~= requested@);
    assert(indexes@ == frequency_indexes(device.facts@));
    let mut i: usize = 0;
    assert(indexes@.subrange(0, indexes@.len() as int) =~= indexes@);
    while i < indexes.len()
        invariant
            i <= indexes@.len(),
            frequency_from(device.facts@, frequency_indexes(device.facts@)) == frequency_from(
                device.facts@,
                indexes@.subrange(i as int, indexes@.len() as int),
            ),
        decreases indexes.len() - i,
    {
        let ghost rest = indexes@.subrange(i as int, indexes@.len() as int);
        assert(rest[0] == indexes@[i as int]);
        let parts = frequency_parts_vec(device, indexes[i]);
        if parts.len() > 0 {
            let joined = join_strings(&parts, ", ");
            return cat("  Frequency: ", joined.as_str());
        }
        assert(rest.drop_first() =~= indexes@.subrange(i + 1, indexes@.len() as int));
        i = i + 1;
    }
    format_human_unavailable("  Frequency", fact_reason(device, "sysman.frequency_domains.status"))
}

/// The value of the first member with the given name.
pub open spec fn member_of(ms: Seq<(String, FactScalar)>, name: Seq<char>) -> Option<FactScalar>
    decreases ms.len(),
{
    if ms.len() == 0 {
        None
    } else if ms[0].0@ == name {
        Some(ms[0].1)
    } else {
        member_of(ms.drop_first(), name)
    }
}

/// The temperature a sensor's state fact holds, when it holds one.
pub open spec fn sensor_temperature(f: Option<IntelFact>) -> Option<FactScalar> {
    match f {
        Some(fact) => match fact.raw {
            FactRaw::Object(ms) => match member_of(ms@, "temperature_c"@) {
                Some(v) => if is_number(v) {
                    Some(v)
                } else {
                    None
                },
                None => None,
            },
            _ => None,
        },
        None => None,
    }
}

/// The temperature of the first sensor, in the given order, whose state
/// holds one.
pub open spec fn temperature_from(facts: Seq<IntelFact>, idx: Seq<usize>) -> Option<FactScalar>
    decreases idx.len(),
{
    if idx.len() == 0 {
        None
    } else {
        match sensor_temperature(
            first_fact(facts, indexed_key("sysman.temperature_sensors."@, idx[0], ".state"@)),
        ) {
            Some(v) => Some(v),
            None => temperature_from(facts, idx.drop_first()),
        }
    }
}

/// The temperature of the device's first sensor that reports one.
pub open spec fn temperature_reading_spec(facts: Seq<IntelFact>) -> Option<FactScalar> {
    temperature_from(facts, fact_indexes(facts, "sysman.temperature_sensors."@, ".state"@))
}

fn member_value<'a>(ms: &'a Vec<(String, FactScalar)>, name: &str) -> (r: Option<&'a FactScalar>)
    ensures
        match r {
            Some(v) => member_of(ms@, name@) == Some(*v),
            None => member_of(ms@, name@) is None,
        },
{
    let mut i: usize = 0;
    assert(ms@.subrange(0, ms@.len() as int) =~= ms@);
    while i < ms.len()
        invariant
            i <= ms@.len(),
            member_of(ms@, name@) == member_of(ms@.subrange(i as int, ms@.len() as int), name@),
        decreases ms.len() - i,
    {
        let ghost rest = ms@.subrange(i as int, ms@.len() as int);
        assert(rest[0] == ms@[i as int]);
        if str_eq(ms[i].0.as_str(), name) {
            return Some(&ms[i].1);
        }
        assert(rest.drop_first() =~= ms@.subrange(i + 1, ms@.len() as int));
        i = i + 1;
    }
    None
}

/// The temperature of the device's first sensor that reports one.
pub fn temperature_reading_c<'a>(device: &'a DeviceRecord) -> (r: Option<&'a FactScalar>)
    ensures
        match r {
            Some(v) => temperature_reading_spec(device.facts@) == Some(*v),
            None => temperature_reading_spec(device.facts@) is None,
        },
{
    let indexes = indexed_metric_indexes(device, "sysman.temperature_sensors.", ".state");
    let mut i: usize = 0;
    assert(indexes@.subrange(0, indexes@.len() as int) =~= indexes@);
    while i < indexes.len()
        invariant
            i <= indexes@.len(),
            temperature_reading_spec(device.facts@) == temperature_from(
                device.facts@,
                indexes@.subrange(i as int, indexes@.len() as int),
            ),
        decreases indexes.len() - i,
    {
        let ghost rest = indexes@.subrange(i as int, indexes@.len() as int);
        assert(rest[0] == indexes@[i as int]);
        let key = indexed_key_string("sysman.temperature_sensors.", indexes[i], ".state");
        if let Some(fact) = find_fact_any(device, key.as_str()) {
            if let FactRaw::Object(ms) = &fact.raw {
                if let Some(v) = member_value(ms, "temperature_c") {
                    match v {
                        FactScalar::UInt(_) | FactScalar::Signed(_) | FactScalar::Decimal(_) => {
                            return Some(v);
                        },
                        _ => {},
                    }
                }
            }
        }
        assert(rest.drop_first() =~= indexes@.subrange(i + 1, indexes@.len() as int));
        i = i + 1;
    }
    None
}

/// The temperature line: the first sensor's reading, or why there is none.
pub open spec fn temperature_line(facts: Seq<IntelFact>) -> Seq<char> {
    match temperature_reading_spec(facts) {
        Some(t) => "  Temperature: "@ + short_decimal(t) + " C"@,
        None => human_unavailable_spec(
            "  Temperature"@,
            fact_reason_spec(facts, "sysman.temperature_sensors.status"@),
        ),
    }
}

fn temperature_line_string(device: &DeviceRecord) -> (r: String)
    ensures
        r@ == temperature_line(device.facts@),
{
    match temperature_reading_c(device) {
        Some(t) => {
            let mut r = owned("  Temperature: ");
            push_short_decimal(&mut r, t);
            push_str(&mut r, " C");
            r
        },
        None => format_human_unavailable(
            "  Temperature",
            fact_reason(device, "sysman.temperature_sensors.status"),
        ),
    }
}

/// The compact lines of a device: its name or key, its key, its UUID and
/// core clock when known, then memory, power, engines, frequency and
/// temperature.
pub open spec fn compact_device_lines(d: DeviceRecord) -> Seq<Seq<char>> {
    let facts = d.facts@;
    (match fact_string_spec(facts, "device_name"@) {
        Some(n) => seq!["Intel device "@ + dec(d.device_index as nat) + ": "@ + n],
        None => seq!["Intel device "@ + dec(d.device_index as nat) + " ["@ + d.key@ + "]"@],
    }) + seq!["  Device key: "@ + d.key@] + (match fact_string_spec(facts, "uuid"@) {
        Some(u) => seq!["  UUID: "@ + u],
        None => seq![],
    }) + (match fact_number_spec(facts, "core_clock_mhz"@) {
        Some(c) => seq!["  Core clock: "@ + short_decimal(c) + " MHz"@],
        None => seq![],
    }) + seq![memory_line(facts), power_line(facts)] + engine_lines(facts) + seq![
        frequency_line(facts),
        temperature_line(facts),
    ]
}

fn push_device_heading(lines: &mut Vec<String>, device: &DeviceRecord)
    ensures
        views(final(lines)@) == views(old(lines)@) + compact_device_lines(*device).take(
            (compact_device_lines(*device).len() - engine_lines(device.facts@).len() - 4) as int,
        ),
{
    let ghost start = views(lines@);
    let idx = dec_string(device.device_index as u64);
    match fact_string(device, "device_name") {
        Some(name) => {
            let mut l = cat3("Intel device ", idx.as_str(), ": ");
            push_str(&mut l, name);
            push_line(lines, l);
        },
        None => {
            let mut l = cat3("Intel device ", idx.as_str(), " [");
            push_str(&mut l, device.key.as_str());
            push_str(&mut l, "]");
            push_line(lines, l);
        },
    }
    push_line(lines, cat("  Device key: ", device.key.as_str()));
    if let Some(uuid) = fact_string(device, "uuid") {
        push_line(lines, cat("  UUID: ", uuid));
    }
    if let Some(clock) = fact_number(device, "core_clock_mhz") {
        let mut l = owned("  Core clock: ");
        push_short_decimal(&mut l, clock);
        push_str(&mut l, " MHz");
        push_line(lines, l);
    }
    assert(views(lines@) =~= start + compact_device_lines(*device).take(
        (compact_device_lines(*device).len() - engine_lines(device.facts@).len() - 4) as int,
    ));
}

fn push_compact_device_lines(lines: &mut Vec<String>, device: &DeviceRecord)
    ensures
        views(final(lines)@) == views(old(lines)@) + compact_device_lines(*device),
{
    let ghost start = views(lines@);
    push_device_heading(lines, device);
    push_line(lines, memory_line_string(device));
    push_line(lines, power_line_string(device));
    push_engine_lines(lines, device);
    push_line(lines, frequency_line_string(device));
    push_line(lines, temperature_line_string(device));
    let ghost all = compact_device_lines(*device);
    let ghost e = engine_lines(device.facts@);
    assert(all =~= all.take((all.len() - e.len() - 4) as int) + seq![
        memory_line(device.facts@),
        power_line(device.facts@),
    ] + e + seq![frequency_line(device.facts@), temperature_line(device.facts@)]);
    assert(views(lines@) =~= start + all);
}

/// The compact lines of the devices, a blank line between two devices.
pub open spec fn device_blocks(ds: Seq<DeviceRecord>) -> Seq<Seq<char>>
    decreases ds.len(),
{
    if ds.len() == 0 {
        seq![]
    } else if ds.len() == 1 {
        compact_device_lines(ds[0])
    } else {
        device_blocks(ds.drop_last()) + seq![Seq::<char>::empty()] + compact_device_lines(ds.last())
    }
}

fn push_device_blocks(lines: &mut Vec<String>, devices: &Vec<DeviceRecord>)
    ensures
        views(final(lines)@) == views(old(lines)@) + device_blocks(devices@),
{
    let ghost start = views(lines@);
    let mut i: usize = 0;
    while i < devices.len()
        invariant
            i <= devices@.len(),
            views(lines@) == start + device_blocks(devices@.take(i as int)),
        decreases devices.len() - i,
    {
        assert(devices@.take(i + 1).drop_last() =~= devices@.take(i as int));
        if i > 0 {
            push_line(lines, String::new());
        }
        push_compact_device_lines(lines, &devices[i]);
        proof {
            if i == 0 {
                assert(devices@.take(1).len() == 1);
                assert(devices@.take(1)[0] == devices@[0]);
            }
        }
        assert(views(lines@) =~= start + device_blocks(devices@.take(i + 1)));
        i = i + 1;
    }
    assert(devices@.take(devices.len() as int) =~= devices@);
}

/// The status and reason of a sample that is not `ok`.
pub open spec fn status_lines(s: ProviderSample, status_label: Seq<char>, reason_label: Seq<char>) -> Seq<
    Seq<char>,
> {
    seq![status_label + s.status@] + (if s.errors@.len() > 0 {
        seq![reason_label + s.errors@[0]@]
    } else {
        seq![]
    })
}

fn push_status_lines(lines: &mut Vec<String>, sample: &ProviderSample, status_label: &str, reason_label: &str)
    ensures
        views(final(lines)@) == views(old(lines)@) + status_lines(*sample, status_label@, reason_label@),
{
    let ghost start = views(lines@);
    push_line(lines, cat(status_label, sample.status));
    if sample.errors.len() > 0 {
        push_line(lines, cat(reason_label, sample.errors[0].as_str()));
    }
    assert(views(lines@) =~= start + status_lines(*sample, status_label@, reason_label@));
}

/// The snapshot text of a sample: the compact lines of its devices when it
/// is `ok`, else its status and reason.
pub open spec fn format_snapshot_spec(s: ProviderSample) -> Seq<char> {
    if s.status@ != "ok"@ {
        join_with(status_lines(s, "Provider status: "@, "Reason: "@), "\n"@)
    } else {
        join_with(device_blocks(s.devices@), "\n"@)
    }
}

/// The snapshot text of a sample.
pub fn format_snapshot(sample: &ProviderSample) -> (r: String)
    ensures
        r@ == format_snapshot_spec(*sample),
{
    let mut lines: Vec<String> = Vec::new();
    if !str_eq(sample.status, "ok") {
        push_status_lines(&mut lines, sample, "Provider status: ", "Reason: ");
        return join_strings(&lines, "\n");
    }
    push_device_blocks(&mut lines, &sample.devices);
    assert(views(lines@) =~= device_blocks(sample.devices@));
    join_strings(&lines, "\n")
}

/// The watch text of a sample: its sequence number, then the compact lines
/// of its devices when it is `ok`, else its status and reason.
pub open spec fn format_watch_sample_spec(s: ProviderSample) -> Seq<char> {
    let head = seq!["sample_seq: "@ + dec(s.sample_seq as nat)];
    if s.status@ != "ok"@ {
        join_with(head + status_lines(s, "provider.status: "@, "reason: "@), "\n"@)
    } else {
        join_with(head + seq![Seq::<char>::empty()] + device_blocks(s.devices@), "\n"@)
    }
}

/// The watch text of a sample.
pub fn format_watch_sample(sample: &ProviderSample) -> (r: String)
    ensures
        r@ == format_watch_sample_spec(*sample),
{
    let mut lines: Vec<String> = Vec::new();
    let n = dec_string(sample.sample_seq);
    push_line(&mut lines, cat("sample_seq: ", n.as_str()));
    let ghost head = views(lines@);
    assert(head =~= seq!["sample_seq: "@ + dec(sample.sample_seq as nat)]);
    if !str_eq(sample.status, "ok") {
        push_status_lines(&mut lines, sample, "provider.status: ", "reason: ");
        assert(views(lines@) =~= head + status_lines(*sample, "provider.status: "@, "reason: "@));
        return join_strings(&lines, "\n");
    }
    push_line(&mut lines, String::new());
    push_device_blocks(&mut lines, &sample.devices);
    assert(views(lines@) =~= head + seq![Seq::<char>::empty()] + device_blocks(sample.devices@));
    join_strings(&lines, "\n")
}

// ---------------------------------------------------------------------------
// The probe block.
// ---------------------------------------------------------------------------
/// The lowercase hexadecimal digits of a number.
pub open spec fn hex(n: nat) -> Seq<char>
    decreases n,
{
    if n < 16 {
        seq![hex_char(n)]
    } else {
        hex(n / 16).push(hex_char(n % 16))
    }
}

/// The hexadecimal digits of a number, padded with zeros to four (`{:04x}`).
pub open spec fn hex4_padded(n: nat) -> Seq<char> {
    let h = hex(n);
    if h.len() < 4 {
        Seq::new((4 - h.len()) as nat, |i: int| '0') + h
    } else {
        h
    }
}

fn push_hex(out: &mut String, n: u64)
    ensures
        final(out)@ == old(out)@ + hex(n as nat),
    decreases n,
{
    if n >= 16 {
        push_hex(out, n / 16);
    }
    push_char(out, hex_digit((n % 16) as u32));
    assert(n >= 16 ==> hex(n as nat) == hex((n / 16) as nat).push(hex_char((n % 16) as nat)));
}

pub(crate) fn push_hex4_padded(out: &mut String, n: u64)
    ensures
        final(out)@ == old(out)@ + hex4_padded(n as nat),
{
    let mut h = String::new();
    push_hex(&mut h, n);
    let len = h.as_str().unicode_len();
    let ghost start = out@;
    let mut k: usize = len;
    while k < 4
        invariant
            len == hex(n as nat).len(),
            len <= k <= 4 || (len > 4 && k == len),
            out@ == start + Seq::new((k - len) as nat, |i: int| '0'),
        decreases 4 - k,
    {
        push_char(out, '0');
        assert(Seq::new((k + 1 - len) as nat, |i: int| '0') =~= Seq::new((k - len) as nat, |i: int| '0').push(
            '0',
        ));
        k = k + 1;
    }
    push_str(out, h.as_str());
    assert(out@ =~= start + hex4_padded(n as nat));
}

/// The probe lines of a device's facts that are not base facts, in order.
pub open spec fn extra_fact_lines(facts: Seq<IntelFact>) -> Seq<Seq<char>>
    decreases facts.len(),
{
    if facts.len() == 0 {
        seq![]
    } else {
        let rest = extra_fact_lines(facts.drop_last());
        if is_base_probe_fact_key_spec(facts.last().metric_key@) {
            rest
        } else {
            rest.push(probe_fact_line_spec("device"@, facts.last()))
        }
    }
}

/// The probe line of an identifier: `0x` and four hexadecimal digits, then
/// the decimal value.
pub open spec fn id_line(label: Seq<char>, v: Option<u64>) -> Seq<Seq<char>> {
    match v {
        Some(n) => seq![label + "0x"@ + hex4_padded(n as nat) + " ("@ + dec(n as nat) + ")"@],
        None => seq![],
    }
}

/// The first probe lines of a device: its name, key, type, and vendor and
/// device IDs, when known.
pub open spec fn probe_device_head(d: DeviceRecord) -> Seq<Seq<char>> {
    let facts = d.facts@;
    opt_line_spec("device.name: "@, fact_string_spec(facts, "device_name"@)) + seq!["device.key: "@ + d.key@]
        + opt_line_spec("device.type: "@, fact_string_spec(facts, "device_type"@)) + id_line(
        "device.vendor_id: "@,
        fact_u64_spec(facts, "vendor_id"@),
    ) + id_line("device.device_id: "@, fact_u64_spec(facts, "device_id"@))
}

/// The UUID and core clock lines of a device, when known.
pub open spec fn probe_device_mid(d: DeviceRecord) -> Seq<Seq<char>> {
    let facts = d.facts@;
    opt_line_spec("device.uuid: "@, fact_string_spec(facts, "uuid"@)) + (match fact_number_spec(
        facts,
        "core_clock_mhz"@,
    ) {
        Some(c) => seq!["device.core_clock_mhz: "@ + one_decimal(c)],
        None => seq![],
    })
}

/// The last probe lines of a device: its other facts, and the areas it
/// could not report.
pub open spec fn probe_device_tail(d: DeviceRecord) -> Seq<Seq<char>> {
    extra_fact_lines(d.facts@) + (if d.unavailable@.len() > 0 {
        seq!["unavailable: "@ + join_with(d.unavailable@.map_values(|a: &'static str| a@), ", "@)]
    } else {
        seq![]
    })
}

/// The probe lines of a device.
pub open spec fn probe_device_lines(d: DeviceRecord) -> Seq<Seq<char>> {
    probe_device_head(d) + probe_device_mid(d) + probe_device_tail(d)
}

/// One line `prefix` + value when there is a value, none otherwise.
pub open spec fn opt_line_spec(prefix: Seq<char>, value: Option<Seq<char>>) -> Seq<Seq<char>> {
    match value {
        Some(v) => seq![prefix + v],
        None => seq![],
    }
}

fn push_id_line(lines: &mut Vec<String>, label: &str, v: Option<u64>)
    ensures
        views(final(lines)@) == views(old(lines)@) + id_line(label@, v),
{
    let ghost start = views(lines@);
    if let Some(n) = v {
        let mut l = cat(label, "0x");
        push_hex4_padded(&mut l, n);
        push_str(&mut l, " (");
        push_dec(&mut l, n);
        push_str(&mut l, ")");
        push_line(lines, l);
    }
    assert(views(lines@) =~= start + id_line(label@, v));
}

fn push_opt_str_line(lines: &mut Vec<String>, prefix: &str, value: Option<&str>)
    ensures
        views(final(lines)@) == views(old(lines)@) + opt_line_spec(prefix@, match value {
            Some(t) => Some(t@),
            None => None,
        }),
{
    let ghost start = views(lines@);
    if let Some(t) = value {
        push_line(lines, cat(prefix, t));
    }
    assert(views(lines@) =~= start + opt_line_spec(prefix@, match value {
        Some(t) => Some(t@),
        None => None,
    }));
}

fn join_static(items: &Vec<&'static str>, sep: &str) -> (r: String)
    ensures
        r@ == join_with(items@.map_values(|a: &'static str| a@), sep@),
{
    let mut parts: Vec<String> = Vec::new();
    let mut i: usize = 0;
    while i < items.len()
        invariant
            i <= items@.len(),
            views(parts@) == items@.take(i as int).map_values(|a: &'static str| a@),
        decreases items.len() - i,
    {
        push_line(&mut parts, owned(items[i]));
        assert(items@.take(i + 1).map_values(|a: &'static str| a@) =~= items@.take(i as int).map_values(
            |a: &'static str| a@,
        ).push(items@[i as int]@));
        i = i + 1;
    }
    assert(items@.take(items.len() as int) =~= items@);
    join_strings(&parts, sep)
}

fn push_probe_device_head(lines: &mut Vec<String>, device: &DeviceRecord)
    ensures
        views(final(lines)@) == views(old(lines)@) + probe_device_head(*device),
{
    let ghost start = views(lines@);
    push_opt_str_line(lines, "device.name: ", fact_string(device, "device_name"));
    push_line(lines, cat("device.key: ", device.key.as_str()));
    push_opt_str_line(lines, "device.type: ", fact_string(device, "device_type"));
    push_id_line(lines, "device.vendor_id: ", fact_u64(device, "vendor_id"));
    push_id_line(lines, "device.device_id: ", fact_u64(device, "device_id"));
    assert(views(lines@) =~= start + probe_device_head(*device));
}

fn push_probe_device_mid(lines: &mut Vec<String>, device: &DeviceRecord)
    ensures
        views(final(lines)@) == views(old(lines)@) + probe_device_mid(*device),
{
    let ghost start = views(lines@);
    push_opt_str_line(lines, "device.uuid: ", fact_string(device, "uuid"));
    if let Some(clock) = fact_number(device, "core_clock_mhz") {
        let mut l = owned("device.core_clock_mhz: ");
        push_one_decimal(&mut l, clock);
        push_line(lines, l);
    }
    assert(views(lines@) =~= start + probe_device_mid(*device));
}

fn push_probe_device_tail(lines: &mut Vec<String>, device: &DeviceRecord)
    ensures
        views(final(lines)@) == views(old(lines)@) + probe_device_tail(*device),
{
    let ghost start = views(lines@);
    let facts = &device.facts;
    let mut k: usize = 0;
    while k < facts.len()
        invariant
            k <= facts@.len(),
            facts@ == device.facts@,
            views(lines@) == start + extra_fact_lines(facts@.take(k as int)),
        decreases facts.len() - k,
    {
        assert(facts@.take(k + 1).drop_last() =~= facts@.take(k as int));
        assert(facts@.take(k + 1).last() == facts@[k as int]);
        if !is_base_probe_fact_key(facts[k].metric_key.as_str()) {
            push_line(lines, format_probe_fact_line("device", &facts[k]));
        }
        k = k + 1;
    }
    assert(facts@.take(facts.len() as int) =~= facts@);
    let ghost before_unavailable = views(lines@);
    if device.unavailable.len() > 0 {
        let joined = join_static(&device.unavailable, ", ");
        push_line(lines, cat("unavailable: ", joined.as_str()));
    }
    assert(views(lines@) =~= start + probe_device_tail(*device));
}

fn push_probe_device_lines(lines: &mut Vec<String>, device: &DeviceRecord)
    ensures
        views(final(lines)@) == views(old(lines)@) + probe_device_lines(*device),
{
    let ghost start = views(lines@);
    push_probe_device_head(lines, device);
    push_probe_device_mid(lines, device);
    push_probe_device_tail(lines, device);
    assert(views(lines@) =~= start + probe_device_lines(*device));
}

/// The probe lines of the sample-wide Sysman facts, in order.
pub open spec fn sysman_fact_lines(facts: Seq<IntelFact>) -> Seq<Seq<char>> {
    facts.map_values(|f: IntelFact| probe_fact_line_spec("intel.sysman"@, f))
}

/// The probe blocks of the devices: a blank line and a heading, then the
/// device's probe lines.
pub open spec fn probe_device_blocks(ds: Seq<DeviceRecord>) -> Seq<Seq<char>>
    decreases ds.len(),
{
    if ds.len() == 0 {
        seq![]
    } else {
        probe_device_blocks(ds.drop_last()) + seq![
            Seq::<char>::empty(),
            "[probe] device="@ + dec(ds.last().device_index as nat),
        ] + probe_device_lines(ds.last())
    }
}

/// The counts that an `ok` probe block shows.
pub open spec fn probe_counts(s: ProviderSample) -> Seq<Seq<char>> {
    seq![
        Seq::<char>::empty(),
        "intel.driver_records: "@ + dec(s.driver_record_count as nat),
        "intel.device_records: "@ + dec(s.device_record_count as nat),
        "intel.telemetry_exports_matched: "@ + dec(s.telemetry_exports_matched as nat),
        "intel.sysman_exports_matched: "@ + dec(s.sysman_exports_matched as nat),
        "intel.optional_calls_attempted: "@ + dec(s.optional_calls_attempted as nat),
        "intel.optional_calls.ok: "@ + dec(s.optional_calls_ok as nat),
        "intel.optional_calls.unsupported: "@ + dec(s.optional_calls_unsupported as nat),
        "intel.optional_calls.not_available: "@ + dec(s.optional_calls_not_available as nat),
        "intel.optional_calls.error: "@ + dec(s.optional_calls_error as nat),
    ]
}

/// The first lines of a probe block: the provider and its status.
pub open spec fn probe_header(s: ProviderSample) -> Seq<Seq<char>> {
    seq![
        "[probe] provider=intel_level_zero"@,
        "wtg.version: "@ + s.wtg_version@,
        "provider.authority: "@ + s.provider_authority@,
        "provider.source: "@ + s.provider_source@,
        "telemetry.class: "@ + s.telemetry_class@,
        "provider.status: "@ + s.status@,
    ]
}

/// The probe block of a sample: the provider and its status, then, when it
/// is `ok`, the counts, the Sysman facts and each device; otherwise the
/// reason.
pub open spec fn format_probe_snapshot_spec(s: ProviderSample) -> Seq<char> {
    if s.status@ != "ok"@ {
        join_with(
            probe_header(s) + (if s.errors@.len() > 0 {
                seq!["reason: "@ + s.errors@[0]@]
            } else {
                seq![]
            }),
            "\n"@,
        )
    } else {
        join_with(
            probe_header(s) + probe_counts(s) + sysman_fact_lines(s.sysman_facts@) + probe_device_blocks(
                s.devices@,
            ),
            "\n"@,
        )
    }
}

fn push_count(lines: &mut Vec<String>, label: &str, n: usize)
    ensures
        views(final(lines)@) == views(old(lines)@).push(label@ + dec(n as nat)),
{
    let mut l = owned(label);
    push_dec(&mut l, n as u64);
    push_line(lines, l);
}

fn push_probe_counts(lines: &mut Vec<String>, sample: &ProviderSample)
    ensures
        views(final(lines)@) == views(old(lines)@) + probe_counts(*sample),
{
    let ghost start = views(lines@);
    push_line(lines, String::new());
    push_count(lines, "intel.driver_records: ", sample.driver_record_count);
    push_count(lines, "intel.device_records: ", sample.device_record_count);
    push_count(lines, "intel.telemetry_exports_matched: ", sample.telemetry_exports_matched);
    push_count(lines, "intel.sysman_exports_matched: ", sample.sysman_exports_matched);
    push_count(lines, "intel.optional_calls_attempted: ", sample.optional_calls_attempted);
    push_count(lines, "intel.optional_calls.ok: ", sample.optional_calls_ok);
    push_count(lines, "intel.optional_calls.unsupported: ", sample.optional_calls_unsupported);
    push_count(lines, "intel.optional_calls.not_available: ", sample.optional_calls_not_available);
    push_count(lines, "intel.optional_calls.error: ", sample.optional_calls_error);
    assert(views(lines@) =~= start + probe_counts(*sample));
}

/// The probe block of a sample.
pub fn format_probe_snapshot(sample: &ProviderSample) -> (r: String)
    ensures
        r@ == format_probe_snapshot_spec(*sample),
{
    let mut lines: Vec<String> = Vec::new();
    push_line(&mut lines, owned("[probe] provider=intel_level_zero"));
    push_line(&mut lines, cat("wtg.version: ", sample.wtg_version));
    push_line(&mut lines, cat("provider.authority: ", sample.provider_authority));
    push_line(&mut lines, cat("provider.source: ", sample.provider_source));
    push_line(&mut lines, cat("telemetry.class: ", sample.telemetry_class));
    push_line(&mut lines, cat("provider.status: ", sample.status));
    let ghost head = views(lines@);
    assert(head =~= probe_header(*sample));
    if !str_eq(sample.status, "ok") {
        if sample.errors.len() > 0 {
            push_line(&mut lines, cat("reason: ", sample.errors[0].as_str()));
        }
        assert(views(lines@) =~= head + (if sample.errors@.len() > 0 {
            seq!["reason: "@ + sample.errors@[0]@]
        } else {
            seq![]
        }));
        return join_strings(&lines, "\n");
    }
    push_probe_counts(&mut lines, sample);
    let ghost before_sysman = views(lines@);
    let mut k: usize = 0;
    while k < sample.sysman_facts.len()
        invariant
            k <= sample.sysman_facts@.len(),
            views(lines@) == before_sysman + sysman_fact_lines(sample.sysman_facts@.take(k as int)),
        decreases sample.sysman_facts.len() - k,
    {
        push_line(&mut lines, format_probe_fact_line("intel.sysman", &sample.sysman_facts[k]));
        assert(sysman_fact_lines(sample.sysman_facts@.take(k + 1)) =~= sysman_fact_lines(
            sample.sysman_facts@.take(k as int),
        ).push(probe_fact_line_spec("intel.sysman"@, sample.sysman_facts@[k as int])));
        k = k + 1;
    }
    assert(sample.sysman_facts@.take(sample.sysman_facts.len() as int) =~= sample.sysman_facts@);
    let ghost before_devices = views(lines@);
    let mut i: usize = 0;
    while i < sample.devices.len()
        invariant
            i <= sample.devices@.len(),
            views(lines@) == before_devices + probe_device_blocks(sample.devices@.take(i as int)),
        decreases sample.devices.len() - i,
    {
        assert(sample.devices@.take(i + 1).drop_last() =~= sample.devices@.take(i as int));
        push_line(&mut lines, String::new());
        let d = dec_string(sample.devices[i].device_index as u64);
        push_line(&mut lines, cat("[probe] device=", d.as_str()));
        push_probe_device_lines(&mut lines, &sample.devices[i]);
        assert(views(lines@) =~= before_devices + probe_device_blocks(sample.devices@.take(i + 1)));
        i = i + 1;
    }
    assert(sample.devices@.take(sample.devices.len() as int) =~= sample.devices@);
    assert(views(lines@) =~= probe_header(*sample) + probe_counts(*sample) + sysman_fact_lines(
        sample.sysman_facts@,
    ) + probe_device_blocks(sample.devices@));
    join_strings(&lines, "\n")
}

} // verus!
