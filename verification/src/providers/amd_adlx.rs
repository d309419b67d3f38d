//! The AMD ADLX provider: its identity, the names of ADLX result codes, the
//! record of one sample, how the outcome of its GPUs makes the sample's status
//! and reason, and the text shown for a sample.
use vstd::prelude::*;

pub mod gpu_record;

pub use self::gpu_record::{gpu_record, metric_fact, AdlxGpuIdentity, GpuMetricReadings, GpuMetricsOutcome, MetricReading};

use crate::config::{bool_str, bool_text};
use crate::stats::{wtg_version, wtg_version_spec};
use crate::text::{
    cat, cat3, chars_of, dec, dec_signed, dec_string, dec_string_signed, join_strings, join_with, opt_line,
    opt_string_view, owned, prefixed, push_char, push_line, push_opt_line, push_prefixed_lines, push_str,
    str_eq, views,
};

verus! {

/// The source every ADLX sample names.
pub fn provider_source() -> (r: &'static str)
    ensures
        r@ == "wtg.provider.amd.adlx"@,
{
    "wtg.provider.amd.adlx"
}

/// The telemetry class of ADLX samples.
pub fn telemetry_class() -> (r: &'static str)
    ensures
        r@ == "provider_telemetry"@,
{
    "provider_telemetry"
}

/// The provider name of ADLX samples.
pub fn provider() -> (r: &'static str)
    ensures
        r@ == "amd.adlx"@,
{
    "amd.adlx"
}

/// The authority behind ADLX samples.
pub fn provider_authority() -> (r: &'static str)
    ensures
        r@ == "AMD ADLX"@,
{
    "AMD ADLX"
}

/// The name of an ADLX result code.
pub open spec fn adlx_result_name_spec(code: i32) -> Seq<char> {
    if code == 0 {
        "ADLX_OK"@
    } else if code == 2 {
        "ADLX_ALREADY_INITIALIZED"@
    } else if code == 3 {
        "ADLX_FAIL"@
    } else if code == 8 {
        "ADLX_ADL_INIT_ERROR"@
    } else if code == 9 {
        "ADLX_NOT_FOUND"@
    } else if code == 12 {
        "ADLX_NOT_SUPPORTED"@
    } else if code == 14 {
        "ADLX_GPU_INACTIVE"@
    } else if code == 17 {
        "ADLX_NOT_ACTIVE"@
    } else {
        "ADLX_UNKNOWN_RESULT"@
    }
}

/// The name of an ADLX result code.
pub fn adlx_result_name(code: i32) -> (r: &'static str)
    ensures
        r@ == adlx_result_name_spec(code),
{
    if code == 0 {
        "ADLX_OK"
    } else if code == 2 {
        "ADLX_ALREADY_INITIALIZED"
    } else if code == 3 {
        "ADLX_FAIL"
    } else if code == 8 {
        "ADLX_ADL_INIT_ERROR"
    } else if code == 9 {
        "ADLX_NOT_FOUND"
    } else if code == 12 {
        "ADLX_NOT_SUPPORTED"
    } else if code == 14 {
        "ADLX_GPU_INACTIVE"
    } else if code == 17 {
        "ADLX_NOT_ACTIVE"
    } else {
        "ADLX_UNKNOWN_RESULT"
    }
}

/// The raw value of a metric, as JSON holds it.
pub enum MetricRaw {
    /// No value (`null`).
    Null,
    /// A number: its JSON text, the number itself when it is whole and fits
    /// an `i64`, and its renderings with one and with two decimals.
    Number { json: String, whole: Option<i64>, one_decimal: String, two_decimals: String },
    /// Any other JSON value, as its JSON text.
    Other(String),
}

/// One metric that ADLX was asked for: its key, the function that gave it,
/// its state, its raw value, its unit and the error met.
pub struct MetricFact {
    pub key: &'static str,
    pub source_api: &'static str,
    pub state: &'static str,
    pub raw: MetricRaw,
    pub unit: Option<&'static str>,
    pub error_message: Option<String>,
}

/// What ADLX reported of one GPU.
pub struct AdlxGpuRecord {
    pub gpu_index: usize,
    pub adapter_name: Option<String>,
    pub vendor_id: Option<String>,
    pub device_id: Option<String>,
    pub unique_id: Option<i32>,
    pub total_vram_mb: Option<u32>,
    pub driver_path: Option<String>,
    pub pnp_string: Option<String>,
    pub metrics: Vec<MetricFact>,
    pub errors: Vec<String>,
}

/// One ADLX sample: the provider's identity, how far the runtime got, the
/// GPUs it returned and the errors met.
pub struct ProviderSample {
    pub wtg_version: &'static str,
    pub source: &'static str,
    pub telemetry_class: &'static str,
    pub provider: &'static str,
    pub provider_authority: &'static str,
    pub status: &'static str,
    pub sample_seq: u64,
    pub timestamp_unix_ms: u128,
    pub probe_attempted: bool,
    pub dll_name: Option<String>,
    pub dll_path: Option<String>,
    pub runtime_dll_state: &'static str,
    pub runtime_version: Option<String>,
    pub init_state: &'static str,
    pub adlx_initialized: bool,
    pub devices_returned: Option<usize>,
    pub gpus: Vec<AdlxGpuRecord>,
    pub errors: Vec<String>,
}

/// The status of a sample.
pub fn sample_status(sample: &ProviderSample) -> (r: &'static str)
    ensures
        r == sample.status,
{
    sample.status
}

/// Whether some metric of some GPU is `ok`.
pub open spec fn any_metric_ok(gpus: Seq<AdlxGpuRecord>) -> bool {
    exists|g: int, m: int|
        0 <= g < gpus.len() && 0 <= m < gpus[g].metrics@.len() && gpus[g].metrics@[m].state@
            == "ok"@
}

/// Whether some GPU met an error.
pub open spec fn any_gpu_error(gpus: Seq<AdlxGpuRecord>) -> bool {
    exists|g: int| 0 <= g < gpus.len() && gpus[g].errors@.len() > 0
}

/// The status of a sample: `ok` when any metric is, else `error` when any
/// GPU met an error, else `unavailable`.
pub open spec fn classify_status_spec(gpus: Seq<AdlxGpuRecord>) -> Seq<char> {
    if any_metric_ok(gpus) {
        "ok"@
    } else if any_gpu_error(gpus) {
        "error"@
    } else {
        "unavailable"@
    }
}

fn has_ok_metric(gpu: &AdlxGpuRecord) -> (b: bool)
    ensures
        b == exists|m: int| 0 <= m < gpu.metrics@.len() && gpu.metrics@[m].state@ == "ok"@,
{
    let mut i: usize = 0;
    while i < gpu.metrics.len()
        invariant
            i <= gpu.metrics@.len(),
            forall|m: int| 0 <= m < i ==> gpu.metrics@[m].state@ != "ok"@,
        decreases gpu.metrics.len() - i,
    {
        if str_eq(gpu.metrics[i].state, "ok") {
            return true;
        }
        i = i + 1;
    }
    false
}

/// The status of a sample from what its GPUs gave.
pub fn classify_status(gpus: &[AdlxGpuRecord]) -> (r: &'static str)
    ensures
        r@ == classify_status_spec(gpus@),
{
    let mut i: usize = 0;
    while i < gpus.len()
        invariant
            i <= gpus@.len(),
            forall|g: int, m: int|
                0 <= g < i && 0 <= m < gpus@[g].metrics@.len() ==> gpus@[g].metrics@[m].state@
                    != "ok"@,
        decreases gpus.len() - i,
    {
        if has_ok_metric(&gpus[i]) {
            return "ok";
        }
        i = i + 1;
    }
    let mut j: usize = 0;
    while j < gpus.len()
        invariant
            j <= gpus@.len(),
            !any_metric_ok(gpus@),
            forall|g: int| 0 <= g < j ==> gpus@[g].errors@.len() == 0,
        decreases gpus.len() - j,
    {
        if gpus[j].errors.len() > 0 {
            return "error";
        }
        j = j + 1;
    }
    "unavailable"
}

/// The first error of the first GPU that met one, in order.
pub open spec fn first_gpu_error(gpus: Seq<AdlxGpuRecord>) -> Option<Seq<char>>
    decreases gpus.len(),
{
    if gpus.len() == 0 {
        None
    } else if gpus[0].errors@.len() > 0 {
        Some(gpus[0].errors@[0]@)
    } else {
        first_gpu_error(gpus.drop_first())
    }
}

fn first_error(gpus: &[AdlxGpuRecord]) -> (r: Option<&String>)
    ensures
        match r {
            Some(e) => first_gpu_error(gpus@) == Some(e@),
            None => first_gpu_error(gpus@) is None,
        },
{
    let mut i: usize = 0;
    assert(gpus@.subrange(0, gpus@.len() as int) =~= gpus@);
    while i < gpus.len()
        invariant
            i <= gpus@.len(),
            first_gpu_error(gpus@) == first_gpu_error(gpus@.subrange(i as int, gpus@.len() as int)),
        decreases gpus.len() - i,
    {
        let ghost rest = gpus@.subrange(i as int, gpus@.len() as int);
        assert(rest[0] == gpus@[i as int]);
        if gpus[i].errors.len() > 0 {
            return Some(&gpus[i].errors[0]);
        }
        assert(rest.drop_first() =~= gpus@.subrange(i + 1, gpus@.len() as int));
        i = i + 1;
    }
    None
}

/// The reason given when no GPU exposed a metric: the first error met, or a
/// note that ADLX exposed nothing.
pub open spec fn no_metrics_reason_spec(gpus: Seq<AdlxGpuRecord>) -> Seq<char> {
    match first_gpu_error(gpus) {
        Some(e) => e,
        None => "ADLX did not expose any requested metrics for the detected AMD GPUs."@,
    }
}

/// The reason given when no GPU exposed a metric.
pub fn no_metrics_reason(gpus: &[AdlxGpuRecord]) -> (r: String)
    ensures
        r@ == no_metrics_reason_spec(gpus@),
{
    match first_error(gpus) {
        Some(e) => e.clone(),
        None => owned("ADLX did not expose any requested metrics for the detected AMD GPUs."),
    }
}

/// The main reason shown for a sample: its own first error, else the first
/// error of a GPU, else a note that there is none.
pub open spec fn primary_reason_spec(s: ProviderSample) -> Seq<char> {
    if s.errors@.len() > 0 {
        s.errors@[0]@
    } else {
        match first_gpu_error(s.gpus@) {
            Some(e) => e,
            None => "provider returned no additional details"@,
        }
    }
}

/// The main reason shown for a sample.
pub fn primary_reason(sample: &ProviderSample) -> (r: String)
    ensures
        r@ == primary_reason_spec(*sample),
{
    if sample.errors.len() > 0 {
        sample.errors[0].clone()
    } else {
        match first_error(sample.gpus.as_slice()) {
            Some(e) => e.clone(),
            None => owned("provider returned no additional details"),
        }
    }
}

/// How a status is shown: `available` when it is `ok`, else `unavailable`.
pub open spec fn status_label_spec(status: Seq<char>) -> Seq<char> {
    if status == "ok"@ {
        "available"@
    } else {
        "unavailable"@
    }
}

/// How a sample's status is shown.
pub fn snapshot_status_label(sample: &ProviderSample) -> (r: &'static str)
    ensures
        r@ == status_label_spec(sample.status@),
{
    if str_eq(sample.status, "ok") {
        "available"
    } else {
        "unavailable"
    }
}

/// A metric that ADLX gave.
pub fn fact_ok(key: &'static str, source_api: &'static str, raw: MetricRaw, unit: Option<&'static str>) -> (r:
    MetricFact)
    ensures
        r == (MetricFact { key, source_api, state: "ok", raw, unit, error_message: None }),
{
    MetricFact { key, source_api, state: "ok", raw, unit, error_message: None }
}

/// A metric that the GPU does not support.
pub fn fact_unsupported(key: &'static str, source_api: &'static str, unit: Option<&'static str>) -> (r:
    MetricFact)
    ensures
        r == (MetricFact {
            key,
            source_api,
            state: "unsupported",
            raw: MetricRaw::Null,
            unit,
            error_message: None,
        }),
{
    MetricFact { key, source_api, state: "unsupported", raw: MetricRaw::Null, unit, error_message: None }
}

/// A metric that ADLX did not give, with the reason.
pub fn fact_not_available(
    key: &'static str,
    source_api: &'static str,
    unit: Option<&'static str>,
    error_message: String,
) -> (r: MetricFact)
    ensures
        r == (MetricFact {
            key,
            source_api,
            state: "not_available",
            raw: MetricRaw::Null,
            unit,
            error_message: Some(error_message),
        }),
{
    MetricFact {
        key,
        source_api,
        state: "not_available",
        raw: MetricRaw::Null,
        unit,
        error_message: Some(error_message),
    }
}

/// A metric whose call failed, with the error.
pub fn fact_error(key: &'static str, source_api: &'static str, unit: Option<&'static str>, error_message: String) -> (r:
    MetricFact)
    ensures
        r == (MetricFact {
            key,
            source_api,
            state: "error",
            raw: MetricRaw::Null,
            unit,
            error_message: Some(error_message),
        }),
{
    MetricFact { key, source_api, state: "error", raw: MetricRaw::Null, unit, error_message: Some(error_message) }
}

/// Whether a sample is one with no GPUs, in the given status, from this
/// provider and this version, with the given reason as its only error.
pub open spec fn is_failed_sample(
    r: ProviderSample,
    status: Seq<char>,
    sample_seq: u64,
    timestamp_unix_ms: u128,
    probe_attempted: bool,
    dll_name: Option<String>,
    dll_path: Option<String>,
    runtime_dll_state: &'static str,
    runtime_version: Option<String>,
    init_state: &'static str,
    devices_returned: Option<usize>,
    reason: Seq<char>,
) -> bool {
    &&& r.wtg_version@ == wtg_version_spec()
    &&& r.source@ == "wtg.provider.amd.adlx"@
    &&& r.telemetry_class@ == "provider_telemetry"@
    &&& r.provider@ == "amd.adlx"@
    &&& r.provider_authority@ == "AMD ADLX"@
    &&& r.status@ == status
    &&& r.sample_seq == sample_seq
    &&& r.timestamp_unix_ms == timestamp_unix_ms
    &&& r.probe_attempted == probe_attempted
    &&& r.dll_name == dll_name
    &&& r.dll_path == dll_path
    &&& r.runtime_dll_state == runtime_dll_state
    &&& r.runtime_version == runtime_version
    &&& r.init_state == init_state
    &&& !r.adlx_initialized
    &&& r.devices_returned == devices_returned
    &&& r.gpus@.len() == 0
    &&& r.errors@.len() == 1
    &&& r.errors@[0]@ == reason
}

/// The state and error of a metric whose support check failed or said no,
/// or nothing when the metric is supported and is to be read.
pub open spec fn support_fact_spec(support_result: i32, supported: bool) -> Option<(Seq<char>, Option<Seq<char>>)> {
    if support_result != 0 {
        Some(("error"@, Some("support check failed: "@ + adlx_result_name_spec(support_result))))
    } else if !supported {
        Some(("unsupported"@, None))
    } else {
        None
    }
}

/// The fact of a metric from its support check: an `error` fact when the
/// check failed, an `unsupported` fact when the GPU does not support it, and
/// nothing when the metric is to be read.
pub fn support_fact(
    key: &'static str,
    source_api: &'static str,
    unit: Option<&'static str>,
    support_result: i32,
    supported: bool,
) -> (r: Option<MetricFact>)
    ensures
        match r {
            Some(f) => {
                &&& f.key == key && f.source_api == source_api && f.unit == unit
                &&& f.raw == MetricRaw::Null
                &&& support_fact_spec(support_result, supported) == Some(
                    (
                        f.state@,
                        match f.error_message {
                            Some(e) => Some(e@),
                            None => None,
                        },
                    ),
                )
            },
            None => support_fact_spec(support_result, supported) is None,
        },
{
    if support_result != 0 {
        let msg = cat("support check failed: ", adlx_result_name(support_result));
        return Some(fact_error(key, source_api, unit, msg));
    }
    if !supported {
        return Some(fact_unsupported(key, source_api, unit));
    }
    None
}

/// The fact of a supported metric from its read: `ok` with the value when
/// the read succeeded, else `not_available` with the failing code's name.
pub fn read_fact(
    key: &'static str,
    source_api: &'static str,
    unit: Option<&'static str>,
    result: i32,
    value: MetricRaw,
) -> (r: MetricFact)
    ensures
        r.key == key && r.source_api == source_api && r.unit == unit,
        result == 0 ==> r.state@ == "ok"@ && r.raw == value && r.error_message is None,
        result != 0 ==> r.state@ == "not_available"@ && r.raw == MetricRaw::Null && (r.error_message matches Some(
            e,
        ) && e@ == "metric read failed: "@ + adlx_result_name_spec(result)),
{
    if result != 0 {
        let msg = cat("metric read failed: ", adlx_result_name(result));
        fact_not_available(key, source_api, unit, msg)
    } else {
        fact_ok(key, source_api, value, unit)
    }
}

/// A sample with no GPUs, in the given status, with one reason.
fn failed_sample(
    status: &'static str,
    sample_seq: u64,
    timestamp_unix_ms: u128,
    probe_attempted: bool,
    dll_name: Option<String>,
    dll_path: Option<String>,
    runtime_dll_state: &'static str,
    runtime_version: Option<String>,
    init_state: &'static str,
    devices_returned: Option<usize>,
    reason: String,
) -> (r: ProviderSample)
    ensures
        is_failed_sample(
            r,
            status@,
            sample_seq,
            timestamp_unix_ms,
            probe_attempted,
            dll_name,
            dll_path,
            runtime_dll_state,
            runtime_version,
            init_state,
            devices_returned,
            reason@,
        ),
{
    let mut errors: Vec<String> = Vec::new();
    errors.push(reason);
    ProviderSample {
        wtg_version: wtg_version(),
        source: provider_source(),
        telemetry_class: telemetry_class(),
        provider: provider(),
        provider_authority: provider_authority(),
        status,
        sample_seq,
        timestamp_unix_ms,
        probe_attempted,
        dll_name,
        dll_path,
        runtime_dll_state,
        runtime_version,
        init_state,
        adlx_initialized: false,
        devices_returned,
        gpus: Vec::new(),
        errors,
    }
}

/// A sample in which ADLX was not there to ask, with the reason.
pub fn unavailable_sample(
    sample_seq: u64,
    timestamp_unix_ms: u128,
    probe_attempted: bool,
    dll_name: Option<String>,
    dll_path: Option<String>,
    runtime_dll_state: &'static str,
    runtime_version: Option<String>,
    init_state: &'static str,
    devices_returned: Option<usize>,
    reason: String,
) -> (r: ProviderSample)
    ensures
        is_failed_sample(
            r,
            "unavailable"@,
            sample_seq,
            timestamp_unix_ms,
            probe_attempted,
            dll_name,
            dll_path,
            runtime_dll_state,
            runtime_version,
            init_state,
            devices_returned,
            reason@,
        ),
{
    failed_sample(
        "unavailable",
        sample_seq,
        timestamp_unix_ms,
        probe_attempted,
        dll_name,
        dll_path,
        runtime_dll_state,
        runtime_version,
        init_state,
        devices_returned,
        reason,
    )
}

/// A sample in which asking ADLX failed, with the error.
pub fn error_sample(
    sample_seq: u64,
    timestamp_unix_ms: u128,
    probe_attempted: bool,
    dll_name: Option<String>,
    dll_path: Option<String>,
    runtime_dll_state: &'static str,
    runtime_version: Option<String>,
    init_state: &'static str,
    devices_returned: Option<usize>,
    reason: String,
) -> (r: ProviderSample)
    ensures
        is_failed_sample(
            r,
            "error"@,
            sample_seq,
            timestamp_unix_ms,
            probe_attempted,
            dll_name,
            dll_path,
            runtime_dll_state,
            runtime_version,
            init_state,
            devices_returned,
            reason@,
        ),
{
    failed_sample(
        "error",
        sample_seq,
        timestamp_unix_ms,
        probe_attempted,
        dll_name,
        dll_path,
        runtime_dll_state,
        runtime_version,
        init_state,
        devices_returned,
        reason,
    )
}

/// How a metric's value is shown: with one or two decimals, or as a whole
/// number, followed by a unit.
pub enum MetricDisplay {
    Float1(&'static str),
    Float2(&'static str),
    Int(&'static str),
}

/// The first metric with the given key.
pub open spec fn first_metric(metrics: Seq<MetricFact>, key: Seq<char>) -> Option<MetricFact>
    decreases metrics.len(),
{
    if metrics.len() == 0 {
        None
    } else if metrics[0].key@ == key {
        Some(metrics[0])
    } else {
        first_metric(metrics.drop_first(), key)
    }
}

/// The first metric with the given key whose state is `ok`.
pub open spec fn first_ok_metric(metrics: Seq<MetricFact>, key: Seq<char>) -> Option<MetricFact>
    decreases metrics.len(),
{
    if metrics.len() == 0 {
        None
    } else if metrics[0].key@ == key && metrics[0].state@ == "ok"@ {
        Some(metrics[0])
    } else {
        first_ok_metric(metrics.drop_first(), key)
    }
}

fn find_metric<'a>(metrics: &'a Vec<MetricFact>, key: &str, ok_only: bool) -> (r: Option<&'a MetricFact>)
    ensures
        ok_only ==> match r {
            Some(m) => first_ok_metric(metrics@, key@) == Some(*m),
            None => first_ok_metric(metrics@, key@) is None,
        },
        !ok_only ==> match r {
            Some(m) => first_metric(metrics@, key@) == Some(*m),
            None => first_metric(metrics@, key@) is None,
        },
{
    let mut i: usize = 0;
    assert(metrics@.subrange(0, metrics@.len() as int) =~= metrics@);
    while i < metrics.len()
        invariant
            i <= metrics@.len(),
            !ok_only ==> first_metric(metrics@, key@) == first_metric(
                metrics@.subrange(i as int, metrics@.len() as int),
                key@,
            ),
            ok_only ==> first_ok_metric(metrics@, key@) == first_ok_metric(
                metrics@.subrange(i as int, metrics@.len() as int),
                key@,
            ),
        decreases metrics.len() - i,
    {
        let ghost rest = metrics@.subrange(i as int, metrics@.len() as int);
        assert(rest[0] == metrics@[i as int]);
        let m = &metrics[i];
        if str_eq(m.key, key) && (!ok_only || str_eq(m.state, "ok")) {
            return Some(m);
        }
        assert(rest.drop_first() =~= metrics@.subrange(i + 1, metrics@.len() as int));
        i = i + 1;
    }
    None
}

/// A metric's value shown as asked, when it has one of that kind.
pub open spec fn render_metric_spec(raw: MetricRaw, display: MetricDisplay) -> Option<Seq<char>> {
    match display {
        MetricDisplay::Float1(suffix) => match raw {
            MetricRaw::Number { one_decimal, .. } => Some(one_decimal@ + suffix@),
            _ => None,
        },
        MetricDisplay::Float2(suffix) => match raw {
            MetricRaw::Number { two_decimals, .. } => Some(two_decimals@ + suffix@),
            _ => None,
        },
        MetricDisplay::Int(suffix) => match raw {
            MetricRaw::Number { whole: Some(v), .. } => Some(dec_signed(v as int) + suffix@),
            _ => None,
        },
    }
}

/// A metric's value shown as asked.
pub fn render_metric(metric: &MetricFact, display: &MetricDisplay) -> (r: Option<String>)
    ensures
        r matches Some(t) ==> render_metric_spec(metric.raw, *display) == Some(t@),
        r is None ==> render_metric_spec(metric.raw, *display) is None,
{
    match (display, &metric.raw) {
        (MetricDisplay::Float1(suffix), MetricRaw::Number { one_decimal, .. }) => Some(
            cat(one_decimal.as_str(), suffix),
        ),
        (MetricDisplay::Float2(suffix), MetricRaw::Number { two_decimals, .. }) => Some(
            cat(two_decimals.as_str(), suffix),
        ),
        (MetricDisplay::Int(suffix), MetricRaw::Number { whole: Some(v), .. }) => {
            let d = dec_string_signed(*v);
            Some(cat(d.as_str(), suffix))
        },
        _ => None,
    }
}

/// The whole value of the first `ok` metric with the given key, cut to 32
/// bits.
pub open spec fn metric_i32_spec(metrics: Seq<MetricFact>, key: Seq<char>) -> Option<i32> {
    match first_ok_metric(metrics, key) {
        Some(m) => match m.raw {
            MetricRaw::Number { whole: Some(v), .. } => Some(v as i32),
            _ => None,
        },
        None => None,
    }
}

/// The whole value of the first `ok` metric of a GPU with the given key.
pub fn metric_i32(gpu: &AdlxGpuRecord, key: &str) -> (r: Option<i32>)
    ensures
        r == metric_i32_spec(gpu.metrics@, key@),
{
    match find_metric(&gpu.metrics, key, true) {
        Some(m) => match &m.raw {
            MetricRaw::Number { whole: Some(v), .. } => Some(*v as i32),
            _ => None,
        },
        None => None,
    }
}

/// The message of a metric, or a default.
pub open spec fn message_or(m: Option<String>, default: Seq<char>) -> Seq<char> {
    match m {
        Some(e) => e@,
        None => default,
    }
}

/// The line shown for the first metric with the given key: its value when
/// it is `ok` and has one, the reason when it is `not_available` or `error`,
/// and nothing otherwise.
#[verifier::opaque]
pub open spec fn metric_line_spec(metrics: Seq<MetricFact>, key: Seq<char>, label: Seq<char>, display: MetricDisplay) -> Seq<
    Seq<char>,
> {
    match first_metric(metrics, key) {
        None => seq![],
        Some(m) => if m.state@ == "ok"@ {
            match render_metric_spec(m.raw, display) {
                Some(t) => seq!["  "@ + label + ": "@ + t],
                None => seq![],
            }
        } else if m.state@ == "not_available"@ {
            seq![
                "  "@ + label + ": unavailable, "@ + message_or(
                    m.error_message,
                    "provider did not return a value"@,
                ),
            ]
        } else if m.state@ == "error"@ {
            seq!["  "@ + label + ": unavailable, "@ + message_or(m.error_message, "provider call failed"@)]
        } else {
            seq![]
        },
    }
}

fn push_metric_line(lines: &mut Vec<String>, gpu: &AdlxGpuRecord, key: &str, label: &str, display: MetricDisplay)
    ensures
        views(final(lines)@) == views(old(lines)@) + metric_line_spec(gpu.metrics@, key@, label@, display),
{
    let ghost start = views(lines@);
    reveal(metric_line_spec);
    if let Some(metric) = find_metric(&gpu.metrics, key, false) {
        if str_eq(metric.state, "ok") {
            if let Some(rendered) = render_metric(metric, &display) {
                let mut l = cat3("  ", label, ": ");
                push_str(&mut l, rendered.as_str());
                push_line(lines, l);
            }
        } else if str_eq(metric.state, "not_available") {
            let mut l = cat3("  ", label, ": unavailable, ");
            match &metric.error_message {
                Some(e) => push_str(&mut l, e.as_str()),
                None => push_str(&mut l, "provider did not return a value"),
            }
            push_line(lines, l);
        } else if str_eq(metric.state, "error") {
            let mut l = cat3("  ", label, ": unavailable, ");
            match &metric.error_message {
                Some(e) => push_str(&mut l, e.as_str()),
                None => push_str(&mut l, "provider call failed"),
            }
            push_line(lines, l);
        }
    }
    assert(views(lines@) =~= start + metric_line_spec(gpu.metrics@, key@, label@, display));
}

/// The memory line of a GPU: used and total VRAM when both are known, the
/// total alone when only it is.
pub open spec fn memory_lines(gpu: AdlxGpuRecord) -> Seq<Seq<char>> {
    match gpu.total_vram_mb {
        Some(t) => match metric_i32_spec(gpu.metrics@, "gpu_vram_used_mb"@) {
            Some(u) => seq!["  Memory: "@ + dec_signed(u as int) + " MiB / "@ + dec(t as nat) + " MiB"@],
            None => seq!["  Total VRAM: "@ + dec(t as nat) + " MiB"@],
        },
        None => seq![],
    }
}

/// The lines that name a GPU: its index and name, its unique ID, its PCI IDs
/// and the runtime.
pub open spec fn gpu_identity_lines(runtime_version: Option<String>, gpu: AdlxGpuRecord) -> Seq<Seq<char>> {
    seq!["AMD ADLX device "@ + dec(gpu.gpu_index as nat) + ": "@ + message_or(gpu.adapter_name, "(unnamed AMD GPU)"@)]
        + (match gpu.unique_id {
        Some(u) => seq!["  Unique ID: "@ + dec_signed(u as int)],
        None => seq![],
    }) + (match (gpu.vendor_id, gpu.device_id) {
        (Some(v), Some(d)) => seq!["  PCI IDs: vendor="@ + v@ + ", device="@ + d@],
        _ => seq![],
    }) + seq!["  Runtime: initialized ("@ + message_or(runtime_version, "version unavailable"@) + ")"@]
}

/// The lines of the metrics of a GPU, in the order they are shown.
pub open spec fn gpu_metric_lines(gpu: AdlxGpuRecord) -> Seq<Seq<char>> {
    let m = gpu.metrics@;
    metric_line_spec(m, "gpu_activity_pct"@, "GPU activity"@, MetricDisplay::Float2("%"))
        + metric_line_spec(m, "gpu_clock_mhz"@, "GPU/core clock"@, MetricDisplay::Int("MHz"))
        + metric_line_spec(m, "memory_clock_mhz"@, "Memory clock"@, MetricDisplay::Int("MHz"))
        + metric_line_spec(m, "gpu_temperature_c"@, "GPU temperature"@, MetricDisplay::Float1(" C"))
        + metric_line_spec(m, "gpu_power_w"@, "GPU power"@, MetricDisplay::Float1(" W"))
        + metric_line_spec(m, "gpu_total_board_power_w"@, "Board power"@, MetricDisplay::Float1(" W"))
        + metric_line_spec(m, "gpu_fan_speed_rpm"@, "Fan speed"@, MetricDisplay::Int(" RPM"))
}

/// The lines shown for one GPU.
pub open spec fn gpu_lines(runtime_version: Option<String>, gpu: AdlxGpuRecord) -> Seq<Seq<char>> {
    gpu_identity_lines(runtime_version, gpu) + memory_lines(gpu) + gpu_metric_lines(gpu) + (if gpu.errors@.len()
        > 0 {
        seq!["  Metrics: unavailable, "@ + gpu.errors@[0]@]
    } else {
        seq![]
    })
}

fn push_gpu_identity_lines(lines: &mut Vec<String>, sample: &ProviderSample, gpu: &AdlxGpuRecord)
    ensures
        views(final(lines)@) == views(old(lines)@) + gpu_identity_lines(sample.runtime_version, *gpu),
{
    let ghost start = views(lines@);
    let idx = dec_string(gpu.gpu_index as u64);
    let mut l = cat3("AMD ADLX device ", idx.as_str(), ": ");
    match &gpu.adapter_name {
        Some(n) => push_str(&mut l, n.as_str()),
        None => push_str(&mut l, "(unnamed AMD GPU)"),
    }
    push_line(lines, l);
    if let Some(unique_id) = gpu.unique_id {
        let u = dec_string_signed(unique_id as i64);
        push_line(lines, cat("  Unique ID: ", u.as_str()));
    }
    if let Some(vendor_id) = &gpu.vendor_id {
        if let Some(device_id) = &gpu.device_id {
            let mut l = cat3("  PCI IDs: vendor=", vendor_id.as_str(), ", device=");
            push_str(&mut l, device_id.as_str());
            push_line(lines, l);
        }
    }
    let mut l = owned("  Runtime: initialized (");
    match &sample.runtime_version {
        Some(v) => push_str(&mut l, v.as_str()),
        None => push_str(&mut l, "version unavailable"),
    }
    push_str(&mut l, ")");
    push_line(lines, l);
    assert(views(lines@) =~= start + gpu_identity_lines(sample.runtime_version, *gpu));
}

fn push_memory_line(lines: &mut Vec<String>, gpu: &AdlxGpuRecord)
    ensures
        views(final(lines)@) == views(old(lines)@) + memory_lines(*gpu),
{
    let ghost start = views(lines@);
    if let Some(total_vram_mb) = gpu.total_vram_mb {
        let t = dec_string(total_vram_mb as u64);
        if let Some(vram_used_mb) = metric_i32(gpu, "gpu_vram_used_mb") {
            let u = dec_string_signed(vram_used_mb as i64);
            let mut l = cat3("  Memory: ", u.as_str(), " MiB / ");
            push_str(&mut l, t.as_str());
            push_str(&mut l, " MiB");
            push_line(lines, l);
        } else {
            push_line(lines, cat3("  Total VRAM: ", t.as_str(), " MiB"));
        }
    }
    assert(views(lines@) =~= start + memory_lines(*gpu));
}

/// Appends the lines shown for one GPU.
fn push_gpu_snapshot_lines(lines: &mut Vec<String>, sample: &ProviderSample, gpu: &AdlxGpuRecord)
    ensures
        views(final(lines)@) == views(old(lines)@) + gpu_lines(sample.runtime_version, *gpu),
{
    let ghost start = views(lines@);
    push_gpu_identity_lines(lines, sample, gpu);
    push_memory_line(lines, gpu);
    let ghost before_metrics = views(lines@);
    push_metric_line(lines, gpu, "gpu_activity_pct", "GPU activity", MetricDisplay::Float2("%"));
    push_metric_line(lines, gpu, "gpu_clock_mhz", "GPU/core clock", MetricDisplay::Int("MHz"));
    push_metric_line(lines, gpu, "memory_clock_mhz", "Memory clock", MetricDisplay::Int("MHz"));
    push_metric_line(lines, gpu, "gpu_temperature_c", "GPU temperature", MetricDisplay::Float1(" C"));
    push_metric_line(lines, gpu, "gpu_power_w", "GPU power", MetricDisplay::Float1(" W"));
    push_metric_line(lines, gpu, "gpu_total_board_power_w", "Board power", MetricDisplay::Float1(" W"));
    push_metric_line(lines, gpu, "gpu_fan_speed_rpm", "Fan speed", MetricDisplay::Int(" RPM"));
    assert(views(lines@) =~= before_metrics + gpu_metric_lines(*gpu));
    if gpu.errors.len() > 0 {
        push_line(lines, cat("  Metrics: unavailable, ", gpu.errors[0].as_str()));
    }
    assert(views(lines@) =~= start + gpu_lines(sample.runtime_version, *gpu));
}

/// Each GPU's lines after a blank line, in order.
pub open spec fn gpu_blocks(runtime_version: Option<String>, gpus: Seq<AdlxGpuRecord>) -> Seq<Seq<char>>
    decreases gpus.len(),
{
    if gpus.len() == 0 {
        seq![]
    } else {
        gpu_blocks(runtime_version, gpus.drop_last()) + seq![Seq::<char>::empty()] + gpu_lines(
            runtime_version,
            gpus.last(),
        )
    }
}

fn push_gpu_blocks(lines: &mut Vec<String>, sample: &ProviderSample)
    ensures
        views(final(lines)@) == views(old(lines)@) + gpu_blocks(sample.runtime_version, sample.gpus@),
{
    let ghost start = views(lines@);
    let mut i: usize = 0;
    while i < sample.gpus.len()
        invariant
            i <= sample.gpus@.len(),
            views(lines@) == start + gpu_blocks(sample.runtime_version, sample.gpus@.take(i as int)),
        decreases sample.gpus.len() - i,
    {
        push_line(lines, String::new());
        push_gpu_snapshot_lines(lines, sample, &sample.gpus[i]);
        assert(sample.gpus@.take(i + 1).drop_last() =~= sample.gpus@.take(i as int));
        assert(views(lines@) =~= start + gpu_blocks(sample.runtime_version, sample.gpus@.take(i + 1)));
        i = i + 1;
    }
    assert(sample.gpus@.take(sample.gpus.len() as int) =~= sample.gpus@);
}

/// A count, or `unknown`.
pub open spec fn count_text(count: Option<usize>) -> Seq<char> {
    match count {
        Some(n) => dec(n as nat),
        None => "unknown"@,
    }
}

fn count_string(count: Option<usize>) -> (r: String)
    ensures
        r@ == count_text(count),
{
    match count {
        Some(n) => dec_string(n as u64),
        None => owned("unknown"),
    }
}

/// The first lines of the snapshot block: whether the provider was probed,
/// its status, how far the runtime got and how many devices it returned.
pub open spec fn snapshot_header(s: ProviderSample) -> Seq<Seq<char>> {
    seq![
        "ADLX Provider:"@,
        "  Probe attempted: "@ + (if s.probe_attempted {
            "yes"@
        } else {
            "no"@
        }),
        "  Status: "@ + status_label_spec(s.status@),
        "  Runtime/DLL: "@ + s.runtime_dll_state@,
        "  Init: "@ + s.init_state@,
        "  Devices returned: "@ + count_text(s.devices_returned),
    ]
}

/// The snapshot block of a sample. An unavailable sample shows its reason
/// after the header; an available one shows its GPUs, or the reason when it
/// has none.
pub open spec fn format_snapshot_spec(s: ProviderSample) -> Seq<char> {
    let head = snapshot_header(s);
    let reason = "  Reason: "@ + primary_reason_spec(s);
    if status_label_spec(s.status@) == "unavailable"@ {
        join_with(head.push(reason), "\n"@)
    } else {
        let body = head + gpu_blocks(s.runtime_version, s.gpus@);
        if body.len() == 6 {
            join_with(body.push(reason), "\n"@)
        } else {
            join_with(body, "\n"@)
        }
    }
}

/// The snapshot block of a sample.
pub fn format_snapshot(sample: &ProviderSample) -> (r: String)
    ensures
        r@ == format_snapshot_spec(*sample),
{
    let reason = primary_reason(sample);
    let mut lines: Vec<String> = Vec::new();
    push_line(&mut lines, owned("ADLX Provider:"));
    push_line(
        &mut lines,
        cat(
            "  Probe attempted: ",
            if sample.probe_attempted {
                "yes"
            } else {
                "no"
            },
        ),
    );
    let label = snapshot_status_label(sample);
    push_line(&mut lines, cat("  Status: ", label));
    push_line(&mut lines, cat("  Runtime/DLL: ", sample.runtime_dll_state));
    push_line(&mut lines, cat("  Init: ", sample.init_state));
    let count = count_string(sample.devices_returned);
    push_line(&mut lines, cat("  Devices returned: ", count.as_str()));
    assert(views(lines@) =~= snapshot_header(*sample));
    if str_eq(label, "unavailable") {
        push_line(&mut lines, cat("  Reason: ", reason.as_str()));
        return join_strings(&lines, "\n");
    }
    push_gpu_blocks(&mut lines, sample);
    if lines.len() == 6 {
        push_line(&mut lines, cat("  Reason: ", reason.as_str()));
        join_strings(&lines, "\n")
    } else {
        join_strings(&lines, "\n")
    }
}

/// The watch block of a sample: its sequence number and, when it is `ok`,
/// its GPUs; otherwise its status and reason.
pub open spec fn format_watch_sample_spec(s: ProviderSample) -> Seq<char> {
    if s.status@ == "ok"@ {
        join_with(seq!["sample_seq: "@ + dec(s.sample_seq as nat)] + gpu_blocks(s.runtime_version, s.gpus@), "\n"@)
    } else {
        "sample_seq: "@ + dec(s.sample_seq as nat) + "\nProvider status: "@ + s.status@ + "\nReason: "@
            + primary_reason_spec(s)
    }
}

/// The watch block of a sample.
pub fn format_watch_sample(sample: &ProviderSample) -> (r: String)
    ensures
        r@ == format_watch_sample_spec(*sample),
{
    let reason = primary_reason(sample);
    let seq_text = dec_string(sample.sample_seq);
    if str_eq(sample.status, "ok") {
        let mut lines: Vec<String> = Vec::new();
        push_line(&mut lines, cat("sample_seq: ", seq_text.as_str()));
        push_gpu_blocks(&mut lines, sample);
        assert(views(lines@) =~= seq!["sample_seq: "@ + dec(sample.sample_seq as nat)] + gpu_blocks(
            sample.runtime_version,
            sample.gpus@,
        ));
        join_strings(&lines, "\n")
    } else {
        let mut r = cat3("sample_seq: ", seq_text.as_str(), "\nProvider status: ");
        push_str(&mut r, sample.status);
        push_str(&mut r, "\nReason: ");
        push_str(&mut r, reason.as_str());
        assert(r@ =~= format_watch_sample_spec(*sample));
        r
    }
}

/// A key with each `.` made `_`.
pub open spec fn underscored(key: Seq<char>) -> Seq<char> {
    key.map_values(|c: char| if c == '.' { '_' } else { c })
}

fn underscore_dots(key: &str) -> (r: String)
    ensures
        r@ == underscored(key@),
{
    let cs = chars_of(key);
    let mut r = String::new();
    let mut i: usize = 0;
    while i < cs.len()
        invariant
            cs@ == key@,
            i <= cs.len(),
            r@ == underscored(key@.take(i as int)),
        decreases cs.len() - i,
    {
        let c = cs[i];
        push_char(&mut r, if c == '.' { '_' } else { c });
        assert(underscored(key@.take(i + 1)) =~= underscored(key@.take(i as int)).push(
            if c == '.' { '_' } else { c },
        ));
        i = i + 1;
    }
    assert(key@.take(cs.len() as int) =~= key@);
    r
}

/// The JSON text of a raw value that is not `null`.
pub open spec fn raw_json_text(raw: MetricRaw) -> Option<Seq<char>> {
    match raw {
        MetricRaw::Null => None,
        MetricRaw::Number { json, .. } => Some(json@),
        MetricRaw::Other(t) => Some(t@),
    }
}

/// A static text, when there is one.
pub open spec fn opt_static_view(v: Option<&'static str>) -> Option<Seq<char>> {
    match v {
        Some(t) => Some(t@),
        None => None,
    }
}

/// The probe lines of one metric: its state and function, then its raw
/// value, unit and error when it has them, each under its key with `.` made
/// `_`.
pub open spec fn metric_probe_lines(m: MetricFact) -> Seq<Seq<char>> {
    let k = underscored(m.key@);
    seq![k + ".state: "@ + m.state@, k + ".source_api: "@ + m.source_api@] + opt_line(
        k + ".raw: "@,
        raw_json_text(m.raw),
    ) + opt_line(k + ".unit: "@, opt_static_view(m.unit)) + opt_line(
        k + ".error: "@,
        opt_string_view(m.error_message),
    )
}

/// The probe lines of the metrics, in order.
pub open spec fn metrics_probe_lines(ms: Seq<MetricFact>) -> Seq<Seq<char>>
    decreases ms.len(),
{
    if ms.len() == 0 {
        seq![]
    } else {
        metrics_probe_lines(ms.drop_last()) + metric_probe_lines(ms.last())
    }
}

fn push_metric_probe_lines(lines: &mut Vec<String>, m: &MetricFact)
    ensures
        views(final(lines)@) == views(old(lines)@) + metric_probe_lines(*m),
{
    let ghost start = views(lines@);
    let k = underscore_dots(m.key);
    push_line(lines, cat3(k.as_str(), ".state: ", m.state));
    push_line(lines, cat3(k.as_str(), ".source_api: ", m.source_api));
    match &m.raw {
        MetricRaw::Null => {},
        MetricRaw::Number { json, .. } => push_line(lines, cat3(k.as_str(), ".raw: ", json.as_str())),
        MetricRaw::Other(t) => push_line(lines, cat3(k.as_str(), ".raw: ", t.as_str())),
    }
    if let Some(unit) = m.unit {
        push_line(lines, cat3(k.as_str(), ".unit: ", unit));
    }
    if let Some(e) = &m.error_message {
        push_line(lines, cat3(k.as_str(), ".error: ", e.as_str()));
    }
    assert(views(lines@) =~= start + metric_probe_lines(*m));
}

/// A number's decimal text, when there is one.
pub open spec fn opt_dec(v: Option<u32>) -> Option<Seq<char>> {
    match v {
        Some(n) => Some(dec(n as nat)),
        None => None,
    }
}

/// A signed number's decimal text, when there is one.
pub open spec fn opt_dec_signed(v: Option<i32>) -> Option<Seq<char>> {
    match v {
        Some(n) => Some(dec_signed(n as int)),
        None => None,
    }
}

/// The first lines of the probe block of one GPU: a blank line, its
/// heading and what ADLX said of it.
pub open spec fn gpu_probe_head(g: AdlxGpuRecord) -> Seq<Seq<char>> {
    seq![Seq::<char>::empty(), "[probe] amd_adlx_gpu="@ + dec(g.gpu_index as nat)] + opt_line(
        "gpu.name: "@,
        opt_string_view(g.adapter_name),
    ) + opt_line("gpu.vendor_id: "@, opt_string_view(g.vendor_id)) + opt_line(
        "gpu.device_id: "@,
        opt_string_view(g.device_id),
    ) + opt_line("gpu.unique_id: "@, opt_dec_signed(g.unique_id)) + opt_line(
        "gpu.total_vram_mb: "@,
        opt_dec(g.total_vram_mb),
    ) + opt_line("gpu.driver_path: "@, opt_string_view(g.driver_path)) + opt_line(
        "gpu.pnp_string: "@,
        opt_string_view(g.pnp_string),
    )
}

/// The probe block of one GPU: its first lines, its metrics and its errors.
pub open spec fn gpu_probe_lines(g: AdlxGpuRecord) -> Seq<Seq<char>> {
    gpu_probe_head(g) + metrics_probe_lines(g.metrics@) + prefixed("gpu.error: "@, views(g.errors@))
}

/// The probe blocks of the GPUs, in order.
pub open spec fn gpus_probe_lines(gpus: Seq<AdlxGpuRecord>) -> Seq<Seq<char>>
    decreases gpus.len(),
{
    if gpus.len() == 0 {
        seq![]
    } else {
        gpus_probe_lines(gpus.drop_last()) + gpu_probe_lines(gpus.last())
    }
}

fn push_opt_number_lines(lines: &mut Vec<String>, g: &AdlxGpuRecord)
    ensures
        views(final(lines)@) == views(old(lines)@) + opt_line("gpu.unique_id: "@, opt_dec_signed(g.unique_id))
            + opt_line("gpu.total_vram_mb: "@, opt_dec(g.total_vram_mb)),
{
    let ghost start = views(lines@);
    if let Some(unique_id) = g.unique_id {
        let u = dec_string_signed(unique_id as i64);
        push_line(lines, cat("gpu.unique_id: ", u.as_str()));
    }
    let ghost mid = views(lines@);
    assert(mid =~= start + opt_line("gpu.unique_id: "@, opt_dec_signed(g.unique_id)));
    if let Some(total_vram_mb) = g.total_vram_mb {
        let t = dec_string(total_vram_mb as u64);
        push_line(lines, cat("gpu.total_vram_mb: ", t.as_str()));
    }
    assert(views(lines@) =~= mid + opt_line("gpu.total_vram_mb: "@, opt_dec(g.total_vram_mb)));
}

fn push_gpu_probe_head(lines: &mut Vec<String>, g: &AdlxGpuRecord)
    ensures
        views(final(lines)@) == views(old(lines)@) + gpu_probe_head(*g),
{
    let ghost start = views(lines@);
    push_line(lines, String::new());
    let idx = dec_string(g.gpu_index as u64);
    push_line(lines, cat("[probe] amd_adlx_gpu=", idx.as_str()));
    let ghost s1 = views(lines@);
    push_opt_line(lines, "gpu.name: ", &g.adapter_name);
    push_opt_line(lines, "gpu.vendor_id: ", &g.vendor_id);
    push_opt_line(lines, "gpu.device_id: ", &g.device_id);
    push_opt_number_lines(lines, g);
    push_opt_line(lines, "gpu.driver_path: ", &g.driver_path);
    push_opt_line(lines, "gpu.pnp_string: ", &g.pnp_string);
    assert(s1 =~= start + seq![Seq::<char>::empty(), "[probe] amd_adlx_gpu="@ + dec(g.gpu_index as nat)]);
    assert(views(lines@) =~= start + gpu_probe_head(*g));
}

fn push_gpu_probe_lines(lines: &mut Vec<String>, g: &AdlxGpuRecord)
    ensures
        views(final(lines)@) == views(old(lines)@) + gpu_probe_lines(*g),
{
    let ghost start = views(lines@);
    push_gpu_probe_head(lines, g);
    let ghost before_metrics = views(lines@);
    let mut i: usize = 0;
    while i < g.metrics.len()
        invariant
            i <= g.metrics@.len(),
            views(lines@) == before_metrics + metrics_probe_lines(g.metrics@.take(i as int)),
        decreases g.metrics.len() - i,
    {
        push_metric_probe_lines(lines, &g.metrics[i]);
        assert(g.metrics@.take(i + 1).drop_last() =~= g.metrics@.take(i as int));
        assert(views(lines@) =~= before_metrics + metrics_probe_lines(g.metrics@.take(i + 1)));
        i = i + 1;
    }
    assert(g.metrics@.take(g.metrics.len() as int) =~= g.metrics@);
    push_prefixed_lines(lines, "gpu.error: ", &g.errors);
    assert(views(lines@) =~= start + gpu_probe_lines(*g));
}

/// The lines of the probe block of a sample: the provider, what the runtime
/// did, then each GPU and the sample's errors.
pub open spec fn probe_lines(s: ProviderSample) -> Seq<Seq<char>> {
    seq![
        "[probe] provider=amd_adlx"@,
        "wtg.version: "@ + s.wtg_version@,
        "provider.authority: "@ + s.provider_authority@,
        "provider.source: "@ + s.source@,
        "telemetry.class: "@ + s.telemetry_class@,
        "provider.status: "@ + s.status@,
        "adlx.probe_attempted: "@ + bool_text(s.probe_attempted),
    ] + opt_line("adlx.dll_name: "@, opt_string_view(s.dll_name)) + opt_line(
        "adlx.dll_path: "@,
        opt_string_view(s.dll_path),
    ) + seq!["adlx.runtime_dll_state: "@ + s.runtime_dll_state@] + opt_line(
        "adlx.runtime_version: "@,
        opt_string_view(s.runtime_version),
    ) + seq![
        "adlx.init_state: "@ + s.init_state@,
        "adlx.initialized: "@ + bool_text(s.adlx_initialized),
        "adlx.gpu_count: "@ + count_text(s.devices_returned),
    ] + gpus_probe_lines(s.gpus@) + prefixed("provider.error: "@, views(s.errors@))
}

/// The probe block of a sample.
pub fn format_probe_snapshot(sample: &ProviderSample) -> (r: String)
    ensures
        r@ == join_with(probe_lines(*sample), "\n"@),
{
    let mut lines: Vec<String> = Vec::new();
    push_line(&mut lines, owned("[probe] provider=amd_adlx"));
    push_line(&mut lines, cat("wtg.version: ", sample.wtg_version));
    push_line(&mut lines, cat("provider.authority: ", sample.provider_authority));
    push_line(&mut lines, cat("provider.source: ", sample.source));
    push_line(&mut lines, cat("telemetry.class: ", sample.telemetry_class));
    push_line(&mut lines, cat("provider.status: ", sample.status));
    push_line(&mut lines, cat("adlx.probe_attempted: ", bool_str(sample.probe_attempted)));
    push_opt_line(&mut lines, "adlx.dll_name: ", &sample.dll_name);
    push_opt_line(&mut lines, "adlx.dll_path: ", &sample.dll_path);
    push_line(&mut lines, cat("adlx.runtime_dll_state: ", sample.runtime_dll_state));
    push_opt_line(&mut lines, "adlx.runtime_version: ", &sample.runtime_version);
    push_line(&mut lines, cat("adlx.init_state: ", sample.init_state));
    push_line(&mut lines, cat("adlx.initialized: ", bool_str(sample.adlx_initialized)));
    let count = count_string(sample.devices_returned);
    push_line(&mut lines, cat("adlx.gpu_count: ", count.as_str()));
    let ghost before_gpus = views(lines@);
    let mut i: usize = 0;
    while i < sample.gpus.len()
        invariant
            i <= sample.gpus@.len(),
            views(lines@) == before_gpus + gpus_probe_lines(sample.gpus@.take(i as int)),
        decreases sample.gpus.len() - i,
    {
        push_gpu_probe_lines(&mut lines, &sample.gpus[i]);
        assert(sample.gpus@.take(i + 1).drop_last() =~= sample.gpus@.take(i as int));
        assert(views(lines@) =~= before_gpus + gpus_probe_lines(sample.gpus@.take(i + 1)));
        i = i + 1;
    }
    assert(sample.gpus@.take(sample.gpus.len() as int) =~= sample.gpus@);
    push_prefixed_lines(&mut lines, "provider.error: ", &sample.errors);
    assert(views(lines@) =~= probe_lines(*sample));
    join_strings(&lines, "\n")
}

/// How far one ADLX sample got, with what the runtime returned on the way.
pub enum AdlxOutcome {
    /// The DLL or one of its required symbols is missing.
    LoadFailed(String),
    /// Initialising ADLX through the named function failed with the code.
    InitFailed { dll_path: String, runtime_version: Option<String>, init_api: &'static str, code: i32 },
    /// Initialising ADLX returned no system interface.
    NullSystem { dll_path: String, runtime_version: Option<String>, init_api: &'static str },
    /// Listing the GPUs failed with the code.
    GetGpusFailed { dll_path: String, runtime_version: Option<String>, code: i32 },
    /// ADLX returned no GPU list.
    NullGpuList { dll_path: String, runtime_version: Option<String> },
    /// The performance monitoring services could not be had.
    PerfServicesFailed { dll_path: String, runtime_version: Option<String>, code: i32 },
    /// The records of the GPUs.
    Gpus { dll_path: String, runtime_version: Option<String>, gpus: Vec<AdlxGpuRecord> },
}

/// The name of the ADLX DLL.
pub open spec fn adlx_dll_name() -> Seq<char> {
    "amdadlx64.dll"@
}

/// Whether a sample is a loaded-runtime sample without GPUs, as
/// `is_failed_sample` says, with the DLL's name and the given path.
pub open spec fn is_loaded_failure(
    r: ProviderSample,
    status: Seq<char>,
    sample_seq: u64,
    timestamp_unix_ms: u128,
    dll_path: String,
    runtime_version: Option<String>,
    init_state: Seq<char>,
    devices_returned: Option<usize>,
    reason: Seq<char>,
) -> bool {
    &&& r.dll_name matches Some(n) && n@ == adlx_dll_name()
    &&& r.init_state@ == init_state
    &&& r.runtime_dll_state@ == "found"@
    &&& is_failed_sample(
        r,
        status,
        sample_seq,
        timestamp_unix_ms,
        true,
        r.dll_name,
        Some(dll_path),
        r.runtime_dll_state,
        runtime_version,
        r.init_state,
        devices_returned,
        reason,
    )
}

/// The sample of one ADLX pass from how far it got: `unavailable` or
/// `error` with the reason when it stopped early, else the GPUs with the
/// status they make and, unless `ok`, the reason no metric came.
pub fn sample_from_outcome(sample_seq: u64, timestamp_unix_ms: u128, outcome: AdlxOutcome) -> (r: ProviderSample)
    ensures
        match outcome {
            AdlxOutcome::LoadFailed(reason) => {
                &&& r.runtime_dll_state@ == "not found"@
                &&& r.init_state@ == "not attempted"@
                &&& is_failed_sample(
                    r,
                    "unavailable"@,
                    sample_seq,
                    timestamp_unix_ms,
                    true,
                    None,
                    None,
                    r.runtime_dll_state,
                    None,
                    r.init_state,
                    None,
                    reason@,
                )
            },
            AdlxOutcome::InitFailed { dll_path, runtime_version, init_api, code } => is_loaded_failure(
                r,
                "unavailable"@,
                sample_seq,
                timestamp_unix_ms,
                dll_path,
                runtime_version,
                "failed"@,
                None,
                init_api@ + " failed: "@ + adlx_result_name_spec(code),
            ),
            AdlxOutcome::NullSystem { dll_path, runtime_version, init_api } => is_loaded_failure(
                r,
                "error"@,
                sample_seq,
                timestamp_unix_ms,
                dll_path,
                runtime_version,
                "failed"@,
                None,
                init_api@ + " returned a null system interface."@,
            ),
            AdlxOutcome::GetGpusFailed { dll_path, runtime_version, code } => is_loaded_failure(
                r,
                "error"@,
                sample_seq,
                timestamp_unix_ms,
                dll_path,
                runtime_version,
                "succeeded"@,
                None,
                "IADLXSystem::GetGPUs failed: "@ + adlx_result_name_spec(code),
            ),
            AdlxOutcome::NullGpuList { dll_path, runtime_version } => is_loaded_failure(
                r,
                "unavailable"@,
                sample_seq,
                timestamp_unix_ms,
                dll_path,
                runtime_version,
                "succeeded"@,
                None,
                "ADLX returned a null GPU list."@,
            ),
            AdlxOutcome::PerfServicesFailed { dll_path, runtime_version, code } => is_loaded_failure(
                r,
                "unavailable"@,
                sample_seq,
                timestamp_unix_ms,
                dll_path,
                runtime_version,
                "succeeded"@,
                None,
                "IADLXSystem::GetPerformanceMonitoringServices failed: "@ + adlx_result_name_spec(code),
            ),
            AdlxOutcome::Gpus { dll_path, runtime_version, gpus } => if gpus@.len() == 0 {
                is_loaded_failure(
                    r,
                    "unavailable"@,
                    sample_seq,
                    timestamp_unix_ms,
                    dll_path,
                    runtime_version,
                    "succeeded"@,
                    Some(0),
                    "ADLX returned zero AMD GPUs."@,
                )
            } else {
                &&& r.wtg_version@ == wtg_version_spec()
                &&& r.source@ == "wtg.provider.amd.adlx"@ && r.telemetry_class@ == "provider_telemetry"@
                &&& r.provider@ == "amd.adlx"@ && r.provider_authority@ == "AMD ADLX"@
                &&& r.status@ == classify_status_spec(gpus@)
                &&& r.sample_seq == sample_seq && r.timestamp_unix_ms == timestamp_unix_ms
                &&& r.probe_attempted
                &&& r.dll_name matches Some(n) && n@ == adlx_dll_name()
                &&& r.dll_path == Some(dll_path)
                &&& r.runtime_dll_state@ == "found"@ && r.runtime_version == runtime_version
                &&& r.init_state@ == "succeeded"@ && r.adlx_initialized
                &&& r.devices_returned == Some(gpus@.len() as usize)
                &&& r.gpus == gpus
                &&& views(r.errors@) == (if classify_status_spec(gpus@) == "ok"@ {
                    seq![]
                } else {
                    seq![no_metrics_reason_spec(gpus@)]
                })
            },
        },
{
    match outcome {
        AdlxOutcome::LoadFailed(reason) => unavailable_sample(
            sample_seq,
            timestamp_unix_ms,
            true,
            None,
            None,
            "not found",
            None,
            "not attempted",
            None,
            reason,
        ),
        AdlxOutcome::InitFailed { dll_path, runtime_version, init_api, code } => unavailable_sample(
            sample_seq,
            timestamp_unix_ms,
            true,
            Some(owned("amdadlx64.dll")),
            Some(dll_path),
            "found",
            runtime_version,
            "failed",
            None,
            cat3(init_api, " failed: ", adlx_result_name(code)),
        ),
        AdlxOutcome::NullSystem { dll_path, runtime_version, init_api } => error_sample(
            sample_seq,
            timestamp_unix_ms,
            true,
            Some(owned("amdadlx64.dll")),
            Some(dll_path),
            "found",
            runtime_version,
            "failed",
            None,
            cat(init_api, " returned a null system interface."),
        ),
        AdlxOutcome::GetGpusFailed { dll_path, runtime_version, code } => error_sample(
            sample_seq,
            timestamp_unix_ms,
            true,
            Some(owned("amdadlx64.dll")),
            Some(dll_path),
            "found",
            runtime_version,
            "succeeded",
            None,
            cat("IADLXSystem::GetGPUs failed: ", adlx_result_name(code)),
        ),
        AdlxOutcome::NullGpuList { dll_path, runtime_version } => unavailable_sample(
            sample_seq,
            timestamp_unix_ms,
            true,
            Some(owned("amdadlx64.dll")),
            Some(dll_path),
            "found",
            runtime_version,
            "succeeded",
            None,
            owned("ADLX returned a null GPU list."),
        ),
        AdlxOutcome::PerfServicesFailed { dll_path, runtime_version, code } => unavailable_sample(
            sample_seq,
            timestamp_unix_ms,
            true,
            Some(owned("amdadlx64.dll")),
            Some(dll_path),
            "found",
            runtime_version,
            "succeeded",
            None,
            cat("IADLXSystem::GetPerformanceMonitoringServices failed: ", adlx_result_name(code)),
        ),
        AdlxOutcome::Gpus { dll_path, runtime_version, gpus } => {
            if gpus.len() == 0 {
                return unavailable_sample(
                    sample_seq,
                    timestamp_unix_ms,
                    true,
                    Some(owned("amdadlx64.dll")),
                    Some(dll_path),
                    "found",
                    runtime_version,
                    "succeeded",
                    Some(0),
                    owned("ADLX returned zero AMD GPUs."),
                );
            }
            let status = classify_status(gpus.as_slice());
            let mut errors: Vec<String> = Vec::new();
            if !str_eq(status, "ok") {
                push_line(&mut errors, no_metrics_reason(gpus.as_slice()));
            }
            let count = gpus.len();
            ProviderSample {
                wtg_version: wtg_version(),
                source: provider_source(),
                telemetry_class: telemetry_class(),
                provider: provider(),
                provider_authority: provider_authority(),
                status,
                sample_seq,
                timestamp_unix_ms,
                probe_attempted: true,
                dll_name: Some(owned("amdadlx64.dll")),
                dll_path: Some(dll_path),
                runtime_dll_state: "found",
                runtime_version,
                init_state: "succeeded",
                adlx_initialized: true,
                devices_returned: Some(count),
                gpus,
                errors,
            }
        },
    }
}

} // verus!

verus! {

/// The value of a metric with one decimal, when it was read as a number.
pub open spec fn one_decimal_of(m: MetricFact) -> Option<Seq<char>> {
    match m.raw {
        MetricRaw::Number { one_decimal, .. } => Some(one_decimal@),
        _ => None,
    }
}

/// The one-decimal value of the first metric with a key, when that metric
/// is `ok` and was read as a number.
pub open spec fn ok_one_decimal(metrics: Seq<MetricFact>, key: Seq<char>) -> Option<Seq<char>> {
    match first_metric(metrics, key) {
        Some(f) => if f.state@ == "ok"@ {
            one_decimal_of(f)
        } else {
            None
        },
        None => None,
    }
}

/// The line labelled `GPU power` shows the first metric with key
/// `gpu_power_w`, and the line labelled `Board power` the first metric with
/// key `gpu_total_board_power_w`, each with one decimal and ` W`, when that
/// metric is `ok` and was read as a number.
#[verifier::spinoff_prover]
pub proof fn lemma_power_lines_show_their_metrics(runtime_version: Option<String>, gpu: AdlxGpuRecord)
    ensures
        ok_one_decimal(gpu.metrics@, "gpu_power_w"@) is Some ==> exists|k: int|
            0 <= k < gpu_lines(runtime_version, gpu).len() && gpu_lines(runtime_version, gpu)[k] == "  GPU power: "@
                + ok_one_decimal(gpu.metrics@, "gpu_power_w"@)->0 + " W"@,
        ok_one_decimal(gpu.metrics@, "gpu_total_board_power_w"@) is Some ==> exists|k: int|
            0 <= k < gpu_lines(runtime_version, gpu).len() && gpu_lines(runtime_version, gpu)[k] == "  Board power: "@
                + ok_one_decimal(gpu.metrics@, "gpu_total_board_power_w"@)->0 + " W"@,
{
    reveal(metric_line_spec);
    let m = gpu.metrics@;
    let a = gpu_identity_lines(runtime_version, gpu) + memory_lines(gpu);
    let l1 = metric_line_spec(m, "gpu_activity_pct"@, "GPU activity"@, MetricDisplay::Float2("%"));
    let l2 = metric_line_spec(m, "gpu_clock_mhz"@, "GPU/core clock"@, MetricDisplay::Int("MHz"));
    let l3 = metric_line_spec(m, "memory_clock_mhz"@, "Memory clock"@, MetricDisplay::Int("MHz"));
    let l4 = metric_line_spec(m, "gpu_temperature_c"@, "GPU temperature"@, MetricDisplay::Float1(" C"));
    let l5 = metric_line_spec(m, "gpu_power_w"@, "GPU power"@, MetricDisplay::Float1(" W"));
    let l6 = metric_line_spec(m, "gpu_total_board_power_w"@, "Board power"@, MetricDisplay::Float1(" W"));
    let l7 = metric_line_spec(m, "gpu_fan_speed_rpm"@, "Fan speed"@, MetricDisplay::Int(" RPM"));
    let lines = gpu_lines(runtime_version, gpu);
    let tail = if gpu.errors@.len() > 0 {
        seq!["  Metrics: unavailable, "@ + gpu.errors@[0]@]
    } else {
        Seq::<Seq<char>>::empty()
    };
    assert(lines == a + (l1 + l2 + l3 + l4 + l5 + l6 + l7) + tail);
    let before5: int = (a.len() + l1.len() + l2.len() + l3.len() + l4.len()) as int;
    if ok_one_decimal(m, "gpu_power_w"@) is Some {
        let t = ok_one_decimal(m, "gpu_power_w"@)->0;
        reveal_strlit("  ");
        reveal_strlit(": ");
        reveal_strlit("GPU power");
        reveal_strlit("  GPU power: ");
        assert(l5[0] =~= "  GPU power: "@ + t + " W"@);
        assert(lines[before5] == l5[0]);
    }
    if ok_one_decimal(m, "gpu_total_board_power_w"@) is Some {
        let t = ok_one_decimal(m, "gpu_total_board_power_w"@)->0;
        reveal_strlit("  ");
        reveal_strlit(": ");
        reveal_strlit("Board power");
        reveal_strlit("  Board power: ");
        assert(l6[0] =~= "  Board power: "@ + t + " W"@);
        assert(lines[before5 + l5.len() as int] == l6[0]);
    }
}

} // verus!

verus! {

/// Whether the lines show the first metric with key `key`, when it is `ok`
/// and has a value of the asked kind, on a line labelled `label`.
pub open spec fn metric_shown(lines: Seq<Seq<char>>, metrics: Seq<MetricFact>, key: Seq<char>, label: Seq<char>, display: MetricDisplay) -> bool {
    match first_metric(metrics, key) {
        Some(f) => f.state@ == "ok"@ && render_metric_spec(f.raw, display) is Some ==> exists|k: int|
            0 <= k < lines.len() && lines[k] == "  "@ + label + ": "@ + render_metric_spec(f.raw, display)->0,
        None => true,
    }
}

/// Each metric line of a GPU is labelled by the quantity of its key: GPU
/// activity (two decimals, `%`), GPU/core clock and memory clock (whole
/// MHz), GPU temperature (one decimal, ` C`), GPU power and board power (one
/// decimal, ` W`) and fan speed (whole, ` RPM`).
#[verifier::spinoff_prover]
pub proof fn lemma_metric_lines_are_labelled_by_key(runtime_version: Option<String>, gpu: AdlxGpuRecord)
    ensures
        ({
            let lines = gpu_lines(runtime_version, gpu);
            let m = gpu.metrics@;
            &&& metric_shown(lines, m, "gpu_activity_pct"@, "GPU activity"@, MetricDisplay::Float2("%"))
            &&& metric_shown(lines, m, "gpu_clock_mhz"@, "GPU/core clock"@, MetricDisplay::Int("MHz"))
            &&& metric_shown(lines, m, "memory_clock_mhz"@, "Memory clock"@, MetricDisplay::Int("MHz"))
            &&& metric_shown(lines, m, "gpu_temperature_c"@, "GPU temperature"@, MetricDisplay::Float1(" C"))
            &&& metric_shown(lines, m, "gpu_power_w"@, "GPU power"@, MetricDisplay::Float1(" W"))
            &&& metric_shown(lines, m, "gpu_total_board_power_w"@, "Board power"@, MetricDisplay::Float1(" W"))
            &&& metric_shown(lines, m, "gpu_fan_speed_rpm"@, "Fan speed"@, MetricDisplay::Int(" RPM"))
        }),
{
    reveal(metric_line_spec);
    let m = gpu.metrics@;
    let a = gpu_identity_lines(runtime_version, gpu) + memory_lines(gpu);
    let l1 = metric_line_spec(m, "gpu_activity_pct"@, "GPU activity"@, MetricDisplay::Float2("%"));
    let l2 = metric_line_spec(m, "gpu_clock_mhz"@, "GPU/core clock"@, MetricDisplay::Int("MHz"));
    let l3 = metric_line_spec(m, "memory_clock_mhz"@, "Memory clock"@, MetricDisplay::Int("MHz"));
    let l4 = metric_line_spec(m, "gpu_temperature_c"@, "GPU temperature"@, MetricDisplay::Float1(" C"));
    let l5 = metric_line_spec(m, "gpu_power_w"@, "GPU power"@, MetricDisplay::Float1(" W"));
    let l6 = metric_line_spec(m, "gpu_total_board_power_w"@, "Board power"@, MetricDisplay::Float1(" W"));
    let l7 = metric_line_spec(m, "gpu_fan_speed_rpm"@, "Fan speed"@, MetricDisplay::Int(" RPM"));
    let lines = gpu_lines(runtime_version, gpu);
    let tail = if gpu.errors@.len() > 0 {
        seq!["  Metrics: unavailable, "@ + gpu.errors@[0]@]
    } else {
        Seq::<Seq<char>>::empty()
    };
    assert(lines == a + (l1 + l2 + l3 + l4 + l5 + l6 + l7) + tail);
    let b: int = a.len() as int;
    if l1.len() > 0 {
        assert(lines[b] == l1[0]);
    }
    if l2.len() > 0 {
        assert(lines[b + l1.len() as int] == l2[0]);
    }
    if l3.len() > 0 {
        assert(lines[b + l1.len() + l2.len() as int] == l3[0]);
    }
    if l4.len() > 0 {
        assert(lines[b + l1.len() + l2.len() + l3.len() as int] == l4[0]);
    }
    if l5.len() > 0 {
        assert(lines[b + l1.len() + l2.len() + l3.len() + l4.len() as int] == l5[0]);
    }
    if l6.len() > 0 {
        assert(lines[b + l1.len() + l2.len() + l3.len() + l4.len() + l5.len() as int] == l6[0]);
    }
    if l7.len() > 0 {
        assert(lines[b + l1.len() + l2.len() + l3.len() + l4.len() + l5.len() + l6.len() as int] == l7[0]);
    }
}

} // verus!
