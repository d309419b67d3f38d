//! The record of one ADLX GPU, from what was read of it: its identity, the
//! outcome of the two metric queries, and each metric's support check and
//! read, in the order the metrics are shown.
use vstd::prelude::*;

use crate::text::cat;
use super::{adlx_result_name, adlx_result_name_spec, read_fact, support_fact, support_fact_spec, AdlxGpuRecord, MetricFact, MetricRaw};

verus! {

/// What ADLX gave of a GPU's identity.
pub struct AdlxGpuIdentity {
    pub adapter_name: Option<String>,
    pub vendor_id: Option<String>,
    pub device_id: Option<String>,
    pub unique_id: Option<i32>,
    pub total_vram_mb: Option<u32>,
    pub driver_path: Option<String>,
    pub pnp_string: Option<String>,
}

/// What was read of one metric: the code and answer of its support check,
/// and, when the check succeeded and said yes, the code and value of its
/// read (ignored otherwise).
pub struct MetricReading {
    pub support_result: i32,
    pub supported: bool,
    pub read_result: i32,
    pub value: MetricRaw,
}

/// The readings of the eight metrics of a GPU.
pub struct GpuMetricReadings {
    pub usage: MetricReading,
    pub clock: MetricReading,
    pub vram_clock: MetricReading,
    pub temperature: MetricReading,
    pub power: MetricReading,
    pub board_power: MetricReading,
    pub fan_speed: MetricReading,
    pub vram: MetricReading,
}

/// How the metric queries of a GPU went: the support query failed with a
/// code, the current-metrics query failed with a code, or both gave and
/// each metric was read.
pub enum GpuMetricsOutcome {
    SupportQueryFailed(i32),
    MetricsQueryFailed(i32),
    Read(GpuMetricReadings),
}

/// The fact of a metric from its reading: what its support check decides,
/// else what its read gave.
pub open spec fn metric_fact_is(
    f: MetricFact,
    key: Seq<char>,
    api: Seq<char>,
    unit: Option<Seq<char>>,
    r: MetricReading,
) -> bool {
    &&& f.key@ == key
    &&& f.source_api@ == api
    &&& match f.unit {
        Some(u) => unit == Some(u@),
        None => unit is None,
    }
    &&& match support_fact_spec(r.support_result, r.supported) {
        Some((state, err)) => {
            &&& f.state@ == state
            &&& f.raw == MetricRaw::Null
            &&& match f.error_message {
                Some(e) => err == Some(e@),
                None => err is None,
            }
        },
        None => if r.read_result == 0 {
            f.state@ == "ok"@ && f.raw == r.value && f.error_message is None
        } else {
            &&& f.state@ == "not_available"@
            &&& f.raw == MetricRaw::Null
            &&& f.error_message matches Some(e) && e@ == "metric read failed: "@ + adlx_result_name_spec(
                r.read_result,
            )
        },
    }
}

/// The fact of one metric from its reading.
pub fn metric_fact(key: &'static str, source_api: &'static str, unit: Option<&'static str>, r: MetricReading) -> (f:
    MetricFact)
    ensures
        metric_fact_is(f, key@, source_api@, match unit {
            Some(u) => Some(u@),
            None => None,
        }, r),
{
    let ghost g = r;
    match support_fact(key, source_api, unit, r.support_result, r.supported) {
        Some(f) => f,
        None => read_fact(key, source_api, unit, r.read_result, r.value),
    }
}

/// The metrics of a GPU whose queries both gave, in the order shown: GPU
/// activity, GPU clock, memory clock, temperature, power, total board
/// power, fan speed and VRAM used, each with its ADLX function and unit.
pub open spec fn metrics_are(m: Seq<MetricFact>, r: GpuMetricReadings) -> bool {
    &&& m.len() == 8
    &&& metric_fact_is(m[0], "gpu_activity_pct"@, "IADLXGPUMetrics::GPUUsage"@, Some("percent"@), r.usage)
    &&& metric_fact_is(m[1], "gpu_clock_mhz"@, "IADLXGPUMetrics::GPUClockSpeed"@, Some("MHz"@), r.clock)
    &&& metric_fact_is(m[2], "memory_clock_mhz"@, "IADLXGPUMetrics::GPUVRAMClockSpeed"@, Some("MHz"@), r.vram_clock)
    &&& metric_fact_is(m[3], "gpu_temperature_c"@, "IADLXGPUMetrics::GPUTemperature"@, Some("C"@), r.temperature)
    &&& metric_fact_is(m[4], "gpu_power_w"@, "IADLXGPUMetrics::GPUPower"@, Some("W"@), r.power)
    &&& metric_fact_is(m[5], "gpu_total_board_power_w"@, "IADLXGPUMetrics::GPUTotalBoardPower"@, Some("W"@), r.board_power)
    &&& metric_fact_is(m[6], "gpu_fan_speed_rpm"@, "IADLXGPUMetrics::GPUFanSpeed"@, Some("RPM"@), r.fan_speed)
    &&& metric_fact_is(m[7], "gpu_vram_used_mb"@, "IADLXGPUMetrics::GPUVRAM"@, Some("MiB"@), r.vram)
}

fn read_metrics(r: GpuMetricReadings) -> (m: Vec<MetricFact>)
    ensures
        metrics_are(m@, r),
{
    let ghost g = r;
    let mut m: Vec<MetricFact> = Vec::new();
    m.push(metric_fact("gpu_activity_pct", "IADLXGPUMetrics::GPUUsage", Some("percent"), r.usage));
    m.push(metric_fact("gpu_clock_mhz", "IADLXGPUMetrics::GPUClockSpeed", Some("MHz"), r.clock));
    m.push(metric_fact("memory_clock_mhz", "IADLXGPUMetrics::GPUVRAMClockSpeed", Some("MHz"), r.vram_clock));
    m.push(metric_fact("gpu_temperature_c", "IADLXGPUMetrics::GPUTemperature", Some("C"), r.temperature));
    m.push(metric_fact("gpu_power_w", "IADLXGPUMetrics::GPUPower", Some("W"), r.power));
    m.push(metric_fact("gpu_total_board_power_w", "IADLXGPUMetrics::GPUTotalBoardPower", Some("W"), r.board_power));
    m.push(metric_fact("gpu_fan_speed_rpm", "IADLXGPUMetrics::GPUFanSpeed", Some("RPM"), r.fan_speed));
    m.push(metric_fact("gpu_vram_used_mb", "IADLXGPUMetrics::GPUVRAM", Some("MiB"), r.vram));
    m
}

/// The error of a failed metric query: which query, and the code's name.
pub open spec fn query_error_spec(o: GpuMetricsOutcome) -> Seq<Seq<char>> {
    match o {
        GpuMetricsOutcome::SupportQueryFailed(c) => seq!["GetSupportedGPUMetrics failed: "@ + adlx_result_name_spec(c)],
        GpuMetricsOutcome::MetricsQueryFailed(c) => seq!["GetCurrentGPUMetrics failed: "@ + adlx_result_name_spec(c)],
        GpuMetricsOutcome::Read(_) => seq![],
    }
}

/// The record of one GPU: its index and identity as given; with both
/// metric queries answered, its eight metrics and no error; else no metric
/// and the error of the query that failed.
pub fn gpu_record(gpu_index: usize, identity: AdlxGpuIdentity, outcome: GpuMetricsOutcome) -> (r: AdlxGpuRecord)
    ensures
        r.gpu_index == gpu_index,
        r.adapter_name == identity.adapter_name,
        r.vendor_id == identity.vendor_id,
        r.device_id == identity.device_id,
        r.unique_id == identity.unique_id,
        r.total_vram_mb == identity.total_vram_mb,
        r.driver_path == identity.driver_path,
        r.pnp_string == identity.pnp_string,
        r.errors@.map_values(|e: String| e@) == query_error_spec(outcome),
        match outcome {
            GpuMetricsOutcome::Read(readings) => metrics_are(r.metrics@, readings),
            _ => r.metrics@.len() == 0,
        },
{
    let ghost o = outcome;
    let mut errors: Vec<String> = Vec::new();
    let metrics = match outcome {
        GpuMetricsOutcome::SupportQueryFailed(c) => {
            errors.push(cat("GetSupportedGPUMetrics failed: ", adlx_result_name(c)));
            Vec::new()
        },
        GpuMetricsOutcome::MetricsQueryFailed(c) => {
            errors.push(cat("GetCurrentGPUMetrics failed: ", adlx_result_name(c)));
            Vec::new()
        },
        GpuMetricsOutcome::Read(readings) => read_metrics(readings),
    };
    assert(errors@.map_values(|e: String| e@) =~= query_error_spec(o));
    AdlxGpuRecord {
        gpu_index,
        adapter_name: identity.adapter_name,
        vendor_id: identity.vendor_id,
        device_id: identity.device_id,
        unique_id: identity.unique_id,
        total_vram_mb: identity.total_vram_mb,
        driver_path: identity.driver_path,
        pnp_string: identity.pnp_string,
        metrics,
        errors,
    }
}

} // verus!
