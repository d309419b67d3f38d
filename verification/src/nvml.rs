//! NVIDIA NVML snapshots: what one device reading becomes, and how the
//! readings of all devices make a snapshot report.
//!
//! The NVML calls themselves are made by the caller, which hands the values
//! it read to the functions here.
pub mod field_values;
pub mod probe_context;
pub mod provenance;

use vstd::prelude::*;

use crate::text::{dec, owned, push_dec, push_str, str_eq};

verus! {

/// One NVML device at one instant.
#[derive(Debug)]
pub struct GpuSnapshot {
    pub index: u32,
    pub name: String,
    pub uuid: String,
    pub mem_used_bytes: u64,
    pub mem_total_bytes: u64,
    pub gpu_util_pct: u32,
    pub mem_util_pct: u32,
    pub temp_c: Option<u32>,
    pub power_mw: Option<u32>,
    pub power_limit_mw: Option<u32>,
}

/// A snapshot as values.
pub struct GpuSnapshotModel {
    pub index: u32,
    pub name: Seq<char>,
    pub uuid: Seq<char>,
    pub mem_used_bytes: u64,
    pub mem_total_bytes: u64,
    pub gpu_util_pct: u32,
    pub mem_util_pct: u32,
    pub temp_c: Option<u32>,
    pub power_mw: Option<u32>,
    pub power_limit_mw: Option<u32>,
}

impl View for GpuSnapshot {
    type V = GpuSnapshotModel;

    open spec fn view(&self) -> GpuSnapshotModel {
        GpuSnapshotModel {
            index: self.index,
            name: self.name@,
            uuid: self.uuid@,
            mem_used_bytes: self.mem_used_bytes,
            mem_total_bytes: self.mem_total_bytes,
            gpu_util_pct: self.gpu_util_pct,
            mem_util_pct: self.mem_util_pct,
            temp_c: self.temp_c,
            power_mw: self.power_mw,
            power_limit_mw: self.power_limit_mw,
        }
    }
}

impl Clone for GpuSnapshot {
    fn clone(&self) -> (r: Self)
        ensures
            r@ == self@,
    {
        GpuSnapshot {
            index: self.index,
            name: self.name.clone(),
            uuid: self.uuid.clone(),
            mem_used_bytes: self.mem_used_bytes,
            mem_total_bytes: self.mem_total_bytes,
            gpu_util_pct: self.gpu_util_pct,
            mem_util_pct: self.mem_util_pct,
            temp_c: self.temp_c,
            power_mw: self.power_mw,
            power_limit_mw: self.power_limit_mw,
        }
    }
}

/// The outcome of sampling one device.
#[derive(Debug)]
pub struct GpuSampleResult {
    pub index: u32,
    pub result: Result<GpuSnapshot, String>,
}

/// A sample outcome as values.
pub open spec fn sample_outcome_view(r: Result<GpuSnapshot, String>) -> Result<
    GpuSnapshotModel,
    Seq<char>,
> {
    match r {
        Ok(s) => Ok(s@),
        Err(e) => Err(e@),
    }
}

impl View for GpuSampleResult {
    type V = (u32, Result<GpuSnapshotModel, Seq<char>>);

    open spec fn view(&self) -> (u32, Result<GpuSnapshotModel, Seq<char>>) {
        (self.index, sample_outcome_view(self.result))
    }
}

/// The result of one pass over all devices: `status` is `ok`, `unavailable`
/// or `error`, with a `reason` unless it is `ok`.
#[derive(Debug)]
pub struct NvmlSnapshotReport {
    pub status: &'static str,
    pub reason: Option<String>,
    pub device_results: Vec<GpuSampleResult>,
}

/// A report as values.
pub struct SnapshotReportModel {
    pub status: Seq<char>,
    pub reason: Option<Seq<char>>,
    pub device_results: Seq<(u32, Result<GpuSnapshotModel, Seq<char>>)>,
}

/// The views of a sequence of sample outcomes.
pub open spec fn sample_views(s: Seq<GpuSampleResult>) -> Seq<
    (u32, Result<GpuSnapshotModel, Seq<char>>),
> {
    s.map_values(|r: GpuSampleResult| r@)
}

impl View for NvmlSnapshotReport {
    type V = SnapshotReportModel;

    open spec fn view(&self) -> SnapshotReportModel {
        SnapshotReportModel {
            status: self.status@,
            reason: match self.reason {
                Some(r) => Some(r@),
                None => None,
            },
            device_results: sample_views(self.device_results@),
        }
    }
}

/// The snapshots of the samples that succeeded, in device order.
pub open spec fn ok_snapshots(s: Seq<(u32, Result<GpuSnapshotModel, Seq<char>>)>) -> Seq<
    GpuSnapshotModel,
>
    decreases s.len(),
{
    if s.len() == 0 {
        Seq::empty()
    } else {
        let rest = ok_snapshots(s.drop_last());
        match s.last().1 {
            Ok(snap) => rest.push(snap),
            Err(_) => rest,
        }
    }
}

/// The views of a sequence of snapshots.
pub open spec fn snapshot_views(s: Seq<GpuSnapshot>) -> Seq<GpuSnapshotModel> {
    s.map_values(|g: GpuSnapshot| g@)
}

impl NvmlSnapshotReport {
    /// The snapshots of the devices that were sampled without error, in
    /// device order.
    pub fn successful_snapshots(&self) -> (r: Vec<GpuSnapshot>)
        ensures
            snapshot_views(r@) == ok_snapshots(self@.device_results),
    {
        let ghost all = self@.device_results;
        let mut r: Vec<GpuSnapshot> = Vec::new();
        let mut i: usize = 0;
        while i < self.device_results.len()
            invariant
                all == sample_views(self.device_results@),
                i <= self.device_results.len(),
                snapshot_views(r@) == ok_snapshots(all.take(i as int)),
            decreases self.device_results.len() - i,
        {
            assert(all.take(i + 1).drop_last() =~= all.take(i as int));
            let ghost before = r@;
            match &self.device_results[i].result {
                Ok(snap) => {
                    r.push(snap.clone());
                    assert(snapshot_views(r@) =~= snapshot_views(before).push(snap@));
                },
                Err(_) => {},
            }
            i = i + 1;
        }
        assert(all.take(self.device_results.len() as int) =~= all);
        r
    }
}

// ---------------------------------------------------------------------------
// What one device reading becomes.
// ---------------------------------------------------------------------------
/// Memory use as NVML reports it.
pub struct MemoryReading {
    pub used: u64,
    pub total: u64,
}

/// Utilisation as NVML reports it.
pub struct UtilizationReading {
    pub gpu: u32,
    pub memory: u32,
}

/// What was read of one device whose handle was obtained. A call that failed
/// is `None`, or `Err` with the text of its error where that text is shown.
pub struct DeviceValues {
    pub name: Option<String>,
    pub uuid: Option<String>,
    pub memory: Result<MemoryReading, String>,
    pub utilization: Result<UtilizationReading, String>,
    pub temp_c: Option<u32>,
    pub power_mw: Option<u32>,
    pub power_limit_mw: Option<u32>,
}

/// What was read of the device at `index`: its values, or the text of the
/// error that refused its handle.
pub struct DeviceReading {
    pub index: u32,
    pub handle: Result<DeviceValues, String>,
}

/// The name shown for a device whose name or UUID could not be read.
pub open spec fn unknown_text() -> Seq<char> {
    "<unknown>"@
}

/// An optional text, or `<unknown>`.
pub open spec fn or_unknown(v: Option<String>) -> Seq<char> {
    match v {
        Some(s) => s@,
        None => unknown_text(),
    }
}

/// `"<call>(<index>) failed: <error>"`.
pub open spec fn call_failed(call: Seq<char>, index: u32, e: Seq<char>) -> Seq<char> {
    call + "("@ + dec(index as nat) + ") failed: "@ + e
}

/// The snapshot of one device reading, or the error that stops it: a refused
/// handle, then a failed memory read, then a failed utilisation read. Name
/// and UUID fall back to `<unknown>`; temperature and power stay optional.
pub open spec fn device_snapshot_spec(r: DeviceReading) -> Result<GpuSnapshotModel, Seq<char>> {
    match r.handle {
        Err(e) => Err(call_failed("device_by_index"@, r.index, e@)),
        Ok(v) => match v.memory {
            Err(e) => Err(call_failed("memory_info"@, r.index, e@)),
            Ok(mem) => match v.utilization {
                Err(e) => Err(call_failed("utilization_rates"@, r.index, e@)),
                Ok(util) => Ok(
                    GpuSnapshotModel {
                        index: r.index,
                        name: or_unknown(v.name),
                        uuid: or_unknown(v.uuid),
                        mem_used_bytes: mem.used,
                        mem_total_bytes: mem.total,
                        gpu_util_pct: util.gpu,
                        mem_util_pct: util.memory,
                        temp_c: v.temp_c,
                        power_mw: v.power_mw,
                        power_limit_mw: v.power_limit_mw,
                    },
                ),
            },
        },
    }
}

fn call_failed_text(call: &str, index: u32, e: &str) -> (r: String)
    ensures
        r@ == call_failed(call@, index, e@),
{
    let mut r = owned(call);
    push_str(&mut r, "(");
    push_dec(&mut r, index as u64);
    push_str(&mut r, ") failed: ");
    push_str(&mut r, e);
    proof {
        reveal_strlit("(");
        reveal_strlit(") failed: ");
    }
    assert(r@ =~= call_failed(call@, index, e@));
    r
}

fn text_or_unknown(v: Option<String>) -> (r: String)
    ensures
        r@ == or_unknown(v),
{
    match v {
        Some(s) => s,
        None => owned("<unknown>"),
    }
}

/// Turns what was read of one device into its snapshot, or the error that
/// stops it.
pub fn collect_device_snapshot(reading: DeviceReading) -> (r: Result<GpuSnapshot, String>)
    ensures
        sample_outcome_view(r) == device_snapshot_spec(reading),
{
    let i = reading.index;
    match reading.handle {
        Err(e) => Err(call_failed_text("device_by_index", i, e.as_str())),
        Ok(v) => match v.memory {
            Err(e) => Err(call_failed_text("memory_info", i, e.as_str())),
            Ok(mem) => match v.utilization {
                Err(e) => Err(call_failed_text("utilization_rates", i, e.as_str())),
                Ok(util) => Ok(
                    GpuSnapshot {
                        index: i,
                        name: text_or_unknown(v.name),
                        uuid: text_or_unknown(v.uuid),
                        mem_used_bytes: mem.used,
                        mem_total_bytes: mem.total,
                        gpu_util_pct: util.gpu,
                        mem_util_pct: util.memory,
                        temp_c: v.temp_c,
                        power_mw: v.power_mw,
                        power_limit_mw: v.power_limit_mw,
                    },
                ),
            },
        },
    }
}

/// The sample outcome of each reading, in order.
pub open spec fn device_results_spec(readings: Seq<DeviceReading>) -> Seq<
    (u32, Result<GpuSnapshotModel, Seq<char>>),
> {
    readings.map_values(|r: DeviceReading| (r.index, device_snapshot_spec(r)))
}

/// Samples every device reading, in order.
pub fn collect_device_results(readings: Vec<DeviceReading>) -> (r: Vec<GpuSampleResult>)
    ensures
        sample_views(r@) == device_results_spec(readings@),
{
    let ghost all = readings@;
    let mut readings = readings;
    let mut rev: Vec<GpuSampleResult> = Vec::new();
    // Taken from the back, then put in order.
    while readings.len() > 0
        invariant
            readings@.len() + rev@.len() == all.len(),
            readings@ == all.take(readings@.len() as int),
            forall|k: int|
                0 <= k < rev@.len() ==> #[trigger] rev@[k]@ == (
                    all[all.len() - 1 - k].index,
                    device_snapshot_spec(all[all.len() - 1 - k]),
                ),
        decreases readings.len(),
    {
        let ghost n = readings@.len();
        let reading = readings.pop().unwrap();
        assert(reading == all[n - 1]);
        let index = reading.index;
        let result = collect_device_snapshot(reading);
        rev.push(GpuSampleResult { index, result });
        assert(readings@ =~= all.take(readings@.len() as int));
    }
    let mut r: Vec<GpuSampleResult> = Vec::new();
    while rev.len() > 0
        invariant
            rev@.len() + r@.len() == all.len(),
            forall|k: int|
                0 <= k < rev@.len() ==> #[trigger] rev@[k]@ == (
                    all[all.len() - 1 - k].index,
                    device_snapshot_spec(all[all.len() - 1 - k]),
                ),
            forall|k: int|
                0 <= k < r@.len() ==> #[trigger] r@[k]@ == (
                    all[k].index,
                    device_snapshot_spec(all[k]),
                ),
        decreases rev.len(),
    {
        let ghost m = rev@.len();
        let s = rev.pop().unwrap();
        assert(s@ == rev@.push(s)[m - 1]@);
        r.push(s);
    }
    assert(sample_views(r@) =~= device_results_spec(all));
    r
}

/// Whether any sample succeeded.
pub open spec fn any_ok(s: Seq<(u32, Result<GpuSnapshotModel, Seq<char>>)>) -> bool {
    exists|k: int| 0 <= k < s.len() && s[k].1 is Ok
}

/// What the NVML calls before sampling gave: a failed initialisation, a
/// failed device count, or the readings of devices `0..count`.
pub enum NvmlProbe {
    InitFailed(String),
    CountFailed(String),
    Devices(Vec<DeviceReading>),
}

/// The report of an NVML pass that stopped before any device was sampled.
pub open spec fn unavailable_report(reason: Seq<char>) -> SnapshotReportModel {
    SnapshotReportModel { status: "unavailable"@, reason: Some(reason), device_results: seq![] }
}

/// The report of one NVML pass. Initialisation or counting that fails, and a
/// count of zero, make it `unavailable`; otherwise every device is sampled,
/// and it is `ok` when at least one sample succeeded, else `error`.
pub open spec fn snapshot_report_spec(probe: NvmlProbe) -> SnapshotReportModel {
    match probe {
        NvmlProbe::InitFailed(e) => unavailable_report("NVML init failed: "@ + e@),
        NvmlProbe::CountFailed(e) => unavailable_report("NVML device_count failed: "@ + e@),
        NvmlProbe::Devices(v) => if v@.len() == 0 {
            unavailable_report("NVIDIA NVML returned zero devices."@)
        } else {
            let results = device_results_spec(v@);
            if any_ok(results) {
                SnapshotReportModel { status: "ok"@, reason: None, device_results: results }
            } else {
                SnapshotReportModel {
                    status: "error"@,
                    reason: Some("all NVIDIA device samples failed"@),
                    device_results: results,
                }
            }
        },
    }
}

proof fn lemma_any_ok_iff_ok_snapshots(s: Seq<(u32, Result<GpuSnapshotModel, Seq<char>>)>)
    ensures
        any_ok(s) <==> ok_snapshots(s).len() > 0,
    decreases s.len(),
{
    if s.len() > 0 {
        let init = s.drop_last();
        lemma_any_ok_iff_ok_snapshots(init);
        if any_ok(init) {
            let k = choose|k: int| 0 <= k < init.len() && init[k].1 is Ok;
            assert(s[k] == init[k]);
        }
        if any_ok(s) && !(s.last().1 is Ok) {
            let k = choose|k: int| 0 <= k < s.len() && s[k].1 is Ok;
            assert(k < s.len() - 1);
            assert(init[k] == s[k]);
        }
        if s.last().1 is Ok {
            assert(s[s.len() - 1].1 is Ok);
        }
    }
}

/// A report is `ok` exactly when at least one device gave a snapshot, and it
/// is `ok`, `error` or `unavailable`.
pub proof fn lemma_report_ok_iff_some_snapshot(probe: NvmlProbe)
    ensures
        ({
            let r = snapshot_report_spec(probe);
            &&& r.status == "ok"@ <==> ok_snapshots(r.device_results).len() > 0
            &&& r.status == "ok"@ || r.status == "error"@ || r.status == "unavailable"@
        }),
{
    reveal_strlit("ok");
    reveal_strlit("error");
    reveal_strlit("unavailable");
    let r = snapshot_report_spec(probe);
    lemma_any_ok_iff_ok_snapshots(r.device_results);
    assert("ok"@.len() == 2 && "unavailable"@.len() == 11 && "error"@.len() == 5);
    match probe {
        NvmlProbe::Devices(v) => {
            if v@.len() == 0 {
                assert(r.device_results =~= seq![]);
            }
        },
        _ => {
            assert(r.device_results =~= seq![]);
        },
    }
}

fn prefixed(prefix: &str, e: &str) -> (r: String)
    ensures
        r@ == prefix@ + e@,
{
    let mut r = owned(prefix);
    push_str(&mut r, e);
    r
}

fn unavailable(reason: String) -> (r: NvmlSnapshotReport)
    ensures
        r@ == unavailable_report(reason@),
{
    let r = NvmlSnapshotReport {
        status: "unavailable",
        reason: Some(reason),
        device_results: Vec::new(),
    };
    assert(sample_views(r.device_results@) =~= seq![]);
    r
}

fn count_ok(results: &Vec<GpuSampleResult>) -> (n: usize)
    ensures
        n <= results@.len(),
        (n > 0) == any_ok(sample_views(results@)),
{
    let ghost s = sample_views(results@);
    let mut n: usize = 0;
    let mut i: usize = 0;
    while i < results.len()
        invariant
            s == sample_views(results@),
            i <= results.len(),
            n <= i,
            (n > 0) == (exists|k: int| 0 <= k < i && s[k].1 is Ok),
        decreases results.len() - i,
    {
        if results[i].result.is_ok() {
            assert(s[i as int].1 is Ok);
            n = n + 1;
        } else {
            assert forall|k: int| 0 <= k < i + 1 && s[k].1 is Ok implies k < i by {}
        }
        i = i + 1;
    }
    n
}

/// One NVML pass: turns what the calls gave into the snapshot report.
pub fn build_snapshot_report(probe: NvmlProbe) -> (r: NvmlSnapshotReport)
    ensures
        r@ == snapshot_report_spec(probe),
{
    match probe {
        NvmlProbe::InitFailed(e) => unavailable(prefixed("NVML init failed: ", e.as_str())),
        NvmlProbe::CountFailed(e) => unavailable(
            prefixed("NVML device_count failed: ", e.as_str()),
        ),
        NvmlProbe::Devices(v) => {
            if v.len() == 0 {
                return unavailable(owned("NVIDIA NVML returned zero devices."));
            }
            let device_results = collect_device_results(v);
            if count_ok(&device_results) == 0 {
                NvmlSnapshotReport {
                    status: "error",
                    reason: Some(owned("all NVIDIA device samples failed")),
                    device_results,
                }
            } else {
                NvmlSnapshotReport { status: "ok", reason: None, device_results }
            }
        },
    }
}

/// The report given when an NVML pass did not finish within `timeout_ms`.
pub open spec fn timeout_report_spec(timeout_ms: u64) -> SnapshotReportModel {
    unavailable_report(
        "NVIDIA NVML snapshot did not return within "@ + dec(timeout_ms as nat)
            + "ms (possible driver/service hang)"@,
    )
}

/// The report given when an NVML pass did not finish in time.
pub fn timeout_report(timeout_ms: u64) -> (r: NvmlSnapshotReport)
    ensures
        r@ == timeout_report_spec(timeout_ms),
{
    let mut reason = owned("NVIDIA NVML snapshot did not return within ");
    push_dec(&mut reason, timeout_ms);
    push_str(&mut reason, "ms (possible driver/service hang)");
    unavailable(reason)
}

/// The report given when the worker running an NVML pass went away.
pub fn disconnected_report() -> (r: NvmlSnapshotReport)
    ensures
        r@ == (SnapshotReportModel {
            status: "error"@,
            reason: Some("NVIDIA NVML snapshot worker disconnected."@),
            device_results: seq![],
        }),
{
    let r = NvmlSnapshotReport {
        status: "error",
        reason: Some(owned("NVIDIA NVML snapshot worker disconnected.")),
        device_results: Vec::new(),
    };
    assert(sample_views(r.device_results@) =~= seq![]);
    r
}

/// What a report means for a one-shot snapshot: the successful snapshots
/// when it is `ok`, else its reason.
pub open spec fn snapshot_all_spec(report: SnapshotReportModel) -> Result<
    Seq<GpuSnapshotModel>,
    Seq<char>,
> {
    if report.status == "ok"@ {
        Ok(ok_snapshots(report.device_results))
    } else {
        match report.reason {
            Some(r) => Err(r),
            None => Err("NVIDIA NVML snapshot failed."@),
        }
    }
}

/// One-shot NVML snapshot for all visible GPUs, from the report of one pass.
pub fn snapshot_all(report: &NvmlSnapshotReport) -> (r: Result<Vec<GpuSnapshot>, String>)
    ensures
        match (r, snapshot_all_spec(report@)) {
            (Ok(v), Ok(m)) => snapshot_views(v@) == m,
            (Err(e), Err(m)) => e@ == m,
            _ => false,
        },
{
    if str_eq(report.status, "ok") {
        Ok(report.successful_snapshots())
    } else {
        match &report.reason {
            Some(reason) => Err(reason.clone()),
            None => Err(owned("NVIDIA NVML snapshot failed.")),
        }
    }
}

/// The snapshots of devices already known to a context: an error when it
/// knows no device or when every sample failed.
pub open spec fn snapshot_all_with_ctx_spec(readings: Seq<DeviceReading>) -> Result<
    Seq<GpuSnapshotModel>,
    Seq<char>,
> {
    if readings.len() == 0 {
        Err("NVIDIA NVML returned zero devices."@)
    } else {
        let ok = ok_snapshots(device_results_spec(readings));
        if ok.len() == 0 {
            Err("all NVIDIA device samples failed"@)
        } else {
            Ok(ok)
        }
    }
}

/// The snapshots of the devices of an open NVML context, from what was read
/// of each.
pub fn snapshot_all_with_ctx(readings: Vec<DeviceReading>) -> (r: Result<
    Vec<GpuSnapshot>,
    String,
>)
    ensures
        match (r, snapshot_all_with_ctx_spec(readings@)) {
            (Ok(v), Ok(m)) => snapshot_views(v@) == m,
            (Err(e), Err(m)) => e@ == m,
            _ => false,
        },
{
    if readings.len() == 0 {
        return Err(owned("NVIDIA NVML returned zero devices."));
    }
    let ghost all = readings@;
    let results = collect_device_results(readings);
    let report = NvmlSnapshotReport { status: "ok", reason: None, device_results: results };
    let successful = report.successful_snapshots();
    if successful.len() == 0 {
        Err(owned("all NVIDIA device samples failed"))
    } else {
        Ok(successful)
    }
}

// ---------------------------------------------------------------------------
// The text of a snapshot.
// ---------------------------------------------------------------------------
/// Whole mebibytes in a number of bytes.
pub open spec fn mib(bytes: u64) -> nat {
    (bytes / 1048576) as nat
}

/// The power line of a snapshot, with the draw and the limit already written
/// in watts.
pub open spec fn power_line(power_w: Option<Seq<char>>, limit_w: Option<Seq<char>>) -> Seq<char> {
    match (power_w, limit_w) {
        (Some(p), Some(l)) => "  Power: "@ + p + " W / "@ + l + " W\n"@,
        (Some(p), None) => "  Power: "@ + p + " W\n"@,
        _ => "  Power: N/A\n"@,
    }
}

/// The text of a snapshot: name, UUID, temperature, utilisation, memory in
/// MiB and power, one per line.
pub open spec fn snapshot_text_spec(
    s: GpuSnapshotModel,
    power_w: Option<Seq<char>>,
    limit_w: Option<Seq<char>>,
) -> Seq<char> {
    "NVML device "@ + dec(s.index as nat) + ": "@ + s.name + "\n"@ + "  UUID: "@ + s.uuid
        + "\n"@ + match s.temp_c {
        Some(t) => "  Temp: "@ + dec(t as nat) + " C\n"@,
        None => "  Temp: N/A\n"@,
    } + "  Util: "@ + dec(s.gpu_util_pct as nat) + "% (gpu) "@ + dec(s.mem_util_pct as nat)
        + "% (mem)\n"@ + "  VRAM: "@ + dec(mib(s.mem_used_bytes)) + " MiB / "@ + dec(
        mib(s.mem_total_bytes),
    ) + " MiB\n"@ + power_line(power_w, limit_w)
}

/// The views of an optional text.
pub open spec fn opt_text(v: Option<String>) -> Option<Seq<char>> {
    match v {
        Some(s) => Some(s@),
        None => None,
    }
}

impl GpuSnapshot {
    /// The text of the snapshot. `power_w` and `limit_w` are the power draw
    /// and the enforced limit in watts, written by the caller; each is given
    /// exactly when the snapshot holds that reading.
    pub fn snapshot_text(&self, power_w: Option<String>, limit_w: Option<String>) -> (r: String)
        requires
            power_w is Some == self.power_mw is Some,
            limit_w is Some == self.power_limit_mw is Some,
        ensures
            r@ == snapshot_text_spec(self@, opt_text(power_w), opt_text(limit_w)),
    {
        let mut r = owned("NVML device ");
        push_dec(&mut r, self.index as u64);
        push_str(&mut r, ": ");
        push_str(&mut r, self.name.as_str());
        push_str(&mut r, "\n");
        push_str(&mut r, "  UUID: ");
        push_str(&mut r, self.uuid.as_str());
        push_str(&mut r, "\n");
        match self.temp_c {
            Some(t) => {
                push_str(&mut r, "  Temp: ");
                push_dec(&mut r, t as u64);
                push_str(&mut r, " C\n");
            },
            None => {
                push_str(&mut r, "  Temp: N/A\n");
            },
        }
        push_str(&mut r, "  Util: ");
        push_dec(&mut r, self.gpu_util_pct as u64);
        push_str(&mut r, "% (gpu) ");
        push_dec(&mut r, self.mem_util_pct as u64);
        push_str(&mut r, "% (mem)\n");
        push_str(&mut r, "  VRAM: ");
        push_dec(&mut r, self.mem_used_bytes / 1048576);
        push_str(&mut r, " MiB / ");
        push_dec(&mut r, self.mem_total_bytes / 1048576);
        push_str(&mut r, " MiB\n");
        let ghost pw = opt_text(power_w);
        let ghost lw = opt_text(limit_w);
        match (power_w, limit_w) {
            (Some(p), Some(l)) => {
                push_str(&mut r, "  Power: ");
                push_str(&mut r, p.as_str());
                push_str(&mut r, " W / ");
                push_str(&mut r, l.as_str());
                push_str(&mut r, " W\n");
            },
            (Some(p), None) => {
                push_str(&mut r, "  Power: ");
                push_str(&mut r, p.as_str());
                push_str(&mut r, " W\n");
            },
            _ => {
                push_str(&mut r, "  Power: N/A\n");
            },
        }
        assert(r@ =~= snapshot_text_spec(self@, pw, lw));
        r
    }
}

} // verus!
