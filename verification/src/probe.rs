//! The `--probe` and `--probe-fields` output: one block (or CSV row) per GPU,
//! and one per requested NVML field.
use vstd::prelude::*;

use crate::nvml::field_values::{FieldQueryStatus, FieldQueryStatusModel, FieldValueModel, NvmlFieldValue};
use crate::nvml::probe_context::{GpuProbeContext, ProbeContextModel};
use crate::nvml::{mib, opt_text, GpuSnapshot, GpuSnapshotModel};
use crate::sink::{csv_row_spec, format_csv_row, string_views};
use crate::stats::{bytes_to_mib, optional_u32_string, optional_u32_text, optional_watts_text, wtg_version, wtg_version_spec};
use crate::text::{dec, dec_string, owned, push_dec, push_str};

verus! {

/// What a probe shows of one GPU. Power and limit are in watts, written by
/// the caller from the snapshot's milliwatts.
pub struct ProbeRecord {
    pub gpu_index: u32,
    pub gpu_name: String,
    pub gpu_uuid: String,
    pub temp_c: Option<u32>,
    pub util_gpu_pct: u32,
    pub util_mem_controller_pct: u32,
    pub vram_used_mib: u64,
    pub vram_total_mib: u64,
    pub power_w: Option<String>,
    pub power_limit_w: Option<String>,
}

/// A probe record as values.
pub struct ProbeRecordModel {
    pub gpu_index: u32,
    pub gpu_name: Seq<char>,
    pub gpu_uuid: Seq<char>,
    pub temp_c: Option<u32>,
    pub util_gpu_pct: u32,
    pub util_mem_controller_pct: u32,
    pub vram_used_mib: u64,
    pub vram_total_mib: u64,
    pub power_w: Option<Seq<char>>,
    pub power_limit_w: Option<Seq<char>>,
}

impl View for ProbeRecord {
    type V = ProbeRecordModel;

    open spec fn view(&self) -> ProbeRecordModel {
        ProbeRecordModel {
            gpu_index: self.gpu_index,
            gpu_name: self.gpu_name@,
            gpu_uuid: self.gpu_uuid@,
            temp_c: self.temp_c,
            util_gpu_pct: self.util_gpu_pct,
            util_mem_controller_pct: self.util_mem_controller_pct,
            vram_used_mib: self.vram_used_mib,
            vram_total_mib: self.vram_total_mib,
            power_w: opt_text(self.power_w),
            power_limit_w: opt_text(self.power_limit_w),
        }
    }
}

/// The record of a snapshot: its values, memory in MiB.
pub open spec fn record_of(s: GpuSnapshotModel, power_w: Option<Seq<char>>, limit_w: Option<Seq<char>>) -> ProbeRecordModel {
    ProbeRecordModel {
        gpu_index: s.index,
        gpu_name: s.name,
        gpu_uuid: s.uuid,
        temp_c: s.temp_c,
        util_gpu_pct: s.gpu_util_pct,
        util_mem_controller_pct: s.mem_util_pct,
        vram_used_mib: mib(s.mem_used_bytes) as u64,
        vram_total_mib: mib(s.mem_total_bytes) as u64,
        power_w,
        power_limit_w: limit_w,
    }
}

impl ProbeRecord {
    /// The record of a snapshot, with its power readings in watts.
    pub fn from_snapshot(s: &GpuSnapshot, power_w: Option<String>, power_limit_w: Option<String>) -> (r:
        Self)
        requires
            power_w is Some == s.power_mw is Some,
            power_limit_w is Some == s.power_limit_mw is Some,
        ensures
            r@ == record_of(s@, opt_text(power_w), opt_text(power_limit_w)),
    {
        ProbeRecord {
            gpu_index: s.index,
            gpu_name: s.name.clone(),
            gpu_uuid: s.uuid.clone(),
            temp_c: s.temp_c,
            util_gpu_pct: s.gpu_util_pct,
            util_mem_controller_pct: s.mem_util_pct,
            vram_used_mib: bytes_to_mib(s.mem_used_bytes),
            vram_total_mib: bytes_to_mib(s.mem_total_bytes),
            power_w,
            power_limit_w,
        }
    }
}

/// The probe block of one GPU.
pub open spec fn probe_record_text(r: ProbeRecordModel) -> Seq<char> {
    "[probe] gpu="@ + dec(r.gpu_index as nat) + "\n"@ + "gpu.index: "@ + dec(r.gpu_index as nat)
        + "\n"@ + "gpu.name: "@ + r.gpu_name + "\n"@ + "gpu.uuid: "@ + r.gpu_uuid + "\n"@
        + "temp.c: "@ + optional_u32_text(r.temp_c) + "\n"@ + "util.gpu_pct: "@ + dec(
        r.util_gpu_pct as nat,
    ) + "\n"@ + "util.mem_controller_pct: "@ + dec(r.util_mem_controller_pct as nat) + "\n"@
        + "vram.used_mib: "@ + dec(r.vram_used_mib as nat) + "\n"@ + "vram.total_mib: "@ + dec(
        r.vram_total_mib as nat,
    ) + "\n"@ + "power.w: "@ + optional_watts_text(r.power_w) + "\n"@ + "power.limit_w: "@
        + optional_watts_text(r.power_limit_w) + "\n"@ + "\n"@
}

fn watts_or_na(value: &Option<String>) -> (r: String)
    ensures
        r@ == optional_watts_text(opt_text(*value)),
{
    match value {
        Some(w) => w.clone(),
        None => owned("N/A"),
    }
}

fn push_kv(r: &mut String, key: &str, value: &str)
    ensures
        final(r)@ == old(r)@ + key@ + value@ + "\n"@,
{
    push_str(r, key);
    push_str(r, value);
    push_str(r, "\n");
}

fn push_kn(r: &mut String, key: &str, value: u64)
    ensures
        final(r)@ == old(r)@ + key@ + dec(value as nat) + "\n"@,
{
    push_str(r, key);
    push_dec(r, value);
    push_str(r, "\n");
}

/// The probe block of one GPU.
pub fn format_probe_record(record: &ProbeRecord) -> (r: String)
    ensures
        r@ == probe_record_text(record@),
{
    let mut r = String::new();
    push_kn(&mut r, "[probe] gpu=", record.gpu_index as u64);
    push_kn(&mut r, "gpu.index: ", record.gpu_index as u64);
    push_kv(&mut r, "gpu.name: ", record.gpu_name.as_str());
    push_kv(&mut r, "gpu.uuid: ", record.gpu_uuid.as_str());
    let t = optional_u32_string(record.temp_c);
    push_kv(&mut r, "temp.c: ", t.as_str());
    push_kn(&mut r, "util.gpu_pct: ", record.util_gpu_pct as u64);
    push_kn(&mut r, "util.mem_controller_pct: ", record.util_mem_controller_pct as u64);
    push_kn(&mut r, "vram.used_mib: ", record.vram_used_mib);
    push_kn(&mut r, "vram.total_mib: ", record.vram_total_mib);
    let p = watts_or_na(&record.power_w);
    push_kv(&mut r, "power.w: ", p.as_str());
    let l = watts_or_na(&record.power_limit_w);
    push_kv(&mut r, "power.limit_w: ", l.as_str());
    push_str(&mut r, "\n");
    assert(r@ =~= probe_record_text(record@));
    r
}

/// The header of probe CSV files.
pub open spec fn probe_csv_header_spec() -> Seq<char> {
    "gpu_index,gpu_name,gpu_uuid,temp_c,util_gpu_pct,util_mem_controller_pct,vram_used_mib,vram_total_mib,power_w,power_limit_w"@
}

/// The header of probe CSV files.
pub fn format_probe_csv_header() -> (r: &'static str)
    ensures
        r@ == probe_csv_header_spec(),
{
    "gpu_index,gpu_name,gpu_uuid,temp_c,util_gpu_pct,util_mem_controller_pct,vram_used_mib,vram_total_mib,power_w,power_limit_w"
}

/// The fields of the probe CSV row of one GPU.
pub open spec fn probe_csv_fields(r: ProbeRecordModel) -> Seq<Seq<char>> {
    seq![
        dec(r.gpu_index as nat),
        r.gpu_name,
        r.gpu_uuid,
        optional_u32_text(r.temp_c),
        dec(r.util_gpu_pct as nat),
        dec(r.util_mem_controller_pct as nat),
        dec(r.vram_used_mib as nat),
        dec(r.vram_total_mib as nat),
        optional_watts_text(r.power_w),
        optional_watts_text(r.power_limit_w),
    ]
}

/// The probe CSV row of one GPU.
pub fn format_probe_csv_row(record: &ProbeRecord) -> (r: String)
    ensures
        r@ == csv_row_spec(probe_csv_fields(record@)),
{
    let mut fields: Vec<String> = Vec::new();
    fields.push(dec_string(record.gpu_index as u64));
    fields.push(record.gpu_name.clone());
    fields.push(record.gpu_uuid.clone());
    fields.push(optional_u32_string(record.temp_c));
    fields.push(dec_string(record.util_gpu_pct as u64));
    fields.push(dec_string(record.util_mem_controller_pct as u64));
    fields.push(dec_string(record.vram_used_mib));
    fields.push(dec_string(record.vram_total_mib));
    fields.push(watts_or_na(&record.power_w));
    fields.push(watts_or_na(&record.power_limit_w));
    assert(string_views(fields@) =~= probe_csv_fields(record@));
    format_csv_row(&fields)
}

// ---------------------------------------------------------------------------
// --probe-fields.
// ---------------------------------------------------------------------------
/// The block of one GPU in `--probe-fields`.
pub open spec fn probe_fields_snapshot_text(s: GpuSnapshotModel, c: ProbeContextModel) -> Seq<char> {
    "[probe-fields] gpu="@ + dec(s.index as nat) + "\n"@ + "wtg.version: "@ + wtg_version_spec()
        + "\n"@ + "gpu.index: "@ + dec(s.index as nat) + "\n"@ + "gpu.name: "@ + s.name + "\n"@
        + "gpu.uuid: "@ + s.uuid + "\n"@ + "driver.version: "@ + c.driver_version + "\n"@
        + "cuda.driver_version: "@ + c.cuda_driver_version + "\n"@ + "gpu.compute_mode: "@
        + c.compute_mode + "\n"@ + "gpu.perf_state: "@ + c.perf_state + "\n"@ + "gpu.pci.bus_id: "@
        + c.pci_bus_id + "\n"@ + "util.gpu_pct: "@ + dec(s.gpu_util_pct as nat) + "\n"@
        + "util.mem_controller_pct: "@ + dec(s.mem_util_pct as nat) + "\n"@ + "vram.used_mib: "@
        + dec(mib(s.mem_used_bytes)) + "\n"@ + "vram.total_mib: "@ + dec(mib(s.mem_total_bytes))
        + "\n"@ + "\n"@
}

/// The block of one GPU in `--probe-fields`.
pub fn format_probe_fields_snapshot(s: &GpuSnapshot, context: &GpuProbeContext) -> (r: String)
    ensures
        r@ == probe_fields_snapshot_text(s@, context@),
{
    let mut r = String::new();
    push_kn(&mut r, "[probe-fields] gpu=", s.index as u64);
    push_kv(&mut r, "wtg.version: ", wtg_version());
    push_kn(&mut r, "gpu.index: ", s.index as u64);
    push_kv(&mut r, "gpu.name: ", s.name.as_str());
    push_kv(&mut r, "gpu.uuid: ", s.uuid.as_str());
    push_kv(&mut r, "driver.version: ", context.driver_version.as_str());
    push_kv(&mut r, "cuda.driver_version: ", context.cuda_driver_version.as_str());
    push_kv(&mut r, "gpu.compute_mode: ", context.compute_mode.as_str());
    push_kv(&mut r, "gpu.perf_state: ", context.perf_state.as_str());
    push_kv(&mut r, "gpu.pci.bus_id: ", context.pci_bus_id.as_str());
    push_kn(&mut r, "util.gpu_pct: ", s.gpu_util_pct as u64);
    push_kn(&mut r, "util.mem_controller_pct: ", s.mem_util_pct as u64);
    push_kn(&mut r, "vram.used_mib: ", bytes_to_mib(s.mem_used_bytes));
    push_kn(&mut r, "vram.total_mib: ", bytes_to_mib(s.mem_total_bytes));
    push_str(&mut r, "\n");
    assert(r@ =~= probe_fields_snapshot_text(s@, context@));
    r
}

/// How a field's query is named, and its status text: `ok`/`Ok`, or the kind
/// of error and the error.
pub open spec fn query_and_status(q: FieldQueryStatusModel) -> (Seq<char>, Seq<char>) {
    match q {
        FieldQueryStatusModel::Success => ("ok"@, "Ok"@),
        FieldQueryStatusModel::CallError(e) => ("call_error"@, e),
        FieldQueryStatusModel::FieldError(e) => ("field_error"@, e),
    }
}

/// How a field's query is named, and its status text.
pub fn field_query_and_status(field: &NvmlFieldValue) -> (r: (&str, &str))
    ensures
        (r.0@, r.1@) == query_and_status(field@.query),
{
    match &field.query {
        FieldQueryStatus::Success => ("ok", "Ok"),
        FieldQueryStatus::CallError(e) => ("call_error", e.as_str()),
        FieldQueryStatus::FieldError(e) => ("field_error", e.as_str()),
    }
}

/// The block of one requested field.
pub open spec fn field_value_text(gpu_index: u32, f: FieldValueModel) -> Seq<char> {
    "[field] gpu="@ + dec(gpu_index as nat) + " field.id="@ + dec(f.field_id as nat) + "\n"@
        + "field.query: "@ + query_and_status(f.query).0 + "\n"@ + "field.status: "@
        + query_and_status(f.query).1 + "\n"@ + "field.type: "@ + f.value_type + "\n"@
        + "field.value: "@ + f.value + "\n"@ + "\n"@
}

/// The block of one requested field.
pub fn format_field_value(gpu_index: u32, field: &NvmlFieldValue) -> (r: String)
    ensures
        r@ == field_value_text(gpu_index, field@),
{
    let (query, status) = field_query_and_status(field);
    let mut r = owned("[field] gpu=");
    push_dec(&mut r, gpu_index as u64);
    push_kn(&mut r, " field.id=", field.field_id as u64);
    push_kv(&mut r, "field.query: ", query);
    push_kv(&mut r, "field.status: ", status);
    push_kv(&mut r, "field.type: ", field.value_type.as_str());
    push_kv(&mut r, "field.value: ", field.value.as_str());
    push_str(&mut r, "\n");
    assert(r@ =~= field_value_text(gpu_index, field@));
    r
}

/// The header of `--probe-fields` CSV files.
pub open spec fn probe_fields_csv_header_spec() -> Seq<char> {
    "wtg_version,gpu_index,gpu_name,gpu_uuid,driver_version,cuda_driver_version,gpu_compute_mode,gpu_perf_state,gpu_pci_bus_id,util_gpu_pct,util_mem_controller_pct,vram_used_mib,vram_total_mib,field_id,field_query,field_status,field_type,field_value"@
}

/// The header of `--probe-fields` CSV files.
pub fn format_probe_fields_csv_header() -> (r: &'static str)
    ensures
        r@ == probe_fields_csv_header_spec(),
{
    "wtg_version,gpu_index,gpu_name,gpu_uuid,driver_version,cuda_driver_version,gpu_compute_mode,gpu_perf_state,gpu_pci_bus_id,util_gpu_pct,util_mem_controller_pct,vram_used_mib,vram_total_mib,field_id,field_query,field_status,field_type,field_value"
}

/// The fields of the `--probe-fields` CSV row of one field of one GPU.
pub open spec fn probe_fields_csv_fields(s: GpuSnapshotModel, c: ProbeContextModel, f: FieldValueModel) -> Seq<Seq<char>> {
    seq![
        wtg_version_spec(),
        dec(s.index as nat),
        s.name,
        s.uuid,
        c.driver_version,
        c.cuda_driver_version,
        c.compute_mode,
        c.perf_state,
        c.pci_bus_id,
        dec(s.gpu_util_pct as nat),
        dec(s.mem_util_pct as nat),
        dec(mib(s.mem_used_bytes)),
        dec(mib(s.mem_total_bytes)),
        dec(f.field_id as nat),
        query_and_status(f.query).0,
        query_and_status(f.query).1,
        f.value_type,
        f.value,
    ]
}

/// The `--probe-fields` CSV row of one field of one GPU.
pub fn format_probe_fields_csv_row(s: &GpuSnapshot, context: &GpuProbeContext, field: &NvmlFieldValue) -> (r:
    String)
    ensures
        r@ == csv_row_spec(probe_fields_csv_fields(s@, context@, field@)),
{
    let (query, status) = field_query_and_status(field);
    let mut fields: Vec<String> = Vec::new();
    fields.push(owned(wtg_version()));
    fields.push(dec_string(s.index as u64));
    fields.push(s.name.clone());
    fields.push(s.uuid.clone());
    fields.push(context.driver_version.clone());
    fields.push(context.cuda_driver_version.clone());
    fields.push(context.compute_mode.clone());
    fields.push(context.perf_state.clone());
    fields.push(context.pci_bus_id.clone());
    fields.push(dec_string(s.gpu_util_pct as u64));
    fields.push(dec_string(s.mem_util_pct as u64));
    fields.push(dec_string(bytes_to_mib(s.mem_used_bytes)));
    fields.push(dec_string(bytes_to_mib(s.mem_total_bytes)));
    fields.push(dec_string(field.field_id as u64));
    fields.push(owned(query));
    fields.push(owned(status));
    fields.push(field.value_type.clone());
    fields.push(field.value.clone());
    assert(string_views(fields@) =~= probe_fields_csv_fields(s@, context@, field@));
    format_csv_row(&fields)
}

} // verus!
