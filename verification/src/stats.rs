//! The text the command line prints: the version, headers, provider status,
//! `--stats` blocks and the CSV rows of snapshots.
use vstd::prelude::*;

use crate::cli::ProviderKind;
use crate::nvml::{mib, opt_text, GpuSampleResult, GpuSnapshot, GpuSnapshotModel, NvmlSnapshotReport};
use crate::sink::{csv_row_spec, format_csv_row, string_views};
use crate::text::{dec, dec_string, join_with, owned, push_dec, push_str, str_eq};

verus! {

// ---------------------------------------------------------------------------
// Version and headers.
// ---------------------------------------------------------------------------
/// The version of WTG.
pub open spec fn wtg_version_spec() -> Seq<char> {
    "0.3.0"@
}

/// The version of WTG.
pub fn wtg_version() -> (r: &'static str)
    ensures
        r@ == wtg_version_spec(),
{
    "0.3.0"
}

/// The line that names the program and its version.
pub open spec fn version_line_spec() -> Seq<char> {
    "WTG - WhatTheGPU v"@ + wtg_version_spec()
}

/// The line that names the program and its version.
pub fn version_line() -> (r: String)
    ensures
        r@ == version_line_spec(),
{
    let mut r = owned("WTG - WhatTheGPU v");
    push_str(&mut r, wtg_version());
    r
}

/// The version of the `--stats` output.
pub const STATS_SCHEMA: u32 = 0;

/// The header printed once per run with `--stats`.
pub open spec fn stats_schema_header_spec() -> Seq<char> {
    "stats.schema: "@ + dec(STATS_SCHEMA as nat) + "\n\n"@
}

/// The header printed once per run with `--stats`.
pub fn format_stats_schema_header() -> (r: String)
    ensures
        r@ == stats_schema_header_spec(),
{
    let mut r = owned("stats.schema: ");
    push_dec(&mut r, STATS_SCHEMA as u64);
    push_str(&mut r, "\n\n");
    r
}

/// Whole mebibytes in a number of bytes.
pub fn bytes_to_mib(b: u64) -> (r: u64)
    ensures
        r == mib(b),
{
    b / (1024 * 1024)
}

/// The name of the provider in use.
pub open spec fn provider_display_name_spec(provider: Option<ProviderKind>) -> Seq<char> {
    match provider {
        Some(ProviderKind::Amd) => "AMD ADL"@,
        Some(ProviderKind::Intel) => "Intel Level Zero"@,
        None => "NVIDIA NVML"@,
    }
}

/// The name of the provider in use; NVML when none was chosen.
pub fn provider_display_name(provider: Option<ProviderKind>) -> (r: &'static str)
    ensures
        r@ == provider_display_name_spec(provider),
{
    match provider {
        Some(ProviderKind::Amd) => "AMD ADL",
        Some(ProviderKind::Intel) => "Intel Level Zero",
        None => "NVIDIA NVML",
    }
}

/// The line that opens a mode: `WTG <mode> mode (provider: <name>)`, with the
/// interval when there is one.
pub open spec fn mode_header_spec(mode: Seq<char>, provider: Option<ProviderKind>, interval_ms: Option<u64>) -> Seq<char> {
    "WTG "@ + mode + " mode (provider: "@ + provider_display_name_spec(provider) + match interval_ms {
        Some(ms) => ") - interval "@ + dec(ms as nat) + " ms"@,
        None => ")"@,
    }
}

/// The line that opens a mode.
pub fn mode_header(mode: &str, provider: Option<ProviderKind>, interval_ms: Option<u64>) -> (r: String)
    ensures
        r@ == mode_header_spec(mode@, provider, interval_ms),
{
    let mut r = owned("WTG ");
    push_str(&mut r, mode);
    push_str(&mut r, " mode (provider: ");
    push_str(&mut r, provider_display_name(provider));
    match interval_ms {
        Some(ms) => {
            push_str(&mut r, ") - interval ");
            push_dec(&mut r, ms);
            push_str(&mut r, " ms");
        },
        None => push_str(&mut r, ")"),
    }
    assert(r@ =~= mode_header_spec(mode@, provider, interval_ms));
    r
}

// ---------------------------------------------------------------------------
// Provider status.
// ---------------------------------------------------------------------------
/// The status of two providers taken together: `ok` if either is, else
/// `error` if either is, else `unavailable` if both are, else `error`.
pub open spec fn aggregate_status_spec(left: Seq<char>, right: Seq<char>) -> Seq<char> {
    if left == "ok"@ || right == "ok"@ {
        "ok"@
    } else if left == "error"@ || right == "error"@ {
        "error"@
    } else if left == "unavailable"@ && right == "unavailable"@ {
        "unavailable"@
    } else {
        "error"@
    }
}

/// The status of two providers taken together.
pub fn aggregate_provider_status(left: &str, right: &str) -> (r: &'static str)
    ensures
        r@ == aggregate_status_spec(left@, right@),
{
    if str_eq(left, "ok") || str_eq(right, "ok") {
        "ok"
    } else if str_eq(left, "error") || str_eq(right, "error") {
        "error"
    } else if str_eq(left, "unavailable") && str_eq(right, "unavailable") {
        "unavailable"
    } else {
        "error"
    }
}

/// The order of two statuses does not matter.
pub proof fn lemma_aggregate_status_commutes(left: Seq<char>, right: Seq<char>)
    ensures
        aggregate_status_spec(left, right) == aggregate_status_spec(right, left),
{
}

/// One provider that is `ok` makes the whole `ok`, whatever the other says.
pub proof fn lemma_aggregate_status_ok_wins(other: Seq<char>)
    ensures
        aggregate_status_spec("ok"@, other) == "ok"@,
        aggregate_status_spec(other, "ok"@) == "ok"@,
{
}

/// The aggregate is always one of the three status words.
pub proof fn lemma_aggregate_status_is_a_status(left: Seq<char>, right: Seq<char>)
    ensures
        aggregate_status_spec(left, right) == "ok"@ || aggregate_status_spec(left, right)
            == "error"@ || aggregate_status_spec(left, right) == "unavailable"@,
{
}

/// The block printed when a provider is not `ok`.
pub open spec fn provider_status_block_spec(status: Seq<char>, reason: Seq<char>) -> Seq<char> {
    "Provider status: "@ + status + "\n"@ + "Reason: "@ + reason + "\n"@
}

/// The block printed when a provider is not `ok`.
pub fn provider_status_block(status: &str, reason: &str) -> (r: String)
    ensures
        r@ == provider_status_block_spec(status@, reason@),
{
    let mut r = owned("Provider status: ");
    push_str(&mut r, status);
    push_str(&mut r, "\n");
    push_str(&mut r, "Reason: ");
    push_str(&mut r, reason);
    push_str(&mut r, "\n");
    assert(r@ =~= provider_status_block_spec(status@, reason@));
    r
}

/// The block of one device that could not be sampled.
pub open spec fn failed_device_block(index: u32, reason: Seq<char>) -> Seq<char> {
    "\n"@ + "NVML device "@ + dec(index as nat) + ": unavailable\n"@ + "  Reason: "@ + reason + "\n"@
}

/// The blocks of the devices that could not be sampled, in order.
pub open spec fn failed_device_blocks_spec(s: Seq<(u32, Result<GpuSnapshotModel, Seq<char>>)>) -> Seq<char>
    decreases s.len(),
{
    if s.len() == 0 {
        Seq::empty()
    } else {
        failed_device_blocks_spec(s.drop_last()) + match s.last().1 {
            Err(reason) => failed_device_block(s.last().0, reason),
            Ok(_) => Seq::empty(),
        }
    }
}

/// The blocks printed for the devices of a report that could not be sampled.
pub fn format_failed_device_blocks(report: &NvmlSnapshotReport) -> (r: String)
    ensures
        r@ == failed_device_blocks_spec(report@.device_results),
{
    let ghost all = report@.device_results;
    let mut r = String::new();
    let mut i: usize = 0;
    while i < report.device_results.len()
        invariant
            all == report@.device_results,
            all == crate::nvml::sample_views(report.device_results@),
            i <= report.device_results.len(),
            r@ == failed_device_blocks_spec(all.take(i as int)),
        decreases report.device_results.len() - i,
    {
        assert(all.take(i + 1).drop_last() =~= all.take(i as int));
        let sample: &GpuSampleResult = &report.device_results[i];
        assert(all[i as int] == sample@);
        let ghost before = r@;
        match &sample.result {
            Err(reason) => {
                push_str(&mut r, "\n");
                push_str(&mut r, "NVML device ");
                push_dec(&mut r, sample.index as u64);
                push_str(&mut r, ": unavailable\n");
                push_str(&mut r, "  Reason: ");
                push_str(&mut r, reason.as_str());
                push_str(&mut r, "\n");
                assert(r@ =~= before + failed_device_block(sample.index, reason@));
            },
            Ok(_) => {
                assert(r@ =~= before + Seq::<char>::empty());
            },
        }
        i = i + 1;
    }
    assert(all.take(report.device_results.len() as int) =~= all);
    r
}

// ---------------------------------------------------------------------------
// Snapshot values as text.
// ---------------------------------------------------------------------------
/// A number, or `N/A`.
pub open spec fn optional_u32_text(value: Option<u32>) -> Seq<char> {
    match value {
        Some(v) => dec(v as nat),
        None => "N/A"@,
    }
}

/// A number, or `N/A`.
pub fn optional_u32_string(value: Option<u32>) -> (r: String)
    ensures
        r@ == optional_u32_text(value),
{
    match value {
        Some(v) => dec_string(v as u64),
        None => owned("N/A"),
    }
}

/// A value in watts already written, or `N/A`.
pub open spec fn optional_watts_text(value: Option<Seq<char>>) -> Seq<char> {
    match value {
        Some(w) => w,
        None => "N/A"@,
    }
}

fn optional_watts_string(value: Option<String>) -> (r: String)
    ensures
        r@ == optional_watts_text(opt_text(value)),
{
    match value {
        Some(w) => w,
        None => owned("N/A"),
    }
}

/// The `key: value` block of one snapshot, under the given header word
/// (`stats` or `probe`).
pub open spec fn snapshot_block_spec(
    tag: Seq<char>,
    s: GpuSnapshotModel,
    power_w: Option<Seq<char>>,
    limit_w: Option<Seq<char>>,
) -> Seq<char> {
    "["@ + tag + "] gpu="@ + dec(s.index as nat) + "\n"@ + "gpu.index: "@ + dec(s.index as nat)
        + "\n"@ + "gpu.name: "@ + s.name + "\n"@ + "gpu.uuid: "@ + s.uuid + "\n"@ + "temp.c: "@
        + optional_u32_text(s.temp_c) + "\n"@ + "util.gpu_pct: "@ + dec(s.gpu_util_pct as nat)
        + "\n"@ + "util.mem_controller_pct: "@ + dec(s.mem_util_pct as nat) + "\n"@
        + "vram.used_mib: "@ + dec(mib(s.mem_used_bytes)) + "\n"@ + "vram.total_mib: "@ + dec(
        mib(s.mem_total_bytes),
    ) + "\n"@ + "power.w: "@ + optional_watts_text(power_w) + "\n"@ + "power.limit_w: "@
        + optional_watts_text(limit_w) + "\n"@ + "\n"@
}

fn push_line(r: &mut String, key: &str, value: &str)
    ensures
        final(r)@ == old(r)@ + key@ + value@ + "\n"@,
{
    push_str(r, key);
    push_str(r, value);
    push_str(r, "\n");
}

fn push_num_line(r: &mut String, key: &str, value: u64)
    ensures
        final(r)@ == old(r)@ + key@ + dec(value as nat) + "\n"@,
{
    push_str(r, key);
    push_dec(r, value);
    push_str(r, "\n");
}

/// The `key: value` block of one snapshot under a header word.
pub fn format_snapshot_block(
    tag: &str,
    s: &GpuSnapshot,
    power_w: Option<String>,
    limit_w: Option<String>,
) -> (r: String)
    requires
        power_w is Some == s.power_mw is Some,
        limit_w is Some == s.power_limit_mw is Some,
    ensures
        r@ == snapshot_block_spec(tag@, s@, opt_text(power_w), opt_text(limit_w)),
{
    let ghost pw = opt_text(power_w);
    let ghost lw = opt_text(limit_w);
    let mut r = owned("[");
    push_str(&mut r, tag);
    push_num_line(&mut r, "] gpu=", s.index as u64);
    push_num_line(&mut r, "gpu.index: ", s.index as u64);
    push_line(&mut r, "gpu.name: ", s.name.as_str());
    push_line(&mut r, "gpu.uuid: ", s.uuid.as_str());
    let temp = optional_u32_string(s.temp_c);
    push_line(&mut r, "temp.c: ", temp.as_str());
    push_num_line(&mut r, "util.gpu_pct: ", s.gpu_util_pct as u64);
    push_num_line(&mut r, "util.mem_controller_pct: ", s.mem_util_pct as u64);
    push_num_line(&mut r, "vram.used_mib: ", bytes_to_mib(s.mem_used_bytes));
    push_num_line(&mut r, "vram.total_mib: ", bytes_to_mib(s.mem_total_bytes));
    let p = optional_watts_string(power_w);
    push_line(&mut r, "power.w: ", p.as_str());
    let l = optional_watts_string(limit_w);
    push_line(&mut r, "power.limit_w: ", l.as_str());
    push_str(&mut r, "\n");
    assert(r@ =~= snapshot_block_spec(tag@, s@, pw, lw));
    r
}

/// One GPU in the stable `key: value` form of `--stats`. `power_w` and
/// `limit_w` are the power readings in watts, written by the caller.
pub fn format_stats_block(s: &GpuSnapshot, power_w: Option<String>, limit_w: Option<String>) -> (r:
    String)
    requires
        power_w is Some == s.power_mw is Some,
        limit_w is Some == s.power_limit_mw is Some,
    ensures
        r@ == snapshot_block_spec("stats"@, s@, opt_text(power_w), opt_text(limit_w)),
{
    format_snapshot_block("stats", s, power_w, limit_w)
}

// ---------------------------------------------------------------------------
// CSV rows of snapshots.
// ---------------------------------------------------------------------------
/// The header of snapshot CSV files.
pub open spec fn snapshot_csv_header_spec() -> Seq<char> {
    "wtg_version,tick_seq,tick_ts,gpu_index,gpu_name,gpu_uuid,temp_c,util_gpu_pct,util_mem_controller_pct,vram_used_mib,vram_total_mib,power_w,power_limit_w"@
}

/// The header of snapshot CSV files.
pub fn format_snapshot_csv_header() -> (r: &'static str)
    ensures
        r@ == snapshot_csv_header_spec(),
{
    "wtg_version,tick_seq,tick_ts,gpu_index,gpu_name,gpu_uuid,temp_c,util_gpu_pct,util_mem_controller_pct,vram_used_mib,vram_total_mib,power_w,power_limit_w"
}

/// The header of `--stats` CSV files.
pub open spec fn stats_csv_header_spec() -> Seq<char> {
    "wtg_version,stats_schema,tick_seq,tick_ts,gpu_index,gpu_name,gpu_uuid,temp_c,util_gpu_pct,util_mem_controller_pct,vram_used_mib,vram_total_mib,power_w,power_limit_w"@
}

/// The header of `--stats` CSV files.
pub fn format_stats_csv_header() -> (r: &'static str)
    ensures
        r@ == stats_csv_header_spec(),
{
    "wtg_version,stats_schema,tick_seq,tick_ts,gpu_index,gpu_name,gpu_uuid,temp_c,util_gpu_pct,util_mem_controller_pct,vram_used_mib,vram_total_mib,power_w,power_limit_w"
}

/// The fields of a snapshot after the tick: index, name, UUID, temperature,
/// utilisation, memory in MiB, power and limit in watts.
pub open spec fn snapshot_fields(s: GpuSnapshotModel, power_w: Option<Seq<char>>, limit_w: Option<Seq<char>>) -> Seq<Seq<char>> {
    seq![
        dec(s.index as nat),
        s.name,
        s.uuid,
        optional_u32_text(s.temp_c),
        dec(s.gpu_util_pct as nat),
        dec(s.mem_util_pct as nat),
        dec(mib(s.mem_used_bytes)),
        dec(mib(s.mem_total_bytes)),
        optional_watts_text(power_w),
        optional_watts_text(limit_w),
    ]
}

/// The fields of one snapshot CSV row.
pub open spec fn snapshot_csv_fields(
    s: GpuSnapshotModel,
    tick_seq: u64,
    tick_ts: Seq<char>,
    power_w: Option<Seq<char>>,
    limit_w: Option<Seq<char>>,
) -> Seq<Seq<char>> {
    seq![wtg_version_spec(), dec(tick_seq as nat), tick_ts] + snapshot_fields(s, power_w, limit_w)
}

/// The fields of one `--stats` CSV row.
pub open spec fn stats_csv_fields(
    s: GpuSnapshotModel,
    tick_seq: u64,
    tick_ts: Seq<char>,
    power_w: Option<Seq<char>>,
    limit_w: Option<Seq<char>>,
) -> Seq<Seq<char>> {
    seq![wtg_version_spec(), dec(STATS_SCHEMA as nat), dec(tick_seq as nat), tick_ts]
        + snapshot_fields(s, power_w, limit_w)
}

fn push_snapshot_fields(
    fields: &mut Vec<String>,
    s: &GpuSnapshot,
    power_w: Option<String>,
    limit_w: Option<String>,
)
    ensures
        string_views(final(fields)@) == string_views(old(fields)@) + snapshot_fields(
            s@,
            opt_text(power_w),
            opt_text(limit_w),
        ),
{
    let ghost start = string_views(fields@);
    let ghost pw = opt_text(power_w);
    let ghost lw = opt_text(limit_w);
    fields.push(dec_string(s.index as u64));
    fields.push(s.name.clone());
    fields.push(s.uuid.clone());
    fields.push(optional_u32_string(s.temp_c));
    fields.push(dec_string(s.gpu_util_pct as u64));
    fields.push(dec_string(s.mem_util_pct as u64));
    fields.push(dec_string(bytes_to_mib(s.mem_used_bytes)));
    fields.push(dec_string(bytes_to_mib(s.mem_total_bytes)));
    fields.push(optional_watts_string(power_w));
    fields.push(optional_watts_string(limit_w));
    assert(string_views(fields@) =~= start + snapshot_fields(s@, pw, lw));
}

/// One snapshot as a CSV row, after the version and the tick. `power_w` and
/// `limit_w` are the power readings in watts, written by the caller.
pub fn format_snapshot_csv_row(
    s: &GpuSnapshot,
    tick_seq: u64,
    tick_ts: &str,
    power_w: Option<String>,
    limit_w: Option<String>,
) -> (r: String)
    requires
        power_w is Some == s.power_mw is Some,
        limit_w is Some == s.power_limit_mw is Some,
    ensures
        r@ == csv_row_spec(
            snapshot_csv_fields(s@, tick_seq, tick_ts@, opt_text(power_w), opt_text(limit_w)),
        ),
{
    let ghost pw = opt_text(power_w);
    let ghost lw = opt_text(limit_w);
    let mut fields: Vec<String> = Vec::new();
    fields.push(owned(wtg_version()));
    fields.push(dec_string(tick_seq));
    fields.push(owned(tick_ts));
    push_snapshot_fields(&mut fields, s, power_w, limit_w);
    assert(string_views(fields@) =~= snapshot_csv_fields(s@, tick_seq, tick_ts@, pw, lw));
    format_csv_row(&fields)
}

/// One snapshot as a `--stats` CSV row, after the version, the schema and
/// the tick.
pub fn format_stats_csv_row(
    s: &GpuSnapshot,
    tick_seq: u64,
    tick_ts: &str,
    power_w: Option<String>,
    limit_w: Option<String>,
) -> (r: String)
    requires
        power_w is Some == s.power_mw is Some,
        limit_w is Some == s.power_limit_mw is Some,
    ensures
        r@ == csv_row_spec(
            stats_csv_fields(s@, tick_seq, tick_ts@, opt_text(power_w), opt_text(limit_w)),
        ),
{
    let ghost pw = opt_text(power_w);
    let ghost lw = opt_text(limit_w);
    let mut fields: Vec<String> = Vec::new();
    fields.push(owned(wtg_version()));
    fields.push(dec_string(STATS_SCHEMA as u64));
    fields.push(dec_string(tick_seq));
    fields.push(owned(tick_ts));
    push_snapshot_fields(&mut fields, s, power_w, limit_w);
    assert(string_views(fields@) =~= stats_csv_fields(s@, tick_seq, tick_ts@, pw, lw));
    format_csv_row(&fields)
}

} // verus!

verus! {

/// How a temperature reading is written: its decimal digits when there is
/// one, `N/A` when there is none.
pub open spec fn temperature_text(temp_c: Option<u32>) -> Seq<char> {
    match temp_c {
        Some(t) => dec(t as nat),
        None => "N/A"@,
    }
}

proof fn lemma_dec_starts_with_digit(n: nat)
    ensures
        dec(n).len() >= 1,
        '0' <= dec(n)[0] <= '9',
    decreases n,
{
    if n >= 10 {
        lemma_dec_starts_with_digit(n / 10);
        assert(dec(n) == dec(n / 10).push(crate::text::digit_char(n % 10)));
    } else {
        assert(dec(n) == seq![crate::text::digit_char(n)]);
    }
}

/// A reported temperature is never written as `N/A`: the digits of a
/// number are never that text.
pub proof fn lemma_temperature_text_is_na_only_without_reading(temp_c: Option<u32>)
    ensures
        (temperature_text(temp_c) == "N/A"@) <==> temp_c is None,
{
    reveal_strlit("N/A");
    if let Some(t) = temp_c {
        lemma_dec_starts_with_digit(t as nat);
        assert(temperature_text(temp_c)[0] != 'N');
    }
}

/// The `key: value` block of a snapshot holds the line `temp.c: ` with the
/// snapshot's temperature, and the CSV rows hold it in their `temp_c`
/// column (the seventh field of a snapshot row, the eighth of a `--stats`
/// row, where their headers put `temp_c`).
#[verifier::spinoff_prover]
#[verifier::rlimit(80)]
pub proof fn lemma_temperature_is_shown(
    tag: Seq<char>,
    s: GpuSnapshotModel,
    tick_seq: u64,
    tick_ts: Seq<char>,
    power_w: Option<Seq<char>>,
    limit_w: Option<Seq<char>>,
)
    ensures
        exists|pre: Seq<char>, post: Seq<char>|
            snapshot_block_spec(tag, s, power_w, limit_w) == pre + "temp.c: "@ + temperature_text(s.temp_c) + "\n"@
                + post,
        snapshot_csv_fields(s, tick_seq, tick_ts, power_w, limit_w)[6] == temperature_text(s.temp_c),
        stats_csv_fields(s, tick_seq, tick_ts, power_w, limit_w)[7] == temperature_text(s.temp_c),
{
    let pre = "["@ + tag + "] gpu="@ + dec(s.index as nat) + "\n"@ + "gpu.index: "@ + dec(s.index as nat) + "\n"@
        + "gpu.name: "@ + s.name + "\n"@ + "gpu.uuid: "@ + s.uuid + "\n"@;
    let post = "util.gpu_pct: "@ + dec(s.gpu_util_pct as nat) + "\n"@ + "util.mem_controller_pct: "@ + dec(
        s.mem_util_pct as nat,
    ) + "\n"@ + "vram.used_mib: "@ + dec(mib(s.mem_used_bytes)) + "\n"@ + "vram.total_mib: "@ + dec(
        mib(s.mem_total_bytes),
    ) + "\n"@ + "power.w: "@ + optional_watts_text(power_w) + "\n"@ + "power.limit_w: "@ + optional_watts_text(
        limit_w,
    ) + "\n"@ + "\n"@;
    assert(snapshot_block_spec(tag, s, power_w, limit_w) =~= pre + "temp.c: "@ + temperature_text(s.temp_c)
        + "\n"@ + post);
}

} // verus!

verus! {

/// A power reading in watts as written, or `N/A` when there is none.
pub open spec fn watts_column(w: Option<Seq<char>>) -> Seq<char> {
    match w {
        Some(t) => t,
        None => "N/A"@,
    }
}

/// Each column of a snapshot CSV row holds the reading its header names:
/// `wtg_version`, `tick_seq`, `tick_ts`, `gpu_index`, `gpu_name`,
/// `gpu_uuid`, `temp_c`, `util_gpu_pct`, `util_mem_controller_pct`,
/// `vram_used_mib`, `vram_total_mib`, `power_w`, `power_limit_w`; a
/// `--stats` row has the schema number after the version and the same
/// columns after it.
pub proof fn lemma_csv_columns_hold_their_readings(
    s: GpuSnapshotModel,
    tick_seq: u64,
    tick_ts: Seq<char>,
    power_w: Option<Seq<char>>,
    limit_w: Option<Seq<char>>,
)
    ensures
        snapshot_csv_fields(s, tick_seq, tick_ts, power_w, limit_w) == seq![
            wtg_version_spec(),
            dec(tick_seq as nat),
            tick_ts,
            dec(s.index as nat),
            s.name,
            s.uuid,
            temperature_text(s.temp_c),
            dec(s.gpu_util_pct as nat),
            dec(s.mem_util_pct as nat),
            dec(s.mem_used_bytes as nat / 1048576),
            dec(s.mem_total_bytes as nat / 1048576),
            watts_column(power_w),
            watts_column(limit_w),
        ],
        stats_csv_fields(s, tick_seq, tick_ts, power_w, limit_w) == seq![wtg_version_spec(), dec(STATS_SCHEMA as nat)]
            + snapshot_csv_fields(s, tick_seq, tick_ts, power_w, limit_w).skip(1),
{
    assert(snapshot_csv_fields(s, tick_seq, tick_ts, power_w, limit_w) =~= seq![
        wtg_version_spec(),
        dec(tick_seq as nat),
        tick_ts,
        dec(s.index as nat),
        s.name,
        s.uuid,
        temperature_text(s.temp_c),
        dec(s.gpu_util_pct as nat),
        dec(s.mem_util_pct as nat),
        dec(s.mem_used_bytes as nat / 1048576),
        dec(s.mem_total_bytes as nat / 1048576),
        watts_column(power_w),
        watts_column(limit_w),
    ]);
    assert(stats_csv_fields(s, tick_seq, tick_ts, power_w, limit_w) =~= seq![wtg_version_spec(), dec(STATS_SCHEMA as nat)]
        + snapshot_csv_fields(s, tick_seq, tick_ts, power_w, limit_w).skip(1));
}

} // verus!

verus! {

/// The `key: value` lines of a snapshot's block, in order: index, name,
/// UUID, temperature, GPU and memory controller utilisation, VRAM used and
/// total in MiB, power and power limit in watts.
pub open spec fn snapshot_block_lines(s: GpuSnapshotModel, power_w: Option<Seq<char>>, limit_w: Option<Seq<char>>) -> Seq<Seq<char>> {
    seq![
        "gpu.index: "@ + dec(s.index as nat),
        "gpu.name: "@ + s.name,
        "gpu.uuid: "@ + s.uuid,
        "temp.c: "@ + temperature_text(s.temp_c),
        "util.gpu_pct: "@ + dec(s.gpu_util_pct as nat),
        "util.mem_controller_pct: "@ + dec(s.mem_util_pct as nat),
        "vram.used_mib: "@ + dec(s.mem_used_bytes as nat / 1048576),
        "vram.total_mib: "@ + dec(s.mem_total_bytes as nat / 1048576),
        "power.w: "@ + watts_column(power_w),
        "power.limit_w: "@ + watts_column(limit_w),
    ]
}

proof fn lemma_line_step(ls: Seq<Seq<char>>, i: int, h: Seq<char>, prev: Seq<char>, key: Seq<char>, value: Seq<char>)
    requires
        1 <= i < ls.len(),
        h + join_with(ls.take(i), "\n"@) == prev,
        ls[i] == key + value,
    ensures
        h + join_with(ls.take(i + 1), "\n"@) == prev + "\n"@ + key + value,
{
    assert(ls.take(i + 1).drop_last() =~= ls.take(i));
    assert(ls.take(i + 1).last() == ls[i]);
    assert(h + join_with(ls.take(i + 1), "\n"@) =~= prev + "\n"@ + key + value);
}

/// A snapshot's `key: value` block is its header line `[<tag>] gpu=<index>`
/// followed by one line per reading, each line holding the reading its key
/// names, and an empty line.
#[verifier::spinoff_prover]
#[verifier::rlimit(60)]
pub proof fn lemma_snapshot_block_lines(tag: Seq<char>, s: GpuSnapshotModel, power_w: Option<Seq<char>>, limit_w: Option<Seq<char>>)
    ensures
        snapshot_block_spec(tag, s, power_w, limit_w) == "["@ + tag + "] gpu="@ + dec(s.index as nat) + "\n"@
            + join_with(snapshot_block_lines(s, power_w, limit_w), "\n"@) + "\n"@ + "\n"@,
{
    let h = "["@ + tag + "] gpu="@ + dec(s.index as nat) + "\n"@;
    let ls = snapshot_block_lines(s, power_w, limit_w);
    assert(ls.len() == 10);
    let t0 = h + "gpu.index: "@ + dec(s.index as nat);
    assert(h + join_with(ls.take(1), "\n"@) == t0) by {
        assert(ls.take(1) =~= seq![ls[0]]);
        assert(h + ls[0] =~= t0);
    }
    lemma_line_step(ls, 1, h, t0, "gpu.name: "@, s.name);
    let t1 = t0 + "\n"@ + "gpu.name: "@ + s.name;
    lemma_line_step(ls, 2, h, t1, "gpu.uuid: "@, s.uuid);
    let t2 = t1 + "\n"@ + "gpu.uuid: "@ + s.uuid;
    lemma_line_step(ls, 3, h, t2, "temp.c: "@, temperature_text(s.temp_c));
    let t3 = t2 + "\n"@ + "temp.c: "@ + temperature_text(s.temp_c);
    lemma_line_step(ls, 4, h, t3, "util.gpu_pct: "@, dec(s.gpu_util_pct as nat));
    let t4 = t3 + "\n"@ + "util.gpu_pct: "@ + dec(s.gpu_util_pct as nat);
    lemma_line_step(ls, 5, h, t4, "util.mem_controller_pct: "@, dec(s.mem_util_pct as nat));
    let t5 = t4 + "\n"@ + "util.mem_controller_pct: "@ + dec(s.mem_util_pct as nat);
    lemma_line_step(ls, 6, h, t5, "vram.used_mib: "@, dec(s.mem_used_bytes as nat / 1048576));
    let t6 = t5 + "\n"@ + "vram.used_mib: "@ + dec(s.mem_used_bytes as nat / 1048576);
    lemma_line_step(ls, 7, h, t6, "vram.total_mib: "@, dec(s.mem_total_bytes as nat / 1048576));
    let t7 = t6 + "\n"@ + "vram.total_mib: "@ + dec(s.mem_total_bytes as nat / 1048576);
    lemma_line_step(ls, 8, h, t7, "power.w: "@, watts_column(power_w));
    let t8 = t7 + "\n"@ + "power.w: "@ + watts_column(power_w);
    lemma_line_step(ls, 9, h, t8, "power.limit_w: "@, watts_column(limit_w));
    let t9 = t8 + "\n"@ + "power.limit_w: "@ + watts_column(limit_w);
    assert(ls.take(10) =~= ls);
    assert(snapshot_block_spec(tag, s, power_w, limit_w) =~= t9 + "\n"@ + "\n"@);
}

} // verus!
