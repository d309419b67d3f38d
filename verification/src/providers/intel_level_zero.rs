//! The Intel Level Zero provider: its identity, the names of Level Zero
//! codes, short reasons, the deltas of its energy and activity counters
//! between two samples, and (in `records`) the sample record and its text.
use vstd::prelude::*;

pub mod device;
pub mod records;
pub mod sysman;

pub use self::device::{build_device_record, device_key, sysman_domain_head, DeviceProperties, PropertiesOutcome, SysmanEnumOutcome};
pub use self::sysman::{sysman_domain_facts, sysman_domains, typed_sysman_facts, BufferOutcome, HandleReading, StateOutcome, SysmanDomain};
pub use self::records::{
    collect_visible_sample_with_priming_impl, error_fact, sample_from_outcome, Enumeration,
    LevelZeroOutcome, LoadedRuntime, fact_number, needs_second_sample, visible_after_first,
    unavailable_sample, fact_reason, fact_string, fact_u64, find_fact_any,
    format_human_unavailable, format_probe_fact_line, format_probe_snapshot, format_snapshot,
    format_watch_sample, indexed_metric_indexes, not_available_fact, number_fact_u64, ok_fact,
    sample_status, sum_indexed_u64_facts, temperature_reading_c, DecimalText, DeviceRecord, FactRaw,
    FactScalar, IntelFact, ProviderSample,
};

use crate::text::{has_prefix, has_suffix, owned, str_ends_with, str_eq, str_starts_with, trim, trim_char_end, trim_end_char_str, trim_str};

verus! {

/// The source every Level Zero sample names.
pub fn provider_source() -> (r: &'static str)
    ensures
        r@ == "wtg.provider.intel.level_zero"@,
{
    "wtg.provider.intel.level_zero"
}

/// The telemetry class of Level Zero samples.
pub fn telemetry_class() -> (r: &'static str)
    ensures
        r@ == "provider_telemetry"@,
{
    "provider_telemetry"
}

/// The authority behind Level Zero samples.
pub fn provider_authority() -> (r: &'static str)
    ensures
        r@ == "Intel Level Zero"@,
{
    "Intel Level Zero"
}

/// The provider name of Level Zero samples.
pub fn provider() -> (r: &'static str)
    ensures
        r@ == "intel"@,
{
    "intel"
}

/// The schema of Level Zero `--stats` output.
pub fn stats_schema() -> (r: &'static str)
    ensures
        r@ == "wtg.intel_level_zero.stats.v3"@,
{
    "wtg.intel_level_zero.stats.v3"
}

/// The name of a memory health code, if it is one.
pub open spec fn mem_health_name_spec(value: u32) -> Option<Seq<char>> {
    if value == 0 {
        Some("unknown"@)
    } else if value == 1 {
        Some("ok"@)
    } else if value == 2 {
        Some("degraded"@)
    } else if value == 3 {
        Some("critical"@)
    } else if value == 4 {
        Some("replace"@)
    } else {
        None
    }
}

/// The name of a memory health code, if it is one.
pub fn mem_health_name(value: u32) -> (r: Option<&'static str>)
    ensures
        match r {
            Some(n) => mem_health_name_spec(value) == Some(n@),
            None => mem_health_name_spec(value) is None,
        },
{
    if value == 0 {
        Some("unknown")
    } else if value == 1 {
        Some("ok")
    } else if value == 2 {
        Some("degraded")
    } else if value == 3 {
        Some("critical")
    } else if value == 4 {
        Some("replace")
    } else {
        None
    }
}

/// The name of a Level Zero device type.
pub open spec fn ze_device_type_name_spec(device_type: u32) -> Seq<char> {
    if device_type == 1 {
        "gpu"@
    } else if device_type == 2 {
        "cpu"@
    } else if device_type == 3 {
        "fpga"@
    } else if device_type == 4 {
        "mca"@
    } else if device_type == 5 {
        "vpu"@
    } else {
        "unknown"@
    }
}

/// The name of a Level Zero device type.
pub fn ze_device_type_name(device_type: u32) -> (r: &'static str)
    ensures
        r@ == ze_device_type_name_spec(device_type),
{
    if device_type == 1 {
        "gpu"
    } else if device_type == 2 {
        "cpu"
    } else if device_type == 3 {
        "fpga"
    } else if device_type == 4 {
        "mca"
    } else if device_type == 5 {
        "vpu"
    } else {
        "unknown"
    }
}

/// Whether a fact is one of the device's base facts, shown in every probe.
pub open spec fn is_base_probe_fact_key_spec(k: Seq<char>) -> bool {
    k == "device_name"@ || k == "device_key"@ || k == "device_type"@ || k == "vendor_id"@ || k
        == "device_id"@ || k == "uuid"@ || k == "core_clock_mhz"@
}

/// Whether a fact is one of the device's base facts.
pub fn is_base_probe_fact_key(metric_key: &str) -> (b: bool)
    ensures
        b == is_base_probe_fact_key_spec(metric_key@),
{
    str_eq(metric_key, "device_name") || str_eq(metric_key, "device_key") || str_eq(
        metric_key,
        "device_type",
    ) || str_eq(metric_key, "vendor_id") || str_eq(metric_key, "device_id") || str_eq(
        metric_key,
        "uuid",
    ) || str_eq(metric_key, "core_clock_mhz")
}

/// A short form of an unavailability message: trimmed and without its final
/// dots, then shortened for the three common causes.
pub open spec fn concise_reason_spec(message: Seq<char>) -> Seq<char> {
    let m = trim_char_end(trim(message), '.');
    if has_suffix(m, "returned zero handles"@) {
        "zero handles"@
    } else if has_prefix(m, "missing optional Sysman symbol "@) {
        "missing optional symbol"@
    } else if m == "Intel Sysman is unavailable because zesInit did not complete successfully"@ {
        "Sysman unavailable"@
    } else {
        m
    }
}

/// A short form of an unavailability message.
pub fn concise_unavailable_reason(message: &str) -> (r: String)
    ensures
        r@ == concise_reason_spec(message@),
{
    let m = trim_end_char_str(trim_str(message), '.');
    if str_ends_with(m, "returned zero handles") {
        return owned("zero handles");
    }
    if str_starts_with(m, "missing optional Sysman symbol ") {
        return owned("missing optional symbol");
    }
    if str_eq(m, "Intel Sysman is unavailable because zesInit did not complete successfully") {
        return owned("Sysman unavailable");
    }
    owned(m)
}

// ---------------------------------------------------------------------------
// Deltas of counters between samples.
// ---------------------------------------------------------------------------
/// What a counter's delta gives: the growth of the counter over the growth
/// of the timestamp, or why there is none.
pub enum DeltaValue {
    Rate { amount: u64, elapsed: u64 },
    NotAvailable(String),
}

/// A delta as values.
pub enum DeltaModel {
    Rate { amount: u64, elapsed: u64 },
    NotAvailable(Seq<char>),
}

impl View for DeltaValue {
    type V = DeltaModel;

    open spec fn view(&self) -> DeltaModel {
        match self {
            DeltaValue::Rate { amount, elapsed } => DeltaModel::Rate { amount: *amount, elapsed: *elapsed },
            DeltaValue::NotAvailable(m) => DeltaModel::NotAvailable(m@),
        }
    }
}

/// The delta of a counter that now reads `value` at `timestamp`, against the
/// previous reading of the same counter: none without a previous reading,
/// without time having passed, or when the counter went back.
pub open spec fn delta_spec(previous: Option<(u64, u64)>, value: u64, timestamp: u64) -> DeltaModel {
    match previous {
        None => DeltaModel::NotAvailable("requires previous sample."@),
        Some((pv, pt)) => if timestamp <= pt {
            DeltaModel::NotAvailable("requires positive timestamp delta."@)
        } else if value < pv {
            DeltaModel::NotAvailable("counter reset detected."@)
        } else {
            DeltaModel::Rate { amount: (value - pv) as u64, elapsed: (timestamp - pt) as u64 }
        },
    }
}

/// The last reading of each counter, by key.
pub struct DeltaTracker {
    entries: Vec<(String, u64, u64)>,
}

/// The last entry of `s` with key `k`, as a reading.
pub open spec fn lookup(s: Seq<(String, u64, u64)>, k: Seq<char>) -> Option<(u64, u64)>
    decreases s.len(),
{
    if s.len() == 0 {
        None
    } else if s.last().0@ == k {
        Some((s.last().1, s.last().2))
    } else {
        lookup(s.drop_last(), k)
    }
}

proof fn lemma_lookup_push(s: Seq<(String, u64, u64)>, e: (String, u64, u64), k: Seq<char>)
    ensures
        lookup(s.push(e), k) == (if e.0@ == k {
            Some((e.1, e.2))
        } else {
            lookup(s, k)
        }),
{
    assert(s.push(e).drop_last() =~= s);
}

proof fn lemma_lookup_update(s: Seq<(String, u64, u64)>, i: int, e: (String, u64, u64), k: Seq<char>)
    requires
        0 <= i < s.len(),
        s[i].0@ == e.0@,
        forall|j: int| i < j < s.len() ==> s[j].0@ != e.0@,
    ensures
        lookup(s.update(i, e), k) == (if e.0@ == k {
            Some((e.1, e.2))
        } else {
            lookup(s, k)
        }),
    decreases s.len(),
{
    let t = s.update(i, e);
    if i == s.len() - 1 {
        assert(t =~= s.drop_last().push(e));
        lemma_lookup_push(s.drop_last(), e, k);
        if e.0@ != k {
            assert(s.last().0@ != k);
        }
    } else {
        assert(t.drop_last() =~= s.drop_last().update(i, e));
        assert(t.last() == s.last());
        lemma_lookup_update(s.drop_last(), i, e, k);
    }
}

proof fn lemma_lookup_none(s: Seq<(String, u64, u64)>, k: Seq<char>)
    requires
        forall|j: int| 0 <= j < s.len() ==> s[j].0@ != k,
    ensures
        lookup(s, k) is None,
    decreases s.len(),
{
    if s.len() > 0 {
        lemma_lookup_none(s.drop_last(), k);
    }
}

impl DeltaTracker {
    /// The last reading of the counter with key `k`, if any.
    pub closed spec fn baseline(&self, k: Seq<char>) -> Option<(u64, u64)> {
        lookup(self.entries@, k)
    }

    /// A tracker that has seen no reading.
    pub fn new() -> (t: Self)
        ensures
            forall|k: Seq<char>| t.baseline(k) is None,
    {
        DeltaTracker { entries: Vec::new() }
    }

    /// Forgets every reading.
    pub fn clear(&mut self)
        ensures
            forall|k: Seq<char>| final(self).baseline(k) is None,
    {
        self.entries = Vec::new();
    }

    /// Records that the counter `key` reads `value` at `timestamp`, and gives
    /// its delta against the previous reading of that counter.
    pub fn update(&mut self, key: &str, value: u64, timestamp: u64) -> (r: DeltaValue)
        ensures
            r@ == delta_spec(old(self).baseline(key@), value, timestamp),
            final(self).baseline(key@) == Some((value, timestamp)),
            forall|k: Seq<char>| k != key@ ==> final(self).baseline(k) == old(self).baseline(k),
    {
        let ghost s = self.entries@;
        let mut i: usize = self.entries.len();
        while i > 0 && !str_eq(self.entries[i - 1].0.as_str(), key)
            invariant
                s == self.entries@,
                i <= s.len(),
                forall|j: int| i <= j < s.len() ==> s[j].0@ != key@,
            decreases i,
        {
            i = i - 1;
        }
        let e = (owned(key), value, timestamp);
        let ghost ge = e;
        if i == 0 {
            proof {
                lemma_lookup_none(s, key@);
            }
            self.entries.push(e);
            proof {
                assert forall|k: Seq<char>| k != key@ implies lookup(self.entries@, k) == lookup(s, k) by {
                    lemma_lookup_push(s, ge, k);
                }
                lemma_lookup_push(s, ge, key@);
            }
            return DeltaValue::NotAvailable(owned("requires previous sample."));
        }
        let idx = i - 1;
        let prev_value = self.entries[idx].1;
        let prev_time = self.entries[idx].2;
        proof {
            assert(s[idx as int].0@ == key@);
            assert(forall|j: int| idx < j < s.len() ==> s[j].0@ != key@);
        }
        self.entries.set(idx, e);
        proof {
            assert(self.entries@ == s.update(idx as int, ge));
            assert forall|k: Seq<char>| k != key@ implies lookup(self.entries@, k) == lookup(s, k) by {
                lemma_lookup_update(s, idx as int, ge, k);
            }
            lemma_lookup_update(s, idx as int, ge, key@);
            lemma_lookup_update_found(s, idx as int, key@);
        }
        if timestamp <= prev_time {
            DeltaValue::NotAvailable(owned("requires positive timestamp delta."))
        } else if value < prev_value {
            DeltaValue::NotAvailable(owned("counter reset detected."))
        } else {
            DeltaValue::Rate { amount: value - prev_value, elapsed: timestamp - prev_time }
        }
    }
}

proof fn lemma_lookup_update_found(s: Seq<(String, u64, u64)>, i: int, k: Seq<char>)
    requires
        0 <= i < s.len(),
        s[i].0@ == k,
        forall|j: int| i < j < s.len() ==> s[j].0@ != k,
    ensures
        lookup(s, k) == Some((s[i].1, s[i].2)),
    decreases s.len(),
{
    if i < s.len() - 1 {
        lemma_lookup_update_found(s.drop_last(), i, k);
    }
}

/// The delta of an energy counter (microjoules over microseconds, that is
/// watts) for the counter `key`.
pub fn update_power_delta(tracker: &mut DeltaTracker, key: &str, energy_uj: u64, timestamp_us: u64) -> (r:
    DeltaValue)
    ensures
        r@ == delta_spec(old(tracker).baseline(key@), energy_uj, timestamp_us),
        final(tracker).baseline(key@) == Some((energy_uj, timestamp_us)),
        delta_step(*old(tracker), key@, energy_uj, timestamp_us, *final(tracker)),
        forall|k: Seq<char>| k != key@ ==> final(tracker).baseline(k) == old(tracker).baseline(k),
{
    tracker.update(key, energy_uj, timestamp_us)
}

/// The delta of an engine's active time (over the elapsed time, a share of
/// the time) for the counter `key`.
pub fn update_engine_delta(tracker: &mut DeltaTracker, key: &str, active_time: u64, timestamp: u64) -> (r:
    DeltaValue)
    ensures
        r@ == delta_spec(old(tracker).baseline(key@), active_time, timestamp),
        final(tracker).baseline(key@) == Some((active_time, timestamp)),
        delta_step(*old(tracker), key@, active_time, timestamp, *final(tracker)),
        forall|k: Seq<char>| k != key@ ==> final(tracker).baseline(k) == old(tracker).baseline(k),
{
    tracker.update(key, active_time, timestamp)
}

/// The first reading of a counter never gives a delta.
pub proof fn lemma_first_reading_has_no_delta(value: u64, timestamp: u64)
    ensures
        delta_spec(None, value, timestamp) == DeltaModel::NotAvailable("requires previous sample."@),
{
}

/// A counter that did not move while time passed gives a delta of zero.
pub proof fn lemma_unchanged_counter_is_idle(value: u64, t0: u64, t1: u64)
    requires
        t0 < t1,
    ensures
        delta_spec(Some((value, t0)), value, t1) == (DeltaModel::Rate {
            amount: 0,
            elapsed: (t1 - t0) as u64,
        }),
{
}

/// A delta, when there is one, covers a positive time and a counter that did
/// not go back: it is the difference of the two readings.
pub proof fn lemma_delta_is_a_difference(previous: Option<(u64, u64)>, value: u64, timestamp: u64)
    ensures
        delta_spec(previous, value, timestamp) matches DeltaModel::Rate { amount, elapsed } ==> (
        previous matches Some((pv, pt)) && elapsed > 0 && elapsed == timestamp - pt && amount
            == value - pv),
{
}


/// One recorded reading: the tracker `next` holds `value` at `timestamp` as
/// the baseline of the counter `key`, and every other counter's baseline as
/// `prev` held it. `update_power_delta` and `update_engine_delta` take a
/// tracker one such step.
pub open spec fn delta_step(prev: DeltaTracker, key: Seq<char>, value: u64, timestamp: u64, next: DeltaTracker) -> bool {
    &&& next.baseline(key) == Some((value, timestamp))
    &&& forall|k: Seq<char>| k != key ==> next.baseline(k) == prev.baseline(k)
}

/// The latest of the readings `(key, value, timestamp)` whose key is `k`.
pub open spec fn latest_reading(readings: Seq<(Seq<char>, u64, u64)>, k: Seq<char>) -> Option<(u64, u64)>
    decreases readings.len(),
{
    if readings.len() == 0 {
        None
    } else if readings.last().0 == k {
        Some((readings.last().1, readings.last().2))
    } else {
        latest_reading(readings.drop_last(), k)
    }
}

/// Over a run of readings, each recorded by one step, a counter's baseline
/// is its own latest reading, whatever readings of other counters came in
/// between; a counter with no reading in the run keeps the baseline it had
/// (none, after `clear` or `new`). So the next delta of a counter is taken
/// against its own latest reading.
pub proof fn lemma_delta_history(
    trackers: Seq<DeltaTracker>,
    readings: Seq<(Seq<char>, u64, u64)>,
    k: Seq<char>,
    value: u64,
    timestamp: u64,
)
    requires
        trackers.len() == readings.len() + 1,
        forall|i: int|
            0 <= i < readings.len() ==> delta_step(
                trackers[i],
                (#[trigger] readings[i]).0,
                readings[i].1,
                readings[i].2,
                trackers[i + 1],
            ),
    ensures
        trackers.last().baseline(k) == (match latest_reading(readings, k) {
            Some(r) => Some(r),
            None => trackers[0].baseline(k),
        }),
        delta_spec(trackers.last().baseline(k), value, timestamp) == delta_spec(
            match latest_reading(readings, k) {
                Some(r) => Some(r),
                None => trackers[0].baseline(k),
            },
            value,
            timestamp,
        ),
    decreases readings.len(),
{
    if readings.len() > 0 {
        let n = readings.len() - 1;
        let ts = trackers.drop_last();
        let rs = readings.drop_last();
        assert forall|i: int| 0 <= i < rs.len() implies delta_step(
            ts[i],
            (#[trigger] rs[i]).0,
            rs[i].1,
            rs[i].2,
            ts[i + 1],
        ) by {
            assert(rs[i] == readings[i]);
            assert(delta_step(trackers[i], readings[i].0, readings[i].1, readings[i].2, trackers[i + 1]));
        }
        lemma_delta_history(ts, rs, k, value, timestamp);
        assert(delta_step(trackers[n], readings[n].0, readings[n].1, readings[n].2, trackers[n + 1]));
        assert(ts.last() == trackers[n]);
    }
}

} // verus!
