//! Raw NVML field values requested by id: each requested id gets exactly one
//! value, in the order of the request.
use vstd::prelude::*;

use crate::text::{dec, dec_signed, dec_string, dec_string_signed, owned};

verus! {

/// How the value of one requested field was obtained.
#[derive(Debug)]
pub enum FieldQueryStatus {
    /// The whole API call succeeded and this field returned a success status.
    Success,
    /// The whole API call failed before returning per-field results.
    CallError(String),
    /// The call succeeded but this individual field returned a non-success status.
    FieldError(String),
}

/// A query status as values.
pub enum FieldQueryStatusModel {
    Success,
    CallError(Seq<char>),
    FieldError(Seq<char>),
}

impl View for FieldQueryStatus {
    type V = FieldQueryStatusModel;

    open spec fn view(&self) -> FieldQueryStatusModel {
        match self {
            FieldQueryStatus::Success => FieldQueryStatusModel::Success,
            FieldQueryStatus::CallError(e) => FieldQueryStatusModel::CallError(e@),
            FieldQueryStatus::FieldError(e) => FieldQueryStatusModel::FieldError(e@),
        }
    }
}

/// The value of one requested field, with its type's name.
#[derive(Debug)]
pub struct NvmlFieldValue {
    pub field_id: u32,
    pub query: FieldQueryStatus,
    pub value_type: String,
    pub value: String,
}

/// A field value as values.
pub struct FieldValueModel {
    pub field_id: u32,
    pub query: FieldQueryStatusModel,
    pub value_type: Seq<char>,
    pub value: Seq<char>,
}

impl View for NvmlFieldValue {
    type V = FieldValueModel;

    open spec fn view(&self) -> FieldValueModel {
        FieldValueModel {
            field_id: self.field_id,
            query: self.query@,
            value_type: self.value_type@,
            value: self.value@,
        }
    }
}

/// The value NVML returned for a field. A floating-point value arrives
/// already written as text.
pub enum SampleReading {
    F64(String),
    U32(u32),
    U64(u64),
    I64(i64),
}

/// The type name and the text of a sampled value.
pub open spec fn sample_strings_spec(s: SampleReading) -> (Seq<char>, Seq<char>) {
    match s {
        SampleReading::F64(t) => ("f64"@, t@),
        SampleReading::U32(v) => ("u32"@, dec(v as nat)),
        SampleReading::U64(v) => ("u64"@, dec(v as nat)),
        SampleReading::I64(v) => ("i64"@, dec_signed(v as int)),
    }
}

/// The type name and the text of a sampled value.
pub fn sample_value_strings(value: SampleReading) -> (r: (String, String))
    ensures
        (r.0@, r.1@) == sample_strings_spec(value),
{
    match value {
        SampleReading::F64(t) => (owned("f64"), t),
        SampleReading::U32(v) => (owned("u32"), dec_string(v as u64)),
        SampleReading::U64(v) => (owned("u64"), dec_string(v)),
        SampleReading::I64(v) => (owned("i64"), dec_string_signed(v)),
    }
}

/// The text given as type and value of a field that has no value.
pub open spec fn unavailable_text() -> Seq<char> {
    "unavailable"@
}

/// A field whose own status was an error.
pub open spec fn field_error_spec(field_id: u32, e: Seq<char>) -> FieldValueModel {
    FieldValueModel {
        field_id,
        query: FieldQueryStatusModel::FieldError(e),
        value_type: unavailable_text(),
        value: unavailable_text(),
    }
}

/// A field whose call failed as a whole.
pub open spec fn call_error_spec(field_id: u32, e: Seq<char>) -> FieldValueModel {
    FieldValueModel {
        field_id,
        query: FieldQueryStatusModel::CallError(e),
        value_type: unavailable_text(),
        value: unavailable_text(),
    }
}

/// The field value of a sample: its value when it holds one, else its error.
pub open spec fn sample_field_spec(field_id: u32, sample: Result<SampleReading, String>) -> FieldValueModel {
    match sample {
        Ok(v) => FieldValueModel {
            field_id,
            query: FieldQueryStatusModel::Success,
            value_type: sample_strings_spec(v).0,
            value: sample_strings_spec(v).1,
        },
        Err(e) => field_error_spec(field_id, e@),
    }
}

/// A field whose own status was an error.
pub fn field_error_value(field_id: u32, error: String) -> (r: NvmlFieldValue)
    ensures
        r@ == field_error_spec(field_id, error@),
{
    NvmlFieldValue {
        field_id,
        query: FieldQueryStatus::FieldError(error),
        value_type: owned("unavailable"),
        value: owned("unavailable"),
    }
}

/// The field value of one returned sample.
pub fn field_value_from_sample(field_id: u32, sample: Result<SampleReading, String>) -> (r:
    NvmlFieldValue)
    ensures
        r@ == sample_field_spec(field_id, sample),
{
    match sample {
        Ok(v) => {
            let (value_type, value) = sample_value_strings(v);
            NvmlFieldValue { field_id, query: FieldQueryStatus::Success, value_type, value }
        },
        Err(e) => field_error_value(field_id, e),
    }
}

/// The views of a sequence of field values.
pub open spec fn field_views(v: Seq<NvmlFieldValue>) -> Seq<FieldValueModel> {
    v.map_values(|f: NvmlFieldValue| f@)
}

/// Every requested field, carrying the error of the call that failed.
pub fn call_error_values(field_ids: &Vec<u32>, error: &str) -> (r: Vec<NvmlFieldValue>)
    ensures
        field_views(r@) == field_ids@.map_values(|id: u32| call_error_spec(id, error@)),
{
    let mut r: Vec<NvmlFieldValue> = Vec::new();
    let mut i: usize = 0;
    while i < field_ids.len()
        invariant
            i <= field_ids.len(),
            r@.len() == i,
            forall|k: int| 0 <= k < i ==> #[trigger] r@[k]@ == call_error_spec(field_ids@[k], error@),
        decreases field_ids.len() - i,
    {
        r.push(
            NvmlFieldValue {
                field_id: field_ids[i],
                query: FieldQueryStatus::CallError(owned(error)),
                value_type: owned("unavailable"),
                value: owned("unavailable"),
            },
        );
        i = i + 1;
    }
    assert(field_views(r@) =~= field_ids@.map_values(|id: u32| call_error_spec(id, error@)));
    r
}

/// What NVML returned for one requested field: the sample, whose own value
/// may be an error, or the error in its place.
pub type FieldSample = Result<Result<SampleReading, String>, String>;

/// The field value at position `k` of a request, from the samples returned:
/// the sample at the same position, or `missing field result` when there is
/// none.
pub open spec fn aligned_field_spec(field_id: u32, samples: Seq<FieldSample>, k: int) -> FieldValueModel {
    if k < samples.len() {
        match samples[k] {
            Ok(sample) => sample_field_spec(field_id, sample),
            Err(e) => field_error_spec(field_id, e@),
        }
    } else {
        field_error_spec(field_id, "missing field result"@)
    }
}

/// The field values of a request: every field carries the error of a call
/// that failed as a whole; otherwise field `k` gets the `k`-th sample.
pub open spec fn field_values_spec(
    field_ids: Seq<u32>,
    outcome: Result<Seq<FieldSample>, Seq<char>>,
) -> Seq<FieldValueModel> {
    match outcome {
        Err(e) => field_ids.map_values(|id: u32| call_error_spec(id, e)),
        Ok(samples) => Seq::new(field_ids.len(), |k: int| aligned_field_spec(field_ids[k], samples, k)),
    }
}

/// The outcome of the call as values.
pub open spec fn outcome_view(outcome: Result<Vec<FieldSample>, String>) -> Result<
    Seq<FieldSample>,
    Seq<char>,
> {
    match outcome {
        Ok(v) => Ok(v@),
        Err(e) => Err(e@),
    }
}

/// The values of the requested fields of one device, from what the field
/// query returned: the samples, or the error of a failed handle lookup or
/// call.
pub fn query_field_values_for_gpu(
    field_ids: &Vec<u32>,
    outcome: Result<Vec<FieldSample>, String>,
) -> (r: Vec<NvmlFieldValue>)
    ensures
        field_views(r@) == field_values_spec(field_ids@, outcome_view(outcome)),
{
    let ghost out = outcome_view(outcome);
    match outcome {
        Err(e) => call_error_values(field_ids, e.as_str()),
        Ok(samples) => {
            let ghost all = samples@;
            let mut samples = samples;
            // The samples past the request are never read.
            while samples.len() > field_ids.len()
                invariant
                    samples@ == all.take(samples@.len() as int),
                    samples@.len() >= field_ids.len() || samples@.len() == all.len(),
                    samples@.len() <= all.len(),
                decreases samples.len(),
            {
                let ghost before = samples@;
                samples.pop();
                assert(samples@ =~= before.drop_last());
                assert(samples@ =~= all.take(samples@.len() as int));
            }
            let mut rev: Vec<NvmlFieldValue> = Vec::new();
            let mut k: usize = field_ids.len();
            while k > 0
                invariant
                    k <= field_ids.len(),
                    samples@.len() <= field_ids.len(),
                    samples@ == all.take(samples@.len() as int),
                    samples@.len() == (if all.len() < k { all.len() } else { k as nat }),
                    samples@.len() <= all.len(),
                    rev@.len() == field_ids.len() - k,
                    forall|j: int|
                        0 <= j < rev@.len() ==> #[trigger] rev@[j]@ == aligned_field_spec(
                            field_ids@[field_ids.len() - 1 - j],
                            all,
                            field_ids.len() - 1 - j,
                        ),
                decreases k,
            {
                k = k - 1;
                let id = field_ids[k];
                let v = if samples.len() > k {
                    let ghost before = samples@;
                    let s = samples.pop().unwrap();
                    assert(samples@ =~= before.drop_last());
                    assert(s == all[k as int]);
                    assert(samples@ =~= all.take(samples@.len() as int));
                    match s {
                        Ok(sample) => field_value_from_sample(id, sample),
                        Err(e) => field_error_value(id, e),
                    }
                } else {
                    assert(all.len() <= k);
                    field_error_value(id, owned("missing field result"))
                };
                rev.push(v);
            }
            let mut r: Vec<NvmlFieldValue> = Vec::new();
            let n = rev.len();
            while rev.len() > 0
                invariant
                    n == field_ids.len(),
                    rev@.len() + r@.len() == n,
                    forall|j: int|
                        0 <= j < rev@.len() ==> #[trigger] rev@[j]@ == aligned_field_spec(
                            field_ids@[n - 1 - j],
                            all,
                            n - 1 - j,
                        ),
                    forall|j: int|
                        0 <= j < r@.len() ==> #[trigger] r@[j]@ == aligned_field_spec(
                            field_ids@[j],
                            all,
                            j,
                        ),
                decreases rev.len(),
            {
                let ghost m = rev@.len();
                let v = rev.pop().unwrap();
                assert(v@ == rev@.push(v)[m - 1]@);
                r.push(v);
            }
            assert(field_views(r@) =~= field_values_spec(field_ids@, out));
            r
        },
    }
}

} // verus!
