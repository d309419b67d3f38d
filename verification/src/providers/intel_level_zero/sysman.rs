//! The Sysman facts of a Level Zero device: for each domain, its status and
//! count, then for each handle the handle itself, its properties and its
//! state, followed by the typed facts decoded from the raw Sysman buffers
//! (memory sizes and health, frequencies, energy and engine activity with
//! their deltas between samples).
use vstd::prelude::*;

use crate::text::{dec, dec_signed, dec_string_signed, hex_digit, owned, push_char, push_dec, push_str, str_eq};
use super::device::{
    bytes_hex, error_model, fact_model, na_model, ok_model, sysman_domain_head, sysman_head_spec, sysman_proceeds,
    scalar_model, FactModel, RawModel, ScalarModel, SysmanEnumOutcome,
};
use super::records::{DecimalText, FactRaw, FactScalar, IntelFact};
use super::{delta_spec, delta_step, latest_reading, mem_health_name, mem_health_name_spec, DeltaModel, DeltaTracker, DeltaValue};

verus! {

// ---------------------------------------------------------------------------
// Reading the raw Sysman buffers.
// ---------------------------------------------------------------------------
/// The little-endian `u32` at `off`.
pub open spec fn le_u32(b: Seq<u8>, off: int) -> u32 {
    (b[off] as u32) | ((b[off + 1] as u32) << 8u32) | ((b[off + 2] as u32) << 16u32) | ((b[off + 3] as u32)
        << 24u32)
}

/// The little-endian `u64` at `off`.
pub open spec fn le_u64(b: Seq<u8>, off: int) -> u64 {
    (b[off] as u64) | ((b[off + 1] as u64) << 8u64) | ((b[off + 2] as u64) << 16u64) | ((b[off + 3] as u64)
        << 24u64) | ((b[off + 4] as u64) << 32u64) | ((b[off + 5] as u64) << 40u64) | ((b[off + 6] as u64)
        << 48u64) | ((b[off + 7] as u64) << 56u64)
}

fn read_u32(b: &Vec<u8>, off: usize) -> (v: u32)
    requires
        off + 4 <= b.len(),
    ensures
        v == le_u32(b@, off as int),
{
    (b[off] as u32) | ((b[off + 1] as u32) << 8u32) | ((b[off + 2] as u32) << 16u32) | ((b[off + 3] as u32)
        << 24u32)
}

fn read_u64(b: &Vec<u8>, off: usize) -> (v: u64)
    requires
        off + 8 <= b.len(),
    ensures
        v == le_u64(b@, off as int),
{
    (b[off] as u64) | ((b[off + 1] as u64) << 8u64) | ((b[off + 2] as u64) << 16u64) | ((b[off + 3] as u64)
        << 24u64) | ((b[off + 4] as u64) << 32u64) | ((b[off + 5] as u64) << 40u64) | ((b[off + 6] as u64)
        << 48u64) | ((b[off + 7] as u64) << 56u64)
}

/// The bytes of a buffer up to its last byte that is not zero.
pub open spec fn trim_zero_tail(b: Seq<u8>) -> Seq<u8>
    decreases b.len(),
{
    if b.len() == 0 || b.last() != 0 {
        b
    } else {
        trim_zero_tail(b.drop_last())
    }
}

/// The hexadecimal dump of a buffer, without its trailing zero bytes.
pub open spec fn buffer_hex(b: Seq<u8>) -> Seq<char> {
    bytes_hex(trim_zero_tail(b))
}

fn buffer_hex_text(b: &Vec<u8>) -> (s: String)
    ensures
        s@ == buffer_hex(b@),
{
    let mut n: usize = b.len();
    assert(b@.take(n as int) =~= b@);
    while n > 0 && b[n - 1] == 0
        invariant
            n <= b@.len(),
            trim_zero_tail(b@.take(n as int)) == trim_zero_tail(b@),
        decreases n,
    {
        assert(b@.take(n as int).drop_last() =~= b@.take(n - 1));
        n = n - 1;
    }
    assert(trim_zero_tail(b@.take(n as int)) == b@.take(n as int));
    let mut s = String::new();
    let mut i: usize = 0;
    while i < n
        invariant
            n <= b@.len(),
            i <= n,
            s@ == bytes_hex(b@.take(i as int)),
        decreases n - i,
    {
        let x = b[i];
        push_char(&mut s, hex_digit((x / 16) as u32));
        push_char(&mut s, hex_digit((x % 16) as u32));
        assert(b@.take(i + 1).drop_last() =~= b@.take(i as int));
        i = i + 1;
    }
    s
}

// ---------------------------------------------------------------------------
// What was read of a domain and its handles.
// ---------------------------------------------------------------------------
/// The names of one Sysman domain: its key, the area it stands for, and
/// the functions that list its handles and read their properties and
/// state.
pub struct SysmanDomain {
    pub domain_key: &'static str,
    pub unavailable_label: &'static str,
    pub enum_api: &'static str,
    pub property_api: &'static str,
    pub state_api: &'static str,
}

/// How a buffer of a handle was read: the function is not exported, it
/// failed with a code, or it gave the buffer (its structure type and all
/// its bytes).
pub enum BufferOutcome {
    Missing,
    Failed(i32),
    Read { stype: u32, bytes: Vec<u8> },
}

/// How the state of a handle was read: as a buffer, or, for temperature
/// sensors, as a temperature in degrees Celsius.
pub enum StateOutcome {
    Missing,
    Failed(i32),
    Buffer { stype: u32, bytes: Vec<u8> },
    Temperature(DecimalText),
}

/// What was read of one handle: its address as text, its properties and
/// its state.
pub struct HandleReading {
    pub handle_ptr: String,
    pub property: BufferOutcome,
    pub state: StateOutcome,
}

/// The bytes of a property read, if it gave a buffer.
pub open spec fn property_bytes(h: HandleReading) -> Option<Seq<u8>> {
    match h.property {
        BufferOutcome::Read { bytes, .. } => Some(bytes@),
        _ => None,
    }
}

/// The bytes of a state read, if it gave a buffer.
pub open spec fn state_bytes(h: HandleReading) -> Option<Seq<u8>> {
    match h.state {
        StateOutcome::Buffer { bytes, .. } => Some(bytes@),
        _ => None,
    }
}

// ---------------------------------------------------------------------------
// Renderings of floating-point values, given by the caller.
// ---------------------------------------------------------------------------
/// The rendering that `float_text` gives of an `f64` from its bits: some
/// text when the value is not negative, none otherwise.
pub open spec fn float_text_of<F: Fn(u64) -> Option<DecimalText>>(float_text: F, bits: u64) -> Option<DecimalText> {
    choose|t: Option<DecimalText>| call_ensures(float_text, (bits,), t)
}

/// The rendering that `quotient` gives of `amount * scale / over`, computed
/// in `f64`.
pub open spec fn quotient_of<Q: Fn(u64, u64, u64) -> DecimalText>(quotient: Q, amount: u64, over: u64, scale: u64) -> DecimalText {
    choose|t: DecimalText| call_ensures(quotient, (amount, over, scale), t)
}

/// Both renderings can always be asked for and give one answer for one
/// argument.
pub open spec fn renderers_ok<F: Fn(u64) -> Option<DecimalText>, Q: Fn(u64, u64, u64) -> DecimalText>(
    float_text: F,
    quotient: Q,
) -> bool {
    &&& forall|bits: u64| call_requires(float_text, (bits,))
    &&& forall|a: u64, d: u64, s: u64| call_requires(quotient, (a, d, s))
    &&& forall|bits: u64, t1: Option<DecimalText>, t2: Option<DecimalText>|
        call_ensures(float_text, (bits,), t1) && call_ensures(float_text, (bits,), t2) ==> t1 == t2
    &&& forall|a: u64, d: u64, s: u64, t1: DecimalText, t2: DecimalText|
        call_ensures(quotient, (a, d, s), t1) && call_ensures(quotient, (a, d, s), t2) ==> t1 == t2
}

fn float_fact_text<F: Fn(u64) -> Option<DecimalText>, Q: Fn(u64, u64, u64) -> DecimalText>(
    float_text: &F,
    quotient: &Q,
    bits: u64,
) -> (t: Option<DecimalText>)
    requires
        renderers_ok(*float_text, *quotient),
    ensures
        t == float_text_of(*float_text, bits),
{
    let t = float_text(bits);
    proof {
        let c = float_text_of(*float_text, bits);
        assert(call_ensures(*float_text, (bits,), c));
    }
    t
}

fn quotient_text<F: Fn(u64) -> Option<DecimalText>, Q: Fn(u64, u64, u64) -> DecimalText>(
    float_text: &F,
    quotient: &Q,
    amount: u64,
    over: u64,
    scale: u64,
) -> (t: DecimalText)
    requires
        renderers_ok(*float_text, *quotient),
    ensures
        t == quotient_of(*quotient, amount, over, scale),
{
    let t = quotient(amount, over, scale);
    proof {
        let c = quotient_of(*quotient, amount, over, scale);
        assert(call_ensures(*quotient, (amount, over, scale), c));
    }
    t
}

// ---------------------------------------------------------------------------
// The typed facts of one handle.
// ---------------------------------------------------------------------------
/// A fact that holds a whole number, with its unit.
pub open spec fn number_model(key: Seq<char>, api: Seq<char>, n: u64, unit: Seq<char>) -> FactModel {
    FactModel { key, api, state: "ok"@, raw: RawModel::UInt(n), unit: Some(unit), error: None }
}

/// A fact that holds a number that is not whole, with its unit.
pub open spec fn decimal_model(key: Seq<char>, api: Seq<char>, t: DecimalText, unit: Seq<char>) -> FactModel {
    FactModel {
        key,
        api,
        state: "ok"@,
        raw: RawModel::Decimal(t.json@, t.one_decimal@, t.two_decimals@),
        unit: Some(unit),
        error: None,
    }
}

/// The key `sysman.<domain>.<index>`.
pub open spec fn handle_base(domain: Seq<char>, i: usize) -> Seq<char> {
    "sysman."@ + domain + "."@ + dec(i as nat)
}

/// The key of a handle's counter in the delta tracker: the device key, `::`,
/// and the handle's base key.
pub open spec fn delta_key(device_key: Seq<char>, domain: Seq<char>, i: usize) -> Seq<char> {
    device_key + "::"@ + handle_base(domain, i)
}

/// Whether a domain's state is a counter whose delta is tracked.
pub open spec fn is_counter_domain(domain: Seq<char>) -> bool {
    domain == "power_domains"@ || domain == "engine_groups"@
}

/// The counter reading of a handle of a counter domain, when its state
/// buffer holds one: its tracker key, value and timestamp.
pub open spec fn counter_reading(device_key: Seq<char>, domain: Seq<char>, i: usize, state: Option<Seq<u8>>) -> Option<
    (Seq<char>, u64, u64),
> {
    match state {
        Some(b) => if is_counter_domain(domain) && b.len() >= 16 {
            Some((delta_key(device_key, domain, i), le_u64(b, 0), le_u64(b, 8)))
        } else {
            None
        },
        None => None,
    }
}

/// The memory facts of a handle: the size (from the properties, or from the
/// state when the properties give none), the free bytes, the used bytes
/// when the size is known and not below the free bytes, and the health when
/// it has a name.
pub open spec fn memory_facts_spec(i: usize, papi: Seq<char>, prop: Option<Seq<u8>>, sapi: Seq<char>, state: Option<Seq<u8>>) -> Seq<
    FactModel,
> {
    let base = handle_base("memory_modules"@, i);
    let ps: Option<u64> = match prop {
        Some(b) => if b.len() >= 48 {
            Some(le_u64(b, 32))
        } else {
            None
        },
        None => None,
    };
    let st: Option<(u32, u64, u64)> = match state {
        Some(b) => if b.len() >= 40 {
            Some((le_u32(b, 16), le_u64(b, 24), le_u64(b, 32)))
        } else {
            None
        },
        None => None,
    };
    let state_size: Option<u64> = match st {
        Some((_, _, z)) => if z > 0 {
            Some(z)
        } else {
            None
        },
        None => None,
    };
    let size_facts = match ps {
        Some(p) => {
            let size = if p > 0 {
                Some(p)
            } else {
                state_size
            };
            match size {
                Some(z) => seq![number_model(base + ".size_bytes"@, papi, z, "bytes"@)],
                None => seq![],
            }
        },
        None => seq![],
    };
    let state_facts = match st {
        Some((h, free, _)) => {
            let size_for_used = match ps {
                Some(p) => if p > 0 {
                    Some(p)
                } else {
                    state_size
                },
                None => state_size,
            };
            seq![number_model(base + ".free_bytes"@, sapi, free, "bytes"@)] + (match size_for_used {
                Some(z) => if free <= z {
                    seq![number_model(base + ".used_bytes"@, sapi, (z - free) as u64, "bytes"@)]
                } else {
                    seq![]
                },
                None => seq![],
            }) + (match mem_health_name_spec(h) {
                Some(n) => seq![ok_model(base + ".health"@, sapi, RawModel::Text(n))],
                None => seq![],
            })
        },
        None => seq![],
    };
    size_facts + state_facts
}

/// A frequency fact, when its value is not negative.
pub open spec fn frequency_fact<F: Fn(u64) -> Option<DecimalText>>(float_text: F, key: Seq<char>, api: Seq<char>, bits: u64) -> Seq<
    FactModel,
> {
    match float_text_of(float_text, bits) {
        Some(t) => seq![decimal_model(key, api, t, "mhz"@)],
        None => seq![],
    }
}

/// The frequency facts of a handle: the minimum and maximum from the
/// properties, the requested and actual frequency from the state, each when
/// it is not negative.
pub open spec fn frequency_facts_spec<F: Fn(u64) -> Option<DecimalText>>(
    float_text: F,
    i: usize,
    papi: Seq<char>,
    prop: Option<Seq<u8>>,
    sapi: Seq<char>,
    state: Option<Seq<u8>>,
) -> Seq<FactModel> {
    let base = handle_base("frequency_domains"@, i);
    (match prop {
        Some(b) => if b.len() >= 56 {
            frequency_fact(float_text, base + ".min_mhz"@, papi, le_u64(b, 40)) + frequency_fact(
                float_text,
                base + ".max_mhz"@,
                papi,
                le_u64(b, 48),
            )
        } else {
            seq![]
        },
        None => seq![],
    }) + (match state {
        Some(b) => if b.len() >= 64 {
            frequency_fact(float_text, base + ".request_mhz"@, sapi, le_u64(b, 24)) + frequency_fact(
                float_text,
                base + ".actual_mhz"@,
                sapi,
                le_u64(b, 48),
            )
        } else {
            seq![]
        },
        None => seq![],
    })
}

/// The delta fact of a counter: its rendering when there is a delta, else
/// why there is none.
pub open spec fn delta_fact<Q: Fn(u64, u64, u64) -> DecimalText>(
    quotient: Q,
    key: Seq<char>,
    api: Seq<char>,
    d: DeltaModel,
    scale: u64,
    unit: Seq<char>,
) -> FactModel {
    match d {
        DeltaModel::Rate { amount, elapsed } => decimal_model(key, api, quotient_of(quotient, amount, elapsed, scale), unit),
        DeltaModel::NotAvailable(m) => na_model(key, api, m),
    }
}

/// The counter facts of a power or engine handle, against the counter's
/// previous reading `previous`.
pub open spec fn counter_facts_spec<Q: Fn(u64, u64, u64) -> DecimalText>(
    quotient: Q,
    domain: Seq<char>,
    i: usize,
    sapi: Seq<char>,
    state: Option<Seq<u8>>,
    previous: Option<(u64, u64)>,
) -> Seq<FactModel> {
    let base = handle_base(domain, i);
    match state {
        Some(b) => if b.len() >= 16 {
            let v = le_u64(b, 0);
            let t = le_u64(b, 8);
            let d = delta_spec(previous, v, t);
            if domain == "power_domains"@ {
                seq![
                    decimal_model(base + ".energy_j"@, sapi, quotient_of(quotient, v, 1000000, 1), "joules"@),
                    number_model(base + ".timestamp_ns"@, sapi, if t as int * 1000 > u64::MAX {
                        u64::MAX
                    } else {
                        (t * 1000) as u64
                    }, "ns"@),
                    delta_fact(quotient, base + ".watts_delta"@, sapi, d, 1, "watts"@),
                ]
            } else {
                seq![
                    number_model(base + ".active_time_ns"@, sapi, v, "ns"@),
                    number_model(base + ".timestamp_ns"@, sapi, t, "ns"@),
                    delta_fact(quotient, base + ".utilization_pct_delta"@, sapi, d, 100, "pct"@),
                ]
            }
        } else {
            seq![]
        },
        None => seq![],
    }
}

/// The typed facts of one handle of a domain, decoded from its property and
/// state buffers; `previous` is the counter's previous reading.
pub open spec fn typed_facts_spec<F: Fn(u64) -> Option<DecimalText>, Q: Fn(u64, u64, u64) -> DecimalText>(
    float_text: F,
    quotient: Q,
    domain: Seq<char>,
    i: usize,
    papi: Seq<char>,
    prop: Option<Seq<u8>>,
    sapi: Seq<char>,
    state: Option<Seq<u8>>,
    previous: Option<(u64, u64)>,
) -> Seq<FactModel> {
    if domain == "memory_modules"@ {
        memory_facts_spec(i, papi, prop, sapi, state)
    } else if domain == "frequency_domains"@ {
        frequency_facts_spec(float_text, i, papi, prop, sapi, state)
    } else if is_counter_domain(domain) {
        counter_facts_spec(quotient, domain, i, sapi, state, previous)
    } else {
        seq![]
    }
}

fn key_text(base: &String, leaf: &str) -> (k: String)
    ensures
        k@ == base@ + leaf@,
{
    let mut k = base.clone();
    push_str(&mut k, leaf);
    k
}

fn base_text(domain: &str, i: usize) -> (k: String)
    ensures
        k@ == handle_base(domain@, i),
{
    let mut k = owned("sysman.");
    push_str(&mut k, domain);
    push_str(&mut k, ".");
    push_dec(&mut k, i as u64);
    k
}

fn number_fact(key: String, api: &'static str, n: u64, unit: &'static str) -> (f: IntelFact)
    ensures
        fact_model(f) == number_model(key@, api@, n, unit@),
{
    IntelFact { metric_key: key, source_api: api, state: "ok", raw: FactRaw::Plain(FactScalar::UInt(n)), unit: Some(unit), error_message: None }
}

fn decimal_fact(key: String, api: &'static str, t: DecimalText, unit: &'static str) -> (f: IntelFact)
    ensures
        fact_model(f) == decimal_model(key@, api@, t, unit@),
{
    IntelFact { metric_key: key, source_api: api, state: "ok", raw: FactRaw::Plain(FactScalar::Decimal(t)), unit: Some(unit), error_message: None }
}

fn na_fact(key: String, api: &'static str, reason: String) -> (f: IntelFact)
    ensures
        fact_model(f) == na_model(key@, api@, reason@),
{
    IntelFact { metric_key: key, source_api: api, state: "not_available", raw: FactRaw::Plain(FactScalar::Null), unit: None, error_message: Some(reason) }
}

fn push_model(v: &mut Vec<IntelFact>, f: IntelFact)
    ensures
        final(v)@.map_values(|x: IntelFact| fact_model(x)) == old(v)@.map_values(|x: IntelFact| fact_model(x)).push(
            fact_model(f),
        ),
{
    let ghost before = v@;
    v.push(f);
    assert(v@.map_values(|x: IntelFact| fact_model(x)) =~= before.map_values(|x: IntelFact| fact_model(x)).push(
        fact_model(f),
    ));
}

fn memory_facts(i: usize, papi: &'static str, prop: Option<&Vec<u8>>, sapi: &'static str, state: Option<&Vec<u8>>) -> (r:
    Vec<IntelFact>)
    ensures
        r@.map_values(|x: IntelFact| fact_model(x)) == memory_facts_spec(
            i,
            papi@,
            match prop {
                Some(b) => Some(b@),
                None => None,
            },
            sapi@,
            match state {
                Some(b) => Some(b@),
                None => None,
            },
        ),
{
    let base = base_text("memory_modules", i);
    let ps: Option<u64> = match prop {
        Some(b) => if b.len() >= 48 {
            Some(read_u64(b, 32))
        } else {
            None
        },
        None => None,
    };
    let st: Option<(u32, u64, u64)> = match state {
        Some(b) => if b.len() >= 40 {
            Some((read_u32(b, 16), read_u64(b, 24), read_u64(b, 32)))
        } else {
            None
        },
        None => None,
    };
    let state_size: Option<u64> = match st {
        Some((_, _, z)) => if z > 0 {
            Some(z)
        } else {
            None
        },
        None => None,
    };
    let mut r: Vec<IntelFact> = Vec::new();
    assert(r@.map_values(|x: IntelFact| fact_model(x)) =~= Seq::<FactModel>::empty());
    if let Some(p) = ps {
        let size = if p > 0 {
            Some(p)
        } else {
            state_size
        };
        if let Some(z) = size {
            push_model(&mut r, number_fact(key_text(&base, ".size_bytes"), papi, z, "bytes"));
        }
    }
    if let Some((h, free, _)) = st {
        push_model(&mut r, number_fact(key_text(&base, ".free_bytes"), sapi, free, "bytes"));
        let size_for_used = match ps {
            Some(p) => if p > 0 {
                Some(p)
            } else {
                state_size
            },
            None => state_size,
        };
        if let Some(z) = size_for_used {
            if free <= z {
                push_model(&mut r, number_fact(key_text(&base, ".used_bytes"), sapi, z - free, "bytes"));
            }
        }
        if let Some(n) = mem_health_name(h) {
            push_model(
                &mut r,
                IntelFact {
                    metric_key: key_text(&base, ".health"),
                    source_api: sapi,
                    state: "ok",
                    raw: FactRaw::Plain(FactScalar::Text(owned(n))),
                    unit: None,
                    error_message: None,
                },
            );
        }
    }
    r
}

fn push_frequency_fact<F: Fn(u64) -> Option<DecimalText>, Q: Fn(u64, u64, u64) -> DecimalText>(
    r: &mut Vec<IntelFact>,
    float_text: &F,
    quotient: &Q,
    key: String,
    api: &'static str,
    bits: u64,
)
    requires
        renderers_ok(*float_text, *quotient),
    ensures
        final(r)@.map_values(|x: IntelFact| fact_model(x)) == old(r)@.map_values(|x: IntelFact| fact_model(x))
            + frequency_fact(*float_text, key@, api@, bits),
{
    let ghost before = r@.map_values(|x: IntelFact| fact_model(x));
    match float_fact_text(float_text, quotient, bits) {
        Some(t) => {
            push_model(r, decimal_fact(key, api, t, "mhz"));
        },
        None => {},
    }
    assert(r@.map_values(|x: IntelFact| fact_model(x)) =~= before + frequency_fact(*float_text, key@, api@, bits));
}

fn frequency_facts<F: Fn(u64) -> Option<DecimalText>, Q: Fn(u64, u64, u64) -> DecimalText>(
    float_text: &F,
    quotient: &Q,
    i: usize,
    papi: &'static str,
    prop: Option<&Vec<u8>>,
    sapi: &'static str,
    state: Option<&Vec<u8>>,
) -> (r: Vec<IntelFact>)
    requires
        renderers_ok(*float_text, *quotient),
    ensures
        r@.map_values(|x: IntelFact| fact_model(x)) == frequency_facts_spec(
            *float_text,
            i,
            papi@,
            match prop {
                Some(b) => Some(b@),
                None => None,
            },
            sapi@,
            match state {
                Some(b) => Some(b@),
                None => None,
            },
        ),
{
    let base = base_text("frequency_domains", i);
    let mut r: Vec<IntelFact> = Vec::new();
    assert(r@.map_values(|x: IntelFact| fact_model(x)) =~= Seq::<FactModel>::empty());
    if let Some(b) = prop {
        if b.len() >= 56 {
            push_frequency_fact(&mut r, float_text, quotient, key_text(&base, ".min_mhz"), papi, read_u64(b, 40));
            push_frequency_fact(&mut r, float_text, quotient, key_text(&base, ".max_mhz"), papi, read_u64(b, 48));
        }
    }
    let ghost mid = r@.map_values(|x: IntelFact| fact_model(x));
    if let Some(b) = state {
        if b.len() >= 64 {
            push_frequency_fact(&mut r, float_text, quotient, key_text(&base, ".request_mhz"), sapi, read_u64(b, 24));
            push_frequency_fact(&mut r, float_text, quotient, key_text(&base, ".actual_mhz"), sapi, read_u64(b, 48));
        }
    }
    proof {
        let sp = frequency_facts_spec(
            *float_text,
            i,
            papi@,
            match prop {
                Some(b) => Some(b@),
                None => None,
            },
            sapi@,
            match state {
                Some(b) => Some(b@),
                None => None,
            },
        );
        assert(r@.map_values(|x: IntelFact| fact_model(x)) =~= sp);
    }
    r
}

fn counter_facts<F: Fn(u64) -> Option<DecimalText>, Q: Fn(u64, u64, u64) -> DecimalText>(
    tracker: &mut DeltaTracker,
    float_text: &F,
    quotient: &Q,
    device_key: &str,
    domain: &str,
    i: usize,
    sapi: &'static str,
    state: Option<&Vec<u8>>,
) -> (r: Vec<IntelFact>)
    requires
        renderers_ok(*float_text, *quotient),
        is_counter_domain(domain@),
    ensures
        r@.map_values(|x: IntelFact| fact_model(x)) == counter_facts_spec(
            *quotient,
            domain@,
            i,
            sapi@,
            match state {
                Some(b) => Some(b@),
                None => None,
            },
            old(tracker).baseline(delta_key(device_key@, domain@, i)),
        ),
        match counter_reading(
            device_key@,
            domain@,
            i,
            match state {
                Some(b) => Some(b@),
                None => None,
            },
        ) {
            Some((k, v, t)) => delta_step(*old(tracker), k, v, t, *final(tracker)),
            None => forall|k: Seq<char>| final(tracker).baseline(k) == old(tracker).baseline(k),
        },
{
    let ghost sb = match state {
        Some(b) => Some(b@),
        None => None,
    };
    let ghost prev = tracker.baseline(delta_key(device_key@, domain@, i));
    let mut r: Vec<IntelFact> = Vec::new();
    let b = match state {
        Some(b) => b,
        None => {
            assert(r@.map_values(|x: IntelFact| fact_model(x)) =~= Seq::<FactModel>::empty());
            return r;
        },
    };
    if b.len() < 16 {
        assert(r@.map_values(|x: IntelFact| fact_model(x)) =~= Seq::<FactModel>::empty());
        return r;
    }
    let v = read_u64(b, 0);
    let t = read_u64(b, 8);
    let base = base_text(domain, i);
    let mut key = owned(device_key);
    push_str(&mut key, "::");
    push_str(&mut key, base.as_str());
    let d = tracker.update(key.as_str(), v, t);
    let is_power = str_eq(domain, "power_domains");
    let (delta_leaf, scale, unit): (&str, u64, &'static str) = if is_power {
        (".watts_delta", 1, "watts")
    } else {
        (".utilization_pct_delta", 100, "pct")
    };
    if is_power {
        push_model(&mut r, decimal_fact(key_text(&base, ".energy_j"), sapi, quotient_text(float_text, quotient, v, 1000000, 1), "joules"));
        push_model(&mut r, number_fact(key_text(&base, ".timestamp_ns"), sapi, if t > u64::MAX / 1000 {
            u64::MAX
        } else {
            t * 1000
        }, "ns"));
    } else {
        push_model(&mut r, number_fact(key_text(&base, ".active_time_ns"), sapi, v, "ns"));
        push_model(&mut r, number_fact(key_text(&base, ".timestamp_ns"), sapi, t, "ns"));
    }
    let dk = key_text(&base, delta_leaf);
    match d {
        DeltaValue::Rate { amount, elapsed } => {
            push_model(&mut r, decimal_fact(dk, sapi, quotient_text(float_text, quotient, amount, elapsed, scale), unit));
        },
        DeltaValue::NotAvailable(m) => {
            push_model(&mut r, na_fact(dk, sapi, m));
        },
    }
    proof {
        let sp = counter_facts_spec(*quotient, domain@, i, sapi@, sb, prev);
        assert(r@.map_values(|x: IntelFact| fact_model(x)) =~= sp);
    }
    r
}

/// The typed facts of one handle of a domain, decoded from the raw buffers
/// of its properties and state: memory sizes and health, frequencies, and
/// the energy and engine counters with their deltas against the previous
/// reading that `tracker` holds, which it then records.
pub fn typed_sysman_facts<F: Fn(u64) -> Option<DecimalText>, Q: Fn(u64, u64, u64) -> DecimalText>(
    tracker: &mut DeltaTracker,
    float_text: &F,
    quotient: &Q,
    device_key: &str,
    domain_key: &str,
    handle_index: usize,
    property_api: &'static str,
    property: Option<&Vec<u8>>,
    state_api: &'static str,
    state: Option<&Vec<u8>>,
) -> (r: Vec<IntelFact>)
    requires
        renderers_ok(*float_text, *quotient),
    ensures
        r@.map_values(|x: IntelFact| fact_model(x)) == typed_facts_spec(
            *float_text,
            *quotient,
            domain_key@,
            handle_index,
            property_api@,
            match property {
                Some(b) => Some(b@),
                None => None,
            },
            state_api@,
            match state {
                Some(b) => Some(b@),
                None => None,
            },
            old(tracker).baseline(delta_key(device_key@, domain_key@, handle_index)),
        ),
        match counter_reading(
            device_key@,
            domain_key@,
            handle_index,
            match state {
                Some(b) => Some(b@),
                None => None,
            },
        ) {
            Some((k, v, t)) => delta_step(*old(tracker), k, v, t, *final(tracker)),
            None => forall|k: Seq<char>| final(tracker).baseline(k) == old(tracker).baseline(k),
        },
{
    proof {
        reveal_strlit("memory_modules");
        reveal_strlit("frequency_domains");
        reveal_strlit("power_domains");
        reveal_strlit("engine_groups");
    }
    if str_eq(domain_key, "memory_modules") {
        memory_facts(handle_index, property_api, property, state_api, state)
    } else if str_eq(domain_key, "frequency_domains") {
        frequency_facts(float_text, quotient, handle_index, property_api, property, state_api, state)
    } else if str_eq(domain_key, "power_domains") || str_eq(domain_key, "engine_groups") {
        counter_facts(tracker, float_text, quotient, device_key, domain_key, handle_index, state_api, state)
    } else {
        let r: Vec<IntelFact> = Vec::new();
        assert(r@.map_values(|x: IntelFact| fact_model(x)) =~= Seq::<FactModel>::empty());
        r
    }
}


// ---------------------------------------------------------------------------
// The facts of a handle and of a domain.
// ---------------------------------------------------------------------------
/// The key of a handle's fact: `sysman.<domain>.<index>` and the leaf
/// (`.handle`, `.properties` or `.state`).
pub open spec fn handle_key(domain: Seq<char>, i: usize, leaf: Seq<char>) -> Seq<char> {
    handle_base(domain, i) + leaf
}

/// The reason given for a function that is not exported.
pub open spec fn missing_reason(api: Seq<char>) -> Seq<char> {
    "missing optional Sysman symbol "@ + api + "."@
}

/// The reason given for a read of a handle that failed with a code.
pub open spec fn failed_reason(api: Seq<char>, i: usize, code: i32) -> Seq<char> {
    api + " failed for handle index "@ + dec(i as nat) + " with status "@ + dec_signed(code as int) + "."@
}

/// The index and address members of a handle's objects.
pub open spec fn handle_members(i: usize, ptr: Seq<char>) -> Seq<(Seq<char>, ScalarModel)> {
    seq![("handle_index"@, ScalarModel::UInt(i as u64)), ("handle_ptr"@, ScalarModel::Text(ptr))]
}

/// The fact of a buffer read: its hexadecimal dump, the handle, and its
/// structure type, in key order.
pub open spec fn buffer_object(i: usize, ptr: Seq<char>, stype: u32, bytes: Seq<u8>) -> RawModel {
    RawModel::Object(
        seq![("buffer_hex"@, ScalarModel::Text(buffer_hex(bytes)))] + handle_members(i, ptr) + seq![
            ("stype"@, ScalarModel::UInt(stype as u64)),
        ],
    )
}

/// The fact of the properties of a handle.
pub open spec fn property_fact_spec(d: SysmanDomain, i: usize, h: HandleReading) -> FactModel {
    let key = handle_key(d.domain_key@, i, ".properties"@);
    let api = d.property_api@;
    match h.property {
        BufferOutcome::Missing => na_model(key, api, missing_reason(api)),
        BufferOutcome::Failed(c) => error_model(key, api, c, failed_reason(api, i, c)),
        BufferOutcome::Read { stype, bytes } => ok_model(key, api, buffer_object(i, h.handle_ptr@, stype, bytes@)),
    }
}

/// The fact of the state of a handle.
pub open spec fn state_fact_spec(d: SysmanDomain, i: usize, h: HandleReading) -> FactModel {
    let key = handle_key(d.domain_key@, i, ".state"@);
    let api = d.state_api@;
    match h.state {
        StateOutcome::Missing => na_model(key, api, missing_reason(api)),
        StateOutcome::Failed(c) => error_model(key, api, c, failed_reason(api, i, c)),
        StateOutcome::Buffer { stype, bytes } => ok_model(key, api, buffer_object(i, h.handle_ptr@, stype, bytes@)),
        StateOutcome::Temperature(t) => ok_model(
            key,
            api,
            RawModel::Object(
                handle_members(i, h.handle_ptr@) + seq![
                    ("temperature_c"@, ScalarModel::Decimal(t.json@, t.one_decimal@, t.two_decimals@)),
                ],
            ),
        ),
    }
}

/// The handle, property and state facts of a handle.
pub open spec fn handle_facts_spec(d: SysmanDomain, i: usize, h: HandleReading) -> Seq<FactModel> {
    seq![
        ok_model(handle_key(d.domain_key@, i, ".handle"@), d.enum_api@, RawModel::Object(handle_members(i, h.handle_ptr@))),
        property_fact_spec(d, i, h),
        state_fact_spec(d, i, h),
    ]
}

/// Whether a read of a handle succeeded: its properties or its state.
pub open spec fn handle_success(h: HandleReading) -> bool {
    h.property is Read || h.state is Buffer || h.state is Temperature
}

/// The counter readings of the handles, in order.
pub open spec fn readings_of(device_key: Seq<char>, domain: Seq<char>, hs: Seq<HandleReading>) -> Seq<
    (Seq<char>, u64, u64),
>
    decreases hs.len(),
{
    if hs.len() == 0 {
        Seq::empty()
    } else {
        let prev = readings_of(device_key, domain, hs.drop_last());
        match counter_reading(device_key, domain, (hs.len() - 1) as usize, state_bytes(hs.last())) {
            Some(r) => prev.push(r),
            None => prev,
        }
    }
}

/// The reading of counter `k` after the handles were read, from the tracker
/// `start` they began with.
pub open spec fn baseline_after(start: DeltaTracker, device_key: Seq<char>, domain: Seq<char>, hs: Seq<HandleReading>, k: Seq<char>) -> Option<
    (u64, u64),
> {
    match latest_reading(readings_of(device_key, domain, hs), k) {
        Some(r) => Some(r),
        None => start.baseline(k),
    }
}

/// The facts of the handles of a domain, in order: for each handle its
/// handle, property and state facts, then its typed facts.
pub open spec fn handles_facts_spec<F: Fn(u64) -> Option<DecimalText>, Q: Fn(u64, u64, u64) -> DecimalText>(
    float_text: F,
    quotient: Q,
    device_key: Seq<char>,
    d: SysmanDomain,
    hs: Seq<HandleReading>,
    start: DeltaTracker,
) -> Seq<FactModel>
    decreases hs.len(),
{
    if hs.len() == 0 {
        Seq::empty()
    } else {
        let i = (hs.len() - 1) as usize;
        let h = hs.last();
        handles_facts_spec(float_text, quotient, device_key, d, hs.drop_last(), start) + handle_facts_spec(d, i, h)
            + typed_facts_spec(
            float_text,
            quotient,
            d.domain_key@,
            i,
            d.property_api@,
            property_bytes(h),
            d.state_api@,
            state_bytes(h),
            baseline_after(start, device_key, d.domain_key@, hs.drop_last(), delta_key(device_key, d.domain_key@, i)),
        )
    }
}

fn failed_text(api: &str, i: usize, code: i32) -> (m: String)
    ensures
        m@ == failed_reason(api@, i, code),
{
    let mut m = owned(api);
    push_str(&mut m, " failed for handle index ");
    push_dec(&mut m, i as u64);
    push_str(&mut m, " with status ");
    let c = dec_string_signed(code as i64);
    push_str(&mut m, c.as_str());
    push_str(&mut m, ".");
    m
}

fn missing_text(api: &str) -> (m: String)
    ensures
        m@ == missing_reason(api@),
{
    let mut m = owned("missing optional Sysman symbol ");
    push_str(&mut m, api);
    push_str(&mut m, ".");
    m
}

fn member(name: &str, value: FactScalar) -> (m: (String, FactScalar))
    ensures
        m.0@ == name@,
        m.1 == value,
{
    (owned(name), value)
}

fn members_model(ms: &Vec<(String, FactScalar)>) -> (r: Ghost<Seq<(Seq<char>, ScalarModel)>>)
    ensures
        r@ == ms@.map_values(|m: (String, FactScalar)| (m.0@, scalar_model(m.1))),
{
    Ghost(ms@.map_values(|m: (String, FactScalar)| (m.0@, scalar_model(m.1))))
}

fn object_fact(key: String, api: &'static str, members: Vec<(String, FactScalar)>) -> (f: IntelFact)
    ensures
        fact_model(f) == ok_model(key@, api@, RawModel::Object(members@.map_values(|m: (String, FactScalar)| (m.0@, scalar_model(m.1))))),
{
    IntelFact { metric_key: key, source_api: api, state: "ok", raw: FactRaw::Object(members), unit: None, error_message: None }
}

fn error_fact_code(key: String, api: &'static str, code: i32, reason: String) -> (f: IntelFact)
    ensures
        fact_model(f) == error_model(key@, api@, code, reason@),
{
    IntelFact { metric_key: key, source_api: api, state: "error", raw: FactRaw::Plain(FactScalar::Signed(code)), unit: None, error_message: Some(reason) }
}

fn clone_text(t: &DecimalText) -> (r: DecimalText)
    ensures
        r == *t,
{
    DecimalText { json: t.json.clone(), one_decimal: t.one_decimal.clone(), two_decimals: t.two_decimals.clone() }
}

fn handle_members_vec(i: usize, ptr: &String) -> (v: Vec<(String, FactScalar)>)
    ensures
        v@.map_values(|m: (String, FactScalar)| (m.0@, scalar_model(m.1))) == handle_members(i, ptr@),
{
    let mut v: Vec<(String, FactScalar)> = Vec::new();
    v.push(member("handle_index", FactScalar::UInt(i as u64)));
    v.push(member("handle_ptr", FactScalar::Text(ptr.clone())));
    assert(v@.map_values(|m: (String, FactScalar)| (m.0@, scalar_model(m.1))) =~= handle_members(i, ptr@));
    v
}

fn buffer_members(i: usize, ptr: &String, stype: u32, bytes: &Vec<u8>) -> (v: Vec<(String, FactScalar)>)
    ensures
        RawModel::Object(v@.map_values(|m: (String, FactScalar)| (m.0@, scalar_model(m.1)))) == buffer_object(
            i,
            ptr@,
            stype,
            bytes@,
        ),
{
    let mut v: Vec<(String, FactScalar)> = Vec::new();
    v.push(member("buffer_hex", FactScalar::Text(buffer_hex_text(bytes))));
    v.push(member("handle_index", FactScalar::UInt(i as u64)));
    v.push(member("handle_ptr", FactScalar::Text(ptr.clone())));
    v.push(member("stype", FactScalar::UInt(stype as u64)));
    assert(v@.map_values(|m: (String, FactScalar)| (m.0@, scalar_model(m.1))) =~= seq![
        ("buffer_hex"@, ScalarModel::Text(buffer_hex(bytes@))),
    ] + handle_members(i, ptr@) + seq![("stype"@, ScalarModel::UInt(stype as u64))]);
    v
}

fn handle_facts(d: &SysmanDomain, i: usize, h: &HandleReading) -> (r: Vec<IntelFact>)
    ensures
        r@.map_values(|x: IntelFact| fact_model(x)) == handle_facts_spec(*d, i, *h),
{
    let base = base_text(d.domain_key, i);
    let mut r: Vec<IntelFact> = Vec::new();
    let hk = key_text(&base, ".handle");
    let hf = object_fact(hk, d.enum_api, handle_members_vec(i, &h.handle_ptr));
    assert(fact_model(hf) == handle_facts_spec(*d, i, *h)[0]);
    r.push(hf);
    let pk = key_text(&base, ".properties");
    let pf = match &h.property {
        BufferOutcome::Missing => na_fact(pk, d.property_api, missing_text(d.property_api)),
        BufferOutcome::Failed(c) => error_fact_code(pk, d.property_api, *c, failed_text(d.property_api, i, *c)),
        BufferOutcome::Read { stype, bytes } => object_fact(pk, d.property_api, buffer_members(i, &h.handle_ptr, *stype, bytes)),
    };
    assert(fact_model(pf) == property_fact_spec(*d, i, *h));
    r.push(pf);
    let sk = key_text(&base, ".state");
    let sf = match &h.state {
        StateOutcome::Missing => na_fact(sk, d.state_api, missing_text(d.state_api)),
        StateOutcome::Failed(c) => error_fact_code(sk, d.state_api, *c, failed_text(d.state_api, i, *c)),
        StateOutcome::Buffer { stype, bytes } => object_fact(sk, d.state_api, buffer_members(i, &h.handle_ptr, *stype, bytes)),
        StateOutcome::Temperature(t) => {
            let mut ms = handle_members_vec(i, &h.handle_ptr);
            let ghost before = ms@;
            ms.push(member("temperature_c", FactScalar::Decimal(clone_text(t))));
            assert(ms@.map_values(|m: (String, FactScalar)| (m.0@, scalar_model(m.1))) =~= before.map_values(
                |m: (String, FactScalar)| (m.0@, scalar_model(m.1)),
            ) + seq![("temperature_c"@, ScalarModel::Decimal(t.json@, t.one_decimal@, t.two_decimals@))]);
            object_fact(sk, d.state_api, ms)
        },
    };
    assert(fact_model(sf) == state_fact_spec(*d, i, *h));
    r.push(sf);
    assert(r@.map_values(|x: IntelFact| fact_model(x)) =~= handle_facts_spec(*d, i, *h));
    r
}

fn property_buffer(h: &HandleReading) -> (b: Option<&Vec<u8>>)
    ensures
        match b {
            Some(v) => property_bytes(*h) == Some(v@),
            None => property_bytes(*h) is None,
        },
{
    match &h.property {
        BufferOutcome::Read { bytes, .. } => Some(bytes),
        _ => None,
    }
}

fn state_buffer(h: &HandleReading) -> (b: Option<&Vec<u8>>)
    ensures
        match b {
            Some(v) => state_bytes(*h) == Some(v@),
            None => state_bytes(*h) is None,
        },
{
    match &h.state {
        StateOutcome::Buffer { bytes, .. } => Some(bytes),
        _ => None,
    }
}

fn succeeded(h: &HandleReading) -> (b: bool)
    ensures
        b == handle_success(*h),
{
    let p = match &h.property {
        BufferOutcome::Read { .. } => true,
        _ => false,
    };
    let s = match &h.state {
        StateOutcome::Buffer { .. } => true,
        StateOutcome::Temperature(_) => true,
        _ => false,
    };
    p || s
}

proof fn lemma_latest_push(rs: Seq<(Seq<char>, u64, u64)>, r: (Seq<char>, u64, u64), k: Seq<char>)
    ensures
        latest_reading(rs.push(r), k) == (if r.0 == k {
            Some((r.1, r.2))
        } else {
            latest_reading(rs, k)
        }),
{
    assert(rs.push(r).drop_last() =~= rs);
}

/// The Sysman facts of one domain of a device: its status and count facts,
/// then, when handles were listed, each handle's facts and typed facts in
/// order; and the domain's area as unavailable when its handles were not
/// read or no read of any handle succeeded. The counters read are recorded
/// in `tracker`.
pub fn sysman_domain_facts<F: Fn(u64) -> Option<DecimalText>, Q: Fn(u64, u64, u64) -> DecimalText>(
    tracker: &mut DeltaTracker,
    float_text: &F,
    quotient: &Q,
    device_key: &str,
    domain: &SysmanDomain,
    outcome: SysmanEnumOutcome,
    handles: &Vec<HandleReading>,
) -> (r: (Vec<IntelFact>, Vec<&'static str>))
    requires
        renderers_ok(*float_text, *quotient),
    ensures
        r.0@.map_values(|x: IntelFact| fact_model(x)) == sysman_head_spec(domain.domain_key@, domain.enum_api@, outcome)
            + (if sysman_proceeds(outcome) {
            handles_facts_spec(*float_text, *quotient, device_key@, *domain, handles@, *old(tracker))
        } else {
            Seq::<FactModel>::empty()
        }),
        r.1@ == (if sysman_proceeds(outcome) && exists|i: int| 0 <= i < handles@.len() && handle_success(#[trigger] handles@[i]) {
            Seq::<&'static str>::empty()
        } else {
            seq![domain.unavailable_label]
        }),
        forall|k: Seq<char>|
            #[trigger] final(tracker).baseline(k) == (if sysman_proceeds(outcome) {
                baseline_after(*old(tracker), device_key@, domain.domain_key@, handles@, k)
            } else {
                old(tracker).baseline(k)
            }),
{
    let ghost o = outcome;
    let ghost start = *tracker;
    let ghost hs = handles@;
    let ghost dk = domain.domain_key@;
    let (mut facts, mut unavailable, proceed) = sysman_domain_head(domain.domain_key, domain.enum_api, domain.unavailable_label, outcome);
    if !proceed {
        assert(facts@.map_values(|x: IntelFact| fact_model(x)) =~= sysman_head_spec(dk, domain.enum_api@, o)
            + Seq::<FactModel>::empty());
        return (facts, unavailable);
    }
    let ghost head = facts@.map_values(|x: IntelFact| fact_model(x));
    let mut saw = false;
    let mut j: usize = 0;
    while j < handles.len()
        invariant
            renderers_ok(*float_text, *quotient),
            hs == handles@,
            dk == domain.domain_key@,
            j <= hs.len(),
            head == sysman_head_spec(dk, domain.enum_api@, o),
            facts@.map_values(|x: IntelFact| fact_model(x)) == head + handles_facts_spec(
                *float_text,
                *quotient,
                device_key@,
                *domain,
                hs.take(j as int),
                start,
            ),
            forall|k: Seq<char>| #[trigger] tracker.baseline(k) == baseline_after(start, device_key@, dk, hs.take(j as int), k),
            saw == exists|i: int| 0 <= i < j && handle_success(#[trigger] hs[i]),
        decreases hs.len() - j,
    {
        let h = &handles[j];
        let ghost before_tracker = *tracker;
        let ghost before = facts@.map_values(|x: IntelFact| fact_model(x));
        let hf = handle_facts(domain, j, h);
        let tf = typed_sysman_facts(
            tracker,
            float_text,
            quotient,
            device_key,
            domain.domain_key,
            j,
            domain.property_api,
            property_buffer(h),
            domain.state_api,
            state_buffer(h),
        );
        let ghost hfm = hf@.map_values(|x: IntelFact| fact_model(x));
        let ghost tfm = tf@.map_values(|x: IntelFact| fact_model(x));
        let mut hf = hf;
        let mut tf = tf;
        facts.append(&mut hf);
        facts.append(&mut tf);
        if succeeded(h) {
            saw = true;
        }
        proof {
            let t = hs.take(j + 1);
            assert(t.drop_last() =~= hs.take(j as int));
            assert(t.last() == hs[j as int]);
            assert(facts@.map_values(|x: IntelFact| fact_model(x)) =~= before + hfm + tfm);
            assert(before + hfm + tfm =~= head + handles_facts_spec(*float_text, *quotient, device_key@, *domain, t, start));
            let rs = readings_of(device_key@, dk, hs.take(j as int));
            assert forall|k: Seq<char>| #[trigger] tracker.baseline(k) == baseline_after(start, device_key@, dk, t, k) by {
                match counter_reading(device_key@, dk, j, state_bytes(hs[j as int])) {
                    Some(r) => {
                        lemma_latest_push(rs, r, k);
                    },
                    None => {},
                }
            }
        }
        j = j + 1;
    }
    proof {
        assert(hs.take(hs.len() as int) =~= hs);
    }
    if !saw {
        unavailable.push(domain.unavailable_label);
    }
    proof {
        assert(unavailable@ =~= (if sysman_proceeds(o) && exists|i: int| 0 <= i < hs.len() && handle_success(#[trigger] hs[i]) {
            Seq::<&'static str>::empty()
        } else {
            seq![domain.unavailable_label]
        }));
    }
    (facts, unavailable)
}


/// Whether a domain has the given names.
pub open spec fn domain_is(d: SysmanDomain, key: Seq<char>, label: Seq<char>, enum_api: Seq<char>, property_api: Seq<char>, state_api: Seq<char>) -> bool {
    d.domain_key@ == key && d.unavailable_label@ == label && d.enum_api@ == enum_api && d.property_api@ == property_api
        && d.state_api@ == state_api
}

/// The Sysman domains read of every device, in the order their facts are
/// listed: engine groups, memory modules, power domains, temperature
/// sensors and frequency domains.
pub fn sysman_domains() -> (r: Vec<SysmanDomain>)
    ensures
        r@.len() == 5,
        domain_is(r@[0], "engine_groups"@, "activity"@, "zesDeviceEnumEngineGroups"@, "zesEngineGetProperties"@, "zesEngineGetActivity"@),
        domain_is(r@[1], "memory_modules"@, "memory"@, "zesDeviceEnumMemoryModules"@, "zesMemoryGetProperties"@, "zesMemoryGetState"@),
        domain_is(r@[2], "power_domains"@, "power"@, "zesDeviceEnumPowerDomains"@, "zesPowerGetProperties"@, "zesPowerGetEnergyCounter"@),
        domain_is(r@[3], "temperature_sensors"@, "temperature"@, "zesDeviceEnumTemperatureSensors"@, "zesTemperatureGetProperties"@, "zesTemperatureGetState"@),
        domain_is(r@[4], "frequency_domains"@, "frequency"@, "zesDeviceEnumFrequencyDomains"@, "zesFrequencyGetProperties"@, "zesFrequencyGetState"@),
{
    let mut r: Vec<SysmanDomain> = Vec::new();
    r.push(SysmanDomain { domain_key: "engine_groups", unavailable_label: "activity", enum_api: "zesDeviceEnumEngineGroups", property_api: "zesEngineGetProperties", state_api: "zesEngineGetActivity" });
    r.push(SysmanDomain { domain_key: "memory_modules", unavailable_label: "memory", enum_api: "zesDeviceEnumMemoryModules", property_api: "zesMemoryGetProperties", state_api: "zesMemoryGetState" });
    r.push(SysmanDomain { domain_key: "power_domains", unavailable_label: "power", enum_api: "zesDeviceEnumPowerDomains", property_api: "zesPowerGetProperties", state_api: "zesPowerGetEnergyCounter" });
    r.push(SysmanDomain { domain_key: "temperature_sensors", unavailable_label: "temperature", enum_api: "zesDeviceEnumTemperatureSensors", property_api: "zesTemperatureGetProperties", state_api: "zesTemperatureGetState" });
    r.push(SysmanDomain { domain_key: "frequency_domains", unavailable_label: "frequency", enum_api: "zesDeviceEnumFrequencyDomains", property_api: "zesFrequencyGetProperties", state_api: "zesFrequencyGetState" });
    r
}

} // verus!
