//! The record of one Level Zero device, from what `zeDeviceGetProperties`
//! gave for it and the Sysman facts read of it: its key, its identity
//! facts, and the areas it could not report.
use vstd::prelude::*;

use crate::text::{dec, dec_signed, dec_string_signed, hex_char, hex_digit, owned, push_char, push_dec, push_str};
use super::records::{hex4_padded, push_hex4_padded, DeviceRecord, FactRaw, FactScalar, IntelFact};
use super::{ze_device_type_name, ze_device_type_name_spec};

verus! {

/// What `zeDeviceGetProperties` reported of a device, as plain values.
pub struct DeviceProperties {
    pub name: String,
    pub device_type: u32,
    pub vendor_id: u32,
    pub device_id: u32,
    pub core_clock_rate: u32,
    pub uuid: Vec<u8>,
}

/// How the properties call of a device went: its properties, a result code
/// other than success, or an error before any code.
pub enum PropertiesOutcome {
    Read(DeviceProperties),
    Failed(i32),
    CallError(String),
}

/// The key of a device: its driver and device index, and, with properties,
/// its vendor and device IDs as four hexadecimal digits.
pub open spec fn device_key_spec(driver_index: usize, device_index: usize, props: PropertiesOutcome) -> Seq<char> {
    let base = "driver="@ + dec(driver_index as nat) + ",device="@ + dec(device_index as nat);
    match props {
        PropertiesOutcome::Read(p) => base + ",vendor=0x"@ + hex4_padded(p.vendor_id as nat) + ",device=0x"@
            + hex4_padded(p.device_id as nat),
        _ => base,
    }
}

/// The device key of a device.
pub fn device_key(driver_index: usize, device_index: usize, props: &PropertiesOutcome) -> (k: String)
    ensures
        k@ == device_key_spec(driver_index, device_index, *props),
{
    let mut k = owned("driver=");
    push_dec(&mut k, driver_index as u64);
    push_str(&mut k, ",device=");
    push_dec(&mut k, device_index as u64);
    match props {
        PropertiesOutcome::Read(p) => {
            push_str(&mut k, ",vendor=0x");
            push_hex4_padded(&mut k, p.vendor_id as u64);
            push_str(&mut k, ",device=0x");
            push_hex4_padded(&mut k, p.device_id as u64);
        },
        _ => {},
    }
    k
}

/// Two lowercase hexadecimal digits per byte (`{:02x}` of each).
pub open spec fn bytes_hex(bytes: Seq<u8>) -> Seq<char>
    decreases bytes.len(),
{
    if bytes.len() == 0 {
        Seq::empty()
    } else {
        bytes_hex(bytes.drop_last()) + seq![
            hex_char((bytes.last() / 16) as nat),
            hex_char((bytes.last() % 16) as nat),
        ]
    }
}

/// Whether some byte is not zero.
pub open spec fn any_nonzero(bytes: Seq<u8>) -> bool {
    exists|i: int| 0 <= i < bytes.len() && bytes[i] != 0
}

fn uuid_hex(bytes: &Vec<u8>) -> (r: (String, bool))
    ensures
        r.0@ == bytes_hex(bytes@),
        r.1 == any_nonzero(bytes@),
{
    let mut s = String::new();
    let mut nonzero = false;
    let mut i: usize = 0;
    while i < bytes.len()
        invariant
            i <= bytes@.len(),
            s@ == bytes_hex(bytes@.take(i as int)),
            nonzero == exists|j: int| 0 <= j < i && bytes@[j] != 0,
        decreases bytes.len() - i,
    {
        let b = bytes[i];
        push_char(&mut s, hex_digit((b / 16) as u32));
        push_char(&mut s, hex_digit((b % 16) as u32));
        assert(bytes@.take(i + 1).drop_last() =~= bytes@.take(i as int));
        if b != 0 {
            nonzero = true;
        }
        i = i + 1;
    }
    assert(bytes@.take(bytes@.len() as int) =~= bytes@);
    (s, nonzero)
}

/// A fact read through its views: key, function, state, unit and error.
pub open spec fn fact_is(
    f: IntelFact,
    key: Seq<char>,
    api: Seq<char>,
    state: Seq<char>,
    unit: Option<&'static str>,
    error: Option<Seq<char>>,
) -> bool {
    &&& f.metric_key@ == key
    &&& f.source_api@ == api
    &&& f.state@ == state
    &&& f.unit == unit
    &&& match f.error_message {
        Some(m) => error == Some(m@),
        None => error is None,
    }
}

/// Whether a fact's raw value is the text `t`.
pub open spec fn raw_text_is(f: IntelFact, t: Seq<char>) -> bool {
    f.raw matches FactRaw::Plain(FactScalar::Text(s)) && s@ == t
}

/// The message of a failed properties call.
pub open spec fn properties_error_spec(driver_index: usize, device_index: usize, props: PropertiesOutcome) -> Seq<
    char,
> {
    match props {
        PropertiesOutcome::Failed(code) => "zeDeviceGetProperties failed for driver "@ + dec(driver_index as nat)
            + " device "@ + dec(device_index as nat) + " with status "@ + dec_signed(code as int) + "."@,
        PropertiesOutcome::CallError(m) => m@,
        PropertiesOutcome::Read(_) => Seq::empty(),
    }
}

/// The identity facts that come before the Sysman facts: the device key,
/// then with properties the name (not available when empty), type, vendor
/// and device IDs, core clock and, when some byte of it is set, the UUID;
/// without them, an error on the name.
pub open spec fn identity_facts_ok(facts: Seq<IntelFact>, key: Seq<char>, props: PropertiesOutcome, driver_index: usize, device_index: usize) -> bool {
    &&& fact_is(facts[0], "device_key"@, "wtg.intel.level_zero.device_key"@, "ok"@, None, None)
    &&& raw_text_is(facts[0], key)
    &&& match props {
        PropertiesOutcome::Read(p) => {
            &&& (if p.name@.len() == 0 {
                &&& fact_is(
                    facts[1],
                    "device_name"@,
                    "zeDeviceGetProperties"@,
                    "not_available"@,
                    None,
                    Some("Level Zero returned an empty device name."@),
                )
                &&& facts[1].raw == FactRaw::Plain(FactScalar::Null)
            } else {
                &&& fact_is(facts[1], "device_name"@, "zeDeviceGetProperties"@, "ok"@, None, None)
                &&& raw_text_is(facts[1], p.name@)
            })
            &&& fact_is(facts[2], "device_type"@, "zeDeviceGetProperties"@, "ok"@, None, None)
            &&& raw_text_is(facts[2], ze_device_type_name_spec(p.device_type))
            &&& fact_is(facts[3], "vendor_id"@, "zeDeviceGetProperties"@, "ok"@, None, None)
            &&& facts[3].raw == FactRaw::Plain(FactScalar::UInt(p.vendor_id as u64))
            &&& fact_is(facts[4], "device_id"@, "zeDeviceGetProperties"@, "ok"@, None, None)
            &&& facts[4].raw == FactRaw::Plain(FactScalar::UInt(p.device_id as u64))
            &&& fact_is(facts[5], "core_clock_mhz"@, "zeDeviceGetProperties"@, "ok"@, Some("mhz"), None)
            &&& facts[5].raw == FactRaw::Plain(FactScalar::UInt(p.core_clock_rate as u64))
            &&& any_nonzero(p.uuid@) ==> {
                &&& fact_is(facts[6], "uuid"@, "zeDeviceGetProperties"@, "ok"@, None, None)
                &&& raw_text_is(facts[6], bytes_hex(p.uuid@))
            }
        },
        _ => {
            &&& fact_is(
                facts[1],
                "device_name"@,
                "zeDeviceGetProperties"@,
                "error"@,
                None,
                Some(properties_error_spec(driver_index, device_index, props)),
            )
            &&& facts[1].raw == FactRaw::Plain(FactScalar::Null)
        },
    }
}

/// How many identity facts come before the Sysman facts.
pub open spec fn identity_fact_count(props: PropertiesOutcome) -> nat {
    match props {
        PropertiesOutcome::Read(p) => if any_nonzero(p.uuid@) {
            7
        } else {
            6
        },
        _ => 2,
    }
}

/// The areas named unavailable by the properties: the name when it is
/// empty; the name and type when there are no properties.
pub open spec fn identity_unavailable(props: PropertiesOutcome) -> Seq<Seq<char>> {
    match props {
        PropertiesOutcome::Read(p) => if p.name@.len() == 0 {
            seq!["name"@]
        } else {
            seq![]
        },
        _ => seq!["name"@, "type"@],
    }
}

fn fact(metric_key: &str, source_api: &'static str, state: &'static str, raw: FactRaw, unit: Option<&'static str>, error_message: Option<String>) -> (f: IntelFact)
    ensures
        f.metric_key@ == metric_key@,
        f.source_api == source_api,
        f.state == state,
        f.raw == raw,
        f.unit == unit,
        f.error_message == error_message,
{
    IntelFact { metric_key: owned(metric_key), source_api, state, raw, unit, error_message }
}

fn identity_facts(driver_index: usize, device_index: usize, key: &String, props: PropertiesOutcome) -> (r: (Vec<IntelFact>, Vec<&'static str>))
    ensures
        r.0@.len() == identity_fact_count(props),
        identity_facts_ok(r.0@, key@, props, driver_index, device_index),
        r.1@.map_values(|a: &'static str| a@) == identity_unavailable(props),
{
    let ghost gprops = props;
    let mut facts: Vec<IntelFact> = Vec::new();
    let mut unavailable: Vec<&'static str> = Vec::new();
    facts.push(fact("device_key", "wtg.intel.level_zero.device_key", "ok", FactRaw::Plain(FactScalar::Text(key.clone())), None, None));
    match props {
        PropertiesOutcome::Read(p) => {
            let ghost gp = p;
            if p.name.as_str().unicode_len() == 0 {
                facts.push(fact("device_name", "zeDeviceGetProperties", "not_available", FactRaw::Plain(FactScalar::Null), None, Some(owned("Level Zero returned an empty device name."))));
                unavailable.push("name");
            } else {
                facts.push(fact("device_name", "zeDeviceGetProperties", "ok", FactRaw::Plain(FactScalar::Text(p.name)), None, None));
            }
            facts.push(fact("device_type", "zeDeviceGetProperties", "ok", FactRaw::Plain(FactScalar::Text(owned(ze_device_type_name(p.device_type)))), None, None));
            facts.push(fact("vendor_id", "zeDeviceGetProperties", "ok", FactRaw::Plain(FactScalar::UInt(p.vendor_id as u64)), None, None));
            facts.push(fact("device_id", "zeDeviceGetProperties", "ok", FactRaw::Plain(FactScalar::UInt(p.device_id as u64)), None, None));
            facts.push(fact("core_clock_mhz", "zeDeviceGetProperties", "ok", FactRaw::Plain(FactScalar::UInt(p.core_clock_rate as u64)), Some("mhz"), None));
            let (hex, nonzero) = uuid_hex(&p.uuid);
            if nonzero {
                facts.push(fact("uuid", "zeDeviceGetProperties", "ok", FactRaw::Plain(FactScalar::Text(hex)), None, None));
            }
            proof {
                reveal_strlit("name");
                assert(unavailable@.map_values(|a: &'static str| a@) =~= identity_unavailable(gprops));
            }
        },
        PropertiesOutcome::Failed(code) => {
            let mut m = owned("zeDeviceGetProperties failed for driver ");
            push_dec(&mut m, driver_index as u64);
            push_str(&mut m, " device ");
            push_dec(&mut m, device_index as u64);
            push_str(&mut m, " with status ");
            let c = dec_string_signed(code as i64);
            push_str(&mut m, c.as_str());
            push_str(&mut m, ".");
            assert(m@ =~= properties_error_spec(driver_index, device_index, gprops));
            facts.push(fact("device_name", "zeDeviceGetProperties", "error", FactRaw::Plain(FactScalar::Null), None, Some(m)));
            unavailable.push("name");
            unavailable.push("type");
            proof {
                assert(unavailable@.map_values(|a: &'static str| a@) =~= identity_unavailable(gprops));
            }
        },
        PropertiesOutcome::CallError(m) => {
            facts.push(fact("device_name", "zeDeviceGetProperties", "error", FactRaw::Plain(FactScalar::Null), None, Some(m)));
            unavailable.push("name");
            unavailable.push("type");
            proof {
                assert(unavailable@.map_values(|a: &'static str| a@) =~= identity_unavailable(gprops));
            }
        },
    }
    (facts, unavailable)
}

/// The record of a device: its key, its identity facts followed by the
/// Sysman facts read of it under that key, and the areas it could not
/// report, those of its properties first, then those of Sysman.
pub fn build_device_record(
    driver_index: usize,
    device_index: usize,
    props: PropertiesOutcome,
    sysman_facts: Vec<IntelFact>,
    sysman_unavailable: Vec<&'static str>,
) -> (r: DeviceRecord)
    ensures
        r.driver_index == driver_index,
        r.device_index == device_index,
        r.key@ == device_key_spec(driver_index, device_index, props),
        r.facts@.len() == identity_fact_count(props) + sysman_facts@.len(),
        identity_facts_ok(r.facts@, r.key@, props, driver_index, device_index),
        r.facts@.skip(identity_fact_count(props) as int) == sysman_facts@,
        r.unavailable@.map_values(|a: &'static str| a@) == identity_unavailable(props)
            + sysman_unavailable@.map_values(|a: &'static str| a@),
{
    let key = device_key(driver_index, device_index, &props);
    let (mut facts, mut unavailable) = identity_facts(driver_index, device_index, &key, props);
    let ghost id_facts = facts@;
    let ghost id_unavailable = unavailable@;
    let mut sysman_facts = sysman_facts;
    let mut sysman_unavailable = sysman_unavailable;
    let ghost sf = sysman_facts@;
    let ghost su = sysman_unavailable@;
    facts.append(&mut sysman_facts);
    unavailable.append(&mut sysman_unavailable);
    proof {
        assert(facts@ == id_facts + sf);
        assert(facts@.skip(id_facts.len() as int) =~= sf);
        assert(unavailable@.map_values(|a: &'static str| a@) =~= id_unavailable.map_values(|a: &'static str| a@)
            + su.map_values(|a: &'static str| a@));
        assert forall|j: int| 0 <= j < id_facts.len() implies facts@[j] == id_facts[j] by {}
    }
    DeviceRecord { driver_index, device_index, key, facts, unavailable }
}

} // verus!

verus! {

/// How the handles of one Sysman domain of a device were enumerated: Sysman
/// was not initialised, the enumeration function is not exported, counting
/// failed with a code, listing the counted handles failed with a code, or
/// the handles were listed (possibly none).
pub enum SysmanEnumOutcome {
    NotReady,
    MissingSymbol,
    CountFailed(i32),
    HandlesFailed { count: u32, code: i32 },
    Listed(u32),
}

/// A plain value, as values.
pub enum ScalarModel {
    Null,
    Bool(bool),
    UInt(u64),
    Signed(i32),
    /// A number that is not whole: its JSON text and its renderings with one
    /// and with two decimals.
    Decimal(Seq<char>, Seq<char>, Seq<char>),
    Text(Seq<char>),
}

/// A raw value, as values.
pub enum RawModel {
    Null,
    Bool(bool),
    UInt(u64),
    Signed(i32),
    Decimal(Seq<char>, Seq<char>, Seq<char>),
    Text(Seq<char>),
    Object(Seq<(Seq<char>, ScalarModel)>),
}

/// A plain value as values.
pub open spec fn scalar_model(s: FactScalar) -> ScalarModel {
    match s {
        FactScalar::Null => ScalarModel::Null,
        FactScalar::Bool(b) => ScalarModel::Bool(b),
        FactScalar::UInt(n) => ScalarModel::UInt(n),
        FactScalar::Signed(n) => ScalarModel::Signed(n),
        FactScalar::Decimal(d) => ScalarModel::Decimal(d.json@, d.one_decimal@, d.two_decimals@),
        FactScalar::Text(t) => ScalarModel::Text(t@),
    }
}

/// A raw value as values.
pub open spec fn raw_model(r: FactRaw) -> RawModel {
    match r {
        FactRaw::Plain(FactScalar::Null) => RawModel::Null,
        FactRaw::Plain(FactScalar::Bool(b)) => RawModel::Bool(b),
        FactRaw::Plain(FactScalar::UInt(n)) => RawModel::UInt(n),
        FactRaw::Plain(FactScalar::Signed(n)) => RawModel::Signed(n),
        FactRaw::Plain(FactScalar::Decimal(d)) => RawModel::Decimal(d.json@, d.one_decimal@, d.two_decimals@),
        FactRaw::Plain(FactScalar::Text(t)) => RawModel::Text(t@),
        FactRaw::Object(ms) => RawModel::Object(ms@.map_values(|m: (String, FactScalar)| (m.0@, scalar_model(m.1)))),
    }
}

/// A fact, as values.
pub struct FactModel {
    pub key: Seq<char>,
    pub api: Seq<char>,
    pub state: Seq<char>,
    pub raw: RawModel,
    pub unit: Option<Seq<char>>,
    pub error: Option<Seq<char>>,
}

/// A fact as values.
pub open spec fn fact_model(f: IntelFact) -> FactModel {
    FactModel {
        key: f.metric_key@,
        api: f.source_api@,
        state: f.state@,
        raw: raw_model(f.raw),
        unit: match f.unit {
            Some(u) => Some(u@),
            None => None,
        },
        error: match f.error_message {
            Some(m) => Some(m@),
            None => None,
        },
    }
}

/// The key `sysman.<domain>.<leaf>`.
pub open spec fn sysman_key(domain: Seq<char>, leaf: Seq<char>) -> Seq<char> {
    "sysman."@ + domain + "."@ + leaf
}

/// A fact that was not available, with the reason.
pub open spec fn na_model(key: Seq<char>, api: Seq<char>, reason: Seq<char>) -> FactModel {
    FactModel { key, api, state: "not_available"@, raw: RawModel::Null, unit: None, error: Some(reason) }
}

/// A fact whose call failed with a code.
pub open spec fn error_model(key: Seq<char>, api: Seq<char>, code: i32, reason: Seq<char>) -> FactModel {
    FactModel { key, api, state: "error"@, raw: RawModel::Signed(code), unit: None, error: Some(reason) }
}

/// A fact that was read.
pub open spec fn ok_model(key: Seq<char>, api: Seq<char>, raw: RawModel) -> FactModel {
    FactModel { key, api, state: "ok"@, raw, unit: None, error: None }
}

/// The status and count facts of a Sysman domain, by how its handles were
/// enumerated with the function `api`.
pub open spec fn sysman_head_spec(domain: Seq<char>, api: Seq<char>, o: SysmanEnumOutcome) -> Seq<FactModel> {
    let status = sysman_key(domain, "status"@);
    let count = sysman_key(domain, "count"@);
    match o {
        SysmanEnumOutcome::NotReady => {
            let m = "Intel Sysman is unavailable because zesInit did not complete successfully."@;
            seq![na_model(status, api, m), na_model(count, api, m)]
        },
        SysmanEnumOutcome::MissingSymbol => {
            let m = "missing optional Sysman symbol "@ + api + "."@;
            seq![na_model(status, api, m), na_model(count, api, m)]
        },
        SysmanEnumOutcome::CountFailed(c) => {
            let m = api + "(count) failed with status "@ + dec_signed(c as int) + "."@;
            seq![error_model(status, api, c, m), error_model(count, api, c, m)]
        },
        SysmanEnumOutcome::HandlesFailed { count: n, code: c } => seq![
            ok_model(count, api, RawModel::UInt(n as u64)),
            error_model(status, api, c, api + "(handles) failed with status "@ + dec_signed(c as int) + "."@),
        ],
        SysmanEnumOutcome::Listed(n) => if n == 0 {
            seq![
                ok_model(count, api, RawModel::UInt(0)),
                na_model(status, api, api + " returned zero handles."@),
            ]
        } else {
            seq![ok_model(count, api, RawModel::UInt(n as u64)), ok_model(status, api, RawModel::Text("ok"@))]
        },
    }
}

/// Whether the handles of the domain are read one by one: only when some
/// were listed.
pub open spec fn sysman_proceeds(o: SysmanEnumOutcome) -> bool {
    o matches SysmanEnumOutcome::Listed(n) && n > 0
}

fn sysman_key_text(domain: &str, leaf: &str) -> (k: String)
    ensures
        k@ == sysman_key(domain@, leaf@),
{
    let mut k = owned("sysman.");
    push_str(&mut k, domain);
    push_str(&mut k, ".");
    push_str(&mut k, leaf);
    k
}

fn with_code(api: &str, middle: &str, code: i32) -> (m: String)
    ensures
        m@ == api@ + middle@ + dec_signed(code as int) + "."@,
{
    let mut m = owned(api);
    push_str(&mut m, middle);
    let c = dec_string_signed(code as i64);
    push_str(&mut m, c.as_str());
    push_str(&mut m, ".");
    m
}

fn na(key: String, api: &'static str, reason: String) -> (f: IntelFact)
    ensures
        fact_model(f) == na_model(key@, api@, reason@),
{
    IntelFact { metric_key: key, source_api: api, state: "not_available", raw: FactRaw::Plain(FactScalar::Null), unit: None, error_message: Some(reason) }
}

fn err(key: String, api: &'static str, code: i32, reason: String) -> (f: IntelFact)
    ensures
        fact_model(f) == error_model(key@, api@, code, reason@),
{
    IntelFact { metric_key: key, source_api: api, state: "error", raw: FactRaw::Plain(FactScalar::Signed(code)), unit: None, error_message: Some(reason) }
}

fn ok_count(key: String, api: &'static str, n: u32) -> (f: IntelFact)
    ensures
        fact_model(f) == ok_model(key@, api@, RawModel::UInt(n as u64)),
{
    IntelFact { metric_key: key, source_api: api, state: "ok", raw: FactRaw::Plain(FactScalar::UInt(n as u64)), unit: None, error_message: None }
}

/// The status and count facts of one Sysman domain of a device, the area
/// it names unavailable when its handles are not read (`label`), and
/// whether its handles are read one by one.
pub fn sysman_domain_head(domain_key: &str, enum_api: &'static str, label: &'static str, outcome: SysmanEnumOutcome) -> (r: (
    Vec<IntelFact>,
    Vec<&'static str>,
    bool,
))
    ensures
        r.0@.map_values(|f: IntelFact| fact_model(f)) == sysman_head_spec(domain_key@, enum_api@, outcome),
        r.1@ == (if sysman_proceeds(outcome) {
            Seq::<&'static str>::empty()
        } else {
            seq![label]
        }),
        r.2 == sysman_proceeds(outcome),
{
    let ghost o = outcome;
    let status = sysman_key_text(domain_key, "status");
    let count = sysman_key_text(domain_key, "count");
    let mut facts: Vec<IntelFact> = Vec::new();
    let mut unavailable: Vec<&'static str> = Vec::new();
    let mut proceed = false;
    match outcome {
        SysmanEnumOutcome::NotReady => {
            facts.push(na(status, enum_api, owned("Intel Sysman is unavailable because zesInit did not complete successfully.")));
            facts.push(na(count, enum_api, owned("Intel Sysman is unavailable because zesInit did not complete successfully.")));
        },
        SysmanEnumOutcome::MissingSymbol => {
            let mut m = owned("missing optional Sysman symbol ");
            push_str(&mut m, enum_api);
            push_str(&mut m, ".");
            let m2 = m.clone();
            facts.push(na(status, enum_api, m));
            facts.push(na(count, enum_api, m2));
        },
        SysmanEnumOutcome::CountFailed(c) => {
            facts.push(err(status, enum_api, c, with_code(enum_api, "(count) failed with status ", c)));
            facts.push(err(count, enum_api, c, with_code(enum_api, "(count) failed with status ", c)));
        },
        SysmanEnumOutcome::HandlesFailed { count: n, code: c } => {
            facts.push(ok_count(count, enum_api, n));
            facts.push(err(status, enum_api, c, with_code(enum_api, "(handles) failed with status ", c)));
        },
        SysmanEnumOutcome::Listed(n) => {
            facts.push(ok_count(count, enum_api, n));
            if n == 0 {
                let mut m = owned(enum_api);
                push_str(&mut m, " returned zero handles.");
                facts.push(na(status, enum_api, m));
            } else {
                facts.push(IntelFact {
                    metric_key: status,
                    source_api: enum_api,
                    state: "ok",
                    raw: FactRaw::Plain(FactScalar::Text(owned("ok"))),
                    unit: None,
                    error_message: None,
                });
                proceed = true;
            }
        },
    }
    if !proceed {
        unavailable.push(label);
    }
    proof {
        assert(facts@.map_values(|f: IntelFact| fact_model(f)) =~= sysman_head_spec(domain_key@, enum_api@, o));
        assert(unavailable@ =~= (if sysman_proceeds(o) {
            Seq::<&'static str>::empty()
        } else {
            seq![label]
        }));
    }
    (facts, unavailable, proceed)
}

} // verus!
