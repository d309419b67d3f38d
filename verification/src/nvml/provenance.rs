//! NVML facts with their provenance: for every value, the NVML call it came
//! from, whether that call succeeded, its unit, and the error it gave.
use vstd::prelude::*;

use crate::nvml::probe_context::{format_perf_state, perf_state_name, PerformanceState};
use crate::text::{dec, dec_signed, dec_string_signed, owned, push_dec, push_str};

verus! {

/// The kinds of NVML error that the facts tell apart.
#[derive(Clone, Copy, Debug, PartialEq, Eq, Structural)]
pub enum NvmlErrorKind {
    NotSupported,
    NoPermission,
    NotFound,
    NoData,
    DriverNotLoaded,
    FunctionNotFound,
    LibraryNotFound,
    Other,
}

/// An NVML call that failed: the kind of its error and the error's text.
#[derive(Debug)]
pub struct NvmlCallError {
    pub kind: NvmlErrorKind,
    pub message: String,
}

impl Clone for NvmlCallError {
    fn clone(&self) -> (r: Self)
        ensures
            r.kind == self.kind,
            r.message@ == self.message@,
    {
        NvmlCallError { kind: self.kind, message: self.message.clone() }
    }
}

/// The raw value of a fact.
#[derive(Debug)]
pub enum NvmlFactValue {
    String(String),
    U32(u32),
    U64(u64),
    Bool(bool),
    Object(Vec<(String, NvmlFactValue)>),
}

/// Whether a fact's call succeeded, and if not, how it failed.
#[derive(Clone, Copy, Debug, PartialEq, Eq, Structural)]
pub enum NvmlFactState {
    Success,
    Unsupported,
    NotAvailable,
    PermissionDenied,
    Error,
}

/// The name of a fact state.
pub open spec fn state_name(s: NvmlFactState) -> Seq<char> {
    match s {
        NvmlFactState::Success => "ok"@,
        NvmlFactState::Unsupported => "unsupported"@,
        NvmlFactState::NotAvailable => "not_available"@,
        NvmlFactState::PermissionDenied => "permission_denied"@,
        NvmlFactState::Error => "error"@,
    }
}

impl NvmlFactState {
    /// The state's name: `ok`, `unsupported`, `not_available`,
    /// `permission_denied` or `error`.
    pub fn as_str(&self) -> (r: &'static str)
        ensures
            r@ == state_name(*self),
    {
        match self {
            NvmlFactState::Success => "ok",
            NvmlFactState::Unsupported => "unsupported",
            NvmlFactState::NotAvailable => "not_available",
            NvmlFactState::PermissionDenied => "permission_denied",
            NvmlFactState::Error => "error",
        }
    }
}

/// One value, with the call it came from.
#[derive(Debug)]
pub struct NvmlFact {
    pub source_api: &'static str,
    pub state: NvmlFactState,
    pub raw: Option<NvmlFactValue>,
    pub unit: Option<&'static str>,
    pub error_message: Option<String>,
}

/// A fact, or a named group of nodes.
#[derive(Debug)]
pub enum NvmlNode {
    Fact(NvmlFact),
    Group(Vec<(String, NvmlNode)>),
}

/// The driver's facts and, per device, its tree of facts.
#[derive(Debug)]
pub struct NvmlProvenanceStats {
    pub driver: Vec<(String, NvmlFact)>,
    pub devices: Vec<Vec<(String, NvmlNode)>>,
}

// ---------------------------------------------------------------------------
// The same as values.
// ---------------------------------------------------------------------------
/// A raw value as values.
pub enum FactValueModel {
    Text(Seq<char>),
    U32(u32),
    U64(u64),
    Bool(bool),
    Object(Seq<(Seq<char>, FactValueModel)>),
}

/// A fact as values.
pub struct FactModel {
    pub source_api: Seq<char>,
    pub state: NvmlFactState,
    pub raw: Option<FactValueModel>,
    pub unit: Option<Seq<char>>,
    pub error_message: Option<Seq<char>>,
}

/// A node as values.
pub enum NodeModel {
    Fact(FactModel),
    Group(Seq<(Seq<char>, NodeModel)>),
}

/// A raw value as values.
pub open spec fn value_view(v: NvmlFactValue) -> FactValueModel
    decreases v,
{
    match v {
        NvmlFactValue::String(s) => FactValueModel::Text(s@),
        NvmlFactValue::U32(x) => FactValueModel::U32(x),
        NvmlFactValue::U64(x) => FactValueModel::U64(x),
        NvmlFactValue::Bool(b) => FactValueModel::Bool(b),
        NvmlFactValue::Object(entries) => FactValueModel::Object(value_entries_view(entries@)),
    }
}

/// Named raw values as values.
pub open spec fn value_entries_view(s: Seq<(String, NvmlFactValue)>) -> Seq<
    (Seq<char>, FactValueModel),
>
    decreases s,
{
    if s.len() == 0 {
        Seq::empty()
    } else {
        value_entries_view(s.drop_last()).push((s.last().0@, value_view(s.last().1)))
    }
}

/// An optional static text as values.
pub open spec fn opt_static(u: Option<&'static str>) -> Option<Seq<char>> {
    match u {
        Some(s) => Some(s@),
        None => None,
    }
}

/// A fact as values.
pub open spec fn fact_view(f: NvmlFact) -> FactModel {
    FactModel {
        source_api: f.source_api@,
        state: f.state,
        raw: match f.raw {
            Some(v) => Some(value_view(v)),
            None => None,
        },
        unit: opt_static(f.unit),
        error_message: match f.error_message {
            Some(m) => Some(m@),
            None => None,
        },
    }
}

/// A node as values.
pub open spec fn node_view(n: NvmlNode) -> NodeModel
    decreases n,
{
    match n {
        NvmlNode::Fact(f) => NodeModel::Fact(fact_view(f)),
        NvmlNode::Group(entries) => NodeModel::Group(entries_view(entries@)),
    }
}

/// Named nodes as values.
pub open spec fn entries_view(s: Seq<(String, NvmlNode)>) -> Seq<(Seq<char>, NodeModel)>
    decreases s,
{
    if s.len() == 0 {
        Seq::empty()
    } else {
        entries_view(s.drop_last()).push((s.last().0@, node_view(s.last().1)))
    }
}

/// Named facts as values.
pub open spec fn fact_entries_view(s: Seq<(String, NvmlFact)>) -> Seq<(Seq<char>, FactModel)>
    decreases s.len(),
{
    if s.len() == 0 {
        Seq::empty()
    } else {
        fact_entries_view(s.drop_last()).push((s.last().0@, fact_view(s.last().1)))
    }
}

// ---------------------------------------------------------------------------
// Single facts.
// ---------------------------------------------------------------------------
/// The state a fact takes from the error of its call: unsupported, denied,
/// absent (not found, no data, no driver, function or library missing), or
/// any other error.
pub open spec fn error_state(kind: NvmlErrorKind) -> NvmlFactState {
    match kind {
        NvmlErrorKind::NotSupported => NvmlFactState::Unsupported,
        NvmlErrorKind::NoPermission => NvmlFactState::PermissionDenied,
        NvmlErrorKind::NotFound | NvmlErrorKind::NoData | NvmlErrorKind::DriverNotLoaded
        | NvmlErrorKind::FunctionNotFound | NvmlErrorKind::LibraryNotFound =>
            NvmlFactState::NotAvailable,
        NvmlErrorKind::Other => NvmlFactState::Error,
    }
}

/// The state a fact takes from the error of its call.
pub fn map_error_state(error: &NvmlCallError) -> (r: NvmlFactState)
    ensures
        r == error_state(error.kind),
{
    match error.kind {
        NvmlErrorKind::NotSupported => NvmlFactState::Unsupported,
        NvmlErrorKind::NoPermission => NvmlFactState::PermissionDenied,
        NvmlErrorKind::NotFound | NvmlErrorKind::NoData | NvmlErrorKind::DriverNotLoaded
        | NvmlErrorKind::FunctionNotFound | NvmlErrorKind::LibraryNotFound =>
            NvmlFactState::NotAvailable,
        NvmlErrorKind::Other => NvmlFactState::Error,
    }
}

/// A fact whose call succeeded with `raw`.
pub open spec fn ok_fact(api: Seq<char>, raw: FactValueModel, unit: Option<Seq<char>>) -> FactModel {
    FactModel {
        source_api: api,
        state: NvmlFactState::Success,
        raw: Some(raw),
        unit,
        error_message: None,
    }
}

/// A fact whose call failed.
pub open spec fn error_fact_spec(api: Seq<char>, unit: Option<Seq<char>>, e: NvmlCallError) -> FactModel {
    FactModel {
        source_api: api,
        state: error_state(e.kind),
        raw: None,
        unit,
        error_message: Some(e.message@),
    }
}

/// A fact for a value that does not exist.
pub open spec fn not_available_spec(api: Seq<char>, unit: Option<Seq<char>>) -> FactModel {
    FactModel {
        source_api: api,
        state: NvmlFactState::NotAvailable,
        raw: None,
        unit,
        error_message: None,
    }
}

/// The fact of a call that returns a number.
pub open spec fn u32_fact_spec(
    api: Seq<char>,
    unit: Option<Seq<char>>,
    r: Result<u32, NvmlCallError>,
) -> FactModel {
    match r {
        Ok(v) => ok_fact(api, FactValueModel::U32(v), unit),
        Err(e) => error_fact_spec(api, unit, e),
    }
}

/// The fact of a call that returns a text.
pub open spec fn text_fact_spec(api: Seq<char>, r: Result<String, NvmlCallError>) -> FactModel {
    match r {
        Ok(v) => ok_fact(api, FactValueModel::Text(v@), None),
        Err(e) => error_fact_spec(api, None, e),
    }
}

/// The fact of a call that returns a switch.
pub open spec fn bool_fact_spec(api: Seq<char>, r: Result<bool, NvmlCallError>) -> FactModel {
    match r {
        Ok(v) => ok_fact(api, FactValueModel::Bool(v), None),
        Err(e) => error_fact_spec(api, None, e),
    }
}

/// A fact whose call succeeded with a number.
pub fn ok_u32_fact(source_api: &'static str, raw: u32, unit: Option<&'static str>) -> (r: NvmlFact)
    ensures
        fact_view(r) == ok_fact(source_api@, FactValueModel::U32(raw), opt_static(unit)),
{
    NvmlFact {
        source_api,
        state: NvmlFactState::Success,
        raw: Some(NvmlFactValue::U32(raw)),
        unit,
        error_message: None,
    }
}

/// A fact whose call succeeded with a large number.
pub fn ok_u64_fact(source_api: &'static str, raw: u64, unit: Option<&'static str>) -> (r: NvmlFact)
    ensures
        fact_view(r) == ok_fact(source_api@, FactValueModel::U64(raw), opt_static(unit)),
{
    NvmlFact {
        source_api,
        state: NvmlFactState::Success,
        raw: Some(NvmlFactValue::U64(raw)),
        unit,
        error_message: None,
    }
}

/// A fact whose call succeeded with a text.
pub fn ok_string_fact(source_api: &'static str, raw: String) -> (r: NvmlFact)
    ensures
        fact_view(r) == ok_fact(source_api@, FactValueModel::Text(raw@), None),
{
    NvmlFact {
        source_api,
        state: NvmlFactState::Success,
        raw: Some(NvmlFactValue::String(raw)),
        unit: None,
        error_message: None,
    }
}

/// A fact whose call succeeded with a switch.
pub fn ok_bool_fact(source_api: &'static str, raw: bool) -> (r: NvmlFact)
    ensures
        fact_view(r) == ok_fact(source_api@, FactValueModel::Bool(raw), None),
{
    NvmlFact {
        source_api,
        state: NvmlFactState::Success,
        raw: Some(NvmlFactValue::Bool(raw)),
        unit: None,
        error_message: None,
    }
}

/// A fact for a value that does not exist.
pub fn not_available_fact(source_api: &'static str, unit: Option<&'static str>) -> (r: NvmlFact)
    ensures
        fact_view(r) == not_available_spec(source_api@, opt_static(unit)),
{
    NvmlFact { source_api, state: NvmlFactState::NotAvailable, raw: None, unit, error_message: None }
}

/// A fact whose call failed.
pub fn error_fact(source_api: &'static str, unit: Option<&'static str>, error: &NvmlCallError) -> (r:
    NvmlFact)
    ensures
        fact_view(r) == error_fact_spec(source_api@, opt_static(unit), *error),
{
    NvmlFact {
        source_api,
        state: map_error_state(error),
        raw: None,
        unit,
        error_message: Some(error.message.clone()),
    }
}

/// The fact of a call that returns a number.
pub fn u32_fact(source_api: &'static str, unit: Option<&'static str>, r: &Result<u32, NvmlCallError>) -> (f:
    NvmlFact)
    ensures
        fact_view(f) == u32_fact_spec(source_api@, opt_static(unit), *r),
{
    match r {
        Ok(v) => ok_u32_fact(source_api, *v, unit),
        Err(e) => error_fact(source_api, unit, e),
    }
}

/// The fact of a call that returns a text.
pub fn text_fact(source_api: &'static str, r: &Result<String, NvmlCallError>) -> (f: NvmlFact)
    ensures
        fact_view(f) == text_fact_spec(source_api@, *r),
{
    match r {
        Ok(v) => ok_string_fact(source_api, v.clone()),
        Err(e) => error_fact(source_api, None, e),
    }
}

/// The fact of a call that returns a switch.
pub fn bool_fact(source_api: &'static str, r: &Result<bool, NvmlCallError>) -> (f: NvmlFact)
    ensures
        fact_view(f) == bool_fact_spec(source_api@, *r),
{
    match r {
        Ok(v) => ok_bool_fact(source_api, *v),
        Err(e) => error_fact(source_api, None, e),
    }
}

// ---------------------------------------------------------------------------
// Building named entries.
// ---------------------------------------------------------------------------
proof fn lemma_entries_push(s: Seq<(String, NvmlNode)>, e: (String, NvmlNode))
    ensures
        entries_view(s.push(e)) == entries_view(s).push((e.0@, node_view(e.1))),
{
    assert(s.push(e).drop_last() =~= s);
}

proof fn lemma_value_entries_push(s: Seq<(String, NvmlFactValue)>, e: (String, NvmlFactValue))
    ensures
        value_entries_view(s.push(e)) == value_entries_view(s).push((e.0@, value_view(e.1))),
{
    assert(s.push(e).drop_last() =~= s);
}

proof fn lemma_fact_entries_push(s: Seq<(String, NvmlFact)>, e: (String, NvmlFact))
    ensures
        fact_entries_view(s.push(e)) == fact_entries_view(s).push((e.0@, fact_view(e.1))),
{
    assert(s.push(e).drop_last() =~= s);
}

fn empty_entries() -> (v: Vec<(String, NvmlNode)>)
    ensures
        entries_view(v@) == Seq::<(Seq<char>, NodeModel)>::empty(),
{
    Vec::new()
}

fn push_fact(v: &mut Vec<(String, NvmlNode)>, key: &str, fact: NvmlFact)
    ensures
        entries_view(final(v)@) == entries_view(old(v)@).push(
            (key@, NodeModel::Fact(fact_view(fact))),
        ),
{
    let ghost before = v@;
    let e = (owned(key), NvmlNode::Fact(fact));
    let ghost g = e;
    v.push(e);
    proof {
        lemma_entries_push(before, g);
    }
}

fn push_group(v: &mut Vec<(String, NvmlNode)>, key: &str, group: Vec<(String, NvmlNode)>)
    ensures
        entries_view(final(v)@) == entries_view(old(v)@).push(
            (key@, NodeModel::Group(entries_view(group@))),
        ),
{
    let ghost before = v@;
    let e = (owned(key), NvmlNode::Group(group));
    let ghost g = e;
    v.push(e);
    proof {
        lemma_entries_push(before, g);
    }
}

/// A fact as a node.
pub open spec fn fact_node(f: FactModel) -> NodeModel {
    NodeModel::Fact(f)
}

/// A group as a node.
pub open spec fn group_node(entries: Seq<(Seq<char>, NodeModel)>) -> NodeModel {
    NodeModel::Group(entries)
}

/// A unit as values.
pub open spec fn unit(u: &'static str) -> Option<Seq<char>> {
    Some(u@)
}

// ---------------------------------------------------------------------------
// What was read of a device.
// ---------------------------------------------------------------------------
/// NVML's memory figures.
pub struct MemoryInfoReading {
    pub used: u64,
    pub free: u64,
    pub total: u64,
}

/// NVML's utilisation figures.
pub struct UtilizationRatesReading {
    pub gpu: u32,
    pub memory: u32,
}

/// NVML's PCI description of a device.
pub struct PciReading {
    pub bus_id: String,
    pub domain: u32,
    pub bus: u32,
    pub device: u32,
    pub pci_device_id: u32,
    pub pci_sub_system_id: Option<u32>,
}

/// A CUDA compute capability.
pub struct ComputeCapabilityReading {
    pub major: i32,
    pub minor: i32,
}

/// Whether automatic clock boosting is on, now and by default.
pub struct AutoBoostReading {
    pub is_enabled: bool,
    pub is_enabled_default: bool,
}

/// The lower and upper bound of the power limit.
pub struct PowerLimitConstraintsReading {
    pub min_limit: u32,
    pub max_limit: u32,
}

/// What was read for the identity group. `brand` is the brand's name as
/// NVML's wrapper spells it.
pub struct IdentityReadings {
    pub brand: Result<String, NvmlCallError>,
    pub board_id: Result<u32, NvmlCallError>,
    pub vbios_version: Result<String, NvmlCallError>,
    pub cuda_compute_capability: Result<ComputeCapabilityReading, NvmlCallError>,
    pub num_cores: Result<u32, NvmlCallError>,
}

/// What was read of the PCIe link.
pub struct PcieLinkReadings {
    pub current_link_gen: Result<u32, NvmlCallError>,
    pub current_link_width: Result<u32, NvmlCallError>,
    pub max_link_gen: Result<u32, NvmlCallError>,
    pub max_link_width: Result<u32, NvmlCallError>,
    pub throughput_tx: Result<u32, NvmlCallError>,
    pub throughput_rx: Result<u32, NvmlCallError>,
}

/// What was read of one clock domain.
pub struct ClockSurfaceReadings {
    pub current: Result<u32, NvmlCallError>,
    pub max: Result<u32, NvmlCallError>,
    pub applications: Result<u32, NvmlCallError>,
}

/// What was read for the clocks group.
pub struct ClocksReadings {
    pub graphics: ClockSurfaceReadings,
    pub sm: ClockSurfaceReadings,
    pub memory: ClockSurfaceReadings,
    pub video: ClockSurfaceReadings,
    pub auto_boost: Result<AutoBoostReading, NvmlCallError>,
}

/// What was read for the power management group. `power_source` is the
/// source's name as NVML's wrapper spells it.
pub struct PowerManagementReadings {
    pub limit: Result<u32, NvmlCallError>,
    pub default_limit: Result<u32, NvmlCallError>,
    pub constraints: Result<PowerLimitConstraintsReading, NvmlCallError>,
    pub algorithm_active: Result<bool, NvmlCallError>,
    pub power_source: Result<String, NvmlCallError>,
}

/// What was read of the encoder and decoder.
pub struct MediaReadings {
    pub encoder: Result<u32, NvmlCallError>,
    pub decoder: Result<u32, NvmlCallError>,
}

/// What was read of the fans: their number and, when it was read, the speed
/// of each fan in order.
pub struct CoolingReadings {
    pub num_fans: Result<u32, NvmlCallError>,
    pub fan_speeds: Vec<Result<u32, NvmlCallError>>,
}

/// What was read of the running processes.
pub struct ProcessesReadings {
    pub compute_count: Result<u32, NvmlCallError>,
    pub graphics_count: Result<u32, NvmlCallError>,
}

/// Everything read of a device whose handle was obtained. `compute_mode` is
/// the mode's name as NVML's wrapper spells it.
pub struct DeviceProvenanceReadings {
    pub name: Result<String, NvmlCallError>,
    pub uuid: Result<String, NvmlCallError>,
    pub pci_info: Result<PciReading, NvmlCallError>,
    pub compute_mode: Result<String, NvmlCallError>,
    pub performance_state: Result<PerformanceState, NvmlCallError>,
    pub memory: Result<MemoryInfoReading, NvmlCallError>,
    pub utilization: Result<UtilizationRatesReading, NvmlCallError>,
    pub temperature: Result<u32, NvmlCallError>,
    pub power_usage: Result<u32, NvmlCallError>,
    pub enforced_power_limit: Result<u32, NvmlCallError>,
    pub identity: IdentityReadings,
    pub pcie: PcieLinkReadings,
    pub clocks: ClocksReadings,
    pub bar1: Result<MemoryInfoReading, NvmlCallError>,
    pub power_management: PowerManagementReadings,
    pub media: MediaReadings,
    pub cooling: CoolingReadings,
    pub processes: ProcessesReadings,
}

/// Whether the fan speeds were read for every fan that was counted.
pub open spec fn cooling_complete(c: CoolingReadings) -> bool {
    c.num_fans matches Ok(n) ==> c.fan_speeds@.len() == n
}

// ---------------------------------------------------------------------------
// The groups.
// ---------------------------------------------------------------------------
/// The fact of a capability: its two numbers as text.
pub open spec fn capability_fact_spec(r: Result<ComputeCapabilityReading, NvmlCallError>) -> FactModel {
    match r {
        Ok(c) => ok_fact(
            "nvmlDeviceGetCudaComputeCapability"@,
            FactValueModel::Object(
                seq![
                    ("major"@, FactValueModel::Text(dec_signed(c.major as int))),
                    ("minor"@, FactValueModel::Text(dec_signed(c.minor as int))),
                ],
            ),
            None,
        ),
        Err(e) => error_fact_spec("nvmlDeviceGetCudaComputeCapability"@, None, e),
    }
}

/// The identity group.
pub open spec fn identity_spec(r: IdentityReadings) -> Seq<(Seq<char>, NodeModel)> {
    seq![
        ("brand"@, fact_node(text_fact_spec("nvmlDeviceGetBrand"@, r.brand))),
        ("board_id"@, fact_node(u32_fact_spec("nvmlDeviceGetBoardId"@, None, r.board_id))),
        ("vbios_version"@, fact_node(text_fact_spec("nvmlDeviceGetVbiosVersion"@, r.vbios_version))),
        ("cuda_compute_capability"@, fact_node(capability_fact_spec(r.cuda_compute_capability))),
        ("cuda_cores"@, fact_node(u32_fact_spec("nvmlDeviceGetNumGpuCores"@, None, r.num_cores))),
    ]
}

fn capability_fact(r: &Result<ComputeCapabilityReading, NvmlCallError>) -> (f: NvmlFact)
    ensures
        fact_view(f) == capability_fact_spec(*r),
{
    match r {
        Ok(c) => {
            let mut raw: Vec<(String, NvmlFactValue)> = Vec::new();
            let e1 = (owned("major"), NvmlFactValue::String(dec_string_signed(c.major as i64)));
            let ghost g1 = e1;
            raw.push(e1);
            let e2 = (owned("minor"), NvmlFactValue::String(dec_string_signed(c.minor as i64)));
            let ghost g2 = e2;
            raw.push(e2);
            proof {
                let e0 = Seq::<(String, NvmlFactValue)>::empty();
                assert(value_entries_view(e0) =~= seq![]);
                lemma_value_entries_push(e0, g1);
                lemma_value_entries_push(e0.push(g1), g2);
                assert(e0.push(g1).push(g2) =~= raw@);
                assert(value_view(g1.1) == FactValueModel::Text(dec_signed(c.major as int)));
                assert(value_view(g2.1) == FactValueModel::Text(dec_signed(c.minor as int)));
                assert(value_entries_view(raw@) == seq![
                    ("major"@, FactValueModel::Text(dec_signed(c.major as int))),
                    ("minor"@, FactValueModel::Text(dec_signed(c.minor as int))),
                ]);
            }
            let f = NvmlFact {
                source_api: "nvmlDeviceGetCudaComputeCapability",
                state: NvmlFactState::Success,
                raw: Some(NvmlFactValue::Object(raw)),
                unit: None,
                error_message: None,
            };
            assert(fact_view(f).raw == Some(value_view(NvmlFactValue::Object(raw))));
            assert(value_view(NvmlFactValue::Object(raw)) == FactValueModel::Object(value_entries_view(raw@)));
            f
        },
        Err(e) => error_fact("nvmlDeviceGetCudaComputeCapability", None, e),
    }
}

/// The identity group: brand, board, VBIOS, compute capability and cores.
pub fn build_identity_group(r: &IdentityReadings) -> (g: Vec<(String, NvmlNode)>)
    ensures
        entries_view(g@) == identity_spec(*r),
{
    let mut g = empty_entries();
    push_fact(&mut g, "brand", text_fact("nvmlDeviceGetBrand", &r.brand));
    push_fact(&mut g, "board_id", u32_fact("nvmlDeviceGetBoardId", None, &r.board_id));
    push_fact(&mut g, "vbios_version", text_fact("nvmlDeviceGetVbiosVersion", &r.vbios_version));
    push_fact(&mut g, "cuda_compute_capability", capability_fact(&r.cuda_compute_capability));
    push_fact(&mut g, "cuda_cores", u32_fact("nvmlDeviceGetNumGpuCores", None, &r.num_cores));
    g
}

/// The fact of one number of the PCI description.
pub open spec fn pci_u32_spec(r: Result<PciReading, NvmlCallError>, v: u32) -> FactModel {
    match r {
        Ok(_) => ok_fact("nvmlDeviceGetPciInfo"@, FactValueModel::U32(v), None),
        Err(e) => error_fact_spec("nvmlDeviceGetPciInfo"@, None, e),
    }
}

/// The fact of the PCI bus id.
pub open spec fn bus_id_fact_spec(r: Result<PciReading, NvmlCallError>) -> FactModel {
    match r {
        Ok(p) => ok_fact("nvmlDeviceGetPciInfo"@, FactValueModel::Text(p.bus_id@), None),
        Err(e) => error_fact_spec("nvmlDeviceGetPciInfo"@, None, e),
    }
}

/// The fact of the PCI subsystem id, which not every device has.
pub open spec fn sub_system_fact_spec(r: Result<PciReading, NvmlCallError>) -> FactModel {
    match r {
        Ok(p) => match p.pci_sub_system_id {
            Some(id) => ok_fact("nvmlDeviceGetPciInfo"@, FactValueModel::U32(id), None),
            None => not_available_spec("nvmlDeviceGetPciInfo"@, None),
        },
        Err(e) => error_fact_spec("nvmlDeviceGetPciInfo"@, None, e),
    }
}

/// The PCIe group.
pub open spec fn pcie_spec(pci: Result<PciReading, NvmlCallError>, l: PcieLinkReadings) -> Seq<
    (Seq<char>, NodeModel),
> {
    let p = match pci {
        Ok(p) => p,
        Err(_) => PciReading {
            bus_id: arbitrary(),
            domain: 0,
            bus: 0,
            device: 0,
            pci_device_id: 0,
            pci_sub_system_id: None,
        },
    };
    seq![
        ("domain"@, fact_node(pci_u32_spec(pci, p.domain))),
        ("bus"@, fact_node(pci_u32_spec(pci, p.bus))),
        ("device"@, fact_node(pci_u32_spec(pci, p.device))),
        ("pci_device_id"@, fact_node(pci_u32_spec(pci, p.pci_device_id))),
        ("pci_sub_system_id"@, fact_node(sub_system_fact_spec(pci))),
        ("current_link_gen"@, fact_node(u32_fact_spec("nvmlDeviceGetCurrPcieLinkGeneration"@, None, l.current_link_gen))),
        ("current_link_width"@, fact_node(u32_fact_spec("nvmlDeviceGetCurrPcieLinkWidth"@, None, l.current_link_width))),
        ("max_link_gen"@, fact_node(u32_fact_spec("nvmlDeviceGetMaxPcieLinkGeneration"@, None, l.max_link_gen))),
        ("max_link_width"@, fact_node(u32_fact_spec("nvmlDeviceGetMaxPcieLinkWidth"@, None, l.max_link_width))),
        ("throughput_tx_kb_per_s"@, fact_node(u32_fact_spec("nvmlDeviceGetPcieThroughput"@, unit("kb_per_s"), l.throughput_tx))),
        ("throughput_rx_kb_per_s"@, fact_node(u32_fact_spec("nvmlDeviceGetPcieThroughput"@, unit("kb_per_s"), l.throughput_rx))),
    ]
}

fn pci_u32_fact(pci: &Result<PciReading, NvmlCallError>, v: u32) -> (f: NvmlFact)
    ensures
        fact_view(f) == pci_u32_spec(*pci, v),
{
    match pci {
        Ok(_) => ok_u32_fact("nvmlDeviceGetPciInfo", v, None),
        Err(e) => error_fact("nvmlDeviceGetPciInfo", None, e),
    }
}

fn bus_id_fact(pci: &Result<PciReading, NvmlCallError>) -> (f: NvmlFact)
    ensures
        fact_view(f) == bus_id_fact_spec(*pci),
{
    match pci {
        Ok(p) => ok_string_fact("nvmlDeviceGetPciInfo", p.bus_id.clone()),
        Err(e) => error_fact("nvmlDeviceGetPciInfo", None, e),
    }
}

fn sub_system_fact(pci: &Result<PciReading, NvmlCallError>) -> (f: NvmlFact)
    ensures
        fact_view(f) == sub_system_fact_spec(*pci),
{
    match pci {
        Ok(p) => match p.pci_sub_system_id {
            Some(id) => ok_u32_fact("nvmlDeviceGetPciInfo", id, None),
            None => not_available_fact("nvmlDeviceGetPciInfo", None),
        },
        Err(e) => error_fact("nvmlDeviceGetPciInfo", None, e),
    }
}

/// The PCIe group: the PCI description and the link's generation, width and
/// throughput.
pub fn build_pcie_group(pci: &Result<PciReading, NvmlCallError>, l: &PcieLinkReadings) -> (g: Vec<
    (String, NvmlNode),
>)
    ensures
        entries_view(g@) == pcie_spec(*pci, *l),
{
    let (domain, bus, device, pci_device_id) = match pci {
        Ok(p) => (p.domain, p.bus, p.device, p.pci_device_id),
        Err(_) => (0, 0, 0, 0),
    };
    let mut g = empty_entries();
    push_fact(&mut g, "domain", pci_u32_fact(pci, domain));
    push_fact(&mut g, "bus", pci_u32_fact(pci, bus));
    push_fact(&mut g, "device", pci_u32_fact(pci, device));
    push_fact(&mut g, "pci_device_id", pci_u32_fact(pci, pci_device_id));
    push_fact(&mut g, "pci_sub_system_id", sub_system_fact(pci));
    push_fact(&mut g, "current_link_gen", u32_fact("nvmlDeviceGetCurrPcieLinkGeneration", None, &l.current_link_gen));
    push_fact(&mut g, "current_link_width", u32_fact("nvmlDeviceGetCurrPcieLinkWidth", None, &l.current_link_width));
    push_fact(&mut g, "max_link_gen", u32_fact("nvmlDeviceGetMaxPcieLinkGeneration", None, &l.max_link_gen));
    push_fact(&mut g, "max_link_width", u32_fact("nvmlDeviceGetMaxPcieLinkWidth", None, &l.max_link_width));
    push_fact(&mut g, "throughput_tx_kb_per_s", u32_fact("nvmlDeviceGetPcieThroughput", Some("kb_per_s"), &l.throughput_tx));
    push_fact(&mut g, "throughput_rx_kb_per_s", u32_fact("nvmlDeviceGetPcieThroughput", Some("kb_per_s"), &l.throughput_rx));
    g
}

/// One clock domain's current, maximum and applications clock.
pub open spec fn clock_surface_spec(r: ClockSurfaceReadings) -> Seq<(Seq<char>, NodeModel)> {
    seq![
        ("current_mhz"@, fact_node(u32_fact_spec("nvmlDeviceGetClockInfo"@, unit("mhz"), r.current))),
        ("max_mhz"@, fact_node(u32_fact_spec("nvmlDeviceGetMaxClockInfo"@, unit("mhz"), r.max))),
        ("applications_mhz"@, fact_node(u32_fact_spec("nvmlDeviceGetApplicationsClock"@, unit("mhz"), r.applications))),
    ]
}

/// The fact of the automatic boost switches.
pub open spec fn auto_boost_fact_spec(r: Result<AutoBoostReading, NvmlCallError>) -> FactModel {
    match r {
        Ok(b) => ok_fact(
            "nvmlDeviceGetAutoBoostedClocksEnabled"@,
            FactValueModel::Object(
                seq![
                    ("enabled"@, FactValueModel::Bool(b.is_enabled)),
                    ("default_enabled"@, FactValueModel::Bool(b.is_enabled_default)),
                ],
            ),
            None,
        ),
        Err(e) => error_fact_spec("nvmlDeviceGetAutoBoostedClocksEnabled"@, None, e),
    }
}

/// The clocks group.
pub open spec fn clocks_spec(r: ClocksReadings) -> Seq<(Seq<char>, NodeModel)> {
    seq![
        ("graphics"@, group_node(clock_surface_spec(r.graphics))),
        ("sm"@, group_node(clock_surface_spec(r.sm))),
        ("memory"@, group_node(clock_surface_spec(r.memory))),
        ("video"@, group_node(clock_surface_spec(r.video))),
        ("auto_boosted_clocks"@, fact_node(auto_boost_fact_spec(r.auto_boost))),
    ]
}

fn build_clock_surface(r: &ClockSurfaceReadings) -> (g: Vec<(String, NvmlNode)>)
    ensures
        entries_view(g@) == clock_surface_spec(*r),
{
    let mut g = empty_entries();
    push_fact(&mut g, "current_mhz", u32_fact("nvmlDeviceGetClockInfo", Some("mhz"), &r.current));
    push_fact(&mut g, "max_mhz", u32_fact("nvmlDeviceGetMaxClockInfo", Some("mhz"), &r.max));
    push_fact(&mut g, "applications_mhz", u32_fact("nvmlDeviceGetApplicationsClock", Some("mhz"), &r.applications));
    g
}

fn auto_boost_fact(r: &Result<AutoBoostReading, NvmlCallError>) -> (f: NvmlFact)
    ensures
        fact_view(f) == auto_boost_fact_spec(*r),
{
    match r {
        Ok(b) => {
            let mut raw: Vec<(String, NvmlFactValue)> = Vec::new();
            let e1 = (owned("enabled"), NvmlFactValue::Bool(b.is_enabled));
            let ghost g1 = e1;
            raw.push(e1);
            let e2 = (owned("default_enabled"), NvmlFactValue::Bool(b.is_enabled_default));
            let ghost g2 = e2;
            raw.push(e2);
            proof {
                let e0 = Seq::<(String, NvmlFactValue)>::empty();
                assert(value_entries_view(e0) =~= seq![]);
                lemma_value_entries_push(e0, g1);
                lemma_value_entries_push(e0.push(g1), g2);
                assert(e0.push(g1).push(g2) =~= raw@);
                assert(value_entries_view(raw@) == seq![
                    ("enabled"@, FactValueModel::Bool(b.is_enabled)),
                    ("default_enabled"@, FactValueModel::Bool(b.is_enabled_default)),
                ]);
            }
            let f = NvmlFact {
                source_api: "nvmlDeviceGetAutoBoostedClocksEnabled",
                state: NvmlFactState::Success,
                raw: Some(NvmlFactValue::Object(raw)),
                unit: None,
                error_message: None,
            };
            assert(value_view(NvmlFactValue::Object(raw)) == FactValueModel::Object(value_entries_view(raw@)));
            f
        },
        Err(e) => error_fact("nvmlDeviceGetAutoBoostedClocksEnabled", None, e),
    }
}

/// The clocks group: graphics, SM, memory and video clocks, and automatic
/// boosting.
pub fn build_clocks_group(r: &ClocksReadings) -> (g: Vec<(String, NvmlNode)>)
    ensures
        entries_view(g@) == clocks_spec(*r),
{
    let mut g = empty_entries();
    push_group(&mut g, "graphics", build_clock_surface(&r.graphics));
    push_group(&mut g, "sm", build_clock_surface(&r.sm));
    push_group(&mut g, "memory", build_clock_surface(&r.memory));
    push_group(&mut g, "video", build_clock_surface(&r.video));
    push_fact(&mut g, "auto_boosted_clocks", auto_boost_fact(&r.auto_boost));
    g
}

/// The fact of one of the three memory figures of a call.
pub open spec fn bytes_fact_spec(api: Seq<char>, r: Result<MemoryInfoReading, NvmlCallError>, v: u64) -> FactModel {
    match r {
        Ok(_) => ok_fact(api, FactValueModel::U64(v), Some("bytes"@)),
        Err(e) => error_fact_spec(api, Some("bytes"@), e),
    }
}

/// A memory reading, or zeros when there is none.
pub open spec fn memory_or_zero(r: Result<MemoryInfoReading, NvmlCallError>) -> MemoryInfoReading {
    match r {
        Ok(m) => m,
        Err(_) => MemoryInfoReading { used: 0, free: 0, total: 0 },
    }
}

/// The BAR1 group.
pub open spec fn bar1_spec(r: Result<MemoryInfoReading, NvmlCallError>) -> Seq<(Seq<char>, NodeModel)> {
    let m = memory_or_zero(r);
    seq![
        ("used_bytes"@, fact_node(bytes_fact_spec("nvmlDeviceGetBAR1MemoryInfo"@, r, m.used))),
        ("free_bytes"@, fact_node(bytes_fact_spec("nvmlDeviceGetBAR1MemoryInfo"@, r, m.free))),
        ("total_bytes"@, fact_node(bytes_fact_spec("nvmlDeviceGetBAR1MemoryInfo"@, r, m.total))),
    ]
}

fn bytes_fact(source_api: &'static str, r: &Result<MemoryInfoReading, NvmlCallError>, v: u64) -> (f:
    NvmlFact)
    ensures
        fact_view(f) == bytes_fact_spec(source_api@, *r, v),
{
    proof {
        reveal_strlit("bytes");
    }
    match r {
        Ok(_) => ok_u64_fact(source_api, v, Some("bytes")),
        Err(e) => error_fact(source_api, Some("bytes"), e),
    }
}

fn memory_figures(r: &Result<MemoryInfoReading, NvmlCallError>) -> (m: (u64, u64, u64))
    ensures
        m == (memory_or_zero(*r).used, memory_or_zero(*r).free, memory_or_zero(*r).total),
{
    match r {
        Ok(m) => (m.used, m.free, m.total),
        Err(_) => (0, 0, 0),
    }
}

/// The BAR1 group: used, free and total BAR1 memory.
pub fn build_bar1_group(r: &Result<MemoryInfoReading, NvmlCallError>) -> (g: Vec<(String, NvmlNode)>)
    ensures
        entries_view(g@) == bar1_spec(*r),
{
    let (used, free, total) = memory_figures(r);
    let mut g = empty_entries();
    push_fact(&mut g, "used_bytes", bytes_fact("nvmlDeviceGetBAR1MemoryInfo", r, used));
    push_fact(&mut g, "free_bytes", bytes_fact("nvmlDeviceGetBAR1MemoryInfo", r, free));
    push_fact(&mut g, "total_bytes", bytes_fact("nvmlDeviceGetBAR1MemoryInfo", r, total));
    g
}

/// The fact of one bound of the power limit.
pub open spec fn constraint_fact_spec(r: Result<PowerLimitConstraintsReading, NvmlCallError>, min: bool) -> FactModel {
    match r {
        Ok(c) => ok_fact(
            "nvmlDeviceGetPowerManagementLimitConstraints"@,
            FactValueModel::U32(if min { c.min_limit } else { c.max_limit }),
            Some("milliwatts"@),
        ),
        Err(e) => error_fact_spec("nvmlDeviceGetPowerManagementLimitConstraints"@, Some("milliwatts"@), e),
    }
}

/// The power management group.
pub open spec fn power_management_spec(r: PowerManagementReadings) -> Seq<(Seq<char>, NodeModel)> {
    seq![
        ("limit_mw"@, fact_node(u32_fact_spec("nvmlDeviceGetPowerManagementLimit"@, unit("milliwatts"), r.limit))),
        ("default_limit_mw"@, fact_node(u32_fact_spec("nvmlDeviceGetPowerManagementDefaultLimit"@, unit("milliwatts"), r.default_limit))),
        ("limit_constraints_min_mw"@, fact_node(constraint_fact_spec(r.constraints, true))),
        ("limit_constraints_max_mw"@, fact_node(constraint_fact_spec(r.constraints, false))),
        ("algorithm_active"@, fact_node(bool_fact_spec("nvmlDeviceGetPowerManagementMode"@, r.algorithm_active))),
        ("power_source"@, fact_node(text_fact_spec("nvmlDeviceGetPowerSource"@, r.power_source))),
    ]
}

fn constraint_fact(r: &Result<PowerLimitConstraintsReading, NvmlCallError>, min: bool) -> (f: NvmlFact)
    ensures
        fact_view(f) == constraint_fact_spec(*r, min),
{
    proof {
        reveal_strlit("milliwatts");
    }
    match r {
        Ok(c) => ok_u32_fact(
            "nvmlDeviceGetPowerManagementLimitConstraints",
            if min { c.min_limit } else { c.max_limit },
            Some("milliwatts"),
        ),
        Err(e) => error_fact("nvmlDeviceGetPowerManagementLimitConstraints", Some("milliwatts"), e),
    }
}

/// The power management group: limits, their bounds, the management mode
/// and the power source.
pub fn build_power_management_group(r: &PowerManagementReadings) -> (g: Vec<(String, NvmlNode)>)
    ensures
        entries_view(g@) == power_management_spec(*r),
{
    let mut g = empty_entries();
    push_fact(&mut g, "limit_mw", u32_fact("nvmlDeviceGetPowerManagementLimit", Some("milliwatts"), &r.limit));
    push_fact(&mut g, "default_limit_mw", u32_fact("nvmlDeviceGetPowerManagementDefaultLimit", Some("milliwatts"), &r.default_limit));
    push_fact(&mut g, "limit_constraints_min_mw", constraint_fact(&r.constraints, true));
    push_fact(&mut g, "limit_constraints_max_mw", constraint_fact(&r.constraints, false));
    push_fact(&mut g, "algorithm_active", bool_fact("nvmlDeviceGetPowerManagementMode", &r.algorithm_active));
    push_fact(&mut g, "power_source", text_fact("nvmlDeviceGetPowerSource", &r.power_source));
    g
}

/// The media group.
pub open spec fn media_spec(r: MediaReadings) -> Seq<(Seq<char>, NodeModel)> {
    seq![
        ("encoder"@, fact_node(u32_fact_spec("nvmlDeviceGetEncoderUtilization"@, unit("percent"), r.encoder))),
        ("decoder"@, fact_node(u32_fact_spec("nvmlDeviceGetDecoderUtilization"@, unit("percent"), r.decoder))),
    ]
}

/// The media group: encoder and decoder utilisation.
pub fn build_media_group(r: &MediaReadings) -> (g: Vec<(String, NvmlNode)>)
    ensures
        entries_view(g@) == media_spec(*r),
{
    let mut g = empty_entries();
    push_fact(&mut g, "encoder", u32_fact("nvmlDeviceGetEncoderUtilization", Some("percent"), &r.encoder));
    push_fact(&mut g, "decoder", u32_fact("nvmlDeviceGetDecoderUtilization", Some("percent"), &r.decoder));
    g
}

/// The processes group.
pub open spec fn processes_spec(r: ProcessesReadings) -> Seq<(Seq<char>, NodeModel)> {
    seq![
        ("running_compute_processes_count"@, fact_node(u32_fact_spec("nvmlDeviceGetComputeRunningProcesses_v3"@, None, r.compute_count))),
        ("running_graphics_processes_count"@, fact_node(u32_fact_spec("nvmlDeviceGetGraphicsRunningProcesses_v3"@, None, r.graphics_count))),
    ]
}

/// The processes group: how many compute and graphics processes run.
pub fn build_processes_group(r: &ProcessesReadings) -> (g: Vec<(String, NvmlNode)>)
    ensures
        entries_view(g@) == processes_spec(*r),
{
    let mut g = empty_entries();
    push_fact(&mut g, "running_compute_processes_count", u32_fact("nvmlDeviceGetComputeRunningProcesses_v3", None, &r.compute_count));
    push_fact(&mut g, "running_graphics_processes_count", u32_fact("nvmlDeviceGetGraphicsRunningProcesses_v3", None, &r.graphics_count));
    g
}

/// The key of a fan's speed: `fan_<index>_speed_pct`.
pub open spec fn fan_key(i: nat) -> Seq<char> {
    "fan_"@ + dec(i) + "_speed_pct"@
}

/// The speed of each fan, keyed by its index.
pub open spec fn fan_speeds_spec(speeds: Seq<Result<u32, NvmlCallError>>) -> Seq<(Seq<char>, NodeModel)>
    decreases speeds.len(),
{
    if speeds.len() == 0 {
        Seq::empty()
    } else {
        fan_speeds_spec(speeds.drop_last()).push(
            (
                fan_key((speeds.len() - 1) as nat),
                fact_node(u32_fact_spec("nvmlDeviceGetFanSpeed_v2"@, unit("percent"), speeds.last())),
            ),
        )
    }
}

/// The cooling group: the number of fans and the speed of each; when the
/// fans could not be counted, the first fan's speed carries that error.
pub open spec fn cooling_spec(r: CoolingReadings) -> Seq<(Seq<char>, NodeModel)> {
    match r.num_fans {
        Ok(n) => seq![
            ("num_fans"@, fact_node(ok_fact("nvmlDeviceGetNumFans"@, FactValueModel::U32(n), None))),
            ("fan_speeds"@, group_node(fan_speeds_spec(r.fan_speeds@))),
        ],
        Err(e) => seq![
            ("num_fans"@, fact_node(error_fact_spec("nvmlDeviceGetNumFans"@, None, e))),
            ("fan_speeds"@, group_node(seq![
                (fan_key(0), fact_node(error_fact_spec("nvmlDeviceGetFanSpeed_v2"@, unit("percent"), e))),
            ])),
        ],
    }
}

fn fan_key_text(i: u32) -> (k: String)
    ensures
        k@ == fan_key(i as nat),
{
    let mut k = owned("fan_");
    push_dec(&mut k, i as u64);
    push_str(&mut k, "_speed_pct");
    k
}

fn build_fan_speeds(speeds: &Vec<Result<u32, NvmlCallError>>) -> (g: Vec<(String, NvmlNode)>)
    requires
        speeds@.len() <= u32::MAX,
    ensures
        entries_view(g@) == fan_speeds_spec(speeds@),
{
    let mut g = empty_entries();
    let mut i: usize = 0;
    while i < speeds.len()
        invariant
            i <= speeds@.len() <= u32::MAX,
            entries_view(g@) == fan_speeds_spec(speeds@.take(i as int)),
        decreases speeds.len() - i,
    {
        assert(speeds@.take(i + 1).drop_last() =~= speeds@.take(i as int));
        let ghost before = g@;
        let key = fan_key_text(i as u32);
        let e = (key, NvmlNode::Fact(u32_fact("nvmlDeviceGetFanSpeed_v2", Some("percent"), &speeds[i])));
        let ghost ge = e;
        g.push(e);
        proof {
            lemma_entries_push(before, ge);
        }
        i = i + 1;
    }
    assert(speeds@.take(speeds@.len() as int) =~= speeds@);
    g
}

/// The cooling group: the number of fans and the speed of each.
pub fn build_cooling_group(r: &CoolingReadings) -> (g: Vec<(String, NvmlNode)>)
    requires
        cooling_complete(*r),
    ensures
        entries_view(g@) == cooling_spec(*r),
{
    let mut g = empty_entries();
    match &r.num_fans {
        Ok(n) => {
            push_fact(&mut g, "num_fans", ok_u32_fact("nvmlDeviceGetNumFans", *n, None));
            push_group(&mut g, "fan_speeds", build_fan_speeds(&r.fan_speeds));
        },
        Err(e) => {
            push_fact(&mut g, "num_fans", error_fact("nvmlDeviceGetNumFans", None, e));
            let mut speeds = empty_entries();
            let key = fan_key_text(0);
            push_fact(&mut speeds, key.as_str(), error_fact("nvmlDeviceGetFanSpeed_v2", Some("percent"), e));
            push_group(&mut g, "fan_speeds", speeds);
        },
    }
    g
}

// ---------------------------------------------------------------------------
// A device's facts.
// ---------------------------------------------------------------------------
/// The fact of the performance state, by name.
pub open spec fn perf_state_fact_spec(r: Result<PerformanceState, NvmlCallError>) -> FactModel {
    match r {
        Ok(p) => ok_fact("nvmlDeviceGetPerformanceState"@, FactValueModel::Text(perf_state_name(p)), None),
        Err(e) => error_fact_spec("nvmlDeviceGetPerformanceState"@, None, e),
    }
}

/// A utilisation reading, or zeros when there is none.
pub open spec fn utilization_or_zero(r: Result<UtilizationRatesReading, NvmlCallError>) -> UtilizationRatesReading {
    match r {
        Ok(u) => u,
        Err(_) => UtilizationRatesReading { gpu: 0, memory: 0 },
    }
}

/// The fact of one of the two utilisation figures.
pub open spec fn percent_fact_spec(r: Result<UtilizationRatesReading, NvmlCallError>, v: u32) -> FactModel {
    match r {
        Ok(_) => ok_fact("nvmlDeviceGetUtilizationRates"@, FactValueModel::U32(v), Some("percent"@)),
        Err(e) => error_fact_spec("nvmlDeviceGetUtilizationRates"@, Some("percent"@), e),
    }
}

/// The index fact: the handle was asked for by this index.
pub open spec fn index_fact_spec(gpu_index: u32) -> FactModel {
    ok_fact("nvmlDeviceGetHandleByIndex"@, FactValueModel::U32(gpu_index), None)
}

/// The facts of a device whose handle was obtained.
pub open spec fn device_facts_ok_spec(gpu_index: u32, r: DeviceProvenanceReadings) -> Seq<(Seq<char>, NodeModel)> {
    let m = memory_or_zero(r.memory);
    let u = utilization_or_zero(r.utilization);
    seq![
        ("nvml.device.index"@, fact_node(index_fact_spec(gpu_index))),
        ("nvml.device.name"@, fact_node(text_fact_spec("nvmlDeviceGetName"@, r.name))),
        ("nvml.device.uuid"@, fact_node(text_fact_spec("nvmlDeviceGetUUID"@, r.uuid))),
        ("nvml.device.pci.bus_id"@, fact_node(bus_id_fact_spec(r.pci_info))),
        ("nvml.device.compute_mode"@, fact_node(text_fact_spec("nvmlDeviceGetComputeMode"@, r.compute_mode))),
        ("nvml.device.performance_state"@, fact_node(perf_state_fact_spec(r.performance_state))),
        ("nvml.memory.used_bytes"@, fact_node(bytes_fact_spec("nvmlDeviceGetMemoryInfo"@, r.memory, m.used))),
        ("nvml.memory.free_bytes"@, fact_node(bytes_fact_spec("nvmlDeviceGetMemoryInfo"@, r.memory, m.free))),
        ("nvml.memory.total_bytes"@, fact_node(bytes_fact_spec("nvmlDeviceGetMemoryInfo"@, r.memory, m.total))),
        ("nvml.utilization.gpu_pct"@, fact_node(percent_fact_spec(r.utilization, u.gpu))),
        ("nvml.utilization.memory_controller_pct"@, fact_node(percent_fact_spec(r.utilization, u.memory))),
        ("nvml.temperature.gpu_c"@, fact_node(u32_fact_spec("nvmlDeviceGetTemperature"@, unit("celsius"), r.temperature))),
        ("nvml.power.draw_mw"@, fact_node(u32_fact_spec("nvmlDeviceGetPowerUsage"@, unit("milliwatts"), r.power_usage))),
        ("nvml.power.enforced_limit_mw"@, fact_node(u32_fact_spec("nvmlDeviceGetEnforcedPowerLimit"@, unit("milliwatts"), r.enforced_power_limit))),
        ("identity"@, group_node(identity_spec(r.identity))),
        ("pcie"@, group_node(pcie_spec(r.pci_info, r.pcie))),
        ("clocks"@, group_node(clocks_spec(r.clocks))),
        ("bar1"@, group_node(bar1_spec(r.bar1))),
        ("power_management"@, group_node(power_management_spec(r.power_management))),
        ("media"@, group_node(media_spec(r.media))),
        ("cooling"@, group_node(cooling_spec(r.cooling))),
        ("processes"@, group_node(processes_spec(r.processes))),
    ]
}

/// A group that holds only the error that kept its facts from being read,
/// under `_category`.
pub open spec fn single_error_group_spec(api: Seq<char>, f: FactModel) -> Seq<(Seq<char>, NodeModel)> {
    seq![
        ("_category"@, fact_node(FactModel {
            source_api: api,
            state: f.state,
            raw: None,
            unit: None,
            error_message: f.error_message,
        })),
    ]
}

/// The facts of a device whose handle was refused: every fact and every
/// group carries the handle's error.
pub open spec fn device_facts_err_spec(gpu_index: u32, e: NvmlCallError) -> Seq<(Seq<char>, NodeModel)> {
    let h = error_fact_spec("nvmlDeviceGetHandleByIndex"@, None, e);
    let g = group_node(single_error_group_spec("nvmlDeviceGetHandleByIndex"@, h));
    seq![
        ("nvml.device.index"@, fact_node(index_fact_spec(gpu_index))),
        ("nvml.device.name"@, fact_node(h)),
        ("nvml.device.uuid"@, fact_node(h)),
        ("nvml.device.pci.bus_id"@, fact_node(h)),
        ("nvml.device.compute_mode"@, fact_node(h)),
        ("nvml.device.performance_state"@, fact_node(h)),
        ("nvml.memory.used_bytes"@, fact_node(h)),
        ("nvml.memory.free_bytes"@, fact_node(h)),
        ("nvml.memory.total_bytes"@, fact_node(h)),
        ("nvml.utilization.gpu_pct"@, fact_node(h)),
        ("nvml.utilization.memory_controller_pct"@, fact_node(h)),
        ("nvml.temperature.gpu_c"@, fact_node(h)),
        ("nvml.power.draw_mw"@, fact_node(h)),
        ("nvml.power.enforced_limit_mw"@, fact_node(h)),
        ("identity"@, g),
        ("pcie"@, g),
        ("clocks"@, g),
        ("bar1"@, g),
        ("power_management"@, g),
        ("media"@, g),
        ("cooling"@, g),
        ("processes"@, g),
    ]
}

/// The facts of one device: those of its readings when its handle was
/// obtained, else the handle's error everywhere.
pub open spec fn device_facts_spec(gpu_index: u32, handle: Result<DeviceProvenanceReadings, NvmlCallError>) -> Seq<
    (Seq<char>, NodeModel),
> {
    match handle {
        Ok(r) => device_facts_ok_spec(gpu_index, r),
        Err(e) => device_facts_err_spec(gpu_index, e),
    }
}

/// Whether what was read of a device is complete: with a handle, the speed
/// of every counted fan was read.
pub open spec fn handle_complete(handle: Result<DeviceProvenanceReadings, NvmlCallError>) -> bool {
    handle matches Ok(r) ==> cooling_complete(r.cooling)
}

/// A group that holds only the error that kept its facts from being read.
pub fn single_error_group(source_api: &'static str, fact: NvmlFact) -> (g: Vec<(String, NvmlNode)>)
    ensures
        entries_view(g@) == single_error_group_spec(source_api@, fact_view(fact)),
{
    let mut g = empty_entries();
    let message = match fact.error_message {
        Some(m) => Some(m),
        None => None,
    };
    push_fact(
        &mut g,
        "_category",
        NvmlFact { source_api, state: fact.state, raw: None, unit: None, error_message: message },
    );
    g
}

fn perf_state_fact(r: &Result<PerformanceState, NvmlCallError>) -> (f: NvmlFact)
    ensures
        fact_view(f) == perf_state_fact_spec(*r),
{
    match r {
        Ok(p) => ok_string_fact("nvmlDeviceGetPerformanceState", owned(format_perf_state(*p))),
        Err(e) => error_fact("nvmlDeviceGetPerformanceState", None, e),
    }
}

fn percent_fact(r: &Result<UtilizationRatesReading, NvmlCallError>, v: u32) -> (f: NvmlFact)
    ensures
        fact_view(f) == percent_fact_spec(*r, v),
{
    proof {
        reveal_strlit("percent");
    }
    match r {
        Ok(_) => ok_u32_fact("nvmlDeviceGetUtilizationRates", v, Some("percent")),
        Err(e) => error_fact("nvmlDeviceGetUtilizationRates", Some("percent"), e),
    }
}

fn device_scalar_facts(gpu_index: u32, r: &DeviceProvenanceReadings) -> (g: Vec<(String, NvmlNode)>)
    ensures
        entries_view(g@) == device_facts_ok_spec(gpu_index, *r).take(14),
{
    let (used, free, total) = memory_figures(&r.memory);
    let (gpu_pct, mem_pct) = match &r.utilization {
        Ok(u) => (u.gpu, u.memory),
        Err(_) => (0, 0),
    };
    let mut g = empty_entries();
    push_fact(&mut g, "nvml.device.index", ok_u32_fact("nvmlDeviceGetHandleByIndex", gpu_index, None));
    push_fact(&mut g, "nvml.device.name", text_fact("nvmlDeviceGetName", &r.name));
    push_fact(&mut g, "nvml.device.uuid", text_fact("nvmlDeviceGetUUID", &r.uuid));
    push_fact(&mut g, "nvml.device.pci.bus_id", bus_id_fact(&r.pci_info));
    push_fact(&mut g, "nvml.device.compute_mode", text_fact("nvmlDeviceGetComputeMode", &r.compute_mode));
    push_fact(&mut g, "nvml.device.performance_state", perf_state_fact(&r.performance_state));
    push_fact(&mut g, "nvml.memory.used_bytes", bytes_fact("nvmlDeviceGetMemoryInfo", &r.memory, used));
    push_fact(&mut g, "nvml.memory.free_bytes", bytes_fact("nvmlDeviceGetMemoryInfo", &r.memory, free));
    push_fact(&mut g, "nvml.memory.total_bytes", bytes_fact("nvmlDeviceGetMemoryInfo", &r.memory, total));
    push_fact(&mut g, "nvml.utilization.gpu_pct", percent_fact(&r.utilization, gpu_pct));
    push_fact(&mut g, "nvml.utilization.memory_controller_pct", percent_fact(&r.utilization, mem_pct));
    push_fact(&mut g, "nvml.temperature.gpu_c", u32_fact("nvmlDeviceGetTemperature", Some("celsius"), &r.temperature));
    push_fact(&mut g, "nvml.power.draw_mw", u32_fact("nvmlDeviceGetPowerUsage", Some("milliwatts"), &r.power_usage));
    push_fact(&mut g, "nvml.power.enforced_limit_mw", u32_fact("nvmlDeviceGetEnforcedPowerLimit", Some("milliwatts"), &r.enforced_power_limit));
    assert(entries_view(g@) =~= device_facts_ok_spec(gpu_index, *r).take(14));
    g
}

fn device_facts_ok(gpu_index: u32, r: &DeviceProvenanceReadings) -> (g: Vec<(String, NvmlNode)>)
    requires
        cooling_complete(r.cooling),
    ensures
        entries_view(g@) == device_facts_ok_spec(gpu_index, *r),
{
    let mut g = device_scalar_facts(gpu_index, r);
    push_group(&mut g, "identity", build_identity_group(&r.identity));
    push_group(&mut g, "pcie", build_pcie_group(&r.pci_info, &r.pcie));
    push_group(&mut g, "clocks", build_clocks_group(&r.clocks));
    push_group(&mut g, "bar1", build_bar1_group(&r.bar1));
    push_group(&mut g, "power_management", build_power_management_group(&r.power_management));
    push_group(&mut g, "media", build_media_group(&r.media));
    push_group(&mut g, "cooling", build_cooling_group(&r.cooling));
    push_group(&mut g, "processes", build_processes_group(&r.processes));
    assert(entries_view(g@) =~= device_facts_ok_spec(gpu_index, *r));
    g
}

fn handle_error_fact(e: &NvmlCallError) -> (f: NvmlFact)
    ensures
        fact_view(f) == error_fact_spec("nvmlDeviceGetHandleByIndex"@, None, *e),
{
    error_fact("nvmlDeviceGetHandleByIndex", None, e)
}

fn device_facts_err(gpu_index: u32, e: &NvmlCallError) -> (g: Vec<(String, NvmlNode)>)
    ensures
        entries_view(g@) == device_facts_err_spec(gpu_index, *e),
{
    let mut g = empty_entries();
    push_fact(&mut g, "nvml.device.index", ok_u32_fact("nvmlDeviceGetHandleByIndex", gpu_index, None));
    push_fact(&mut g, "nvml.device.name", handle_error_fact(e));
    push_fact(&mut g, "nvml.device.uuid", handle_error_fact(e));
    push_fact(&mut g, "nvml.device.pci.bus_id", handle_error_fact(e));
    push_fact(&mut g, "nvml.device.compute_mode", handle_error_fact(e));
    push_fact(&mut g, "nvml.device.performance_state", handle_error_fact(e));
    push_fact(&mut g, "nvml.memory.used_bytes", handle_error_fact(e));
    push_fact(&mut g, "nvml.memory.free_bytes", handle_error_fact(e));
    push_fact(&mut g, "nvml.memory.total_bytes", handle_error_fact(e));
    push_fact(&mut g, "nvml.utilization.gpu_pct", handle_error_fact(e));
    push_fact(&mut g, "nvml.utilization.memory_controller_pct", handle_error_fact(e));
    push_fact(&mut g, "nvml.temperature.gpu_c", handle_error_fact(e));
    push_fact(&mut g, "nvml.power.draw_mw", handle_error_fact(e));
    push_fact(&mut g, "nvml.power.enforced_limit_mw", handle_error_fact(e));
    let api = "nvmlDeviceGetHandleByIndex";
    push_group(&mut g, "identity", single_error_group(api, handle_error_fact(e)));
    push_group(&mut g, "pcie", single_error_group(api, handle_error_fact(e)));
    push_group(&mut g, "clocks", single_error_group(api, handle_error_fact(e)));
    push_group(&mut g, "bar1", single_error_group(api, handle_error_fact(e)));
    push_group(&mut g, "power_management", single_error_group(api, handle_error_fact(e)));
    push_group(&mut g, "media", single_error_group(api, handle_error_fact(e)));
    push_group(&mut g, "cooling", single_error_group(api, handle_error_fact(e)));
    push_group(&mut g, "processes", single_error_group(api, handle_error_fact(e)));
    assert(entries_view(g@) =~= device_facts_err_spec(gpu_index, *e));
    g
}

/// The facts of one device, from what was read of it: its handle's
/// readings, or the error that refused the handle.
pub fn build_device_facts(gpu_index: u32, handle: &Result<DeviceProvenanceReadings, NvmlCallError>) -> (g:
    Vec<(String, NvmlNode)>)
    requires
        handle_complete(*handle),
    ensures
        entries_view(g@) == device_facts_spec(gpu_index, *handle),
{
    match handle {
        Ok(r) => device_facts_ok(gpu_index, r),
        Err(e) => device_facts_err(gpu_index, e),
    }
}

// ---------------------------------------------------------------------------
// The driver, and all devices.
// ---------------------------------------------------------------------------
/// What was read of the driver.
pub struct DriverReadings {
    pub driver_version: Result<String, NvmlCallError>,
    pub cuda_driver_version: Result<i32, NvmlCallError>,
}

/// What was read of one device, asked for by its index.
pub struct DeviceHandleReadings {
    pub index: u32,
    pub handle: Result<DeviceProvenanceReadings, NvmlCallError>,
}

/// The fact of the CUDA driver version, as a decimal number.
pub open spec fn cuda_fact_spec(r: Result<i32, NvmlCallError>) -> FactModel {
    match r {
        Ok(v) => ok_fact("nvmlSystemGetCudaDriverVersion"@, FactValueModel::Text(dec_signed(v as int)), None),
        Err(e) => error_fact_spec("nvmlSystemGetCudaDriverVersion"@, None, e),
    }
}

/// The driver's facts: its version and the CUDA driver version.
pub open spec fn driver_facts_spec(r: DriverReadings) -> Seq<(Seq<char>, FactModel)> {
    seq![
        ("nvml.driver.version"@, text_fact_spec("nvmlSystemGetDriverVersion"@, r.driver_version)),
        ("nvml.cuda.driver_version"@, cuda_fact_spec(r.cuda_driver_version)),
    ]
}

fn push_named_fact(v: &mut Vec<(String, NvmlFact)>, key: &str, fact: NvmlFact)
    ensures
        fact_entries_view(final(v)@) == fact_entries_view(old(v)@).push((key@, fact_view(fact))),
{
    let ghost before = v@;
    let e = (owned(key), fact);
    let ghost g = e;
    v.push(e);
    proof {
        lemma_fact_entries_push(before, g);
    }
}

/// The driver's facts: its version and the CUDA driver version.
pub fn build_driver_facts(r: &DriverReadings) -> (d: Vec<(String, NvmlFact)>)
    ensures
        fact_entries_view(d@) == driver_facts_spec(*r),
{
    let mut d: Vec<(String, NvmlFact)> = Vec::new();
    assert(fact_entries_view(d@) =~= seq![]);
    push_named_fact(&mut d, "nvml.driver.version", text_fact("nvmlSystemGetDriverVersion", &r.driver_version));
    let cuda = match &r.cuda_driver_version {
        Ok(v) => ok_string_fact("nvmlSystemGetCudaDriverVersion", dec_string_signed(*v as i64)),
        Err(e) => error_fact("nvmlSystemGetCudaDriverVersion", None, e),
    };
    push_named_fact(&mut d, "nvml.cuda.driver_version", cuda);
    d
}

/// Provenance statistics as values.
pub struct ProvenanceStatsModel {
    pub driver: Seq<(Seq<char>, FactModel)>,
    pub devices: Seq<Seq<(Seq<char>, NodeModel)>>,
}

/// The views of the device trees.
pub open spec fn devices_view(d: Seq<Vec<(String, NvmlNode)>>) -> Seq<Seq<(Seq<char>, NodeModel)>> {
    d.map_values(|v: Vec<(String, NvmlNode)>| entries_view(v@))
}

/// The statistics of the driver and of each device, in the order given.
pub open spec fn provenance_stats_spec(driver: DriverReadings, devices: Seq<DeviceHandleReadings>) -> ProvenanceStatsModel {
    ProvenanceStatsModel {
        driver: driver_facts_spec(driver),
        devices: devices.map_values(|d: DeviceHandleReadings| device_facts_spec(d.index, d.handle)),
    }
}

/// The provenance statistics of the driver and of the given devices (those
/// of the snapshots taken), from what was read of each.
pub fn collect_provenance_stats(driver: &DriverReadings, devices: &Vec<DeviceHandleReadings>) -> (s:
    NvmlProvenanceStats)
    requires
        forall|k: int| 0 <= k < devices@.len() ==> handle_complete(#[trigger] devices@[k].handle),
    ensures
        fact_entries_view(s.driver@) == driver_facts_spec(*driver),
        devices_view(s.devices@) == provenance_stats_spec(*driver, devices@).devices,
{
    let d = build_driver_facts(driver);
    let mut out: Vec<Vec<(String, NvmlNode)>> = Vec::new();
    let mut i: usize = 0;
    while i < devices.len()
        invariant
            i <= devices@.len(),
            out@.len() == i,
            forall|k: int| 0 <= k < devices@.len() ==> handle_complete(#[trigger] devices@[k].handle),
            forall|k: int|
                0 <= k < i ==> entries_view(#[trigger] out@[k]@) == device_facts_spec(
                    devices@[k].index,
                    devices@[k].handle,
                ),
        decreases devices.len() - i,
    {
        let g = build_device_facts(devices[i].index, &devices[i].handle);
        out.push(g);
        i = i + 1;
    }
    assert(devices_view(out@) =~= provenance_stats_spec(*driver, devices@).devices);
    NvmlProvenanceStats { driver: d, devices: out }
}


// ---------------------------------------------------------------------------
// Facts keep their state, value and error apart.
// ---------------------------------------------------------------------------
/// A fact is consistent when a succeeded call has a raw value and no error
/// message, and an unsupported, denied or failed call has an error message
/// and no raw value.
pub open spec fn fact_consistent(f: FactModel) -> bool {
    &&& f.state == NvmlFactState::Success ==> f.raw is Some && f.error_message is None
    &&& (f.state == NvmlFactState::Unsupported || f.state == NvmlFactState::PermissionDenied || f.state
        == NvmlFactState::Error) ==> f.raw is None && f.error_message is Some
}

/// Every fact of a node, at any depth, is consistent.
pub open spec fn node_consistent(n: NodeModel) -> bool
    decreases n,
{
    match n {
        NodeModel::Fact(f) => fact_consistent(f),
        NodeModel::Group(entries) => entries_consistent(entries),
    }
}

/// Every fact of named nodes, at any depth, is consistent.
pub open spec fn entries_consistent(s: Seq<(Seq<char>, NodeModel)>) -> bool
    decreases s,
{
    if s.len() == 0 {
        true
    } else {
        entries_consistent(s.drop_last()) && node_consistent(s.last().1)
    }
}

proof fn lemma_entries_consistent(s: Seq<(Seq<char>, NodeModel)>)
    requires
        forall|i: int| 0 <= i < s.len() ==> node_consistent(#[trigger] s[i].1),
    ensures
        entries_consistent(s),
    decreases s.len(),
{
    if s.len() > 0 {
        let t = s.drop_last();
        assert forall|i: int| 0 <= i < t.len() implies node_consistent(#[trigger] t[i].1) by {
            assert(t[i] == s[i]);
        }
        lemma_entries_consistent(t);
        assert(node_consistent(s[s.len() - 1].1));
    }
}

proof fn lemma_fan_speeds_consistent(speeds: Seq<Result<u32, NvmlCallError>>)
    ensures
        entries_consistent(fan_speeds_spec(speeds)),
    decreases speeds.len(),
{
    if speeds.len() > 0 {
        lemma_fan_speeds_consistent(speeds.drop_last());
        let prev = fan_speeds_spec(speeds.drop_last());
        let f = u32_fact_spec("nvmlDeviceGetFanSpeed_v2"@, unit("percent"), speeds.last());
        let e = (fan_key((speeds.len() - 1) as nat), fact_node(f));
        let s = fan_speeds_spec(speeds);
        assert(s == prev.push(e));
        assert(s.drop_last() =~= prev);
        assert(fact_consistent(f));
        assert(node_consistent(s.last().1));
    }
}

proof fn lemma_groups_consistent(r: DeviceProvenanceReadings)
    ensures
        entries_consistent(identity_spec(r.identity)),
        entries_consistent(pcie_spec(r.pci_info, r.pcie)),
        entries_consistent(clocks_spec(r.clocks)),
        entries_consistent(bar1_spec(r.bar1)),
        entries_consistent(power_management_spec(r.power_management)),
        entries_consistent(media_spec(r.media)),
        entries_consistent(cooling_spec(r.cooling)),
        entries_consistent(processes_spec(r.processes)),
{
    lemma_entries_consistent(identity_spec(r.identity));
    lemma_entries_consistent(pcie_spec(r.pci_info, r.pcie));
    lemma_entries_consistent(clock_surface_spec(r.clocks.graphics));
    lemma_entries_consistent(clock_surface_spec(r.clocks.sm));
    lemma_entries_consistent(clock_surface_spec(r.clocks.memory));
    lemma_entries_consistent(clock_surface_spec(r.clocks.video));
    lemma_entries_consistent(clocks_spec(r.clocks));
    lemma_entries_consistent(bar1_spec(r.bar1));
    lemma_entries_consistent(power_management_spec(r.power_management));
    lemma_entries_consistent(media_spec(r.media));
    lemma_entries_consistent(processes_spec(r.processes));
    lemma_fan_speeds_consistent(r.cooling.fan_speeds@);
    match r.cooling.num_fans {
        Ok(n) => {},
        Err(e) => {
            let speeds = seq![
                (fan_key(0), fact_node(error_fact_spec("nvmlDeviceGetFanSpeed_v2"@, unit("percent"), e))),
            ];
            lemma_entries_consistent(speeds);
        },
    }
    lemma_entries_consistent(cooling_spec(r.cooling));
}

#[verifier::spinoff_prover]
#[verifier::rlimit(50)]
proof fn lemma_device_ok_consistent(gpu_index: u32, r: DeviceProvenanceReadings)
    ensures
        entries_consistent(device_facts_ok_spec(gpu_index, r)),
{
    lemma_groups_consistent(r);
    let s = device_facts_ok_spec(gpu_index, r);
    assert forall|i: int| 0 <= i < s.len() implies node_consistent(#[trigger] s[i].1) by {
    }
    lemma_entries_consistent(s);
}

#[verifier::spinoff_prover]
#[verifier::rlimit(50)]
proof fn lemma_device_err_consistent(gpu_index: u32, e: NvmlCallError)
    ensures
        entries_consistent(device_facts_err_spec(gpu_index, e)),
{
    let h = error_fact_spec("nvmlDeviceGetHandleByIndex"@, None, e);
    let g = single_error_group_spec("nvmlDeviceGetHandleByIndex"@, h);
    lemma_entries_consistent(g);
    assert(node_consistent(group_node(g)));
    assert(fact_consistent(h));
    let s = device_facts_err_spec(gpu_index, e);
    assert forall|i: int| 0 <= i < s.len() implies node_consistent(#[trigger] s[i].1) by {
    }
    lemma_entries_consistent(s);
}

proof fn lemma_device_facts_consistent(gpu_index: u32, handle: Result<DeviceProvenanceReadings, NvmlCallError>)
    ensures
        entries_consistent(device_facts_spec(gpu_index, handle)),
{
    match handle {
        Ok(r) => lemma_device_ok_consistent(gpu_index, r),
        Err(e) => lemma_device_err_consistent(gpu_index, e),
    }
}

/// Every fact of the provenance statistics, the driver's and those at any
/// depth of each device's tree, is consistent: a fact whose call succeeded
/// carries a raw value and no error message, and an unsupported, denied or
/// failed one carries an error message and no raw value.
pub proof fn lemma_provenance_facts_consistent(driver: DriverReadings, devices: Seq<DeviceHandleReadings>)
    ensures
        forall|k: int|
            0 <= k < provenance_stats_spec(driver, devices).driver.len() ==> fact_consistent(
                #[trigger] provenance_stats_spec(driver, devices).driver[k].1,
            ),
        forall|d: int|
            0 <= d < provenance_stats_spec(driver, devices).devices.len() ==> entries_consistent(
                #[trigger] provenance_stats_spec(driver, devices).devices[d],
            ),
{
    let stats = provenance_stats_spec(driver, devices);
    assert forall|d: int| 0 <= d < stats.devices.len() implies entries_consistent(
        #[trigger] stats.devices[d],
    ) by {
        lemma_device_facts_consistent(devices[d].index, devices[d].handle);
    }
}

} // verus!

verus! {

/// The fact of a utilisation figure read as `value` percent.
pub open spec fn utilization_fact(value: u32) -> NodeModel {
    NodeModel::Fact(
        FactModel {
            source_api: "nvmlDeviceGetUtilizationRates"@,
            state: NvmlFactState::Success,
            raw: Some(FactValueModel::U32(value)),
            unit: Some("percent"@),
            error_message: None,
        },
    )
}

/// For a device whose utilisation was read, the fact under
/// `nvml.utilization.gpu_pct` holds the GPU figure and the fact under
/// `nvml.utilization.memory_controller_pct` holds the memory controller
/// figure, each in percent, and no other entry has either key.
pub proof fn lemma_utilization_facts(gpu_index: u32, r: DeviceProvenanceReadings)
    requires
        r.utilization is Ok,
    ensures
        ({
            let e = device_facts_spec(gpu_index, Ok(r));
            let u = r.utilization->Ok_0;
            &&& exists|k: int| 0 <= k < e.len() && e[k] == ("nvml.utilization.gpu_pct"@, utilization_fact(u.gpu))
            &&& exists|k: int|
                0 <= k < e.len() && e[k] == ("nvml.utilization.memory_controller_pct"@, utilization_fact(u.memory))
            &&& forall|k: int|
                0 <= k < e.len() && #[trigger] e[k].0 == "nvml.utilization.gpu_pct"@ ==> e[k].1 == utilization_fact(u.gpu)
            &&& forall|k: int|
                0 <= k < e.len() && #[trigger] e[k].0 == "nvml.utilization.memory_controller_pct"@ ==> e[k].1
                    == utilization_fact(u.memory)
        }),
{
    reveal_strlit("nvml.device.index");
    reveal_strlit("nvml.device.name");
    reveal_strlit("nvml.device.uuid");
    reveal_strlit("nvml.device.pci.bus_id");
    reveal_strlit("nvml.device.compute_mode");
    reveal_strlit("nvml.device.performance_state");
    reveal_strlit("nvml.memory.used_bytes");
    reveal_strlit("nvml.memory.free_bytes");
    reveal_strlit("nvml.memory.total_bytes");
    reveal_strlit("nvml.utilization.gpu_pct");
    reveal_strlit("nvml.utilization.memory_controller_pct");
    reveal_strlit("nvml.temperature.gpu_c");
    reveal_strlit("nvml.power.draw_mw");
    reveal_strlit("nvml.power.enforced_limit_mw");
    reveal_strlit("identity");
    reveal_strlit("pcie");
    reveal_strlit("clocks");
    reveal_strlit("bar1");
    reveal_strlit("power_management");
    reveal_strlit("media");
    reveal_strlit("cooling");
    reveal_strlit("processes");
    let e = device_facts_spec(gpu_index, Ok(r));
    let u = r.utilization->Ok_0;
    assert(e[9] == ("nvml.utilization.gpu_pct"@, utilization_fact(u.gpu)));
    assert(e[10] == ("nvml.utilization.memory_controller_pct"@, utilization_fact(u.memory)));
    assert(e.len() == 22);
    assert forall|k: int| 0 <= k < e.len() && #[trigger] e[k].0 == "nvml.utilization.gpu_pct"@ implies k == 9 by {
        if k == 0 {
            assert(e[0].0 == "nvml.device.index"@);
            assert(e[0].0.len() != "nvml.utilization.gpu_pct"@.len());
        }
        if k == 1 {
            assert(e[1].0 == "nvml.device.name"@);
            assert(e[1].0.len() != "nvml.utilization.gpu_pct"@.len());
        }
        if k == 2 {
            assert(e[2].0 == "nvml.device.uuid"@);
            assert(e[2].0.len() != "nvml.utilization.gpu_pct"@.len());
        }
        if k == 3 {
            assert(e[3].0 == "nvml.device.pci.bus_id"@);
            assert(e[3].0.len() != "nvml.utilization.gpu_pct"@.len());
        }
        if k == 4 {
            assert(e[4].0 == "nvml.device.compute_mode"@);
            assert(e[4].0[5] != "nvml.utilization.gpu_pct"@[5]);
        }
        if k == 5 {
            assert(e[5].0 == "nvml.device.performance_state"@);
            assert(e[5].0.len() != "nvml.utilization.gpu_pct"@.len());
        }
        if k == 6 {
            assert(e[6].0 == "nvml.memory.used_bytes"@);
            assert(e[6].0.len() != "nvml.utilization.gpu_pct"@.len());
        }
        if k == 7 {
            assert(e[7].0 == "nvml.memory.free_bytes"@);
            assert(e[7].0.len() != "nvml.utilization.gpu_pct"@.len());
        }
        if k == 8 {
            assert(e[8].0 == "nvml.memory.total_bytes"@);
            assert(e[8].0.len() != "nvml.utilization.gpu_pct"@.len());
        }
        if k == 10 {
            assert(e[10].0 == "nvml.utilization.memory_controller_pct"@);
            assert(e[10].0.len() != "nvml.utilization.gpu_pct"@.len());
        }
        if k == 11 {
            assert(e[11].0 == "nvml.temperature.gpu_c"@);
            assert(e[11].0.len() != "nvml.utilization.gpu_pct"@.len());
        }
        if k == 12 {
            assert(e[12].0 == "nvml.power.draw_mw"@);
            assert(e[12].0.len() != "nvml.utilization.gpu_pct"@.len());
        }
        if k == 13 {
            assert(e[13].0 == "nvml.power.enforced_limit_mw"@);
            assert(e[13].0.len() != "nvml.utilization.gpu_pct"@.len());
        }
        if k == 14 {
            assert(e[14].0 == "identity"@);
            assert(e[14].0.len() != "nvml.utilization.gpu_pct"@.len());
        }
        if k == 15 {
            assert(e[15].0 == "pcie"@);
            assert(e[15].0.len() != "nvml.utilization.gpu_pct"@.len());
        }
        if k == 16 {
            assert(e[16].0 == "clocks"@);
            assert(e[16].0.len() != "nvml.utilization.gpu_pct"@.len());
        }
        if k == 17 {
            assert(e[17].0 == "bar1"@);
            assert(e[17].0.len() != "nvml.utilization.gpu_pct"@.len());
        }
        if k == 18 {
            assert(e[18].0 == "power_management"@);
            assert(e[18].0.len() != "nvml.utilization.gpu_pct"@.len());
        }
        if k == 19 {
            assert(e[19].0 == "media"@);
            assert(e[19].0.len() != "nvml.utilization.gpu_pct"@.len());
        }
        if k == 20 {
            assert(e[20].0 == "cooling"@);
            assert(e[20].0.len() != "nvml.utilization.gpu_pct"@.len());
        }
        if k == 21 {
            assert(e[21].0 == "processes"@);
            assert(e[21].0.len() != "nvml.utilization.gpu_pct"@.len());
        }
    }
    assert forall|k: int| 0 <= k < e.len() && #[trigger] e[k].0 == "nvml.utilization.memory_controller_pct"@ implies k == 10 by {
        if k == 0 {
            assert(e[0].0 == "nvml.device.index"@);
            assert(e[0].0.len() != "nvml.utilization.memory_controller_pct"@.len());
        }
        if k == 1 {
            assert(e[1].0 == "nvml.device.name"@);
            assert(e[1].0.len() != "nvml.utilization.memory_controller_pct"@.len());
        }
        if k == 2 {
            assert(e[2].0 == "nvml.device.uuid"@);
            assert(e[2].0.len() != "nvml.utilization.memory_controller_pct"@.len());
        }
        if k == 3 {
            assert(e[3].0 == "nvml.device.pci.bus_id"@);
            assert(e[3].0.len() != "nvml.utilization.memory_controller_pct"@.len());
        }
        if k == 4 {
            assert(e[4].0 == "nvml.device.compute_mode"@);
            assert(e[4].0.len() != "nvml.utilization.memory_controller_pct"@.len());
        }
        if k == 5 {
            assert(e[5].0 == "nvml.device.performance_state"@);
            assert(e[5].0.len() != "nvml.utilization.memory_controller_pct"@.len());
        }
        if k == 6 {
            assert(e[6].0 == "nvml.memory.used_bytes"@);
            assert(e[6].0.len() != "nvml.utilization.memory_controller_pct"@.len());
        }
        if k == 7 {
            assert(e[7].0 == "nvml.memory.free_bytes"@);
            assert(e[7].0.len() != "nvml.utilization.memory_controller_pct"@.len());
        }
        if k == 8 {
            assert(e[8].0 == "nvml.memory.total_bytes"@);
            assert(e[8].0.len() != "nvml.utilization.memory_controller_pct"@.len());
        }
        if k == 9 {
            assert(e[9].0 == "nvml.utilization.gpu_pct"@);
            assert(e[9].0.len() != "nvml.utilization.memory_controller_pct"@.len());
        }
        if k == 11 {
            assert(e[11].0 == "nvml.temperature.gpu_c"@);
            assert(e[11].0.len() != "nvml.utilization.memory_controller_pct"@.len());
        }
        if k == 12 {
            assert(e[12].0 == "nvml.power.draw_mw"@);
            assert(e[12].0.len() != "nvml.utilization.memory_controller_pct"@.len());
        }
        if k == 13 {
            assert(e[13].0 == "nvml.power.enforced_limit_mw"@);
            assert(e[13].0.len() != "nvml.utilization.memory_controller_pct"@.len());
        }
        if k == 14 {
            assert(e[14].0 == "identity"@);
            assert(e[14].0.len() != "nvml.utilization.memory_controller_pct"@.len());
        }
        if k == 15 {
            assert(e[15].0 == "pcie"@);
            assert(e[15].0.len() != "nvml.utilization.memory_controller_pct"@.len());
        }
        if k == 16 {
            assert(e[16].0 == "clocks"@);
            assert(e[16].0.len() != "nvml.utilization.memory_controller_pct"@.len());
        }
        if k == 17 {
            assert(e[17].0 == "bar1"@);
            assert(e[17].0.len() != "nvml.utilization.memory_controller_pct"@.len());
        }
        if k == 18 {
            assert(e[18].0 == "power_management"@);
            assert(e[18].0.len() != "nvml.utilization.memory_controller_pct"@.len());
        }
        if k == 19 {
            assert(e[19].0 == "media"@);
            assert(e[19].0.len() != "nvml.utilization.memory_controller_pct"@.len());
        }
        if k == 20 {
            assert(e[20].0 == "cooling"@);
            assert(e[20].0.len() != "nvml.utilization.memory_controller_pct"@.len());
        }
        if k == 21 {
            assert(e[21].0 == "processes"@);
            assert(e[21].0.len() != "nvml.utilization.memory_controller_pct"@.len());
        }
    }
}

} // verus!

verus! {

/// For a device whose handle was obtained, each scalar fact sits under the
/// key of its quantity and holds that quantity's reading, with the NVML
/// call it came from and its unit, or that call's error: name, UUID, PCI bus
/// ID, compute mode, memory used, free and total in bytes, temperature in
/// degrees Celsius, power draw and enforced limit in milliwatts.
pub proof fn lemma_device_scalar_facts(gpu_index: u32, r: DeviceProvenanceReadings)
    ensures
        ({
            let e = device_facts_spec(gpu_index, Ok(r));
            &&& e[0] == ("nvml.device.index"@, NodeModel::Fact(ok_fact("nvmlDeviceGetHandleByIndex"@, FactValueModel::U32(gpu_index), None)))
            &&& e[1] == ("nvml.device.name"@, NodeModel::Fact(match r.name {
                Ok(v) => ok_fact("nvmlDeviceGetName"@, FactValueModel::Text(v@), None),
                Err(x) => error_fact_spec("nvmlDeviceGetName"@, None, x),
            }))
            &&& e[2] == ("nvml.device.uuid"@, NodeModel::Fact(match r.uuid {
                Ok(v) => ok_fact("nvmlDeviceGetUUID"@, FactValueModel::Text(v@), None),
                Err(x) => error_fact_spec("nvmlDeviceGetUUID"@, None, x),
            }))
            &&& e[3] == ("nvml.device.pci.bus_id"@, NodeModel::Fact(match r.pci_info {
                Ok(v) => ok_fact("nvmlDeviceGetPciInfo"@, FactValueModel::Text(v.bus_id@), None),
                Err(x) => error_fact_spec("nvmlDeviceGetPciInfo"@, None, x),
            }))
            &&& e[4] == ("nvml.device.compute_mode"@, NodeModel::Fact(match r.compute_mode {
                Ok(v) => ok_fact("nvmlDeviceGetComputeMode"@, FactValueModel::Text(v@), None),
                Err(x) => error_fact_spec("nvmlDeviceGetComputeMode"@, None, x),
            }))
            &&& e[6] == ("nvml.memory.used_bytes"@, NodeModel::Fact(match r.memory {
                Ok(v) => ok_fact("nvmlDeviceGetMemoryInfo"@, FactValueModel::U64(v.used), Some("bytes"@)),
                Err(x) => error_fact_spec("nvmlDeviceGetMemoryInfo"@, Some("bytes"@), x),
            }))
            &&& e[7] == ("nvml.memory.free_bytes"@, NodeModel::Fact(match r.memory {
                Ok(v) => ok_fact("nvmlDeviceGetMemoryInfo"@, FactValueModel::U64(v.free), Some("bytes"@)),
                Err(x) => error_fact_spec("nvmlDeviceGetMemoryInfo"@, Some("bytes"@), x),
            }))
            &&& e[8] == ("nvml.memory.total_bytes"@, NodeModel::Fact(match r.memory {
                Ok(v) => ok_fact("nvmlDeviceGetMemoryInfo"@, FactValueModel::U64(v.total), Some("bytes"@)),
                Err(x) => error_fact_spec("nvmlDeviceGetMemoryInfo"@, Some("bytes"@), x),
            }))
            &&& e[11] == ("nvml.temperature.gpu_c"@, NodeModel::Fact(match r.temperature {
                Ok(v) => ok_fact("nvmlDeviceGetTemperature"@, FactValueModel::U32(v), Some("celsius"@)),
                Err(x) => error_fact_spec("nvmlDeviceGetTemperature"@, Some("celsius"@), x),
            }))
            &&& e[12] == ("nvml.power.draw_mw"@, NodeModel::Fact(match r.power_usage {
                Ok(v) => ok_fact("nvmlDeviceGetPowerUsage"@, FactValueModel::U32(v), Some("milliwatts"@)),
                Err(x) => error_fact_spec("nvmlDeviceGetPowerUsage"@, Some("milliwatts"@), x),
            }))
            &&& e[13] == ("nvml.power.enforced_limit_mw"@, NodeModel::Fact(match r.enforced_power_limit {
                Ok(v) => ok_fact("nvmlDeviceGetEnforcedPowerLimit"@, FactValueModel::U32(v), Some("milliwatts"@)),
                Err(x) => error_fact_spec("nvmlDeviceGetEnforcedPowerLimit"@, Some("milliwatts"@), x),
            }))
        }),
{
}

} // verus!
