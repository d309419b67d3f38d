//! The driver and device context shown next to a probe: driver versions,
//! compute mode, performance state and PCI bus.
use vstd::prelude::*;

use crate::text::{dec_signed, dec_string_signed, owned};

verus! {

/// A device's performance state, `P0` (highest) to `P15`, or unknown.
#[derive(Clone, Copy, Debug, PartialEq, Eq, Structural)]
pub enum PerformanceState {
    Zero,
    One,
    Two,
    Three,
    Four,
    Five,
    Six,
    Seven,
    Eight,
    Nine,
    Ten,
    Eleven,
    Twelve,
    Thirteen,
    Fourteen,
    Fifteen,
    Unknown,
}

/// The name of a performance state: `P0` to `P15`, or `Unknown`.
pub open spec fn perf_state_name(state: PerformanceState) -> Seq<char> {
    match state {
        PerformanceState::Zero => "P0"@,
        PerformanceState::One => "P1"@,
        PerformanceState::Two => "P2"@,
        PerformanceState::Three => "P3"@,
        PerformanceState::Four => "P4"@,
        PerformanceState::Five => "P5"@,
        PerformanceState::Six => "P6"@,
        PerformanceState::Seven => "P7"@,
        PerformanceState::Eight => "P8"@,
        PerformanceState::Nine => "P9"@,
        PerformanceState::Ten => "P10"@,
        PerformanceState::Eleven => "P11"@,
        PerformanceState::Twelve => "P12"@,
        PerformanceState::Thirteen => "P13"@,
        PerformanceState::Fourteen => "P14"@,
        PerformanceState::Fifteen => "P15"@,
        PerformanceState::Unknown => "Unknown"@,
    }
}

/// The name of a performance state.
pub fn format_perf_state(state: PerformanceState) -> (r: &'static str)
    ensures
        r@ == perf_state_name(state),
{
    match state {
        PerformanceState::Zero => "P0",
        PerformanceState::One => "P1",
        PerformanceState::Two => "P2",
        PerformanceState::Three => "P3",
        PerformanceState::Four => "P4",
        PerformanceState::Five => "P5",
        PerformanceState::Six => "P6",
        PerformanceState::Seven => "P7",
        PerformanceState::Eight => "P8",
        PerformanceState::Nine => "P9",
        PerformanceState::Ten => "P10",
        PerformanceState::Eleven => "P11",
        PerformanceState::Twelve => "P12",
        PerformanceState::Thirteen => "P13",
        PerformanceState::Fourteen => "P14",
        PerformanceState::Fifteen => "P15",
        PerformanceState::Unknown => "Unknown",
    }
}

/// What a probe shows of the driver and of one device.
#[derive(Debug)]
pub struct GpuProbeContext {
    pub driver_version: String,
    pub cuda_driver_version: String,
    pub compute_mode: String,
    pub perf_state: String,
    pub pci_bus_id: String,
}

/// A probe context as values.
pub struct ProbeContextModel {
    pub driver_version: Seq<char>,
    pub cuda_driver_version: Seq<char>,
    pub compute_mode: Seq<char>,
    pub perf_state: Seq<char>,
    pub pci_bus_id: Seq<char>,
}

impl View for GpuProbeContext {
    type V = ProbeContextModel;

    open spec fn view(&self) -> ProbeContextModel {
        ProbeContextModel {
            driver_version: self.driver_version@,
            cuda_driver_version: self.cuda_driver_version@,
            compute_mode: self.compute_mode@,
            perf_state: self.perf_state@,
            pci_bus_id: self.pci_bus_id@,
        }
    }
}

/// The text shown for a value that could not be read.
pub open spec fn na() -> Seq<char> {
    "N/A"@
}

/// The context in which nothing could be read.
pub open spec fn unavailable_context() -> ProbeContextModel {
    ProbeContextModel {
        driver_version: na(),
        cuda_driver_version: na(),
        compute_mode: na(),
        perf_state: na(),
        pci_bus_id: na(),
    }
}

fn unavailable() -> (r: String)
    ensures
        r@ == na(),
{
    owned("N/A")
}

impl GpuProbeContext {
    /// Every value `N/A`.
    pub fn unavailable() -> (r: Self)
        ensures
            r@ == unavailable_context(),
    {
        GpuProbeContext {
            driver_version: unavailable(),
            cuda_driver_version: unavailable(),
            compute_mode: unavailable(),
            perf_state: unavailable(),
            pci_bus_id: unavailable(),
        }
    }
}

/// What was read of one device for its probe context; `None` where the call
/// failed. `compute_mode` is the mode's name as NVML's wrapper spells it.
pub struct DeviceProbeReadings {
    pub compute_mode: Option<String>,
    pub perf_state: Option<PerformanceState>,
    pub pci_bus_id: Option<String>,
}

/// What was read for a probe context: the driver versions, and the device's
/// values when its handle was obtained.
pub struct ProbeReadings {
    pub driver_version: Option<String>,
    pub cuda_driver_version: Option<i32>,
    pub device: Option<DeviceProbeReadings>,
}

/// A text that was read, or `N/A`.
pub open spec fn text_or_na(v: Option<String>) -> Seq<char> {
    match v {
        Some(s) => s@,
        None => na(),
    }
}

/// The probe context of what was read: each value that was read, the CUDA
/// driver version as a decimal number and the performance state by name;
/// `N/A` for each value that was not.
pub open spec fn probe_context_spec(r: ProbeReadings) -> ProbeContextModel {
    ProbeContextModel {
        driver_version: text_or_na(r.driver_version),
        cuda_driver_version: match r.cuda_driver_version {
            Some(v) => dec_signed(v as int),
            None => na(),
        },
        compute_mode: match r.device {
            Some(d) => text_or_na(d.compute_mode),
            None => na(),
        },
        perf_state: match r.device {
            Some(d) => match d.perf_state {
                Some(p) => perf_state_name(p),
                None => na(),
            },
            None => na(),
        },
        pci_bus_id: match r.device {
            Some(d) => text_or_na(d.pci_bus_id),
            None => na(),
        },
    }
}

fn or_na(v: Option<String>) -> (r: String)
    ensures
        r@ == text_or_na(v),
{
    match v {
        Some(s) => s,
        None => unavailable(),
    }
}

/// The probe context of one device of an open NVML context, from what was
/// read of the driver and of the device.
pub fn query_probe_context_for_gpu_with_ctx(readings: ProbeReadings) -> (r: GpuProbeContext)
    ensures
        r@ == probe_context_spec(readings),
{
    let ghost spec = probe_context_spec(readings);
    let driver_version = or_na(readings.driver_version);
    let cuda_driver_version = match readings.cuda_driver_version {
        Some(v) => dec_string_signed(v as i64),
        None => unavailable(),
    };
    let (compute_mode, perf_state, pci_bus_id) = match readings.device {
        Some(d) => {
            let perf = match d.perf_state {
                Some(p) => owned(format_perf_state(p)),
                None => unavailable(),
            };
            (or_na(d.compute_mode), perf, or_na(d.pci_bus_id))
        },
        None => (unavailable(), unavailable(), unavailable()),
    };
    let r = GpuProbeContext {
        driver_version,
        cuda_driver_version,
        compute_mode,
        perf_state,
        pci_bus_id,
    };
    assert(r@ == spec);
    r
}

/// The probe context of one device: every value `N/A` when NVML could not be
/// opened (`None`), else the context of what was read.
pub fn query_probe_context_for_gpu(readings: Option<ProbeReadings>) -> (r: GpuProbeContext)
    ensures
        r@ == match readings {
            Some(x) => probe_context_spec(x),
            None => unavailable_context(),
        },
{
    match readings {
        Some(x) => query_probe_context_for_gpu_with_ctx(x),
        None => GpuProbeContext::unavailable(),
    }
}

} // verus!
