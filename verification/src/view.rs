//! Shared view helpers for UI layers. The formatting hook is reserved: it
//! renders nothing yet, and UI code formats snapshots itself.
use vstd::prelude::*;

use crate::nvml::GpuSnapshot;

verus! {

/// The reserved formatting hook for a snapshot: the empty text.
pub fn format_snapshot(_snapshot: &GpuSnapshot) -> (r: String)
    ensures
        r@ == Seq::<char>::empty(),
{
    String::new()
}

} // verus!
