//! Process exit codes, and the status a failed snapshot pass reports.
use vstd::prelude::*;

use crate::text::str_eq;

verus! {

/// The process exit code that belongs to a provider status word.
pub open spec fn exit_code_spec(status: Seq<char>) -> i32 {
    if status == "ok"@ {
        0
    } else if status == "unavailable"@ {
        2
    } else if status == "error"@ {
        3
    } else {
        5
    }
}

/// Maps a provider status (`ok`, `unavailable`, `error`) to the CLI exit code.
pub fn exit_code_for_status(status: &str) -> (code: i32)
    ensures
        code == exit_code_spec(status@),
{
    if str_eq(status, "ok") {
        0
    } else if str_eq(status, "unavailable") {
        2
    } else if str_eq(status, "error") {
        3
    } else {
        5
    }
}

/// The status of a snapshot pass that gave no snapshot, from its reason:
/// `error` when every device was sampled and failed, `unavailable` when
/// NVML could not be asked.
pub fn snapshot_failure_status(reason: &str) -> (r: &'static str)
    ensures
        r@ == (if reason@ == "all NVIDIA device samples failed"@ {
            "error"@
        } else {
            "unavailable"@
        }),
{
    if str_eq(reason, "all NVIDIA device samples failed") {
        "error"
    } else {
        "unavailable"
    }
}

} // verus!
