//! Processor-identification helper: normalizes the raw index an OS query
//! hands back before it is shown to callers.

use vstd::prelude::*;

verus! {

/// Collapses every negative OS answer to the single unsupported sentinel -1
/// and passes valid indices through unchanged.
pub fn normalize_cpu_index(raw: i32) -> (r: i32)
    ensures
        raw >= 0 ==> r == raw,
        raw < 0 ==> r == -1,
{
    if raw < 0 {
        -1
    } else {
        raw
    }
}

} // verus!
