//! Version numbers as the native facility gives them.

use vstd::prelude::*;

verus! {

/// The API version that a native integer answer stands for: the answer itself
/// where it is non-negative, and zero for every negative sentinel.
pub open spec fn api_version(raw: int) -> int {
    if raw < 0 {
        0
    } else {
        raw
    }
}

/// Normalises a native version number. Negative answers become zero; no
/// answer wraps around or fails.
pub fn api_version_from_native(raw: i32) -> (version: u32)
    ensures
        version == api_version(raw as int),
{
    match u32::try_from(raw) {
        Ok(version) => version,
        Err(_) => 0,
    }
}

} // verus!
