//! The wall clock, used only by the convenience constructor that stamps a
//! block with the current time.

use vstd::prelude::*;

verus! {

/// Relies on `std::time::SystemTime::now`: seconds since the Unix epoch; a
/// clock that predates the epoch reads as zero. Nothing is assumed about the
/// value returned; every caller must hold for any timestamp.
#[verifier::external_body]
pub fn now() -> u64 {
    std::time::SystemTime::now()
        .duration_since(std::time::UNIX_EPOCH)
        .map(|d| d.as_secs())
        .unwrap_or(0)
}

} // verus!
