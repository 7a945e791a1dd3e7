//! The wall clock.
//!
//! Every broker operation takes its clock reading as an argument; this is
//! where a real reading comes from.

use vstd::prelude::*;

verus! {

/// Relies on std::time::SystemTime::now: one reading of the system clock,
/// converted to milliseconds since the Unix epoch, zero if the clock reads
/// earlier than the epoch. The result depends on the clock, so nothing
/// relates one reading to another.
#[verifier::external_body]
fn system_millis() -> u64 {
    std::time::SystemTime::now()
        .duration_since(std::time::UNIX_EPOCH)
        .unwrap_or_default()
        .as_millis() as u64
}

/// The wall-clock time in milliseconds since the Unix epoch.
pub fn chrono_lite_timestamp() -> u64 {
    system_millis()
}

} // verus!
