//! Bridge broker for a caller/poller relay.
//!
//! A caller submits a request and blocks until a poller, which can only make
//! outbound requests, picks the request up and resolves it. The broker keeps
//! the table of in-flight requests; a reaper evicts stale entries; a streaming
//! relay forwards calls to an upstream HTTP endpoint.

pub mod broker;
pub mod callback;
pub mod channel;
pub mod clock;
pub mod ids;
pub mod plugin;
pub mod relay;
pub mod types;

use vstd::prelude::*;

verus! {

/// Milliseconds a submitted request may wait for a resolution before it
/// times out.
pub const REQUEST_TIMEOUT_MS: u64 = 15000;

/// Width of the liveness window: the broker counts as connected when the
/// most recent poll is fewer than this many milliseconds old.
pub const LIVENESS_WINDOW_MS: u64 = 2000;

/// Milliseconds between two scans of the reaper.
pub const REAP_INTERVAL_MS: u64 = 5000;

/// Elapsed milliseconds from `then` to `now`, zero when the clock appears to
/// have moved backwards.
pub open spec fn age_of(now: u64, then: u64) -> u64 {
    if now >= then {
        (now - then) as u64
    } else {
        0
    }
}

/// Saturating elapsed time between two millisecond clock readings.
pub fn elapsed_ms(now: u64, then: u64) -> (age: u64)
    ensures
        age == age_of(now, then),
{
    if now >= then {
        now - then
    } else {
        0
    }
}

} // verus!
