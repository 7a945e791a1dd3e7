//! The data carried across the bridge.

use vstd::prelude::*;

verus! {

/// A request a caller hands to the broker: an opaque path and an optional
/// body, forwarded to the poller untouched.
#[derive(Debug)]
pub struct StudioRequest {
    pub path: String,
    pub body: Option<String>,
}

/// The result a poller hands back for one request.
#[derive(Debug)]
pub struct StudioResponse {
    pub status: u16,
    pub body: String,
}

/// What a poll returns: the oldest pending request with its id, or nothing.
#[derive(Debug)]
pub struct PollResponse {
    pub id: Option<String>,
    pub request: Option<StudioRequest>,
}

/// The body of a resolution call: which request, and its response.
#[derive(Debug)]
pub struct RespondRequest {
    pub id: String,
    pub response: StudioResponse,
}

/// A snapshot of the broker's health, recomputed on every read.
#[derive(Debug)]
pub struct StatusResponse {
    pub connected: bool,
    pub pending_requests: usize,
    pub last_poll_time: u64,
}

/// One captured out-of-band authorization callback.
#[derive(Debug)]
pub struct OAuthCallbackData {
    pub code: String,
    pub state: String,
    pub timestamp: u64,
}

fn clone_opt_string(s: &Option<String>) -> (r: Option<String>)
    ensures
        r == *s,
{
    match s {
        Some(v) => Some(v.clone()),
        None => None,
    }
}

impl Clone for StudioRequest {
    /// The clone carries the same path and body.
    fn clone(&self) -> (r: Self)
        ensures
            r == *self,
    {
        StudioRequest { path: self.path.clone(), body: clone_opt_string(&self.body) }
    }
}

impl Clone for StudioResponse {
    /// The clone carries the same status and body.
    fn clone(&self) -> (r: Self)
        ensures
            r == *self,
    {
        StudioResponse { status: self.status, body: self.body.clone() }
    }
}

impl Clone for OAuthCallbackData {
    /// The clone carries the same code, state and stamp.
    fn clone(&self) -> (r: Self)
        ensures
            r == *self,
    {
        OAuthCallbackData {
            code: self.code.clone(),
            state: self.state.clone(),
            timestamp: self.timestamp,
        }
    }
}

} // verus!
