//! The streaming relay's decisions.
//!
//! The relay forwards one inbound call to a fixed upstream HTTP endpoint and
//! pipes the answer back. The transport itself is asynchronous I/O and lives
//! outside the library; what is decided here: which caller headers are
//! forwarded, which upstream statuses stream and which buffer, what the
//! caller receives on a passthrough error and on a transport failure, and —
//! chunk by chunk — that the streamed bytes reach the caller unchanged and
//! in order.

use vstd::prelude::*;
use vstd::string::StringExecFns;

verus! {

/// The gateway-class status reported when upstream cannot be reached.
pub const BAD_GATEWAY_STATUS: u16 = 502;

/// Whether an upstream status takes the streaming path (any success status)
/// rather than the buffered passthrough-error path.
pub fn upstream_is_success(status: u16) -> (b: bool)
    ensures
        b == (200 <= status && status < 300),
{
    200 <= status && status < 300
}

/// The at-most-two caller-supplied headers the relay forwards, in a fixed
/// order: the authorization credential, then the account identifier, each
/// exactly when the caller supplied it. Nothing else of the caller's headers
/// crosses the relay.
pub fn forwarded_headers(auth: Option<String>, account_id: Option<String>) -> (hs: Vec<
    (String, String),
>)
    ensures
        hs@.len() == (if auth is Some {
            1int
        } else {
            0int
        }) + (if account_id is Some {
            1int
        } else {
            0int
        }),
        auth matches Some(a) ==> hs@[0].0@ == "Authorization"@ && hs@[0].1 == a,
        auth is None ==> (account_id matches Some(c) ==> hs@[0].0@ == "ChatGPT-Account-Id"@
            && hs@[0].1 == c),
        auth is Some ==> (account_id matches Some(c) ==> hs@[1].0@ == "ChatGPT-Account-Id"@
            && hs@[1].1 == c),
{
    let mut hs: Vec<(String, String)> = Vec::new();
    match auth {
        Some(a) => {
            hs.push((String::from_str("Authorization"), a));
        },
        None => {},
    }
    match account_id {
        Some(c) => {
            hs.push((String::from_str("ChatGPT-Account-Id"), c));
        },
        None => {},
    }
    hs
}

/// A relay reply that is sent whole rather than streamed: the buffered
/// passthrough of an upstream error, or the bad-gateway report.
pub struct RelayReply {
    pub status: u16,
    pub body: String,
}

/// The passthrough-error reply: the caller receives exactly the buffered
/// upstream body under exactly the upstream status. (A status outside the
/// representable range degrades to an internal error; upstream statuses are
/// always representable.)
pub fn relay_error_reply(status: u16, body: String) -> (r: RelayReply)
    ensures
        r.status == (if 100 <= status && status <= 999 {
            status
        } else {
            500u16
        }),
        r.body == body,
{
    let mirrored: u16 = if 100 <= status && status <= 999 {
        status
    } else {
        500
    };
    RelayReply { status: mirrored, body }
}

/// The reply for a transport-level failure to reach upstream: bad gateway,
/// carrying the transport error's description.
pub fn relay_transport_reply(detail: &str) -> (r: RelayReply)
    ensures
        r.status == BAD_GATEWAY_STATUS,
        r.body@ == "Proxy error: "@ + detail@,
{
    let mut body = String::from_str("Proxy error: ");
    body.append(detail);
    RelayReply { status: BAD_GATEWAY_STATUS, body }
}

/// The streaming path's forwarder. Each upstream chunk goes through
/// `forward_chunk` on its way to the caller; the invariant carries the proof
/// that the bytes delivered downstream are, byte for byte and in order, the
/// bytes that arrived from upstream — no reordering, no loss, no buffering
/// of the whole body.
pub struct StreamForwarder {
    pub upstream: Ghost<Seq<u8>>,
    pub delivered: Ghost<Seq<u8>>,
}

impl StreamForwarder {
    /// Everything that arrived has been passed on unchanged.
    pub open spec fn inv(&self) -> bool {
        self.delivered@ == self.upstream@
    }

    pub fn new() -> (s: Self)
        ensures
            s.inv(),
            s.upstream@ == Seq::<u8>::empty(),
            s.delivered@ == Seq::<u8>::empty(),
    {
        StreamForwarder { upstream: Ghost(Seq::empty()), delivered: Ghost(Seq::empty()) }
    }

    /// Hands one upstream chunk to the caller unchanged.
    pub fn forward_chunk(&mut self, chunk: Vec<u8>) -> (out: Vec<u8>)
        requires
            old(self).inv(),
        ensures
            final(self).inv(),
            out@ == chunk@,
            final(self).upstream@ == old(self).upstream@ + chunk@,
            final(self).delivered@ == old(self).delivered@ + out@,
    {
        self.upstream = Ghost(self.upstream@ + chunk@);
        self.delivered = Ghost(self.delivered@ + chunk@);
        chunk
    }
}

} // verus!
