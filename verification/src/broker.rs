//! The bridge broker: the table of in-flight requests and its operations.
//!
//! A submit stores a pending request under a fresh correlation id and hands
//! the receiving half of a oneshot channel back to the (suspending) caller; a
//! poll reads the oldest pending request without removing it and refreshes
//! the liveness heartbeat; a resolution removes the entry and delivers the
//! response through the channel; the reaper evicts entries older than the
//! request timeout. All removal paths are idempotent: removing an id that is
//! already gone changes nothing.
//!
//! The broker takes every clock reading as an argument, so timeout and
//! liveness behaviour is deterministic and testable.

use vstd::prelude::*;
use vstd::string::StringExecFns;

use crate::ids::{format_request_id, id_chars, lemma_id_chars_injective};
use crate::types::{PollResponse, StatusResponse, StudioRequest, StudioResponse};
use crate::{age_of, elapsed_ms, LIVENESS_WINDOW_MS, REQUEST_TIMEOUT_MS};

verus! {

/// How far in the past the poll-age report is backdated at startup; before
/// the first real poll the status reports this age (capped by the clock).
pub const STARTUP_POLL_BACKDATE_MS: u64 = 10000;

/// One in-flight request: the caller's request, the sending half of its
/// resolution channel, the millisecond stamp of its creation, and the counter
/// value its id was built from.
pub struct PendingRequest {
    pub id: String,
    pub counter: u64,
    pub request: StudioRequest,
    pub sender: tokio::sync::oneshot::Sender<StudioResponse>,
    pub created_at: u64,
}

/// What a pending entry promises independently of its position: its counter
/// never runs ahead of the broker's, and its id is the text built from its
/// counter and its creation stamp.
pub open spec fn entry_inv(e: PendingRequest, request_counter: u64) -> bool {
    &&& e.counter <= request_counter
    &&& e.id@ == id_chars(e.counter as nat, e.created_at as nat)
}

/// Entries stand in insertion order: counters strictly increase.
pub open spec fn counters_sorted(s: Seq<PendingRequest>) -> bool {
    forall|i: int, j: int|
        0 <= i < j < s.len() ==> #[trigger] s[i].counter < #[trigger] s[j].counter
}

/// The broker's shared state: the pending table in insertion order, the
/// id counter, and the heartbeat of the most recent poll. `polled` records
/// whether any poll ever happened: a fresh broker is disconnected at every
/// clock reading until the first one.
pub struct BridgeState {
    pub pending_requests: Vec<PendingRequest>,
    pub request_counter: u64,
    pub last_poll_time: u64,
    pub polled: bool,
}

/// Which entries a reaper scan at clock reading `now` keeps: those no older
/// than the request timeout.
pub open spec fn keeps(now: u64) -> spec_fn(PendingRequest) -> bool {
    |e: PendingRequest| age_of(now, e.created_at) <= REQUEST_TIMEOUT_MS
}

/// The poll heartbeat a fresh broker starts with.
pub open spec fn initial_poll_mark(now: u64) -> u64 {
    if now >= STARTUP_POLL_BACKDATE_MS {
        (now - STARTUP_POLL_BACKDATE_MS) as u64
    } else {
        0
    }
}

impl BridgeState {
    /// The table invariant every operation preserves.
    pub open spec fn wf(&self) -> bool {
        &&& counters_sorted(self.pending_requests@)
        &&& forall|i: int|
            0 <= i < self.pending_requests@.len() ==> entry_inv(
                #[trigger] self.pending_requests@[i],
                self.request_counter,
            )
    }

    /// Connected means: a poll occurred, and the most recent one is younger
    /// than the liveness window at this clock reading.
    pub open spec fn connected_spec(&self, now: u64) -> bool {
        self.polled && age_of(now, self.last_poll_time) < LIVENESS_WINDOW_MS
    }

    /// Whether some pending entry carries this id.
    pub open spec fn contains_id(&self, id: Seq<char>) -> bool {
        exists|i: int|
            0 <= i < self.pending_requests@.len() && (#[trigger] self.pending_requests@[i].id)@
                == id
    }

    /// The position of the entry carrying this id; meaningful only when
    /// `contains_id` holds (and then unique, by `lemma_ids_distinct`).
    pub open spec fn index_of_id(&self, id: Seq<char>) -> int {
        choose|i: int|
            0 <= i < self.pending_requests@.len() && (#[trigger] self.pending_requests@[i].id)@
                == id
    }

    /// A fresh broker: empty table, counter at zero, no poll yet — so it is
    /// disconnected at every clock reading until the first poll — and the
    /// reported poll age backdated.
    pub fn new(now_ms: u64) -> (s: Self)
        ensures
            s.wf(),
            s.pending_requests@ == Seq::<PendingRequest>::empty(),
            s.request_counter == 0,
            s.last_poll_time == initial_poll_mark(now_ms),
            !s.polled,
            forall|t: u64| !s.connected_spec(t),
    {
        BridgeState {
            pending_requests: Vec::new(),
            request_counter: 0,
            last_poll_time: if now_ms >= STARTUP_POLL_BACKDATE_MS {
                now_ms - STARTUP_POLL_BACKDATE_MS
            } else {
                0
            },
            polled: false,
        }
    }

    /// Steps the counter and builds the next correlation id from it and the
    /// clock reading.
    fn generate_id(&mut self, now_ms: u64) -> (id: String)
        requires
            old(self).request_counter < u64::MAX,
        ensures
            final(self).request_counter == old(self).request_counter + 1,
            final(self).pending_requests@ == old(self).pending_requests@,
            final(self).last_poll_time == old(self).last_poll_time,
            final(self).polled == old(self).polled,
            id@ == id_chars((old(self).request_counter + 1) as nat, now_ms as nat),
    {
        self.request_counter = self.request_counter + 1;
        format_request_id(self.request_counter, now_ms)
    }

    /// Submit: stores the request under a fresh id — one no entry carries and
    /// no earlier submit ever issued — and returns the id together with the
    /// receiving half of the entry's resolution channel, for the caller to
    /// await. The entry is appended, so the table stays in insertion order.
    pub fn submit(&mut self, request: StudioRequest, now_ms: u64) -> (r: (
        String,
        tokio::sync::oneshot::Receiver<StudioResponse>,
    ))
        requires
            old(self).wf(),
            old(self).request_counter < u64::MAX,
        ensures
            final(self).wf(),
            final(self).request_counter == old(self).request_counter + 1,
            final(self).last_poll_time == old(self).last_poll_time,
            final(self).polled == old(self).polled,
            r.0@ == id_chars((old(self).request_counter + 1) as nat, now_ms as nat),
            !old(self).contains_id(r.0@),
            final(self).contains_id(r.0@),
            final(self).pending_requests@.len() == old(self).pending_requests@.len() + 1,
            final(self).pending_requests@.drop_last() == old(self).pending_requests@,
            final(self).pending_requests@.last().id@ == r.0@,
            final(self).pending_requests@.last().request == request,
            final(self).pending_requests@.last().created_at == now_ms,
            final(self).pending_requests@.last().counter == old(self).request_counter + 1,
    {
        let id = self.generate_id(now_ms);
        let (sender, receiver) = tokio::sync::oneshot::channel();
        let entry = PendingRequest {
            id: id.clone(),
            counter: self.request_counter,
            request,
            sender,
            created_at: now_ms,
        };
        self.pending_requests.push(entry);
        proof {
            let s0 = old(self).pending_requests@;
            let s1 = self.pending_requests@;
            assert(s1.drop_last() =~= s0);
            assert forall|i: int| 0 <= i < s0.len() implies (#[trigger] s0[i].id)@ != id@ by {
                if s0[i].id@ == id@ {
                    lemma_id_chars_injective(
                        s0[i].counter as nat,
                        s0[i].created_at as nat,
                        (old(self).request_counter + 1) as nat,
                        now_ms as nat,
                    );
                }
            }
            assert(s1[s1.len() - 1].id@ == id@);
        }
        (id, receiver)
    }

    /// Finds the position of the entry carrying this id.
    fn find_index(&self, id: &String) -> (r: Option<usize>)
        ensures
            match r {
                Some(i) => i < self.pending_requests@.len() && self.pending_requests@[i as int].id@
                    == id@,
                None => !self.contains_id(id@),
            },
    {
        let mut i: usize = 0;
        while i < self.pending_requests.len()
            invariant
                i <= self.pending_requests@.len(),
                forall|k: int|
                    0 <= k < i ==> (#[trigger] self.pending_requests@[k].id)@ != id@,
            decreases self.pending_requests@.len() - i,
        {
            if self.pending_requests[i].id == *id {
                return Some(i);
            }
            i = i + 1;
        }
        None
    }

    /// Removes and returns the entry carrying this id, if one is present;
    /// the shared removal step behind resolution, timeout and abandonment.
    /// Idempotent: on an absent id it changes nothing.
    fn take_entry(&mut self, id: &String) -> (r: Option<PendingRequest>)
        requires
            old(self).wf(),
        ensures
            final(self).wf(),
            final(self).request_counter == old(self).request_counter,
            final(self).last_poll_time == old(self).last_poll_time,
            final(self).polled == old(self).polled,
            r is Some <==> old(self).contains_id(id@),
            r is None ==> *final(self) == *old(self),
            r matches Some(e) ==> {
                &&& e.id@ == id@
                &&& e == old(self).pending_requests@[old(self).index_of_id(id@)]
                &&& final(self).pending_requests@ == old(self).pending_requests@.remove(
                    old(self).index_of_id(id@),
                )
            },
            !final(self).contains_id(id@),
    {
        match self.find_index(id) {
            None => None,
            Some(i) => {
                proof {
                    let j = old(self).index_of_id(id@);
                    if j != i as int {
                        lemma_ids_distinct(*old(self), i as int, j);
                    }
                }
                let entry = self.pending_requests.remove(i);
                proof {
                    let s0 = old(self).pending_requests@;
                    s0.remove_ensures(i as int);
                    assert forall|k: int|
                        0 <= k < self.pending_requests@.len() implies entry_inv(
                        #[trigger] self.pending_requests@[k],
                        self.request_counter,
                    ) by {
                        if k < i as int {
                            assert(self.pending_requests@[k] == s0[k]);
                        } else {
                            assert(self.pending_requests@[k] == s0[k + 1]);
                        }
                    }
                    assert(counters_sorted(self.pending_requests@)) by {
                        assert forall|p: int, q: int|
                            0 <= p < q < self.pending_requests@.len() implies (
                        #[trigger] self.pending_requests@[p].counter)
                            < (#[trigger] self.pending_requests@[q].counter) by {
                            let p0 = if p < i as int {
                                p
                            } else {
                                p + 1
                            };
                            let q0 = if q < i as int {
                                q
                            } else {
                                q + 1
                            };
                            assert(self.pending_requests@[p] == s0[p0]);
                            assert(self.pending_requests@[q] == s0[q0]);
                        }
                    }
                    assert(!self.contains_id(id@)) by {
                        if self.contains_id(id@) {
                            let k = choose|k: int|
                                0 <= k < self.pending_requests@.len() && (
                                #[trigger] self.pending_requests@[k].id)@ == id@;
                            let k0 = if k < i as int {
                                k
                            } else {
                                k + 1
                            };
                            assert(s0[k0].id@ == id@);
                            lemma_ids_distinct(*old(self), k0, i as int);
                        }
                    }
                }
                Some(entry)
            },
        }
    }

    /// Resolve: removes the entry with this id and delivers the response
    /// through its resolution channel. Best effort: when the waiting caller
    /// has already given up, the delivery is discarded, not an error. Returns
    /// whether an entry was found; an unknown id is a no-op.
    pub fn resolve(&mut self, id: &String, response: StudioResponse) -> (found: bool)
        requires
            old(self).wf(),
        ensures
            final(self).wf(),
            final(self).request_counter == old(self).request_counter,
            final(self).last_poll_time == old(self).last_poll_time,
            final(self).polled == old(self).polled,
            found == old(self).contains_id(id@),
            !found ==> *final(self) == *old(self),
            found ==> final(self).pending_requests@ == old(self).pending_requests@.remove(
                old(self).index_of_id(id@),
            ),
            !final(self).contains_id(id@),
    {
        match self.take_entry(id) {
            None => false,
            Some(entry) => {
                let _ = entry.sender.send(response);
                true
            },
        }
    }

    /// Removes the entry with this id without delivering anything; dropping
    /// the entry closes its channel. Used when the submit wait ends without
    /// a resolution. Idempotent like every removal path.
    pub fn remove_entry(&mut self, id: &String) -> (found: bool)
        requires
            old(self).wf(),
        ensures
            final(self).wf(),
            final(self).request_counter == old(self).request_counter,
            final(self).last_poll_time == old(self).last_poll_time,
            final(self).polled == old(self).polled,
            found == old(self).contains_id(id@),
            !found ==> *final(self) == *old(self),
            found ==> final(self).pending_requests@ == old(self).pending_requests@.remove(
                old(self).index_of_id(id@),
            ),
            !final(self).contains_id(id@),
    {
        match self.take_entry(id) {
            None => false,
            Some(_entry) => true,
        }
    }

    /// PopNext: refreshes the poll heartbeat unconditionally, and returns the
    /// oldest pending request with its id — without removing it, so a second
    /// poll before its resolution sees it again.
    pub fn pop_next(&mut self, now_ms: u64) -> (r: PollResponse)
        requires
            old(self).wf(),
        ensures
            final(self).wf(),
            final(self).pending_requests@ == old(self).pending_requests@,
            final(self).request_counter == old(self).request_counter,
            final(self).last_poll_time == now_ms,
            final(self).polled,
            old(self).pending_requests@.len() == 0 ==> r.id is None && r.request is None,
            old(self).pending_requests@.len() > 0 ==> {
                &&& r.id matches Some(id) && id@ == old(self).pending_requests@[0].id@
                &&& r.request matches Some(q) && q == old(self).pending_requests@[0].request
            },
    {
        self.last_poll_time = now_ms;
        self.polled = true;
        if self.pending_requests.len() > 0 {
            let id = self.pending_requests[0].id.clone();
            let request = self.pending_requests[0].request.clone();
            PollResponse { id: Some(id), request: Some(request) }
        } else {
            PollResponse { id: None, request: None }
        }
    }

    /// The reaper's scan: evicts every entry older than the request timeout,
    /// polled or not, keeping the others in order. Dropping an evicted entry
    /// closes its channel, which cancels the waiting submit.
    pub fn cleanup_stale(&mut self, now_ms: u64)
        requires
            old(self).wf(),
        ensures
            final(self).wf(),
            final(self).request_counter == old(self).request_counter,
            final(self).last_poll_time == old(self).last_poll_time,
            final(self).polled == old(self).polled,
            final(self).pending_requests@ == old(self).pending_requests@.filter(keeps(now_ms)),
    {
        let ghost orig = self.pending_requests@;
        let ghost mut p: int = 0;
        let mut kept: Vec<PendingRequest> = Vec::new();
        proof {
            assert(orig.subrange(0, orig.len() as int) =~= orig);
        }
        while self.pending_requests.len() > 0
            invariant
                0 <= p <= orig.len(),
                self.pending_requests@ == orig.subrange(p, orig.len() as int),
                kept@ == orig.subrange(0, p).filter(keeps(now_ms)),
                self.request_counter == old(self).request_counter,
                self.last_poll_time == old(self).last_poll_time,
                self.polled == old(self).polled,
            decreases self.pending_requests@.len(),
        {
            let entry = self.pending_requests.remove(0);
            proof {
                assert(orig.subrange(p, orig.len() as int).remove(0) =~= orig.subrange(
                    p + 1,
                    orig.len() as int,
                ));
                assert(entry == orig[p]);
                assert(orig.subrange(0, p + 1).drop_last() =~= orig.subrange(0, p));
                assert(orig.subrange(0, p + 1).last() == orig[p]);
            }
            if elapsed_ms(now_ms, entry.created_at) <= REQUEST_TIMEOUT_MS {
                kept.push(entry);
            }
            proof {
                reveal(Seq::filter);
                assert(keeps(now_ms)(orig[p]) == (age_of(now_ms, orig[p].created_at)
                    <= REQUEST_TIMEOUT_MS));
                assert(orig.subrange(0, p + 1).filter(keeps(now_ms)) == if keeps(now_ms)(orig[p]) {
                    orig.subrange(0, p).filter(keeps(now_ms)).push(orig[p])
                } else {
                    orig.subrange(0, p).filter(keeps(now_ms))
                });
                p = p + 1;
            }
        }
        proof {
            assert(p == orig.len());
            assert(orig.subrange(0, p) =~= orig);
        }
        self.pending_requests = kept;
        proof {
            lemma_filter_preserves_sorted(orig, keeps(now_ms));
            lemma_filter_members(orig, keeps(now_ms));
            assert forall|k: int|
                0 <= k < self.pending_requests@.len() implies entry_inv(
                #[trigger] self.pending_requests@[k],
                self.request_counter,
            ) by {
                let f = orig.filter(keeps(now_ms));
                assert(orig.contains(f[k]));
                let m = choose|m: int| 0 <= m < orig.len() && orig[m] == f[k];
                assert(entry_inv(orig[m], old(self).request_counter));
            }
        }
    }

    /// Whether the broker counts as connected: some poll occurred and the
    /// most recent one is younger than the liveness window. Derived on every
    /// read, never stored.
    pub fn is_connected(&self, now_ms: u64) -> (connected: bool)
        ensures
            connected == self.connected_spec(now_ms),
    {
        self.polled && elapsed_ms(now_ms, self.last_poll_time) < LIVENESS_WINDOW_MS
    }

    /// Status: connectedness, the pending-entry count, and the age of the
    /// most recent poll, all recomputed from the clock reading.
    pub fn status(&self, now_ms: u64) -> (r: StatusResponse)
        ensures
            r.connected == self.connected_spec(now_ms),
            r.pending_requests == self.pending_requests@.len(),
            r.last_poll_time == age_of(now_ms, self.last_poll_time),
    {
        let elapsed = elapsed_ms(now_ms, self.last_poll_time);
        StatusResponse {
            connected: self.polled && elapsed < LIVENESS_WINDOW_MS,
            pending_requests: self.pending_requests.len(),
            last_poll_time: elapsed,
        }
    }
}

/// How the wait on a submit's resolution channel ended: a response arrived,
/// the channel closed without one (the entry was dropped), or the deadline
/// elapsed first.
pub enum ChannelEvent {
    Value(StudioResponse),
    Closed,
    Deadline,
}

/// A submit's one terminal outcome.
pub enum SubmitResult {
    Response(StudioResponse),
    Cancelled,
    Timeout,
}

impl BridgeState {
    /// Ends a submit: maps how the wait ended to the caller's one terminal
    /// outcome, and on the cancellation and timeout paths removes the entry
    /// if it is still present — tolerating that a concurrent resolution or a
    /// reaper scan already removed it. Either way the id is absent afterwards.
    pub fn submit_finish(&mut self, id: &String, event: ChannelEvent) -> (r: SubmitResult)
        requires
            old(self).wf(),
        ensures
            final(self).wf(),
            final(self).request_counter == old(self).request_counter,
            final(self).last_poll_time == old(self).last_poll_time,
            final(self).polled == old(self).polled,
            match event {
                ChannelEvent::Value(resp) => r == SubmitResult::Response(resp) && *final(self)
                    == *old(self),
                ChannelEvent::Closed => r is Cancelled,
                ChannelEvent::Deadline => r is Timeout,
            },
            !(event is Value) ==> !final(self).contains_id(id@),
            !(event is Value) && old(self).contains_id(id@) ==> final(self).pending_requests@
                == old(self).pending_requests@.remove(old(self).index_of_id(id@)),
            !(event is Value) && !old(self).contains_id(id@) ==> *final(self) == *old(self),
    {
        match event {
            ChannelEvent::Value(resp) => SubmitResult::Response(resp),
            ChannelEvent::Closed => {
                let _ = self.take_entry(id);
                SubmitResult::Cancelled
            },
            ChannelEvent::Deadline => {
                let _ = self.take_entry(id);
                SubmitResult::Timeout
            },
        }
    }
}

/// The HTTP status a submit's outcome is reported with: the resolved status
/// when it is a representable one (anything else falls back to plain
/// success), 500 for a cancellation, 504 for a timeout.
pub fn submit_http_status(r: &SubmitResult) -> (status: u16)
    ensures
        match r {
            SubmitResult::Response(resp) => status == if 100 <= resp.status && resp.status <= 999 {
                resp.status
            } else {
                200u16
            },
            SubmitResult::Cancelled => status == 500,
            SubmitResult::Timeout => status == 504,
        },
{
    match r {
        SubmitResult::Response(resp) => {
            if 100 <= resp.status && resp.status <= 999 {
                resp.status
            } else {
                200
            }
        },
        SubmitResult::Cancelled => 500,
        SubmitResult::Timeout => 504,
    }
}

/// The structured error text for the outcomes that carry no response.
pub fn submit_error_message(r: &SubmitResult) -> (msg: Option<String>)
    ensures
        match r {
            SubmitResult::Response(_) => msg is None,
            SubmitResult::Cancelled => msg matches Some(m) && m@ == "Request cancelled"@,
            SubmitResult::Timeout => msg matches Some(m) && m@
                == "Request timed out waiting for Studio response"@,
        },
{
    match r {
        SubmitResult::Response(_) => None,
        SubmitResult::Cancelled => Some(String::from_str("Request cancelled")),
        SubmitResult::Timeout => Some(
            String::from_str("Request timed out waiting for Studio response"),
        ),
    }
}

/// The table never holds two entries with the same id: whoever resolves an id
/// reaches at most one waiting submit.
pub proof fn lemma_ids_distinct(b: BridgeState, i: int, j: int)
    requires
        b.wf(),
        0 <= i < b.pending_requests@.len(),
        0 <= j < b.pending_requests@.len(),
        i != j,
    ensures
        b.pending_requests@[i].id@ != b.pending_requests@[j].id@,
{
    if b.pending_requests@[i].id@ == b.pending_requests@[j].id@ {
        lemma_id_chars_injective(
            b.pending_requests@[i].counter as nat,
            b.pending_requests@[i].created_at as nat,
            b.pending_requests@[j].counter as nat,
            b.pending_requests@[j].created_at as nat,
        );
    }
}

/// Distinct counters give distinct ids whatever the stamps: an id whose entry
/// has left the table is never issued again by a later submit.
pub proof fn lemma_distinct_counters_distinct_ids(c1: u64, t1: u64, c2: u64, t2: u64)
    requires
        c1 != c2,
    ensures
        id_chars(c1 as nat, t1 as nat) != id_chars(c2 as nat, t2 as nat),
{
    if id_chars(c1 as nat, t1 as nat) == id_chars(c2 as nat, t2 as nat) {
        lemma_id_chars_injective(c1 as nat, t1 as nat, c2 as nat, t2 as nat);
    }
}

/// A poll never invents an id: once an id is absent from the table — resolved,
/// timed out or reaped — a poll cannot return it.
pub proof fn lemma_absent_id_never_polled(b: BridgeState, id: Seq<char>)
    requires
        !b.contains_id(id),
    ensures
        b.pending_requests@.len() > 0 ==> b.pending_requests@[0].id@ != id,
{
}

/// Every element of a filtered sequence is an element of the original.
pub proof fn lemma_filter_members<A>(s: Seq<A>, pred: spec_fn(A) -> bool)
    ensures
        forall|i: int| 0 <= i < s.filter(pred).len() ==> s.contains(#[trigger] s.filter(pred)[i]),
    decreases s.len(),
{
    reveal(Seq::filter);
    if s.len() > 0 {
        let dl = s.drop_last();
        lemma_filter_members(dl, pred);
        assert forall|i: int| 0 <= i < s.filter(pred).len() implies s.contains(
            #[trigger] s.filter(pred)[i],
        ) by {
            if i < dl.filter(pred).len() {
                assert(s.filter(pred)[i] == dl.filter(pred)[i]);
                assert(dl.contains(dl.filter(pred)[i]));
                let k = choose|k: int| 0 <= k < dl.len() && dl[k] == dl.filter(pred)[i];
                assert(s[k] == s.filter(pred)[i]);
            } else {
                assert(s.filter(pred)[i] == s.last());
                assert(s[s.len() - 1] == s.last());
            }
        }
    }
}

/// Evicting entries keeps the survivors in insertion order.
pub proof fn lemma_filter_preserves_sorted(
    s: Seq<PendingRequest>,
    pred: spec_fn(PendingRequest) -> bool,
)
    requires
        counters_sorted(s),
    ensures
        counters_sorted(s.filter(pred)),
    decreases s.len(),
{
    reveal(Seq::filter);
    if s.len() > 0 {
        let dl = s.drop_last();
        assert(counters_sorted(dl)) by {
            assert forall|i: int, j: int| 0 <= i < j < dl.len() implies (#[trigger] dl[i].counter)
                < (#[trigger] dl[j].counter) by {
                assert(s[i].counter < s[j].counter);
            }
        }
        lemma_filter_preserves_sorted(dl, pred);
        lemma_filter_members(dl, pred);
        let f = s.filter(pred);
        let fd = dl.filter(pred);
        assert forall|i: int, j: int| 0 <= i < j < f.len() implies (#[trigger] f[i].counter) < (
        #[trigger] f[j].counter) by {
            if pred(s.last()) && j == f.len() - 1 {
                assert(f[j] == s.last());
                assert(f[i] == fd[i]);
                assert(dl.contains(fd[i]));
                let k = choose|k: int| 0 <= k < dl.len() && dl[k] == fd[i];
                assert(s[k] == dl[k]);
                assert(s[k].counter < s[s.len() - 1].counter);
            } else {
                assert(f[i] == fd[i]);
                assert(f[j] == fd[j]);
            }
        }
    }
}

/// The reaper reaches everything: an entry older than the request timeout is
/// absent after a scan, whether or not a poll ever returned it.
pub proof fn lemma_reaper_evicts_stale(b: BridgeState, now: u64, i: int)
    requires
        b.wf(),
        0 <= i < b.pending_requests@.len(),
        age_of(now, b.pending_requests@[i].created_at) > REQUEST_TIMEOUT_MS,
    ensures
        forall|k: int|
            0 <= k < b.pending_requests@.filter(keeps(now)).len() ==> (
            #[trigger] b.pending_requests@.filter(keeps(now))[k]).id@
                != b.pending_requests@[i].id@,
{
    let f = b.pending_requests@.filter(keeps(now));
    lemma_filter_members(b.pending_requests@, keeps(now));
    assert forall|k: int| 0 <= k < f.len() implies (#[trigger] f[k]).id@
        != b.pending_requests@[i].id@ by {
        b.pending_requests@.lemma_filter_pred(keeps(now), k);
        assert(b.pending_requests@.contains(f[k]));
        let m = choose|m: int|
            0 <= m < b.pending_requests@.len() && b.pending_requests@[m] == f[k];
        if m != i {
            lemma_ids_distinct(b, m, i);
        } else {
            assert(keeps(now)(f[k]));
            assert(false);
        }
    }
}

} // verus!
