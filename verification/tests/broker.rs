use stud_bridge::broker::{
    submit_error_message, submit_http_status, BridgeState, ChannelEvent, SubmitResult,
};
use stud_bridge::types::{StudioRequest, StudioResponse};

#[test]
fn submit_poll_resolve_round_trip() {
    let mut b = BridgeState::new(100_000);
    let (id, mut rx) =
        b.submit(StudioRequest { path: "/foo".to_string(), body: None }, 100_000);
    let poll = b.pop_next(100_100);
    assert_eq!(poll.id.as_deref(), Some(id.as_str()));
    let req = poll.request.expect("a pending request");
    assert_eq!(req.path, "/foo");
    assert_eq!(req.body, None);
    let found = b.resolve(
        &id,
        StudioResponse { status: 200, body: "{\"x\":1}".to_string() },
    );
    assert!(found);
    let delivered = rx.try_recv().expect("the response reaches the waiting submit");
    assert_eq!(delivered.status, 200);
    assert_eq!(delivered.body, "{\"x\":1}");
    let out = b.submit_finish(&id, ChannelEvent::Value(delivered));
    assert_eq!(submit_http_status(&out), 200);
    assert!(submit_error_message(&out).is_none());
}

#[test]
fn ids_are_formatted_from_counter_and_stamp() {
    let mut b = BridgeState::new(50_000);
    let (id1, _rx1) = b.submit(StudioRequest { path: "/a".to_string(), body: None }, 50_000);
    let (id2, _rx2) = b.submit(
        StudioRequest { path: "/b".to_string(), body: Some("z".to_string()) },
        50_000,
    );
    assert_eq!(id1, "req_1_50000");
    assert_eq!(id2, "req_2_50000");
    assert_ne!(id1, id2);
}

#[test]
fn poll_does_not_remove_and_returns_oldest_first() {
    let mut b = BridgeState::new(0);
    let (id_a, _rx_a) = b.submit(StudioRequest { path: "/a".to_string(), body: None }, 1_000);
    let (id_b, _rx_b) = b.submit(StudioRequest { path: "/b".to_string(), body: None }, 1_500);
    let first = b.pop_next(2_000);
    assert_eq!(first.id.as_deref(), Some(id_a.as_str()));
    let again = b.pop_next(2_100);
    assert_eq!(again.id.as_deref(), Some(id_a.as_str()));
    assert!(b.resolve(&id_a, StudioResponse { status: 200, body: "done".to_string() }));
    let next = b.pop_next(2_200);
    assert_eq!(next.id.as_deref(), Some(id_b.as_str()));
    assert!(b.resolve(&id_b, StudioResponse { status: 200, body: "done".to_string() }));
    let empty = b.pop_next(2_300);
    assert!(empty.id.is_none());
    assert!(empty.request.is_none());
}

#[test]
fn resolve_delivers_exactly_once() {
    let mut b = BridgeState::new(100_000);
    let (id, mut rx) = b.submit(StudioRequest { path: "/x".to_string(), body: None }, 100_000);
    assert!(b.resolve(&id, StudioResponse { status: 201, body: "first".to_string() }));
    let got = rx.try_recv().expect("delivered once");
    assert_eq!(got.status, 201);
    assert_eq!(got.body, "first");
    assert!(rx.try_recv().is_err());
    let found_again = b.resolve(&id, StudioResponse { status: 202, body: "second".to_string() });
    assert!(!found_again);
    assert_eq!(b.status(100_100).pending_requests, 0);
}

#[test]
fn resolve_unknown_id_is_not_found_and_harmless() {
    let mut b = BridgeState::new(100_000);
    let (_id, _rx) = b.submit(StudioRequest { path: "/keep".to_string(), body: None }, 100_000);
    let found = b.resolve(
        &"unknown-id".to_string(),
        StudioResponse { status: 200, body: "x".to_string() },
    );
    assert!(!found);
    assert_eq!(b.status(100_001).pending_requests, 1);
}

#[test]
fn timeout_removes_entry_and_reports_gateway_timeout() {
    let mut b = BridgeState::new(0);
    let (id, mut rx) = b.submit(
        StudioRequest { path: "/bar".to_string(), body: Some("z".to_string()) },
        1_000,
    );
    let out = b.submit_finish(&id, ChannelEvent::Deadline);
    assert!(matches!(out, SubmitResult::Timeout));
    assert_eq!(submit_http_status(&out), 504);
    assert_eq!(
        submit_error_message(&out).expect("a timeout carries its message"),
        "Request timed out waiting for Studio response"
    );
    let poll = b.pop_next(16_000);
    assert!(poll.id.is_none());
    assert!(rx.try_recv().is_err());
}

#[test]
fn closed_channel_reports_cancellation() {
    let mut b = BridgeState::new(0);
    let (id, mut rx) = b.submit(StudioRequest { path: "/c".to_string(), body: None }, 1_000);
    b.cleanup_stale(20_000);
    assert!(rx.try_recv().is_err());
    let out = b.submit_finish(&id, ChannelEvent::Closed);
    assert!(matches!(out, SubmitResult::Cancelled));
    assert_eq!(submit_http_status(&out), 500);
    assert_eq!(
        submit_error_message(&out).expect("a cancellation carries its message"),
        "Request cancelled"
    );
}

#[test]
fn reaper_evicts_only_stale_entries() {
    let mut b = BridgeState::new(0);
    let (_id_old, mut rx_old) =
        b.submit(StudioRequest { path: "/old".to_string(), body: None }, 1_000);
    let (id_new, _rx_new) =
        b.submit(StudioRequest { path: "/new".to_string(), body: None }, 10_000);
    b.cleanup_stale(17_000);
    assert_eq!(b.status(17_000).pending_requests, 1);
    let poll = b.pop_next(17_000);
    assert_eq!(poll.id.as_deref(), Some(id_new.as_str()));
    assert!(rx_old.try_recv().is_err());
}

#[test]
fn reaper_keeps_entry_exactly_at_timeout() {
    let mut b = BridgeState::new(0);
    let (_id, _rx) = b.submit(StudioRequest { path: "/edge".to_string(), body: None }, 1_000);
    b.cleanup_stale(16_000);
    assert_eq!(b.status(16_000).pending_requests, 1);
    b.cleanup_stale(16_001);
    assert_eq!(b.status(16_001).pending_requests, 0);
}

#[test]
fn fresh_broker_is_disconnected_at_any_clock_reading() {
    let b = BridgeState::new(0);
    assert!(!b.is_connected(0));
    assert!(!b.is_connected(1_000));
    assert!(!b.status(500).connected);
    let b2 = BridgeState::new(1_500);
    assert!(!b2.is_connected(1_500));
    let b3 = BridgeState::new(100_000);
    assert!(!b3.is_connected(100_000));
    let mut b4 = BridgeState::new(0);
    b4.pop_next(0);
    assert!(b4.is_connected(0));
}

#[test]
fn connected_tracks_liveness_window() {
    let mut b = BridgeState::new(100_000);
    assert!(!b.is_connected(100_000));
    b.pop_next(100_000);
    assert!(b.is_connected(100_000));
    assert!(b.is_connected(101_999));
    assert!(!b.is_connected(102_000));
    let st = b.status(101_000);
    assert!(st.connected);
    assert_eq!(st.last_poll_time, 1_000);
    assert_eq!(st.pending_requests, 0);
}

#[test]
fn resolved_status_is_mirrored_and_invalid_degrades() {
    let mirrored = SubmitResult::Response(StudioResponse { status: 503, body: String::new() });
    assert_eq!(submit_http_status(&mirrored), 503);
    let invalid = SubmitResult::Response(StudioResponse { status: 1200, body: String::new() });
    assert_eq!(submit_http_status(&invalid), 200);
}
