use stud_bridge::relay::{
    forwarded_headers, relay_error_reply, relay_transport_reply, upstream_is_success,
    StreamForwarder,
};

#[test]
fn error_passthrough_mirrors_status_and_body_exactly() {
    let reply = relay_error_reply(503, "rate limited".to_string());
    assert_eq!(reply.status, 503);
    assert_eq!(reply.body, "rate limited");
}

#[test]
fn unrepresentable_error_status_degrades_to_internal_error() {
    let reply = relay_error_reply(42, "odd".to_string());
    assert_eq!(reply.status, 500);
    assert_eq!(reply.body, "odd");
}

#[test]
fn transport_failure_is_bad_gateway_with_description() {
    let reply = relay_transport_reply("connection refused");
    assert_eq!(reply.status, 502);
    assert_eq!(reply.body, "Proxy error: connection refused");
}

#[test]
fn only_success_statuses_stream() {
    assert!(upstream_is_success(200));
    assert!(upstream_is_success(204));
    assert!(upstream_is_success(299));
    assert!(!upstream_is_success(199));
    assert!(!upstream_is_success(300));
    assert!(!upstream_is_success(404));
    assert!(!upstream_is_success(503));
}

#[test]
fn stream_forwarder_passes_bytes_through_in_order() {
    let mut fwd = StreamForwarder::new();
    let chunks: Vec<Vec<u8>> = vec![b"data: one\n\n".to_vec(), b"data: two\n\n".to_vec(), vec![]];
    let mut arrived: Vec<u8> = Vec::new();
    let mut delivered: Vec<u8> = Vec::new();
    for chunk in chunks {
        arrived.extend_from_slice(&chunk);
        let out = fwd.forward_chunk(chunk);
        delivered.extend_from_slice(&out);
    }
    assert_eq!(delivered, arrived);
}

#[test]
fn forwards_no_headers_when_none_given() {
    let hs = forwarded_headers(None, None);
    assert!(hs.is_empty());
}

#[test]
fn forwards_authorization_alone() {
    let hs = forwarded_headers(Some("Bearer tok".to_string()), None);
    assert_eq!(hs.len(), 1);
    assert_eq!(hs[0].0, "Authorization");
    assert_eq!(hs[0].1, "Bearer tok");
}

#[test]
fn forwards_account_id_alone() {
    let hs = forwarded_headers(None, Some("acct-1".to_string()));
    assert_eq!(hs.len(), 1);
    assert_eq!(hs[0].0, "ChatGPT-Account-Id");
    assert_eq!(hs[0].1, "acct-1");
}

#[test]
fn forwards_both_headers_in_order() {
    let hs = forwarded_headers(Some("Bearer tok".to_string()), Some("acct-1".to_string()));
    assert_eq!(hs.len(), 2);
    assert_eq!(hs[0].0, "Authorization");
    assert_eq!(hs[0].1, "Bearer tok");
    assert_eq!(hs[1].0, "ChatGPT-Account-Id");
    assert_eq!(hs[1].1, "acct-1");
}
