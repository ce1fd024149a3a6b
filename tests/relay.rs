use std::cell::Cell;
use webhook_relay::envelope::{dispatch_body, event_type, frame_envelope, DEFAULT_EVENT_TYPE};
use webhook_relay::relay::{
    complete_relay, plan_relay, relay, text_reply, OutboundRequest, Plan, Response,
    UpstreamOutcome,
};
use webhook_relay::upstream::{build_request, MAX_HEADERS};

fn header(name: &str, value: &str) -> (String, Vec<u8>) {
    (name.to_string(), value.as_bytes().to_vec())
}

fn forwarded(plan: Plan) -> OutboundRequest {
    match plan {
        Plan::Forward(o) => o,
        Plan::Respond(r) => panic!("expected a forwarded request, got {:?}", r),
    }
}

fn answered(plan: Plan) -> Response {
    match plan {
        Plan::Respond(r) => r,
        Plan::Forward(o) => panic!("expected a response, got {:?}", o),
    }
}

fn canned() -> Response {
    Response { status: 201, headers: vec![header("X-Test", "1")], body: b"{\"ok\":true}".to_vec() }
}

#[test]
fn missing_event_header_defaults() {
    assert_eq!(event_type(None), "workflow_dispatch");
    assert_eq!(DEFAULT_EVENT_TYPE, "workflow_dispatch");
}

#[test]
fn empty_event_header_is_kept() {
    assert_eq!(event_type(Some(String::new())), "");
    assert_eq!(event_type(Some("push".to_string())), "push");
}

#[test]
fn envelope_framing() {
    let r = frame_envelope(b"\"push\"", b"{\"a\":1}");
    assert_eq!(r, b"{\"event_type\":\"push\",\"client_payload\":{\"a\":1}}".to_vec());
}

#[test]
fn json_document_parsing() {
    let accepted = |b: &[u8]| matches!(plan_relay("/p", None, vec![], b), Plan::Forward(_));
    assert!(accepted(b" {\"a\": [1, 2]} \n"));
    assert!(!accepted(b"{\"a\": "));
    assert!(!accepted(b"not json"));
    assert!(!accepted(b""));
    assert!(!accepted(b"1 2"));
}

#[test]
fn invalid_body_gets_400() {
    for body in [&b"not json"[..], &b"{\"a\":"[..], &b""[..]] {
        let r = answered(plan_relay("/x", None, vec![], body));
        assert_eq!(r.status, 400);
        assert_eq!(r.body, b"Invalid body".to_vec());
        assert_eq!(r.headers, vec![header("content-type", "text/plain; charset=utf-8")]);
    }
}

#[test]
fn forwarded_body_with_event_header() {
    let o = forwarded(plan_relay("/repos/o/r/dispatches", Some("push".to_string()), vec![], b"{ \"a\" : 1 }"));
    assert_eq!(o.body, b"{\"event_type\":\"push\",\"client_payload\":{\"a\":1}}".to_vec());
    assert_eq!(o.url, "https://github.com/repos/o/r/dispatches");
}

#[test]
fn forwarded_body_without_event_header() {
    let o = forwarded(plan_relay("/p", None, vec![], b"[1,\"two\",null]"));
    assert_eq!(
        o.body,
        b"{\"event_type\":\"workflow_dispatch\",\"client_payload\":[1,\"two\",null]}".to_vec()
    );
}

#[test]
fn forwarded_body_with_empty_event_header() {
    let o = forwarded(plan_relay("/p", Some(String::new()), vec![], b"true"));
    assert_eq!(o.body, b"{\"event_type\":\"\",\"client_payload\":true}".to_vec());
}

#[test]
fn event_type_is_escaped() {
    let o = forwarded(plan_relay("/p", Some("a\"b".to_string()), vec![], b"0"));
    assert_eq!(o.body, b"{\"event_type\":\"a\\\"b\",\"client_payload\":0}".to_vec());
}

#[test]
fn path_is_forwarded_verbatim() {
    let o = forwarded(plan_relay("/../a%20b?q=1", None, vec![], b"{}"));
    assert_eq!(o.url, "https://github.com/../a%20b?q=1");
}

#[test]
fn headers_follow_the_fixed_pair() {
    let inbound = vec![header("accept", "text/html"), header("x-a", "1"), header("x-a", "2")];
    let o = forwarded(plan_relay("/p", None, inbound.clone(), b"{}"));
    let mut expected = vec![
        header("Accept", "application/vnd.github+json"),
        header("X-GitHub-Api-Version", "2022-11-28"),
    ];
    expected.extend(inbound);
    assert_eq!(o.headers, expected);
}

#[test]
fn fixed_headers_without_inbound() {
    let o = forwarded(plan_relay("/p", None, vec![], b"{}"));
    assert_eq!(o.headers.len(), 2);
    assert_eq!(o.headers[0], header("Accept", "application/vnd.github+json"));
    assert_eq!(o.headers[1], header("X-GitHub-Api-Version", "2022-11-28"));
}

#[test]
fn canned_upstream_response_is_returned_unchanged() {
    assert_eq!(complete_relay(UpstreamOutcome::Answered(canned())), canned());
    let r = relay(&|_: &OutboundRequest| UpstreamOutcome::Answered(canned()), "/p", None, vec![], b"{}");
    assert_eq!(r, canned());
}

#[test]
fn upstream_error_status_is_passed_through() {
    let upstream = Response { status: 404, headers: vec![], body: b"nope".to_vec() };
    assert_eq!(complete_relay(UpstreamOutcome::Answered(upstream.clone())), upstream);
}

#[test]
fn unreachable_upstream_gets_500() {
    let r = relay(&|_: &OutboundRequest| UpstreamOutcome::Unreachable, "/p", None, vec![], b"{}");
    assert_eq!(r.status, 500);
    assert_eq!(r.body, b"Failed to send request to upstream".to_vec());
}

#[test]
fn rejected_request_gets_500_with_text() {
    let r = complete_relay(UpstreamOutcome::Rejected("invalid header value".to_string()));
    assert_eq!(r.status, 500);
    assert_eq!(r.body, b"invalid header value".to_vec());
}

#[test]
fn invalid_body_makes_no_call() {
    let calls = Cell::new(0u32);
    let upstream = |_: &OutboundRequest| {
        calls.set(calls.get() + 1);
        UpstreamOutcome::Answered(canned())
    };
    let r = relay(&upstream, "/p", None, vec![], b"{\"truncated\":");
    assert_eq!(r, text_reply(400, "Invalid body"));
    assert_eq!(calls.get(), 0);
    let r = relay(&upstream, "/p", None, vec![], b"{}");
    assert_eq!(r, canned());
    assert_eq!(calls.get(), 1);
}

#[test]
fn upstream_sees_the_planned_request() {
    let seen = Cell::new(false);
    let upstream = |o: &OutboundRequest| {
        assert_eq!(o.url, "https://github.com/hook");
        assert_eq!(o.body, b"{\"event_type\":\"ping\",\"client_payload\":{\"k\":\"v\"}}".to_vec());
        assert_eq!(o.headers[2], header("x-github-event", "ping"));
        seen.set(true);
        UpstreamOutcome::Answered(canned())
    };
    relay(&upstream, "/hook", Some("ping".to_string()), vec![header("x-github-event", "ping")], b"{\"k\":\"v\"}");
    assert!(seen.get());
}

#[test]
fn relaying_twice_gives_the_same_response() {
    let upstream = |o: &OutboundRequest| UpstreamOutcome::Answered(Response {
        status: 200,
        headers: vec![],
        body: o.body.clone(),
    });
    let headers = vec![header("x-a", "1")];
    let a = relay(&upstream, "/p", Some("e".to_string()), headers.clone(), b"{\"n\":1}");
    let b = relay(&upstream, "/p", Some("e".to_string()), headers, b"{\"n\":1}");
    assert_eq!(a, b);
    assert_eq!(a.body, b"{\"event_type\":\"e\",\"client_payload\":{\"n\":1}}".to_vec());
}

#[test]
fn build_request_keeps_duplicate_headers() {
    let o = forwarded(plan_relay("/p", None, vec![header("accept", "text/html")], b"{}"));
    let body = o.body.clone();
    let req = build_request(o).expect("request builds");
    assert_eq!(req.method(), "POST");
    assert_eq!(req.uri().to_string(), "https://github.com/p");
    let accepts: Vec<_> = req.headers().get_all("accept").iter().map(|v| v.as_bytes().to_vec()).collect();
    assert_eq!(accepts, vec![b"application/vnd.github+json".to_vec(), b"text/html".to_vec()]);
    assert_eq!(req.headers().get("x-github-api-version").unwrap().as_bytes(), b"2022-11-28");
    assert_eq!(req.body(), &body);
}

#[test]
fn build_request_reports_bad_header_value() {
    let o = forwarded(plan_relay("/p", None, vec![header("x-bad", "a\nb")], b"{}"));
    let err = build_request(o).unwrap_err();
    assert_eq!(err, "failed to parse header value");
    let r = complete_relay(UpstreamOutcome::Rejected(err.clone()));
    assert_eq!(r.status, 500);
    assert_eq!(r.body, err.into_bytes());
}

#[test]
fn build_request_reports_bad_header_name() {
    let o = forwarded(plan_relay("/p", None, vec![header("bad name", "v"), header("x-bad", "a\nb")], b"{}"));
    assert_eq!(build_request(o).unwrap_err(), "invalid HTTP header name");
}

#[test]
fn build_request_reports_bad_uri_first() {
    let o = forwarded(plan_relay("/a b", None, vec![header("bad name", "v")], b"{}"));
    let err = build_request(o).unwrap_err();
    assert_eq!(err, "invalid uri character");
}

#[test]
fn build_request_accepts_tab_in_value() {
    let o = forwarded(plan_relay("/p", None, vec![header("x-tab", "a\tb")], b"{}"));
    let req = build_request(o).expect("request builds");
    assert_eq!(req.headers().get("x-tab").unwrap().as_bytes(), b"a\tb");
}

#[test]
fn event_type_control_characters_are_escaped() {
    let o = forwarded(plan_relay("/p", Some("a\n\u{1}\\".to_string()), vec![], b"null"));
    assert_eq!(
        o.body,
        b"{\"event_type\":\"a\\n\\u0001\\\\\",\"client_payload\":null}".to_vec()
    );
}

#[test]
fn dispatch_body_frames_event_and_payload() {
    assert_eq!(
        dispatch_body("push", b"[1]"),
        Some(b"{\"event_type\":\"push\",\"client_payload\":[1]}".to_vec())
    );
}

#[test]
fn build_request_with_many_headers() {
    let inbound: Vec<(String, Vec<u8>)> =
        (0..MAX_HEADERS - 2).map(|i| (format!("x-h{}", i), b"v".to_vec())).collect();
    let o = forwarded(plan_relay("/p", None, inbound, b"{}"));
    assert_eq!(o.headers.len(), MAX_HEADERS);
    let req = build_request(o).expect("request builds");
    assert_eq!(req.headers().len(), MAX_HEADERS);
}
