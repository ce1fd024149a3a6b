//! The relay handler: decides from an inbound request what to send upstream,
//! or what to answer at once, and turns the upstream's outcome into the
//! response given back to the caller.
use vstd::prelude::*;
use vstd::utf8::encode_utf8;
use crate::envelope::{
    dispatch_body, dispatch_body_spec, event_type, event_type_spec, push_all, reencode,
    compact_json, is_json_document, json_string, envelope_spec,
};

verus! {

/// The origin every request is forwarded to; the inbound path follows it.
pub const UPSTREAM_ORIGIN: &'static str = "https://github.com";

pub const ACCEPT_HEADER: &'static str = "Accept";

pub const ACCEPT_VALUE: &'static str = "application/vnd.github+json";

pub const API_VERSION_HEADER: &'static str = "X-GitHub-Api-Version";

pub const API_VERSION_VALUE: &'static str = "2022-11-28";

pub const CONTENT_TYPE_HEADER: &'static str = "content-type";

pub const PLAIN_TEXT: &'static str = "text/plain; charset=utf-8";

pub const INVALID_BODY: &'static str = "Invalid body";

pub const UNSERIALIZABLE_BODY: &'static str = "Unable to re-serialize body";

pub const UPSTREAM_UNREACHABLE: &'static str = "Failed to send request to upstream";

/// A header list as values: names and raw values, in order.
pub type HeadersView = Seq<(Seq<char>, Seq<u8>)>;

/// The names and values of a header list.
pub open spec fn headers_view(hs: Seq<(String, Vec<u8>)>) -> HeadersView {
    hs.map_values(|h: (String, Vec<u8>)| (h.0@, h.1@))
}

/// An HTTP response: status, headers in order, and body.
#[derive(Debug, Clone, PartialEq, Eq)]
pub struct Response {
    pub status: u16,
    pub headers: Vec<(String, Vec<u8>)>,
    pub body: Vec<u8>,
}

pub struct ResponseView {
    pub status: u16,
    pub headers: HeadersView,
    pub body: Seq<u8>,
}

impl View for Response {
    type V = ResponseView;

    open spec fn view(&self) -> ResponseView {
        ResponseView { status: self.status, headers: headers_view(self.headers@), body: self.body@ }
    }
}

/// The POST request to send upstream.
#[derive(Debug, Clone, PartialEq, Eq)]
pub struct OutboundRequest {
    pub url: String,
    pub headers: Vec<(String, Vec<u8>)>,
    pub body: Vec<u8>,
}

pub struct OutboundView {
    pub url: Seq<char>,
    pub headers: HeadersView,
    pub body: Seq<u8>,
}

impl View for OutboundRequest {
    type V = OutboundView;

    open spec fn view(&self) -> OutboundView {
        OutboundView { url: self.url@, headers: headers_view(self.headers@), body: self.body@ }
    }
}

/// What to do with an inbound request: answer it at once, or forward it.
#[derive(Debug, Clone, PartialEq, Eq)]
pub enum Plan {
    Respond(Response),
    Forward(OutboundRequest),
}

pub enum PlanView {
    Respond(ResponseView),
    Forward(OutboundView),
}

impl View for Plan {
    type V = PlanView;

    open spec fn view(&self) -> PlanView {
        match self {
            Plan::Respond(r) => PlanView::Respond(r@),
            Plan::Forward(o) => PlanView::Forward(o@),
        }
    }
}

/// How the upstream call ended.
#[derive(Debug, Clone, PartialEq, Eq)]
pub enum UpstreamOutcome {
    /// The upstream answered (whatever its status).
    Answered(Response),
    /// The request could not be built; holds the builder's error text.
    Rejected(String),
    /// The call failed in transport (DNS, connect, TLS, reset).
    Unreachable,
}

pub enum OutcomeView {
    Answered(ResponseView),
    Rejected(Seq<char>),
    Unreachable,
}

impl View for UpstreamOutcome {
    type V = OutcomeView;

    open spec fn view(&self) -> OutcomeView {
        match self {
            UpstreamOutcome::Answered(r) => OutcomeView::Answered(r@),
            UpstreamOutcome::Rejected(t) => OutcomeView::Rejected(t@),
            UpstreamOutcome::Unreachable => OutcomeView::Unreachable,
        }
    }
}

/// A plain-text response with the given status and text.
pub open spec fn text_response(status: u16, text: Seq<char>) -> ResponseView {
    ResponseView {
        status,
        headers: seq![(CONTENT_TYPE_HEADER@, encode_utf8(PLAIN_TEXT@))],
        body: encode_utf8(text),
    }
}

/// The two headers that every forwarded request starts with.
pub open spec fn fixed_headers() -> HeadersView {
    seq![
        (ACCEPT_HEADER@, encode_utf8(ACCEPT_VALUE@)),
        (API_VERSION_HEADER@, encode_utf8(API_VERSION_VALUE@)),
    ]
}

/// The upstream URL for an inbound path, which is taken verbatim.
pub open spec fn upstream_url(path: Seq<char>) -> Seq<char> {
    UPSTREAM_ORIGIN@ + path
}

/// What the handler does with an inbound request before any upstream call.
pub open spec fn plan_spec(
    path: Seq<char>,
    event_header: Option<Seq<char>>,
    headers: HeadersView,
    body: Seq<u8>,
) -> PlanView {
    if !is_json_document(body) {
        PlanView::Respond(text_response(400, INVALID_BODY@))
    } else {
        PlanView::Forward(
            OutboundView {
                url: upstream_url(path),
                headers: fixed_headers() + headers,
                body: dispatch_body_spec(event_type_spec(event_header), body),
            },
        )
    }
}

/// The response given back for an upstream outcome.
pub open spec fn complete_spec(outcome: OutcomeView) -> ResponseView {
    match outcome {
        OutcomeView::Answered(r) => r,
        OutcomeView::Rejected(t) => text_response(500, t),
        OutcomeView::Unreachable => text_response(500, UPSTREAM_UNREACHABLE@),
    }
}

/// The bytes of `s` as a vector.
fn bytes_of(s: &str) -> (r: Vec<u8>)
    ensures
        r@ == encode_utf8(s@),
{
    let mut out: Vec<u8> = Vec::new();
    push_all(&mut out, s.as_bytes());
    out
}

/// A plain-text response with the given status and text.
pub fn text_reply(status: u16, text: &str) -> (r: Response)
    ensures
        r@ == text_response(status, text@),
{
    let mut headers: Vec<(String, Vec<u8>)> = Vec::new();
    headers.push((CONTENT_TYPE_HEADER.to_owned(), bytes_of(PLAIN_TEXT)));
    let r = Response { status, headers, body: bytes_of(text) };
    assert(headers_view(r.headers@) =~= seq![(CONTENT_TYPE_HEADER@, encode_utf8(PLAIN_TEXT@))]);
    r
}

/// Decides what to do with an inbound request: refuse a body that is not
/// JSON, or build the dispatch call to the upstream.
pub fn plan_relay(
    path: &str,
    event_header: Option<String>,
    headers: Vec<(String, Vec<u8>)>,
    body: &[u8],
) -> (r: Plan)
    ensures
        r@ == plan_spec(path@, event_header.deep_view(), headers_view(headers@), body@),
{
    let event = event_type(event_header);
    let compact = match reencode(body) {
        Some(c) => c,
        None => return Plan::Respond(text_reply(400, INVALID_BODY)),
    };
    let payload = match dispatch_body(event.as_str(), compact.as_slice()) {
        Some(p) => p,
        None => return Plan::Respond(text_reply(500, UNSERIALIZABLE_BODY)),
    };
    let url = UPSTREAM_ORIGIN.to_owned().concat(path);
    let mut out_headers: Vec<(String, Vec<u8>)> = Vec::new();
    out_headers.push((ACCEPT_HEADER.to_owned(), bytes_of(ACCEPT_VALUE)));
    out_headers.push((API_VERSION_HEADER.to_owned(), bytes_of(API_VERSION_VALUE)));
    let ghost fixed = out_headers@;
    let ghost inbound = headers@;
    let mut inbound_headers = headers;
    out_headers.append(&mut inbound_headers);
    assert(out_headers@ == fixed + inbound);
    assert(headers_view(out_headers@) =~= fixed_headers() + headers_view(inbound));
    Plan::Forward(OutboundRequest { url, headers: out_headers, body: payload })
}

/// Turns the upstream's outcome into the response for the caller: the
/// upstream's own response unchanged, or a plain-text 500.
pub fn complete_relay(outcome: UpstreamOutcome) -> (r: Response)
    ensures
        r@ == complete_spec(outcome@),
        outcome matches UpstreamOutcome::Answered(a) ==> r == a,
{
    match outcome {
        UpstreamOutcome::Answered(a) => a,
        UpstreamOutcome::Rejected(text) => text_reply(500, text.as_str()),
        UpstreamOutcome::Unreachable => text_reply(500, UPSTREAM_UNREACHABLE),
    }
}

/// Whether `r` is a response that relaying the inbound request through
/// `upstream` can give: the planned response, or the completion of an
/// outcome that `upstream` can return for the planned request.
pub open spec fn relay_spec<F: Fn(&OutboundRequest) -> UpstreamOutcome>(
    upstream: F,
    path: Seq<char>,
    event_header: Option<Seq<char>>,
    headers: HeadersView,
    body: Seq<u8>,
    r: ResponseView,
) -> bool {
    match plan_spec(path, event_header, headers, body) {
        PlanView::Respond(x) => r == x,
        PlanView::Forward(o) => exists|req: OutboundRequest, out: UpstreamOutcome|
            req@ == o && #[trigger] upstream.ensures((&req,), out) && r == complete_spec(out@),
    }
}

/// Handles one inbound request: plans it, calls `upstream` once when the
/// plan is to forward, and completes the response from its outcome.
/// `upstream` need accept only the planned request, so where the plan is to
/// answer at once it is not called at all.
pub fn relay<F: Fn(&OutboundRequest) -> UpstreamOutcome>(
    upstream: &F,
    path: &str,
    event_header: Option<String>,
    headers: Vec<(String, Vec<u8>)>,
    body: &[u8],
) -> (r: Response)
    requires
        plan_spec(path@, event_header.deep_view(), headers_view(headers@), body@) matches PlanView::Forward(o)
            ==> forall|req: &OutboundRequest| req@ == o ==> #[trigger] upstream.requires((req,)),
    ensures
        relay_spec(*upstream, path@, event_header.deep_view(), headers_view(headers@), body@, r@),
{
    match plan_relay(path, event_header, headers, body) {
        Plan::Respond(response) => response,
        Plan::Forward(request) => {
            let outcome = upstream(&request);
            complete_relay(outcome)
        },
    }
}

/// A body that is not one JSON document is answered with 400 and
/// "Invalid body", and nothing is forwarded.
pub proof fn invalid_body_is_refused(
    path: Seq<char>,
    event_header: Option<Seq<char>>,
    headers: HeadersView,
    body: Seq<u8>,
)
    requires
        !is_json_document(body),
    ensures
        plan_spec(path, event_header, headers, body) == PlanView::Respond(
            text_response(400, INVALID_BODY@),
        ),
{
}

/// A JSON body is always forwarded, and the forwarded request carries the
/// envelope of the event type (the header's value, or the default) and the
/// compact text of the inbound body.
pub proof fn forwarded_body_is_envelope(
    path: Seq<char>,
    event_header: Option<Seq<char>>,
    headers: HeadersView,
    body: Seq<u8>,
)
    requires
        is_json_document(body),
    ensures
        plan_spec(path, event_header, headers, body) matches PlanView::Forward(o) && o.body
            == envelope_spec(json_string(event_type_spec(event_header)), compact_json(body)),
{
}

/// A request with a JSON body goes to the upstream origin followed by the
/// inbound path, verbatim, with the two fixed headers first and then every
/// inbound header, in order and unchanged.
pub proof fn forwarded_headers_keep_inbound(
    path: Seq<char>,
    event_header: Option<Seq<char>>,
    headers: HeadersView,
    body: Seq<u8>,
)
    requires
        is_json_document(body),
    ensures
        plan_spec(path, event_header, headers, body) matches PlanView::Forward(o) && {
            &&& o.url == UPSTREAM_ORIGIN@ + path
            &&& o.headers.len() == headers.len() + 2
            &&& o.headers[0] == (ACCEPT_HEADER@, encode_utf8(ACCEPT_VALUE@))
            &&& o.headers[1] == (API_VERSION_HEADER@, encode_utf8(API_VERSION_VALUE@))
            &&& o.headers.skip(2) == headers
        },
{
    let o = plan_spec(path, event_header, headers, body)->Forward_0;
    assert(o.headers.skip(2) =~= headers);
}

/// Relaying is repeatable: where `upstream` answers requests with equal
/// contents with equal outcomes, two relays of the same inbound request give
/// the same response.
pub proof fn relay_is_repeatable<F: Fn(&OutboundRequest) -> UpstreamOutcome>(
    upstream: F,
    path: Seq<char>,
    event_header: Option<Seq<char>>,
    headers: HeadersView,
    body: Seq<u8>,
    first: ResponseView,
    second: ResponseView,
)
    requires
        forall|a: OutboundRequest, b: OutboundRequest, x: UpstreamOutcome, y: UpstreamOutcome|
            a@ == b@ && #[trigger] upstream.ensures((&a,), x) && #[trigger] upstream.ensures(
                (&b,),
                y,
            ) ==> x@ == y@,
        relay_spec(upstream, path, event_header, headers, body, first),
        relay_spec(upstream, path, event_header, headers, body, second),
    ensures
        first == second,
{
    if let PlanView::Forward(o) = plan_spec(path, event_header, headers, body) {
        let (a, x) = choose|a: OutboundRequest, x: UpstreamOutcome|
            a@ == o && #[trigger] upstream.ensures((&a,), x) && first == complete_spec(x@);
        let (b, y) = choose|b: OutboundRequest, y: UpstreamOutcome|
            b@ == o && #[trigger] upstream.ensures((&b,), y) && second == complete_spec(y@);
        assert(x@ == y@);
    }
}

} // verus!
