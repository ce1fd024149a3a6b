//! The wire form of a forwarded request, built with the `http` crate's
//! request builder.
use vstd::prelude::*;
use crate::relay::{headers_view, HeadersView, OutboundRequest, OutboundView};
use warp::http::header::{HeaderName, HeaderValue};
use warp::http::request::Builder;
use warp::http::{Request, Uri};

verus! {

#[verifier::external_type_specification]
#[verifier::external_body]
pub struct ExBuilder(Builder);

#[verifier::external_type_specification]
#[verifier::external_body]
#[verifier::reject_recursive_types(T)]
pub struct ExRequest<T>(Request<T>);

#[verifier::external_type_specification]
#[verifier::external_body]
pub struct ExHttpError(warp::http::Error);

/// The text of the error http reports when parsing `url` as a URI, or
/// `None` when it parses.
pub uninterp spec fn uri_error(url: Seq<char>) -> Option<Seq<char>>;

/// Whether http accepts `name` as a header name.
pub uninterp spec fn is_header_name(name: Seq<char>) -> bool;

/// The text http gives for a refused header name.
pub const INVALID_HEADER_NAME: &'static str = "invalid HTTP header name";

/// The text http gives for a refused header value.
pub const INVALID_HEADER_VALUE: &'static str = "failed to parse header value";

/// The error http reports for `name` as a header name, if any.
pub open spec fn header_name_error(name: Seq<char>) -> Option<Seq<char>> {
    if is_header_name(name) {
        None
    } else {
        Some(INVALID_HEADER_NAME@)
    }
}

/// Whether http accepts `value` as a header value: every byte is a tab, or
/// is at least 0x20 and not 0x7F.
pub open spec fn is_header_value(value: Seq<u8>) -> bool {
    forall|i: int|
        0 <= i < value.len() ==> #[trigger] value[i] == 0x09 || (value[i] >= 0x20 && value[i]
            != 0x7F)
}

/// The error http reports for `value` as a header value, if any.
pub open spec fn header_value_error(value: Seq<u8>) -> Option<Seq<char>> {
    if is_header_value(value) {
        None
    } else {
        Some(INVALID_HEADER_VALUE@)
    }
}

/// The most headers for which http's header map never reaches its size
/// limit.
pub const MAX_HEADERS: usize = 4096;

/// How many headers the request builder `builder` has appended, or `None`
/// once it has recorded an error.
pub uninterp spec fn builder_count(builder: Builder) -> Option<nat>;

/// The error of one header: that of its name, else that of its value.
pub open spec fn header_error(header: (Seq<char>, Seq<u8>)) -> Option<Seq<char>> {
    match header_name_error(header.0) {
        Some(e) => Some(e),
        None => header_value_error(header.1),
    }
}

/// The error of the first header, in order, that has one.
pub open spec fn first_header_error(headers: HeadersView) -> Option<Seq<char>>
    decreases headers.len(),
{
    if headers.len() == 0 {
        None
    } else {
        match header_error(headers[0]) {
            Some(e) => Some(e),
            None => first_header_error(headers.drop_first()),
        }
    }
}

/// The first error met while building `request`: its URL's, else that of
/// its first faulty header.
pub open spec fn build_error(request: OutboundView) -> Option<Seq<char>> {
    match uri_error(request.url) {
        Some(e) => Some(e),
        None => first_header_error(request.headers),
    }
}

/// Relies on http's `TryFrom<&str>` for `Uri` (what the request builder
/// uses) and on `InvalidUri`'s Display for the error's text.
#[verifier::external_body]
fn check_uri(url: &str) -> (r: Option<String>)
    ensures
        uri_error(url@) == (match r {
            Some(t) => Some(t@),
            None => None,
        }),
{
    match Uri::try_from(url) {
        Ok(_) => None,
        Err(e) => Some(e.to_string()),
    }
}

/// Relies on http's `TryFrom<&str>` for `HeaderName` (what the request
/// builder uses), and on `InvalidHeaderName`'s Display, which always gives
/// "invalid HTTP header name".
#[verifier::external_body]
fn check_header_name(name: &str) -> (r: Option<String>)
    ensures
        r is None <==> is_header_name(name@),
        header_name_error(name@) == (match r {
            Some(t) => Some(t@),
            None => None,
        }),
{
    match HeaderName::try_from(name) {
        Ok(_) => None,
        Err(e) => Some(e.to_string()),
    }
}

/// Relies on http's `TryFrom<&[u8]>` for `HeaderValue` (what the request
/// builder uses), which accepts exactly the bytes `is_header_value` allows,
/// and on `InvalidHeaderValue`'s Display, which always gives "failed to
/// parse header value".
#[verifier::external_body]
fn check_header_value(value: &[u8]) -> (r: Option<String>)
    ensures
        header_value_error(value@) == (match r {
            Some(t) => Some(t@),
            None => None,
        }),
{
    match HeaderValue::try_from(value) {
        Ok(_) => None,
        Err(e) => Some(e.to_string()),
    }
}

/// Relies on http::Request::post: a builder for a POST to `url`, holding
/// no header, or the parse error if `url` is not a valid URI.
#[verifier::external_body]
fn post_to(url: &str) -> (r: Builder)
    ensures
        builder_count(r) == (if uri_error(url@) is None {
            Some(0nat)
        } else {
            None
        }),
{
    Request::post(url)
}

/// Relies on http::request::Builder::header: once an error is recorded it
/// does nothing; else it appends one header (an existing one of the same
/// name is kept), or records why it cannot. `try_append` fails only when
/// the map would grow past 2^15 buckets: with fewer than `MAX_HEADERS`
/// entries the map never holds more than 16384 buckets on its own growth
/// (three quarters usable), and its collision defence, which doubles at a
/// load of 0.2, stops at 32768 buckets.
#[verifier::external_body]
fn add_header(builder: Builder, name: &str, value: &[u8]) -> (r: Builder)
    ensures
        builder_count(builder) is None ==> builder_count(r) is None,
        builder_count(builder) is Some && header_error((name@, value@)) is Some ==> builder_count(
            r,
        ) is None,
        builder_count(builder) matches Some(n) ==> (n < MAX_HEADERS && header_error((name@, value@))
            is None ==> builder_count(r) == Some((n + 1) as nat)),
{
    builder.header(name, value)
}

/// Relies on http::request::Builder::body: the request, or the first error
/// recorded while building it.
#[verifier::external_body]
fn with_body(builder: Builder, body: Vec<u8>) -> (r: Result<Request<Vec<u8>>, warp::http::Error>)
    ensures
        r is Ok <==> builder_count(builder) is Some,
{
    builder.body(body)
}

/// Relies on http::Error's Display: the error's text.
#[verifier::external_body]
fn error_text(e: &warp::http::Error) -> String {
    e.to_string()
}

/// Past headers without errors, the first error of a list is that of the rest.
proof fn lemma_first_header_error_skips(headers: HeadersView, i: int)
    requires
        0 <= i <= headers.len(),
        forall|j: int| 0 <= j < i ==> (#[trigger] header_error(headers[j])) is None,
    ensures
        first_header_error(headers) == first_header_error(headers.subrange(i, headers.len() as int)),
    decreases i,
{
    if i == 0 {
        assert(headers.subrange(0, headers.len() as int) =~= headers);
    } else {
        assert(header_error(headers[0]) is None);
        let rest = headers.drop_first();
        assert forall|j: int| 0 <= j < i - 1 implies (#[trigger] header_error(rest[j])) is None by {
            assert(rest[j] == headers[j + 1]);
        }
        lemma_first_header_error_skips(rest, i - 1);
        assert(rest.subrange(i - 1, rest.len() as int) =~= headers.subrange(i, headers.len() as int));
    }
}

/// Builds the POST request for `request`: its URL, then its headers in
/// order, each added beside any earlier one of the same name, then its body.
/// Where the URL or a header is refused, the error is the text of the first
/// refusal, the URL's before the headers'. A request that builds had none.
/// A request without such errors and with at most `MAX_HEADERS` headers
/// builds.
pub fn build_request(request: OutboundRequest) -> (r: Result<Request<Vec<u8>>, String>)
    ensures
        build_error(request@) matches Some(e) ==> (r matches Err(t) && t@ == e),
        r is Ok ==> build_error(request@) is None,
        build_error(request@) is None && request.headers@.len() <= MAX_HEADERS ==> r is Ok,
{
    let ghost view = request@;
    if let Some(text) = check_uri(request.url.as_str()) {
        return Err(text);
    }
    let ghost hv = headers_view(request.headers@);
    let mut builder = post_to(request.url.as_str());
    let mut i: usize = 0;
    while i < request.headers.len()
        invariant
            i <= request.headers@.len(),
            view == request@,
            hv == headers_view(request.headers@),
            hv == view.headers,
            uri_error(view.url) is None,
            forall|j: int| 0 <= j < i ==> (#[trigger] header_error(hv[j])) is None,
            hv.len() <= MAX_HEADERS ==> builder_count(builder) == Some(i as nat),
        decreases request.headers@.len() - i,
    {
        let name = request.headers[i].0.as_str();
        let value = request.headers[i].1.as_slice();
        assert(hv[i as int] == (name@, value@));
        proof {
            lemma_first_header_error_skips(hv, i as int);
            let rest = hv.subrange(i as int, hv.len() as int);
            assert(rest[0] == hv[i as int]);
        }
        if let Some(text) = check_header_name(name) {
            return Err(text);
        }
        if let Some(text) = check_header_value(value) {
            return Err(text);
        }
        builder = add_header(builder, name, value);
        i = i + 1;
    }
    proof {
        lemma_first_header_error_skips(hv, hv.len() as int);
    }
    match with_body(builder, request.body) {
        Ok(built) => Ok(built),
        Err(e) => Err(error_text(&e)),
    }
}

} // verus!
