//! The HTTP face of the service: which route a request path names, and the
//! reply that each outcome is answered with.
//!
//! Paths and replies are plain values here; turning them into the host's
//! request and response types is the host's business.

use vstd::prelude::*;
use crate::decimal::{append_decimal, decimal_digits};
use crate::resolver::{Outcome, Resolution};
use crate::scan::{lemma_split_concat, lemma_split_no_separator, pieces, span_equals, span_to_string, split, split_span, strip_leading,
    strip_leading_span, whole};
use crate::text::to_chars;

verus! {

/// First segment of the path of a logo request.
pub const TOKEN_SEGMENT: &'static str = "token";

/// The path, without its leading slash, that clears the cache.
pub const CLEAR_CACHE_SEGMENT: &'static str = "clear-cache";

/// What a request asks for.
#[derive(Debug, Clone, PartialEq, Eq)]
pub enum Route {
    /// The logo of the token at `address` on chain `chain_id`.
    Token { chain_id: String, address: String },
    /// Clearing the cache.
    ClearCache,
    /// The usage hint.
    Main,
    /// Nothing that the service offers.
    NotFound,
}

/// Mathematical model of a [`Route`].
pub enum RouteView {
    Token { chain_id: Seq<char>, address: Seq<char> },
    ClearCache,
    Main,
    NotFound,
}

impl View for Route {
    type V = RouteView;

    open spec fn view(&self) -> RouteView {
        match self {
            Route::Token { chain_id, address } => RouteView::Token {
                chain_id: chain_id@,
                address: address@,
            },
            Route::ClearCache => RouteView::ClearCache,
            Route::Main => RouteView::Main,
            Route::NotFound => RouteView::NotFound,
        }
    }
}

/// The segments of a path: leading slashes do not count, and the rest is
/// split at `/`.
pub open spec fn segments_of(path: Seq<char>) -> Seq<Seq<char>> {
    split(strip_leading(path, '/'), '/')
}

/// The route that the segments of a path name. Three or more segments that
/// begin with `token` ask for a logo, with the chain in the second segment
/// and the address in the third; the single segment `clear-cache` clears the
/// cache; a single empty segment is the usage hint.
pub open spec fn route_for(segments: Seq<Seq<char>>) -> RouteView {
    if segments.len() >= 3 && segments[0] == TOKEN_SEGMENT@ {
        RouteView::Token { chain_id: segments[1], address: segments[2] }
    } else if segments.len() == 1 && segments[0] == CLEAR_CACHE_SEGMENT@ {
        RouteView::ClearCache
    } else if segments.len() == 1 && segments[0].len() == 0 {
        RouteView::Main
    } else {
        RouteView::NotFound
    }
}

/// The route that a path names.
pub open spec fn route_of(path: Seq<char>) -> RouteView {
    route_for(segments_of(path))
}

/// A path of the form `/token/{chain_id}/{address}` asks for the logo of
/// that address on that chain.
pub proof fn lemma_token_path(chain_id: Seq<char>, address: Seq<char>)
    requires
        forall|i: int| 0 <= i < chain_id.len() ==> chain_id[i] != '/',
        forall|i: int| 0 <= i < address.len() ==> address[i] != '/',
    ensures
        route_of(seq!['/'] + TOKEN_SEGMENT@ + seq!['/'] + chain_id + seq!['/'] + address) == (
        RouteView::Token { chain_id, address }),
{
    reveal_strlit("token");
    let path = seq!['/'] + TOKEN_SEGMENT@ + seq!['/'] + chain_id + seq!['/'] + address;
    let tail = chain_id.push('/') + address;
    let body = TOKEN_SEGMENT@.push('/') + tail;
    assert(path.drop_first() =~= body);
    assert(strip_leading(path, '/') == strip_leading(body, '/'));
    assert(strip_leading(body, '/') == body);
    lemma_split_concat(TOKEN_SEGMENT@, tail, '/');
    lemma_split_concat(chain_id, address, '/');
    lemma_split_no_separator(TOKEN_SEGMENT@, '/');
    lemma_split_no_separator(chain_id, '/');
    lemma_split_no_separator(address, '/');
    assert(segments_of(path) =~= seq![TOKEN_SEGMENT@, chain_id, address]);
}

/// Finds the route that a request path names.
pub fn route_request(path: &str) -> (route: Route)
    ensures
        route@ == route_of(path@),
{
    let chars = to_chars(path);
    let rest = strip_leading_span(&chars, whole(&chars), '/');
    let spans = split_span(&chars, rest, '/');
    let ghost segments = segments_of(path@);
    assert(segments == pieces(chars@, spans@));
    let first = spans[0];
    assert(first.of(chars@) == segments[0]);
    if spans.len() >= 3 {
        if span_equals(&chars, first, TOKEN_SEGMENT) {
            let second = spans[1];
            let third = spans[2];
            assert(second.of(chars@) == segments[1] && third.of(chars@) == segments[2]);
            let chain_id = span_to_string(path, &chars, second);
            let address = span_to_string(path, &chars, third);
            Route::Token { chain_id, address }
        } else {
            Route::NotFound
        }
    } else if spans.len() == 1 {
        if span_equals(&chars, first, CLEAR_CACHE_SEGMENT) {
            Route::ClearCache
        } else if first.start == first.end {
            Route::Main
        } else {
            Route::NotFound
        }
    } else {
        Route::NotFound
    }
}

/// A reply: status, headers in order, and body.
#[derive(Debug, Clone, PartialEq, Eq)]
pub struct Reply {
    pub status: u16,
    pub headers: Vec<(String, String)>,
    pub body: String,
}

/// Mathematical model of a [`Reply`].
pub struct ReplyView {
    pub status: u16,
    pub headers: Seq<(Seq<char>, Seq<char>)>,
    pub body: Seq<char>,
}

impl View for Reply {
    type V = ReplyView;

    open spec fn view(&self) -> ReplyView {
        ReplyView {
            status: self.status,
            headers: self.headers@.map_values(|h: (String, String)| (h.0@, h.1@)),
            body: self.body@,
        }
    }
}

/// The `cache-control` value that lets clients keep an answer for the
/// time-to-live of the cache.
pub open spec fn cache_control_of(ttl_secs: u64) -> Seq<char> {
    "public, max-age="@ + decimal_digits(ttl_secs as nat)
}

/// The reply with the usage hint.
pub open spec fn usage_reply() -> ReplyView {
    ReplyView {
        status: 200,
        headers: seq![("content-type"@, "text/plain"@)],
        body: "Usage: /token/{chain_id}/{address}"@,
    }
}

/// The reply to a path that names no route.
pub open spec fn no_route_reply() -> ReplyView {
    ReplyView { status: 404, headers: seq![("content-type"@, "text/plain"@)], body: "Not Found"@ }
}

/// The reply after the cache was cleared.
pub open spec fn cleared_reply() -> ReplyView {
    ReplyView {
        status: 200,
        headers: seq![("content-type"@, "text/plain"@), ("cache-control"@, "no-store"@)],
        body: "Cache cleared"@,
    }
}

/// The reply to anything that failed.
pub open spec fn failure_reply() -> ReplyView {
    ReplyView {
        status: 500,
        headers: seq![("content-type"@, "text/plain"@)],
        body: "Internal Server Error"@,
    }
}

/// The reply to a logo request: a redirect to the logo, `404` where there
/// is none, and the failure reply for an unsupported chain and for an
/// upstream error. Redirect and `404` may be kept by clients for the
/// time-to-live of the cache.
pub open spec fn token_reply(outcome: Outcome, ttl_secs: u64) -> ReplyView {
    match outcome {
        Outcome::Redirect(url) => if url.len() > 0 {
            ReplyView {
                status: 302,
                headers: seq![("location"@, url), ("cache-control"@, cache_control_of(ttl_secs))],
                body: Seq::empty(),
            }
        } else {
            logo_not_found_reply(ttl_secs)
        },
        Outcome::NotFound => logo_not_found_reply(ttl_secs),
        Outcome::UnsupportedChain => failure_reply(),
        Outcome::UpstreamError(_) => failure_reply(),
    }
}

/// The reply where the chain's list has no logo for the address.
pub open spec fn logo_not_found_reply(ttl_secs: u64) -> ReplyView {
    ReplyView {
        status: 404,
        headers: seq![
            ("content-type"@, "text/plain"@),
            ("cache-control"@, cache_control_of(ttl_secs)),
        ],
        body: "Logo not found"@,
    }
}

/// A header with a fixed name.
fn header(name: &str, value: String) -> (h: (String, String))
    ensures
        h.0@ == name@,
        h.1@ == value@,
{
    (name.to_owned(), value)
}

/// A reply with one header.
fn reply1(status: u16, first: (String, String), body: &str) -> (reply: Reply)
    ensures
        reply@ == (ReplyView { status, headers: seq![(first.0@, first.1@)], body: body@ }),
{
    let mut headers: Vec<(String, String)> = Vec::new();
    headers.push(first);
    let reply = Reply { status, headers, body: body.to_owned() };
    assert(reply@.headers =~= seq![(first.0@, first.1@)]);
    reply
}

/// A reply with two headers.
fn reply2(status: u16, first: (String, String), second: (String, String), body: &str) -> (reply:
    Reply)
    ensures
        reply@ == (ReplyView {
            status,
            headers: seq![(first.0@, first.1@), (second.0@, second.1@)],
            body: body@,
        }),
{
    let mut headers: Vec<(String, String)> = Vec::new();
    headers.push(first);
    headers.push(second);
    let reply = Reply { status, headers, body: body.to_owned() };
    assert(reply@.headers =~= seq![(first.0@, first.1@), (second.0@, second.1@)]);
    reply
}

/// The `cache-control` value for the time-to-live of the cache.
pub fn cache_control(ttl_secs: u64) -> (value: String)
    ensures
        value@ == cache_control_of(ttl_secs),
{
    let mut value = "public, max-age=".to_owned();
    append_decimal(&mut value, ttl_secs);
    value
}

/// The reply with the usage hint.
pub fn main_route() -> (reply: Reply)
    ensures
        reply@ == usage_reply(),
{
    reply1(
        200,
        header("content-type", "text/plain".to_owned()),
        "Usage: /token/{chain_id}/{address}",
    )
}

/// The reply to a path that names no route.
pub fn not_found_route() -> (reply: Reply)
    ensures
        reply@ == no_route_reply(),
{
    reply1(404, header("content-type", "text/plain".to_owned()), "Not Found")
}

/// The reply after the cache was cleared.
pub fn clear_cache_route() -> (reply: Reply)
    ensures
        reply@ == cleared_reply(),
{
    reply2(
        200,
        header("content-type", "text/plain".to_owned()),
        header("cache-control", "no-store".to_owned()),
        "Cache cleared",
    )
}

/// The reply to anything that failed.
pub fn internal_error_route() -> (reply: Reply)
    ensures
        reply@ == failure_reply(),
{
    reply1(500, header("content-type", "text/plain".to_owned()), "Internal Server Error")
}

/// The reply to a logo request, from what its resolution came to.
pub fn handle_token_route(resolution: Resolution, ttl_secs: u64) -> (reply: Reply)
    ensures
        reply@ == token_reply(resolution@, ttl_secs),
{
    match resolution {
        Resolution::Redirect(url) => {
            if url.as_str().is_empty() {
                logo_not_found(ttl_secs)
            } else {
                let reply = reply2(
                    302,
                    header("location", url),
                    header("cache-control", cache_control(ttl_secs)),
                    "",
                );
                proof {
                    reveal_strlit("");
                    assert(reply@.body =~= Seq::<char>::empty());
                }
                reply
            }
        },
        Resolution::NotFound => logo_not_found(ttl_secs),
        Resolution::UnsupportedChain => internal_error_route(),
        Resolution::UpstreamError(_) => internal_error_route(),
    }
}

/// The reply where the chain's list has no logo for the address.
fn logo_not_found(ttl_secs: u64) -> (reply: Reply)
    ensures
        reply@ == logo_not_found_reply(ttl_secs),
{
    reply2(
        404,
        header("content-type", "text/plain".to_owned()),
        header("cache-control", cache_control(ttl_secs)),
        "Logo not found",
    )
}

} // verus!
