pub mod connect;
pub mod post;

use vstd::prelude::*;

use crate::bytes::bytes_eq;

verus! {

/// `CONNECT`
pub open spec fn connect_method() -> Seq<u8> {
    seq![67u8, 79, 78, 78, 69, 67, 84]
}

/// `POST`
pub open spec fn post_method() -> Seq<u8> {
    seq![80u8, 79, 83, 84]
}

/// The path that one inbound request takes through the proxy.
#[derive(Debug, PartialEq, Eq, Structural, Clone, Copy)]
pub enum Route {
    /// Open a tunnel to the target of a `CONNECT`.
    Tunnel,
    /// Buffer and inspect a `POST` body, then forward it.
    Intercept,
    /// Forward the request to the backend as it came.
    Passthrough,
}

/// The route for a request method; methods are compared as written.
pub open spec fn route_of(method: Seq<u8>) -> Route {
    if method == connect_method() {
        Route::Tunnel
    } else if method == post_method() {
        Route::Intercept
    } else {
        Route::Passthrough
    }
}

/// Picks the one handler for a request by its method.
pub fn handle_request(method: &[u8]) -> (r: Route)
    ensures
        r == route_of(method@),
{
    let connect = vec![67u8, 79, 78, 78, 69, 67, 84];
    let post = vec![80u8, 79, 83, 84];
    assert(connect@ =~= connect_method());
    assert(post@ =~= post_method());
    if bytes_eq(method, connect.as_slice()) {
        Route::Tunnel
    } else if bytes_eq(method, post.as_slice()) {
        Route::Intercept
    } else {
        Route::Passthrough
    }
}

/// A failure while handling one request.
#[derive(Debug, PartialEq, Eq, Structural, Clone, Copy)]
pub enum ProxyError {
    /// The target of a `CONNECT` is no `host:port` authority.
    TargetParse,
    /// The backend or the tunnel target could not be reached.
    UpstreamConnect,
    /// The HTTP handshake with the backend failed.
    UpstreamHandshake,
    /// The request body could not be read whole.
    BodyRead,
    /// The body is not valid JSON.
    JsonParse,
    /// The body has no string `action`.
    MalformedEnvelope,
}

pub open spec fn status_spec(e: ProxyError) -> u16 {
    match e {
        ProxyError::TargetParse => 400,
        _ => 502,
    }
}

/// The HTTP status that answers a failed request: `400 Bad Request` for a
/// bad `CONNECT` target, `502 Bad Gateway` for every failure on the way to
/// the backend.
pub fn status_of(e: ProxyError) -> (r: u16)
    ensures
        r == status_spec(e),
{
    match e {
        ProxyError::TargetParse => 400,
        _ => 502,
    }
}

/// The request error for an envelope that could not be read.
pub fn envelope_error(e: post::EnvelopeError) -> (r: ProxyError)
    ensures
        r == (match e {
            post::EnvelopeError::NotJson => ProxyError::JsonParse,
            _ => ProxyError::MalformedEnvelope,
        }),
{
    match e {
        post::EnvelopeError::NotJson => ProxyError::JsonParse,
        _ => ProxyError::MalformedEnvelope,
    }
}

} // verus!
