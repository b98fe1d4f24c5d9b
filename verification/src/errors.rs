//! The closed failure taxonomy and its wire rendering.
//!
//! Every failure a request can end with is one of three kinds, and each kind
//! maps to exactly one status code and fixed body. Nothing else is ever
//! surfaced to the client by the dispatch core.

use vstd::prelude::*;

verus! {

/// The closed set of per-request failure kinds: an upstream could not be
/// reached at the transport level, an attempt exceeded its timeout, or no
/// configured route matched the path.
#[derive(Clone, Copy, Debug, PartialEq, Eq, Structural)]
pub enum ProxyError {
    UpstreamFailure,
    UpstreamTimeout,
    NoRoute,
}

/// The status code each failure kind renders to.
pub open spec fn status_of(e: ProxyError) -> u16 {
    match e {
        ProxyError::UpstreamFailure => 502,
        ProxyError::UpstreamTimeout => 504,
        ProxyError::NoRoute => 404,
    }
}

/// The fixed body each failure kind renders to.
pub open spec fn body_of(e: ProxyError) -> Seq<char> {
    match e {
        ProxyError::UpstreamFailure => "Bad Gateway"@,
        ProxyError::UpstreamTimeout => "Gateway Timeout"@,
        ProxyError::NoRoute => "No route found"@,
    }
}

/// A client-facing response as plain values: a status code and a body.
#[derive(Debug)]
pub struct WireResponse {
    pub status: u16,
    pub body: String,
}

impl ProxyError {
    /// Renders this failure kind as its wire response:
    /// `UpstreamFailure` to 502, `UpstreamTimeout` to 504, `NoRoute` to 404,
    /// each with its fixed body.
    pub fn into_response(self) -> (r: WireResponse)
        ensures
            r.status == status_of(self),
            r.body@ == body_of(self),
    {
        match self {
            ProxyError::UpstreamFailure => WireResponse {
                status: 502,
                body: "Bad Gateway".to_owned(),
            },
            ProxyError::UpstreamTimeout => WireResponse {
                status: 504,
                body: "Gateway Timeout".to_owned(),
            },
            ProxyError::NoRoute => WireResponse {
                status: 404,
                body: "No route found".to_owned(),
            },
        }
    }
}

/// The response for a constructed upstream target that fails to parse as a
/// request URI outside the retryable path: a plain 500.
pub fn invalid_target_response() -> (r: WireResponse)
    ensures
        r.status == 500,
        r.body@ == "Invalid upstream URI"@,
{
    WireResponse { status: 500, body: "Invalid upstream URI".to_owned() }
}

} // verus!
