//! Startup configuration: plain data, loaded once before the server starts
//! accepting requests and treated as immutable for the process lifetime.

use vstd::prelude::*;

verus! {

/// Server-wide settings: the bind address, the per-attempt timeout in
/// seconds, and the retry bound for one request.
#[derive(Debug)]
pub struct ServerConfig {
    pub bind: String,
    pub request_timeout_secs: u64,
    pub max_retries: usize,
}

/// One configured route: a path prefix and the ordered pool of upstream base
/// URLs it forwards to. A usable route has at least one upstream.
#[derive(Debug)]
pub struct RouteConfig {
    pub prefix: String,
    pub upstream: Vec<String>,
}

/// The whole configuration: server settings and the ordered route list.
#[derive(Debug)]
pub struct Config {
    pub server: ServerConfig,
    pub routes: Vec<RouteConfig>,
}

} // verus!
