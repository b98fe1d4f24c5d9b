//! A verified request-dispatch core for a reverse proxy: longest-prefix route
//! matching, round-robin upstream selection, and the bounded retry state
//! machine that orchestrates forwarding and maps failures to wire responses.

pub mod balancer;
pub mod config;
pub mod errors;
pub mod paths;
pub mod pipeline;
pub mod router;
