use prefix_proxy::config::RouteConfig;
use prefix_proxy::errors::{invalid_target_response, ProxyError};
use prefix_proxy::paths::{build_target, final_path_for, str_has_prefix};
use prefix_proxy::pipeline::{AttemptOutcome, RequestFlow, Step};
use prefix_proxy::router::Router;

fn router_one_route(prefix: &str, upstreams: &[&str]) -> Router {
    let cfgs = vec![RouteConfig {
        prefix: prefix.to_string(),
        upstream: upstreams.iter().map(|u| u.to_string()).collect(),
    }];
    Router::from_config(&cfgs).expect("valid config")
}

fn call_target(step: Step) -> String {
    match step {
        Step::Call { target } => target,
        Step::Respond { .. } => panic!("expected an outbound call"),
    }
}

fn terminal_status(step: Step) -> u16 {
    match step {
        Step::Call { .. } => panic!("expected a terminal response"),
        Step::Respond { response } => response.status,
    }
}

#[test]
fn str_prefix_is_literal() {
    assert!(str_has_prefix("/api/users", "/api"));
    assert!(str_has_prefix("/apiextra", "/api"));
    assert!(str_has_prefix("/api", "/api"));
    assert!(!str_has_prefix("/ap", "/api"));
    assert!(!str_has_prefix("/web/api", "/api"));
    assert!(str_has_prefix("/anything", ""));
}

#[test]
fn final_path_strips_matched_prefix() {
    assert_eq!(final_path_for("/api/users", "/api"), "/users");
    assert_eq!(final_path_for("/api/users?id=7", "/api"), "/users?id=7");
}

#[test]
fn final_path_normalizes_empty_remainder_to_root() {
    assert_eq!(final_path_for("/api", "/api"), "/");
}

#[test]
fn final_path_passes_through_when_prefix_absent() {
    assert_eq!(final_path_for("/web/index", "/api"), "/web/index");
}

#[test]
fn build_target_concatenates_verbatim() {
    assert_eq!(build_target("http://a", "/users"), "http://a/users");
    assert_eq!(build_target("http://b", "/"), "http://b/");
}

#[test]
fn matched_request_targets_first_upstream() {
    // Route {prefix: "/api", upstreams: ["http://a", "http://b"]}, request
    // path "/api/users": the outbound call goes to "http://a/users", and a
    // delivered upstream response ends the request.
    let mut router = router_one_route("/api", &["http://a", "http://b"]);
    let mut flow =
        RequestFlow::begin(&router, 0, "/api/users", "/api/users").expect("route matches");
    let step = flow.next_attempt(&mut router);
    assert_eq!(call_target(step), "http://a/users");
    let done = flow.on_outcome(AttemptOutcome::Delivered);
    assert!(done);
}

#[test]
fn prefix_without_separator_still_matches() {
    // Documented substring-at-start behavior: "/apiextra" matches "/api"
    // even without a separating slash, and the literal remainder "extra" is
    // appended to the upstream base verbatim.
    let mut router = router_one_route("/api", &["http://a", "http://b"]);
    let mut flow = RequestFlow::begin(&router, 0, "/apiextra", "/apiextra").expect("route matches");
    let step = flow.next_attempt(&mut router);
    assert_eq!(call_target(step), "http://aextra");
}

#[test]
fn unmatched_path_yields_404_and_no_attempt() {
    let router = router_one_route("/api", &["http://a"]);
    let err = RequestFlow::begin(&router, 3, "/metrics", "/metrics").err().expect("no route");
    assert_eq!(err.status, 404);
    assert_eq!(err.body, "No matching route");
}

#[test]
fn attempts_capped_at_one_per_upstream() {
    // max_retries = 2 with 3 upstreams: exactly 3 attempts, then the
    // terminal response.
    let mut router = router_one_route("/api", &["http://a", "http://b", "http://c"]);
    let mut flow = RequestFlow::begin(&router, 2, "/api/x", "/api/x").expect("route matches");
    let mut calls: usize = 0;
    loop {
        match flow.next_attempt(&mut router) {
            Step::Call { .. } => {
                calls += 1;
                assert!(calls <= 3);
                let done = flow.on_outcome(AttemptOutcome::TransportError);
                assert!(!done);
            }
            Step::Respond { .. } => break,
        }
    }
    assert_eq!(calls, 3);
}

#[test]
fn large_retry_budget_never_exceeds_pool_size() {
    let mut router = router_one_route("/api", &["http://a", "http://b"]);
    let mut flow = RequestFlow::begin(&router, 100, "/api/x", "/api/x").expect("route matches");
    let mut calls: usize = 0;
    loop {
        match flow.next_attempt(&mut router) {
            Step::Call { .. } => {
                calls += 1;
                flow.on_outcome(AttemptOutcome::TimedOut);
            }
            Step::Respond { .. } => break,
        }
    }
    assert_eq!(calls, 2);
}

#[test]
fn retries_walk_the_pool_in_round_robin_order() {
    let mut router = router_one_route("/api", &["http://a", "http://b", "http://c"]);
    let mut flow = RequestFlow::begin(&router, 2, "/api/x", "/api/x").expect("route matches");
    let mut targets = Vec::new();
    loop {
        match flow.next_attempt(&mut router) {
            Step::Call { target } => {
                targets.push(target);
                flow.on_outcome(AttemptOutcome::TransportError);
            }
            Step::Respond { .. } => break,
        }
    }
    assert_eq!(targets, vec!["http://a/x", "http://b/x", "http://c/x"]);
}

#[test]
fn balancer_state_persists_across_requests() {
    let mut router = router_one_route("/api", &["http://a", "http://b"]);

    let mut first = RequestFlow::begin(&router, 0, "/api/x", "/api/x").expect("route matches");
    assert_eq!(call_target(first.next_attempt(&mut router)), "http://a/x");
    assert!(first.on_outcome(AttemptOutcome::Delivered));

    let mut second = RequestFlow::begin(&router, 0, "/api/y", "/api/y").expect("route matches");
    assert_eq!(call_target(second.next_attempt(&mut router)), "http://b/y");
}

#[test]
fn all_transport_failures_yield_502() {
    let mut router = router_one_route("/api", &["http://a", "http://b"]);
    let mut flow = RequestFlow::begin(&router, 5, "/api/x", "/api/x").expect("route matches");
    loop {
        match flow.next_attempt(&mut router) {
            Step::Call { .. } => {
                flow.on_outcome(AttemptOutcome::TransportError);
            }
            Step::Respond { response } => {
                assert_eq!(response.status, 502);
                assert_eq!(response.body, "Bad Gateway");
                break;
            }
        }
    }
}

#[test]
fn all_timeouts_yield_504() {
    let mut router = router_one_route("/api", &["http://a", "http://b"]);
    let mut flow = RequestFlow::begin(&router, 5, "/api/x", "/api/x").expect("route matches");
    loop {
        match flow.next_attempt(&mut router) {
            Step::Call { .. } => {
                flow.on_outcome(AttemptOutcome::TimedOut);
            }
            Step::Respond { response } => {
                assert_eq!(response.status, 504);
                assert_eq!(response.body, "Gateway Timeout");
                break;
            }
        }
    }
}

#[test]
fn mixed_failures_surface_the_last_outcome() {
    let mut router = router_one_route("/api", &["http://a", "http://b"]);

    let mut flow = RequestFlow::begin(&router, 1, "/api/x", "/api/x").expect("route matches");
    flow.next_attempt(&mut router);
    flow.on_outcome(AttemptOutcome::TransportError);
    flow.next_attempt(&mut router);
    flow.on_outcome(AttemptOutcome::TimedOut);
    assert_eq!(terminal_status(flow.next_attempt(&mut router)), 504);

    let mut flow = RequestFlow::begin(&router, 1, "/api/x", "/api/x").expect("route matches");
    flow.next_attempt(&mut router);
    flow.on_outcome(AttemptOutcome::TimedOut);
    flow.next_attempt(&mut router);
    flow.on_outcome(AttemptOutcome::TransportError);
    assert_eq!(terminal_status(flow.next_attempt(&mut router)), 502);
}

#[test]
fn request_id_is_constant_across_attempts() {
    let mut router = router_one_route("/api", &["http://a", "http://b", "http://c"]);
    let mut flow = RequestFlow::begin(&router, 2, "/api/x", "/api/x").expect("route matches");
    let id = flow.request_id().clone();
    assert_eq!(id.len(), 36);
    while let Step::Call { .. } = flow.next_attempt(&mut router) {
        assert_eq!(flow.request_id(), &id);
        flow.on_outcome(AttemptOutcome::TimedOut);
    }
    assert_eq!(flow.request_id(), &id);
}

#[test]
fn error_mapper_covers_every_kind() {
    let bad = ProxyError::UpstreamFailure.into_response();
    assert_eq!(bad.status, 502);
    assert_eq!(bad.body, "Bad Gateway");

    let slow = ProxyError::UpstreamTimeout.into_response();
    assert_eq!(slow.status, 504);
    assert_eq!(slow.body, "Gateway Timeout");

    let lost = ProxyError::NoRoute.into_response();
    assert_eq!(lost.status, 404);
    assert_eq!(lost.body, "No route found");
}

#[test]
fn invalid_target_maps_to_500() {
    let resp = invalid_target_response();
    assert_eq!(resp.status, 500);
    assert_eq!(resp.body, "Invalid upstream URI");
}
