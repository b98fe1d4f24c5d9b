use prefix_proxy::balancer::RoundRobin;
use prefix_proxy::config::RouteConfig;
use prefix_proxy::router::{Route, Router};

fn route(prefix: &str, upstreams: &[&str]) -> Route {
    Route {
        prefix: prefix.to_string(),
        upstreams: upstreams.iter().map(|u| u.to_string()).collect(),
        balancer: RoundRobin::new(),
    }
}

#[test]
fn longest_prefix_wins() {
    let router = Router::new(vec![
        route("/", &["http://root"]),
        route("/api", &["http://api"]),
        route("/api/v2", &["http://v2"]),
    ]);
    assert_eq!(router.match_route("/api/v2/users"), Some(2));
    assert_eq!(router.match_route("/api/users"), Some(1));
    assert_eq!(router.match_route("/other"), Some(0));
}

#[test]
fn tie_resolves_to_earliest_route() {
    // Two routes with the same prefix: the first in construction order wins.
    let router = Router::new(vec![
        route("/api", &["http://first"]),
        route("/api", &["http://second"]),
    ]);
    assert_eq!(router.match_route("/api/users"), Some(0));
}

#[test]
fn unmatched_path_returns_none() {
    let router = Router::new(vec![
        route("/api", &["http://a"]),
        route("/web", &["http://b"]),
    ]);
    assert_eq!(router.match_route("/metrics"), None);
    assert_eq!(router.match_route(""), None);
}

#[test]
fn prefix_match_is_not_segment_aware() {
    // Substring-at-start semantics: "/api" also matches "/apiextra".
    let router = Router::new(vec![route("/api", &["http://a"])]);
    assert_eq!(router.match_route("/apiextra"), Some(0));
}

#[test]
fn empty_prefix_matches_everything() {
    let router = Router::new(vec![route("", &["http://fallback"])]);
    assert_eq!(router.match_route("/anything"), Some(0));
    assert_eq!(router.match_route(""), Some(0));
}

#[test]
fn from_config_preserves_order_and_routes() {
    let cfgs = vec![
        RouteConfig {
            prefix: "/api".to_string(),
            upstream: vec!["http://a".to_string(), "http://b".to_string()],
        },
        RouteConfig {
            prefix: "/web".to_string(),
            upstream: vec!["http://c".to_string()],
        },
    ];
    let router = Router::from_config(&cfgs).expect("valid config");
    assert_eq!(router.route_count(), 2);
    assert_eq!(router.prefix_of(0).as_str(), "/api");
    assert_eq!(router.prefix_of(1).as_str(), "/web");
    assert_eq!(router.upstream_count(0), 2);
    assert_eq!(router.upstream_at(0, 1).as_str(), "http://b");
    assert_eq!(router.upstream_at(1, 0).as_str(), "http://c");
}

#[test]
fn from_config_rejects_route_without_upstreams() {
    let cfgs = vec![
        RouteConfig {
            prefix: "/api".to_string(),
            upstream: vec!["http://a".to_string()],
        },
        RouteConfig {
            prefix: "/bad".to_string(),
            upstream: vec![],
        },
    ];
    assert!(Router::from_config(&cfgs).is_none());
}
