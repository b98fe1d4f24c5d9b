//! Route table and longest-prefix matching.
//!
//! A `Router` is an ordered, immutable collection of routes. Matching picks,
//! among the routes whose prefix literally starts the path, the one with the
//! strictly greatest prefix length; ties resolve to the earliest route in
//! construction order.

use crate::balancer::{next_ticket, rr_index, RoundRobin};
use crate::config::RouteConfig;
use crate::paths::str_has_prefix;
use vstd::prelude::*;

verus! {

/// A path prefix bound to an ordered, non-empty pool of upstream base URLs,
/// with the per-route balancer that cycles over that pool.
pub struct Route {
    pub prefix: String,
    pub upstreams: Vec<String>,
    pub balancer: RoundRobin,
}

/// Does route `j` of `routes` match `path`, i.e. is its prefix a literal
/// prefix of the path?
pub open spec fn route_matches(routes: Seq<Route>, path: Seq<char>, j: int) -> bool {
    routes[j].prefix@.is_prefix_of(path)
}

/// Route `i` is the route that matching `path` against `routes` selects: it
/// matches, no matching route has a strictly longer prefix, and every earlier
/// matching route has a strictly shorter one (ties go to the earliest route).
pub open spec fn is_best_match(routes: Seq<Route>, path: Seq<char>, i: int) -> bool {
    &&& 0 <= i < routes.len()
    &&& route_matches(routes, path, i)
    &&& forall|j: int|
        0 <= j < routes.len() && route_matches(routes, path, j)
            ==> routes[j].prefix@.len() <= routes[i].prefix@.len()
    &&& forall|j: int|
        0 <= j < i && route_matches(routes, path, j)
            ==> routes[j].prefix@.len() < routes[i].prefix@.len()
}

/// Matching is deterministic: for a given route table and path there is at
/// most one route that `is_best_match` admits, so the longest-prefix rule
/// with its earliest-route tie-break picks a single route.
pub proof fn lemma_best_match_is_unique(routes: Seq<Route>, path: Seq<char>, i1: int, i2: int)
    requires
        is_best_match(routes, path, i1),
        is_best_match(routes, path, i2),
    ensures
        i1 == i2,
{
}

/// Immutable ordered collection of routes; resolves an inbound path to the
/// best-matching route.
pub struct Router {
    routes: Vec<Route>,
}

impl Router {
    /// The routes, in construction order.
    pub closed spec fn spec_routes(&self) -> Seq<Route> {
        self.routes@
    }

    /// Every route has at least one upstream, so pool sizes are never zero.
    pub open spec fn wf(&self) -> bool {
        forall|j: int|
            0 <= j < self.spec_routes().len() ==> self.spec_routes()[j].upstreams@.len() > 0
    }

    pub fn new(routes: Vec<Route>) -> (r: Router)
        requires
            forall|j: int| 0 <= j < routes@.len() ==> routes@[j].upstreams@.len() > 0,
        ensures
            r.spec_routes() == routes@,
            r.wf(),
    {
        Router { routes }
    }

    /// Builds a router from configured routes, giving each route a fresh
    /// balancer. Rejects a configuration in which some route has no upstream,
    /// so that a constructed router always satisfies `wf`.
    pub fn from_config(cfgs: &Vec<RouteConfig>) -> (r: Option<Router>)
        ensures
            match r {
                Some(router) => {
                    &&& router.wf()
                    &&& router.spec_routes().len() == cfgs@.len()
                    &&& forall|j: int|
                        0 <= j < cfgs@.len() ==> {
                            &&& (#[trigger] router.spec_routes()[j]).prefix@ == cfgs@[j].prefix@
                            &&& router.spec_routes()[j].upstreams@ == cfgs@[j].upstream@
                            &&& router.spec_routes()[j].balancer.ticket() == 0
                        }
                },
                None => exists|j: int|
                    0 <= j < cfgs@.len() && (#[trigger] cfgs@[j].upstream@).len() == 0,
            },
    {
        let mut routes: Vec<Route> = Vec::new();
        let n = cfgs.len();
        let mut i: usize = 0;
        while i < n
            invariant
                n == cfgs@.len(),
                i <= n,
                routes@.len() == i,
                forall|j: int|
                    0 <= j < i ==> {
                        &&& (#[trigger] routes@[j]).prefix@ == cfgs@[j].prefix@
                        &&& routes@[j].upstreams@ == cfgs@[j].upstream@
                        &&& routes@[j].upstreams@.len() > 0
                        &&& routes@[j].balancer.ticket() == 0
                    },
            decreases n - i,
        {
            let cfg = &cfgs[i];
            if cfg.upstream.len() == 0 {
                return None;
            }
            let ups = clone_strings(&cfg.upstream);
            routes.push(
                Route { prefix: cfg.prefix.clone(), upstreams: ups, balancer: RoundRobin::new() },
            );
            i += 1;
        }
        Some(Router { routes })
    }

    /// Resolves `path` to the index of the best-matching route: the matching
    /// route with the strictly greatest prefix length, ties going to the
    /// earliest in construction order; `None` when no route matches.
    pub fn match_route(&self, path: &str) -> (r: Option<usize>)
        ensures
            match r {
                Some(i) => is_best_match(self.spec_routes(), path@, i as int),
                None => forall|j: int|
                    0 <= j < self.spec_routes().len()
                        ==> !route_matches(self.spec_routes(), path@, j),
            },
    {
        let mut best: Option<usize> = None;
        let mut best_len: usize = 0;
        let n = self.routes.len();
        let mut i: usize = 0;
        while i < n
            invariant
                n == self.routes@.len(),
                i <= n,
                match best {
                    Some(b) => {
                        &&& (b as int) < i
                        &&& route_matches(self.routes@, path@, b as int)
                        &&& best_len as nat == self.routes@[b as int].prefix@.len()
                        &&& forall|j: int|
                            0 <= j < i && route_matches(self.routes@, path@, j)
                                ==> self.routes@[j].prefix@.len() <= best_len as nat
                        &&& forall|j: int|
                            0 <= j < b && route_matches(self.routes@, path@, j)
                                ==> self.routes@[j].prefix@.len() < best_len as nat
                    },
                    None => forall|j: int| 0 <= j < i ==> !route_matches(self.routes@, path@, j),
                },
            decreases n - i,
        {
            let route = &self.routes[i];
            if str_has_prefix(path, route.prefix.as_str()) {
                let plen = route.prefix.as_str().unicode_len();
                match best {
                    None => {
                        best = Some(i);
                        best_len = plen;
                    },
                    Some(_) => {
                        if plen > best_len {
                            best = Some(i);
                            best_len = plen;
                        }
                    },
                }
            }
            i += 1;
        }
        best
    }

    pub fn route_count(&self) -> (n: usize)
        ensures
            n == self.spec_routes().len(),
    {
        self.routes.len()
    }

    pub fn prefix_of(&self, i: usize) -> (p: &String)
        requires
            i < self.spec_routes().len(),
        ensures
            p@ == self.spec_routes()[i as int].prefix@,
    {
        &self.routes[i].prefix
    }

    pub fn upstream_count(&self, i: usize) -> (n: usize)
        requires
            i < self.spec_routes().len(),
        ensures
            n == self.spec_routes()[i as int].upstreams@.len(),
    {
        self.routes[i].upstreams.len()
    }

    pub fn upstream_at(&self, i: usize, j: usize) -> (u: &String)
        requires
            i < self.spec_routes().len(),
            j < self.spec_routes()[i as int].upstreams@.len(),
        ensures
            u@ == self.spec_routes()[i as int].upstreams@[j as int]@,
    {
        &self.routes[i].upstreams[j]
    }

    /// Draws the next round-robin index for route `i`, advancing that route's
    /// balancer and leaving every other route untouched.
    pub fn tick_balancer(&mut self, i: usize) -> (idx: usize)
        requires
            i < old(self).spec_routes().len(),
            old(self).spec_routes()[i as int].upstreams@.len() > 0,
        ensures
            idx < old(self).spec_routes()[i as int].upstreams@.len(),
            idx as nat == rr_index(
                old(self).spec_routes()[i as int].balancer.ticket(),
                old(self).spec_routes()[i as int].upstreams@.len(),
            ),
            final(self).spec_routes().len() == old(self).spec_routes().len(),
            forall|j: int|
                0 <= j < old(self).spec_routes().len() && j != i
                    ==> final(self).spec_routes()[j] == old(self).spec_routes()[j],
            final(self).spec_routes()[i as int].prefix == old(self).spec_routes()[i as int].prefix,
            final(self).spec_routes()[i as int].upstreams == old(self).spec_routes()[
                i as int
            ].upstreams,
            final(self).spec_routes()[i as int].balancer.ticket() == next_ticket(
                old(self).spec_routes()[i as int].balancer.ticket(),
            ),
    {
        let n = self.routes[i].upstreams.len();
        self.routes[i].balancer.next_index(n)
    }
}

/// Copies a list of upstream URLs, element for element.
fn clone_strings(v: &Vec<String>) -> (r: Vec<String>)
    ensures
        r@ == v@,
{
    let mut r: Vec<String> = Vec::new();
    let n = v.len();
    let mut i: usize = 0;
    while i < n
        invariant
            n == v@.len(),
            i <= n,
            r@.len() == i,
            forall|j: int| 0 <= j < i ==> r@[j] == v@[j],
        decreases n - i,
    {
        r.push(v[i].clone());
        i += 1;
    }
    proof {
        assert(r@ =~= v@);
    }
    r
}

} // verus!
