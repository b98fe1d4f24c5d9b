//! The per-request dispatch state machine.
//!
//! A request moves through: route lookup, prefix stripping, then a bounded
//! attempt loop that draws an upstream from the route's balancer, builds the
//! outbound target, and records each attempt's outcome. Any response from an
//! upstream ends the request; transport failures and timeouts are retried
//! until the attempt budget — at most one attempt per upstream in the pool —
//! is spent, after which the most recently recorded failure is rendered.
//!
//! The caller owns the I/O: it buffers the inbound body once, performs each
//! outbound call under its timeout, and reports the outcome back. Every
//! decision — whether to attempt, against which upstream, and what to answer
//! the client — is made here.

use crate::balancer::{next_ticket, rr_index};
use crate::errors::{body_of, status_of, ProxyError, WireResponse};
use crate::paths::{build_target, final_path_for, spec_final_path};
use crate::router::{is_best_match, route_matches, Router};
use vstd::prelude::*;

verus! {

/// What one forwarding attempt came to: the upstream answered (any status
/// counts as delivery), the transport failed (connection error, reset,
/// malformed target), or the per-attempt timeout elapsed.
#[derive(Clone, Copy, Debug, PartialEq, Eq, Structural)]
pub enum AttemptOutcome {
    Delivered,
    TransportError,
    TimedOut,
}

/// The next action for the caller: issue an outbound call to `target`, or
/// send `response` to the client and finish the request.
pub enum Step {
    Call { target: String },
    Respond { response: WireResponse },
}

/// The total number of attempts allowed for one request: one initial attempt
/// plus at most `max_retries` retries, capped at one attempt per upstream.
pub open spec fn attempt_budget(max_retries: int, upstream_count: int) -> int
    recommends
        1 <= upstream_count,
{
    if max_retries <= upstream_count - 1 {
        max_retries + 1
    } else {
        upstream_count
    }
}

/// The failure kind a non-delivered outcome records.
pub open spec fn error_of_outcome(o: AttemptOutcome) -> ProxyError
    recommends
        !(o is Delivered),
{
    match o {
        AttemptOutcome::TimedOut => ProxyError::UpstreamTimeout,
        _ => ProxyError::UpstreamFailure,
    }
}

/// The failure a request surfaces after recording `outcomes` on top of
/// `init`: the last recorded failure wins, with no aggregation across kinds.
pub open spec fn last_error_after(init: ProxyError, outcomes: Seq<AttemptOutcome>) -> ProxyError {
    if outcomes.len() == 0 {
        init
    } else {
        error_of_outcome(outcomes.last())
    }
}

/// The state of one inbound request between route lookup and the terminal
/// response: the matched route, the stripped forwarding path, the request
/// identifier reused across attempts, and the retry bookkeeping.
pub struct RequestFlow {
    route_index: usize,
    final_path: String,
    request_id: String,
    budget: usize,
    attempts_made: usize,
    last_error: ProxyError,
}

impl RequestFlow {
    /// The index of the matched route.
    pub closed spec fn spec_route(&self) -> int {
        self.route_index as int
    }

    /// The forwarding path: the request target with the matched prefix
    /// stripped, normalized to `/` when empty.
    pub closed spec fn spec_final_path(&self) -> Seq<char> {
        self.final_path@
    }

    /// The request identifier, generated once and constant across attempts.
    pub closed spec fn spec_request_id(&self) -> Seq<char> {
        self.request_id@
    }

    /// The total attempts allowed for this request.
    pub closed spec fn spec_budget(&self) -> int {
        self.budget as int
    }

    /// The attempts issued so far.
    pub closed spec fn spec_attempts(&self) -> int {
        self.attempts_made as int
    }

    /// The most recently recorded failure kind.
    pub closed spec fn spec_last_error(&self) -> ProxyError {
        self.last_error
    }

    /// A flow never exceeds its budget, and only retryable failure kinds are
    /// ever recorded on it.
    pub open spec fn wf(&self) -> bool {
        &&& 1 <= self.spec_budget()
        &&& self.spec_attempts() <= self.spec_budget()
        &&& (self.spec_last_error() is UpstreamFailure || self.spec_last_error()
            is UpstreamTimeout)
    }

    pub fn final_path(&self) -> (p: &String)
        ensures
            p@ == self.spec_final_path(),
    {
        &self.final_path
    }

    pub fn request_id(&self) -> (id: &String)
        ensures
            id@ == self.spec_request_id(),
    {
        &self.request_id
    }

    pub fn attempts_made(&self) -> (n: usize)
        ensures
            n as int == self.spec_attempts(),
    {
        self.attempts_made
    }

    /// Starts dispatch for an inbound request. Resolves `path` against the
    /// router; with no matching route the request ends at once with a 404 and
    /// no outbound call. On a match, computes the forwarding path from
    /// `path_and_query` by stripping the matched prefix, fixes the attempt
    /// budget, and generates the request identifier.
    pub fn begin(router: &Router, max_retries: usize, path: &str, path_and_query: &str) -> (r:
        Result<RequestFlow, WireResponse>)
        requires
            router.wf(),
        ensures
            match r {
                Ok(flow) => {
                    &&& flow.wf()
                    &&& is_best_match(router.spec_routes(), path@, flow.spec_route())
                    &&& flow.spec_final_path() == spec_final_path(
                        path_and_query@,
                        router.spec_routes()[flow.spec_route()].prefix@,
                    )
                    &&& flow.spec_budget() == attempt_budget(
                        max_retries as int,
                        router.spec_routes()[flow.spec_route()].upstreams@.len() as int,
                    )
                    &&& flow.spec_attempts() == 0
                    &&& flow.spec_last_error() is UpstreamFailure
                    &&& flow.spec_request_id().len() == 36
                },
                Err(resp) => {
                    &&& forall|j: int|
                        0 <= j < router.spec_routes().len() ==> !route_matches(
                            router.spec_routes(),
                            path@,
                            j,
                        )
                    &&& resp.status == 404
                    &&& resp.body@ == "No matching route"@
                },
            },
    {
        match router.match_route(path) {
            None => Err(WireResponse { status: 404, body: "No matching route".to_owned() }),
            Some(i) => {
                let fp = final_path_for(path_and_query, router.prefix_of(i).as_str());
                let n = router.upstream_count(i);
                let budget = if max_retries <= n - 1 {
                    max_retries + 1
                } else {
                    n
                };
                Ok(
                    RequestFlow {
                        route_index: i,
                        final_path: fp,
                        request_id: fresh_request_id(),
                        budget,
                        attempts_made: 0,
                        last_error: ProxyError::UpstreamFailure,
                    },
                )
            },
        }
    }

    /// Decides the next step. While the budget lasts, draws the next
    /// round-robin upstream from the matched route's balancer and hands back
    /// the outbound target — the selected upstream base followed by the
    /// forwarding path. Once the budget is spent, renders the most recently
    /// recorded failure as the terminal response.
    pub fn next_attempt(&mut self, router: &mut Router) -> (s: Step)
        requires
            old(self).wf(),
            old(self).spec_route() < old(router).spec_routes().len(),
            old(router).spec_routes()[old(self).spec_route()].upstreams@.len() > 0,
        ensures
            final(self).wf(),
            final(self).spec_route() == old(self).spec_route(),
            final(self).spec_final_path() == old(self).spec_final_path(),
            final(self).spec_request_id() == old(self).spec_request_id(),
            final(self).spec_budget() == old(self).spec_budget(),
            final(self).spec_last_error() == old(self).spec_last_error(),
            final(router).spec_routes().len() == old(router).spec_routes().len(),
            forall|j: int|
                0 <= j < old(router).spec_routes().len() ==> {
                    &&& (#[trigger] final(router).spec_routes()[j]).prefix
                        == old(router).spec_routes()[j].prefix
                    &&& final(router).spec_routes()[j].upstreams
                        == old(router).spec_routes()[j].upstreams
                },
            forall|j: int|
                0 <= j < old(router).spec_routes().len() && j != old(self).spec_route()
                    ==> final(router).spec_routes()[j] == old(router).spec_routes()[j],
            (s is Call) <==> old(self).spec_attempts() < old(self).spec_budget(),
            s matches Step::Call { target } ==> {
                let route = old(router).spec_routes()[old(self).spec_route()];
                let idx = rr_index(route.balancer.ticket(), route.upstreams@.len());
                &&& target@ == route.upstreams@[idx as int]@ + old(self).spec_final_path()
                &&& final(self).spec_attempts() == old(self).spec_attempts() + 1
                &&& final(router).spec_routes()[old(self).spec_route()].balancer.ticket()
                    == next_ticket(route.balancer.ticket())
            },
            s matches Step::Respond { response } ==> {
                &&& response.status == status_of(old(self).spec_last_error())
                &&& response.body@ == body_of(old(self).spec_last_error())
                &&& final(self).spec_attempts() == old(self).spec_attempts()
                &&& *final(router) == *old(router)
            },
    {
        if self.attempts_made >= self.budget {
            Step::Respond { response: self.last_error.into_response() }
        } else {
            let i = self.route_index;
            let idx = router.tick_balancer(i);
            let up = router.upstream_at(i, idx);
            let target = build_target(up.as_str(), self.final_path.as_str());
            self.attempts_made = self.attempts_made + 1;
            Step::Call { target }
        }
    }

    /// Records what an issued attempt came to. A delivered response ends the
    /// request (`true`: return it to the client verbatim); a transport
    /// failure or timeout records the matching failure kind and leaves the
    /// request eligible for the next attempt.
    pub fn on_outcome(&mut self, outcome: AttemptOutcome) -> (done: bool)
        ensures
            done <==> outcome is Delivered,
            final(self).spec_route() == old(self).spec_route(),
            final(self).spec_final_path() == old(self).spec_final_path(),
            final(self).spec_request_id() == old(self).spec_request_id(),
            final(self).spec_budget() == old(self).spec_budget(),
            final(self).spec_attempts() == old(self).spec_attempts(),
            old(self).wf() ==> final(self).wf(),
            outcome is Delivered ==> final(self).spec_last_error() == old(self).spec_last_error(),
            !(outcome is Delivered) ==> final(self).spec_last_error() == error_of_outcome(outcome),
    {
        match outcome {
            AttemptOutcome::Delivered => true,
            AttemptOutcome::TransportError => {
                self.last_error = ProxyError::UpstreamFailure;
                false
            },
            AttemptOutcome::TimedOut => {
                self.last_error = ProxyError::UpstreamTimeout;
                false
            },
        }
    }
}

/// Relies on `uuid::Uuid::new_v4` and the `Display` rendering of `Uuid`: a
/// freshly drawn random version-4 identifier in hyphenated form, which is 36
/// characters long. The value depends on the generator's randomness, so
/// nothing beyond the length is assumed of it.
#[verifier::external_body]
fn fresh_request_id() -> (r: String)
    ensures
        r@.len() == 36,
{
    uuid::Uuid::new_v4().to_string()
}

/// An attempt budget covers at least one attempt and never exceeds the
/// number of upstreams in the pool: with `max_retries` configured and
/// `upstream_count` upstreams, at most
/// `min(max_retries, upstream_count - 1) + 1` attempts are made for one
/// request, however large `max_retries` is.
pub proof fn lemma_attempt_budget_bounds(max_retries: int, upstream_count: int)
    requires
        0 <= max_retries,
        1 <= upstream_count,
    ensures
        1 <= attempt_budget(max_retries, upstream_count) <= upstream_count,
        max_retries < upstream_count ==> attempt_budget(max_retries, upstream_count) == max_retries
            + 1,
        max_retries >= upstream_count - 1 ==> attempt_budget(max_retries, upstream_count)
            == upstream_count,
{
}

/// When the budget is spent the surfaced failure is the most recently
/// recorded one: if every attempt failed at the transport level the terminal
/// status is 502; if every attempt timed out it is 504; under a mix of the
/// two, the last attempt's failure kind decides the status.
pub proof fn lemma_terminal_status_is_last_failure(init: ProxyError, outcomes: Seq<AttemptOutcome>)
    requires
        outcomes.len() > 0,
        forall|j: int| 0 <= j < outcomes.len() ==> !((#[trigger] outcomes[j]) is Delivered),
    ensures
        last_error_after(init, outcomes) == error_of_outcome(outcomes.last()),
        (forall|j: int| 0 <= j < outcomes.len() ==> (#[trigger] outcomes[j]) is TransportError)
            ==> status_of(last_error_after(init, outcomes)) == 502,
        (forall|j: int| 0 <= j < outcomes.len() ==> (#[trigger] outcomes[j]) is TimedOut)
            ==> status_of(last_error_after(init, outcomes)) == 504,
{
}

} // verus!
