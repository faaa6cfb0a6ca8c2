//! The two-tier service layer: a connection-level service that yields a
//! per-connection request service bound to the shared application, and the
//! request-level dispatch that resolves each request against the router.
//!
//! Handler bodies run outside this core (they may await I/O); dispatch is
//! split around that invocation. [`GotchaConnection::call`] decides, from
//! the router alone, whether to invoke a handler (and with which
//! parameters) or to answer at once with a miss response; [`complete`]
//! turns whatever the invocation came to — success or failure — into the
//! wire response. A failed handler therefore yields a 5xx response and can
//! never take the connection service down with it.

use vstd::prelude::*;

use crate::descriptor::RouteDescriptor;
use crate::method::HttpMethod;
use crate::response::{
    internal_error_response, internal_error_shape, method_not_allowed_response,
    method_not_allowed_shape, not_found_response, not_found_shape, Response, ResponseShape,
};
use crate::router::{spec_recognize, EntryShape, OutcomeShape, RouteOutcome, Router};

verus! {

/// What the request-level service decides to do with one request.
pub enum DispatchDecision {
    /// Invoke the handler with this identifier, passing these path
    /// parameters, then feed its outcome to [`complete`].
    Invoke { handler: usize, params: Vec<(String, String)> },
    /// Answer at once with this response; no handler runs.
    Respond(Response),
}

/// The mathematical shape of a dispatch decision.
pub enum DecisionShape {
    Invoke(usize, Seq<(Seq<char>, Seq<char>)>),
    Respond(ResponseShape),
}

/// What one invoked handler came to: a response, or a failure whose text
/// stays inside the service.
pub enum HandlerOutcome {
    Succeeded(Response),
    Failed(String),
}

/// What dispatching `(m, path)` against a router with an optional default
/// handler decides: invoke the first matching route; on a miss, invoke the
/// default handler with no parameters if one is installed, else answer
/// with the miss kind's fixed response.
pub open spec fn spec_dispatch(
    rs: Seq<EntryShape>,
    default_handler: Option<usize>,
    m: HttpMethod,
    path: Seq<char>,
) -> DecisionShape {
    match spec_recognize(rs, m, path) {
        OutcomeShape::Matched(h, ps) => DecisionShape::Invoke(h, ps),
        OutcomeShape::MethodNotAllowed => match default_handler {
            Some(d) => DecisionShape::Invoke(d, Seq::empty()),
            None => DecisionShape::Respond(method_not_allowed_shape()),
        },
        OutcomeShape::NotFound => match default_handler {
            Some(d) => DecisionShape::Invoke(d, Seq::empty()),
            None => DecisionShape::Respond(not_found_shape()),
        },
    }
}

/// The per-connection request service: a cheap, read-only binding to the
/// shared application. Holding it by reference, it cannot mutate the
/// router, so every request on the connection is dispatched against the
/// same table — one request's fate never alters the next one's.
pub struct GotchaConnection<'a> {
    pub router: &'a Router,
    pub default_handler: Option<usize>,
}

impl<'a> GotchaConnection<'a> {
    /// The request service is always ready: dispatch never blocks.
    pub fn poll_ready(&self) -> (r: bool)
        ensures
            r,
    {
        true
    }

    /// Decide one request: resolve it in the router and either name the
    /// handler to invoke or answer with the deterministic miss response.
    pub fn call(&self, method: HttpMethod, path: &str) -> (d: DispatchDecision)
        ensures
            match d {
                DispatchDecision::Invoke { handler, params } => spec_dispatch(
                    self.router@,
                    self.default_handler,
                    method,
                    path@,
                ) == DecisionShape::Invoke(handler, params.deep_view()),
                DispatchDecision::Respond(resp) => spec_dispatch(
                    self.router@,
                    self.default_handler,
                    method,
                    path@,
                ) == DecisionShape::Respond(resp@),
            },
    {
        match self.router.recognize(method, path) {
            RouteOutcome::Match { handler, params } => DispatchDecision::Invoke {
                handler,
                params,
            },
            RouteOutcome::MethodNotAllowed => match self.default_handler {
                Some(d) => {
                    let params: Vec<(String, String)> = Vec::new();
                    proof {
                        assert(params.deep_view() =~= Seq::<(Seq<char>, Seq<char>)>::empty());
                    }
                    DispatchDecision::Invoke { handler: d, params }
                },
                None => DispatchDecision::Respond(method_not_allowed_response()),
            },
            RouteOutcome::NotFound => match self.default_handler {
                Some(d) => {
                    let params: Vec<(String, String)> = Vec::new();
                    proof {
                        assert(params.deep_view() =~= Seq::<(Seq<char>, Seq<char>)>::empty());
                    }
                    DispatchDecision::Invoke { handler: d, params }
                },
                None => DispatchDecision::Respond(not_found_response()),
            },
        }
    }
}

/// Close out one request after its handler ran: a success passes its
/// response through untouched; a failure becomes the fixed 5xx response.
/// The failure text is dropped here, never sent to the client, so the
/// request always ends responded and the connection lives on.
pub fn complete(outcome: HandlerOutcome) -> (r: Response)
    ensures
        match outcome {
            HandlerOutcome::Succeeded(resp) => r@ == resp@,
            HandlerOutcome::Failed(_) => r@ == internal_error_shape(),
        },
        outcome is Failed ==> 500 <= r@.status < 600,
{
    match outcome {
        HandlerOutcome::Succeeded(resp) => resp,
        HandlerOutcome::Failed(_) => internal_error_response(),
    }
}

/// Every registered route is served: when the router is well formed and
/// entry `k`'s pattern accepts the path, a request with that entry's
/// method is dispatched to exactly that entry's handler, with the
/// parameters being the literal substrings occupying each named segment.
pub proof fn lemma_dispatch_registered(
    rs: Seq<EntryShape>,
    default_handler: Option<usize>,
    k: int,
    path: Seq<char>,
)
    requires
        crate::router::router_wf(rs),
        0 <= k < rs.len(),
        crate::pattern::is_path_text(path),
        crate::pattern::pat_matches(rs[k].pattern, crate::pattern::path_segments(path)),
    ensures
        spec_dispatch(rs, default_handler, rs[k].method, path) == DecisionShape::Invoke(
            rs[k].handler,
            crate::pattern::spec_params(rs[k].pattern, crate::pattern::path_segments(path)),
        ),
{
    crate::router::lemma_registered_route_matches(rs, k, path);
}

/// A path no pattern accepts is answered with the one fixed not-found
/// response, whatever the request's method — and dispatch never reads the
/// request's headers or body at all, so the answer cannot depend on them.
pub proof fn lemma_unmatched_deterministic(rs: Seq<EntryShape>, m: HttpMethod, path: Seq<char>)
    requires
        spec_recognize(rs, m, path) == OutcomeShape::NotFound,
    ensures
        spec_dispatch(rs, None, m, path) == DecisionShape::Respond(not_found_shape()),
{
}

/// The connection-level service: the finalized application, shared
/// read-only by every connection. Accepting a connection binds a
/// [`GotchaConnection`] to it without rebuilding any routing state.
pub struct GotchaHttpService {
    pub router: Router,
    pub descriptors: Vec<RouteDescriptor>,
    /// Keys of the application-state entries installed at build time.
    pub data_keys: Vec<u64>,
    pub default_handler: Option<usize>,
    pub api_endpoint: Option<String>,
    /// How many registered background tasks the surrounding runtime is to
    /// spawn, fire-and-forget, when serving starts.
    pub pending_tasks: usize,
}

impl GotchaHttpService {
    /// The descriptor table describes exactly the routes in the router.
    pub open spec fn consistent(&self) -> bool {
        crate::descriptor::table_consistent(self.router@, self.descriptors.deep_view())
    }

    /// The connection service is always ready to accept.
    pub fn poll_ready(&self) -> (r: bool)
        ensures
            r,
    {
        true
    }

    /// Accept one connection: a request service bound to this application.
    pub fn call<'a>(&'a self) -> (c: GotchaConnection<'a>)
        ensures
            c.router@ == self.router@,
            c.default_handler == self.default_handler,
    {
        GotchaConnection { router: &self.router, default_handler: self.default_handler }
    }
}

} // verus!
