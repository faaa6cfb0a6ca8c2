//! The consuming application builder: each configuration call returns a
//! new builder value accumulating routes, route descriptors, middleware
//! wraps, application-state entries and background tasks; `done` finalizes
//! it into the connection-level service.

use vstd::prelude::*;

use crate::descriptor::{DescriptorShape, RouteDescriptor};
use crate::dispatch::GotchaHttpService;
use crate::method::HttpMethod;
use crate::pattern::unifiable;
use crate::router::{spec_recognize, EntryShape, OutcomeShape, RegisterError, Router};

verus! {

/// The application-state key under which the messaging facility is
/// installed at finalization.
pub const MESSAGER_DATA_KEY: u64 = 0;

/// The builder accumulating one application.
pub struct GotchaApp {
    pub router: Router,
    pub descriptors: Vec<RouteDescriptor>,
    pub api_endpoint: Option<String>,
    /// Keys of the application-state entries bound so far.
    pub data_keys: Vec<u64>,
    /// How many background tasks have been registered; their closures live
    /// with the surrounding runtime, which spawns them at finalization.
    pub task_count: usize,
    /// How many middleware wraps have been applied.
    pub wrap_count: usize,
    pub default_handler: Option<usize>,
}

/// The mathematical shape of the builder.
pub struct AppShape {
    pub router: Seq<EntryShape>,
    pub descriptors: Seq<DescriptorShape>,
    pub api_endpoint: Option<Seq<char>>,
    pub data_keys: Seq<u64>,
    pub task_count: nat,
    pub wrap_count: nat,
    pub default_handler: Option<usize>,
}

impl View for GotchaApp {
    type V = AppShape;

    open spec fn view(&self) -> AppShape {
        AppShape {
            router: self.router@,
            descriptors: self.descriptors.deep_view(),
            api_endpoint: self.api_endpoint.deep_view(),
            data_keys: self.data_keys@,
            task_count: self.task_count as nat,
            wrap_count: self.wrap_count as nat,
            default_handler: self.default_handler,
        }
    }
}

/// What one middleware wrap does to the builder: it nests the service one
/// level deeper — counted here — and leaves everything accumulated so far,
/// routes, descriptors, state bindings and registered tasks, untouched.
pub open spec fn spec_wrap(a: AppShape) -> AppShape {
    AppShape { wrap_count: a.wrap_count + 1, ..a }
}

/// The builder after `n` successive wraps.
pub open spec fn spec_wrap_n(a: AppShape, n: nat) -> AppShape
    decreases n,
{
    if n == 0 {
        a
    } else {
        spec_wrap(spec_wrap_n(a, (n - 1) as nat))
    }
}

/// Middleware composition is dispatch-transparent: wrapping an application
/// any number of times and zero times produces identical route-matching
/// behavior — the router, and with it every recognition outcome, is
/// unchanged.
pub proof fn lemma_wrap_dispatch_transparent(
    a: AppShape,
    n: nat,
    m: HttpMethod,
    path: Seq<char>,
)
    ensures
        spec_wrap_n(a, n).router == a.router,
        spec_recognize(spec_wrap_n(a, n).router, m, path) == spec_recognize(a.router, m, path),
    decreases n,
{
    if n > 0 {
        lemma_wrap_dispatch_transparent(a, (n - 1) as nat, m, path);
    }
}

/// Converting a bare routing table into the builder it seeds.
pub trait GotchaAppWrapperExt {
    type Wrapper;

    fn into_gotcha(self) -> Self::Wrapper;
}

impl GotchaAppWrapperExt for Router {
    type Wrapper = GotchaApp;

    fn into_gotcha(self) -> (r: GotchaApp)
        ensures
            r@ == (AppShape {
                router: self@,
                descriptors: Seq::<DescriptorShape>::empty(),
                api_endpoint: None,
                data_keys: Seq::<u64>::empty(),
                task_count: 0,
                wrap_count: 0,
                default_handler: None,
            }),
    {
        GotchaApp::from_router(self)
    }
}

impl GotchaApp {
    /// The descriptor table describes exactly the routes in the router.
    pub open spec fn consistent(&self) -> bool {
        crate::descriptor::table_consistent(self@.router, self@.descriptors)
    }

    /// An empty application: no routes, no metadata, no state, no tasks.
    pub fn new() -> (r: GotchaApp)
        ensures
            r@ == (AppShape {
                router: Seq::<EntryShape>::empty(),
                descriptors: Seq::<DescriptorShape>::empty(),
                api_endpoint: None,
                data_keys: Seq::<u64>::empty(),
                task_count: 0,
                wrap_count: 0,
                default_handler: None,
            }),
            r.router.wf(),
            r.consistent(),
    {
        let r = GotchaApp {
            router: Router::new(),
            descriptors: Vec::new(),
            api_endpoint: None,
            data_keys: Vec::new(),
            task_count: 0,
            wrap_count: 0,
            default_handler: None,
        };
        proof {
            assert(r.descriptors.deep_view() =~= Seq::<DescriptorShape>::empty());
            assert(r.data_keys@ =~= Seq::<u64>::empty());
        }
        r
    }

    /// A builder seeded with an existing routing table and nothing else.
    pub fn from_router(router: Router) -> (r: GotchaApp)
        ensures
            r@ == (AppShape {
                router: router@,
                descriptors: Seq::<DescriptorShape>::empty(),
                api_endpoint: None,
                data_keys: Seq::<u64>::empty(),
                task_count: 0,
                wrap_count: 0,
                default_handler: None,
            }),
    {
        let r = GotchaApp {
            router,
            descriptors: Vec::new(),
            api_endpoint: None,
            data_keys: Vec::new(),
            task_count: 0,
            wrap_count: 0,
            default_handler: None,
        };
        proof {
            assert(r.descriptors.deep_view() =~= Seq::<DescriptorShape>::empty());
            assert(r.data_keys@ =~= Seq::<u64>::empty());
        }
        r
    }

    /// Register one route with its descriptor: the handler goes into the
    /// router under the descriptor's method and path pattern, and the
    /// descriptor into the metadata table. Fails loudly on a malformed or
    /// ambiguous pattern, never silently shadowing an earlier route.
    pub fn service(self, desc: RouteDescriptor, handler: usize) -> (r: Result<
        GotchaApp,
        RegisterError,
    >)
        ensures
            match r {
                Ok(app) => {
                    &&& crate::pattern::spec_compile(desc.path@) is Some
                    &&& forall|i: int|
                        0 <= i < self@.router.len() && self@.router[i].method == desc.method
                            ==> !unifiable(
                            #[trigger] self@.router[i].pattern,
                            crate::pattern::spec_compile(desc.path@).unwrap(),
                        )
                    &&& app@ == (AppShape {
                        router: self@.router.push(
                            EntryShape {
                                method: desc.method,
                                pattern: crate::pattern::spec_compile(desc.path@).unwrap(),
                                handler,
                            },
                        ),
                        descriptors: self@.descriptors.push(desc.deep_view()),
                        ..self@
                    })
                    &&& self.router.wf() ==> app.router.wf()
                    &&& self.consistent() ==> app.consistent()
                },
                Err(RegisterError::MalformedPattern) => crate::pattern::spec_compile(desc.path@)
                    is None,
                Err(RegisterError::Ambiguous) => exists|i: int|
                    0 <= i < self@.router.len() && self@.router[i].method == desc.method
                        && unifiable(
                        #[trigger] self@.router[i].pattern,
                        crate::pattern::spec_compile(desc.path@).unwrap(),
                    ),
            },
    {
        let ghost pre = self@;
        let ghost dshape = desc.deep_view();
        let GotchaApp {
            mut router,
            mut descriptors,
            api_endpoint,
            data_keys,
            task_count,
            wrap_count,
            default_handler,
        } = self;
        match router.register(desc.method, desc.path.as_str(), handler) {
            Ok(()) => {
                descriptors.push(desc);
                let app = GotchaApp {
                    router,
                    descriptors,
                    api_endpoint,
                    data_keys,
                    task_count,
                    wrap_count,
                    default_handler,
                };
                proof {
                    assert(app@.descriptors =~= pre.descriptors.push(dshape));
                    assert(app@.router == pre.router.push(
                        EntryShape {
                            method: dshape.method,
                            pattern: crate::pattern::spec_compile(dshape.path).unwrap(),
                            handler,
                        },
                    ));
                }
                Ok(app)
            },
            Err(e) => Err(e),
        }
    }

    /// Apply one middleware wrap.
    pub fn wrap(self) -> (r: GotchaApp)
        requires
            self@.wrap_count < usize::MAX,
        ensures
            r@ == spec_wrap(self@),
    {
        let GotchaApp {
            router,
            descriptors,
            api_endpoint,
            data_keys,
            task_count,
            wrap_count,
            default_handler,
        } = self;
        GotchaApp {
            router,
            descriptors,
            api_endpoint,
            data_keys,
            task_count,
            wrap_count: wrap_count + 1,
            default_handler,
        }
    }

    /// Install the fallback handler consulted when no route matches.
    pub fn default_service(self, handler: usize) -> (r: GotchaApp)
        ensures
            r@ == (AppShape { default_handler: Some(handler), ..self@ }),
    {
        GotchaApp { default_handler: Some(handler), ..self }
    }

    /// Record where the API documentation endpoint is to be mounted.
    pub fn api_endpoint(self, path: String) -> (r: GotchaApp)
        ensures
            r@ == (AppShape { api_endpoint: Some(path@), ..self@ }),
    {
        GotchaApp { api_endpoint: Some(path), ..self }
    }

    /// Bind one application-state entry under its type key. Entries are
    /// shared, read-only, by every request for the application's lifetime.
    pub fn data(self, key: u64) -> (r: GotchaApp)
        ensures
            r@ == (AppShape { data_keys: self@.data_keys.push(key), ..self@ }),
    {
        let GotchaApp {
            router,
            descriptors,
            api_endpoint,
            mut data_keys,
            task_count,
            wrap_count,
            default_handler,
        } = self;
        data_keys.push(key);
        GotchaApp {
            router,
            descriptors,
            api_endpoint,
            data_keys,
            task_count,
            wrap_count,
            default_handler,
        }
    }

    /// Register one background task; all of them are spawned, detached, at
    /// finalization.
    pub fn task(self) -> (r: GotchaApp)
        requires
            self@.task_count < usize::MAX,
        ensures
            r@ == (AppShape { task_count: self@.task_count + 1, ..self@ }),
    {
        let GotchaApp {
            router,
            descriptors,
            api_endpoint,
            data_keys,
            task_count,
            wrap_count,
            default_handler,
        } = self;
        GotchaApp {
            router,
            descriptors,
            api_endpoint,
            data_keys,
            task_count: task_count + 1,
            wrap_count,
            default_handler,
        }
    }

    /// Finalize: install the messaging facility into application state and
    /// hand over the connection-level service, with the count of background
    /// tasks the surrounding runtime is to spawn now, fire-and-forget. The
    /// routing table and descriptor table pass through unchanged and are
    /// read-only from here on.
    pub fn done(self) -> (s: GotchaHttpService)
        ensures
            s.router@ == self@.router,
            s.descriptors.deep_view() == self@.descriptors,
            s.data_keys@ == self@.data_keys.push(MESSAGER_DATA_KEY),
            s.default_handler == self@.default_handler,
            s.api_endpoint.deep_view() == self@.api_endpoint,
            s.pending_tasks as nat == self@.task_count,
            self.router.wf() ==> s.router.wf(),
            self.consistent() ==> s.consistent(),
    {
        let app = self.data(MESSAGER_DATA_KEY);
        let GotchaApp {
            router,
            descriptors,
            api_endpoint,
            data_keys,
            task_count,
            wrap_count: _,
            default_handler,
        } = app;
        GotchaHttpService {
            router,
            descriptors,
            data_keys,
            default_handler,
            api_endpoint,
            pending_tasks: task_count,
        }
    }
}

} // verus!
