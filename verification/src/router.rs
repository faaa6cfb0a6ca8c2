//! The router: an ordered table of `(method, pattern)` → handler entries,
//! with registration that rejects malformed and structurally ambiguous
//! patterns, and per-request recognition that distinguishes "no such path"
//! from "path known, method not allowed".
//!
//! Registration is the only mutation; once an application is serving, the
//! router is read-only, so recognition is a pure function of the table.

use vstd::prelude::*;

use crate::method::HttpMethod;
use crate::pattern::{
    compile_pattern, extract_params, is_path_text, pat_matches, path_segments, pattern_matches,
    patterns_unifiable, spec_compile, spec_params, unifiable, SegShape, Segment,
    lemma_common_path_unifiable,
};

verus! {

/// One registered route.
pub struct RouteEntry {
    pub method: HttpMethod,
    pub pattern: Vec<Segment>,
    /// Identifier of the handler bound to this route; the caller owns the
    /// table that gives each identifier its meaning.
    pub handler: usize,
}

/// The mathematical shape of a registered route.
pub struct EntryShape {
    pub method: HttpMethod,
    pub pattern: Seq<SegShape>,
    pub handler: usize,
}

impl DeepView for RouteEntry {
    type V = EntryShape;

    open spec fn deep_view(&self) -> EntryShape {
        EntryShape { method: self.method, pattern: self.pattern.deep_view(), handler: self.handler }
    }
}

/// Why a registration was rejected.
#[derive(Clone, Copy, Debug, PartialEq, Eq, Structural)]
pub enum RegisterError {
    /// The pattern text is not a rooted path, or a segment is a bare `:`.
    MalformedPattern,
    /// Some already-registered pattern for the same method accepts a common
    /// concrete path with the new one.
    Ambiguous,
}

/// The outcome of recognizing one request.
pub enum RouteOutcome {
    /// A route matched: the bound handler and the named-segment bindings.
    Match { handler: usize, params: Vec<(String, String)> },
    /// Some route's pattern accepts the path, but none under this method.
    MethodNotAllowed,
    /// No route's pattern accepts the path.
    NotFound,
}

/// The mathematical shape of a recognition outcome.
pub enum OutcomeShape {
    Matched(usize, Seq<(Seq<char>, Seq<char>)>),
    MethodNotAllowed,
    NotFound,
}

/// No two entries for one method are structurally ambiguous.
pub open spec fn router_wf(rs: Seq<EntryShape>) -> bool {
    forall|i: int, j: int|
        0 <= i < j < rs.len() && rs[i].method == rs[j].method ==> !unifiable(
            #[trigger] rs[i].pattern,
            #[trigger] rs[j].pattern,
        )
}

/// Index of the first entry at or after `i` whose method is `m` and whose
/// pattern accepts `segs`.
pub open spec fn find_from(
    rs: Seq<EntryShape>,
    m: HttpMethod,
    segs: Seq<Seq<char>>,
    i: int,
) -> Option<int>
    decreases rs.len() - i,
{
    if i < 0 || i >= rs.len() {
        None
    } else if rs[i].method == m && pat_matches(rs[i].pattern, segs) {
        Some(i)
    } else {
        find_from(rs, m, segs, i + 1)
    }
}

/// Whether any entry's pattern, under any method, accepts `segs`.
pub open spec fn any_pattern_accepts(rs: Seq<EntryShape>, segs: Seq<Seq<char>>) -> bool {
    exists|i: int| 0 <= i < rs.len() && pat_matches(#[trigger] rs[i].pattern, segs)
}

/// What recognizing `(m, path)` against the table `rs` yields: the first
/// matching entry's handler and extracted parameters; otherwise which of
/// the two failure kinds holds.
pub open spec fn spec_recognize(rs: Seq<EntryShape>, m: HttpMethod, path: Seq<char>) -> OutcomeShape {
    if !is_path_text(path) {
        OutcomeShape::NotFound
    } else {
        let segs = path_segments(path);
        match find_from(rs, m, segs, 0) {
            Some(k) => OutcomeShape::Matched(rs[k].handler, spec_params(rs[k].pattern, segs)),
            None => if any_pattern_accepts(rs, segs) {
                OutcomeShape::MethodNotAllowed
            } else {
                OutcomeShape::NotFound
            },
        }
    }
}

/// What `find_from` promises of its result.
pub proof fn lemma_find_from(rs: Seq<EntryShape>, m: HttpMethod, segs: Seq<Seq<char>>, i: int)
    requires
        0 <= i <= rs.len(),
    ensures
        match find_from(rs, m, segs, i) {
            Some(k) => {
                &&& i <= k < rs.len()
                &&& rs[k].method == m
                &&& pat_matches(rs[k].pattern, segs)
                &&& forall|j: int|
                    i <= j < k ==> !(rs[j].method == m && pat_matches(#[trigger] rs[j].pattern, segs))
            },
            None => forall|j: int|
                i <= j < rs.len() ==> !(rs[j].method == m && pat_matches(
                    #[trigger] rs[j].pattern,
                    segs,
                )),
        },
    decreases rs.len() - i,
{
    if i < rs.len() {
        if !(rs[i].method == m && pat_matches(rs[i].pattern, segs)) {
            lemma_find_from(rs, m, segs, i + 1);
        }
    }
}

/// In a well-formed table, at most one entry matches a given method and
/// segment list: registration's ambiguity rejection makes recognition
/// unambiguous.
pub proof fn lemma_wf_match_unique(
    rs: Seq<EntryShape>,
    m: HttpMethod,
    segs: Seq<Seq<char>>,
    i: int,
    j: int,
)
    requires
        router_wf(rs),
        0 <= i < rs.len(),
        0 <= j < rs.len(),
        rs[i].method == m,
        rs[j].method == m,
        pat_matches(rs[i].pattern, segs),
        pat_matches(rs[j].pattern, segs),
    ensures
        i == j,
{
    if i < j {
        lemma_common_path_unifiable(rs[i].pattern, rs[j].pattern, segs);
    } else if j < i {
        lemma_common_path_unifiable(rs[j].pattern, rs[i].pattern, segs);
    }
}

/// Every registered route is reachable: in a well-formed table, a request
/// whose method is entry `k`'s and whose path the entry's pattern accepts
/// is recognized as exactly that entry, with the parameters the pattern
/// extracts from the path's own segments.
pub proof fn lemma_registered_route_matches(
    rs: Seq<EntryShape>,
    k: int,
    path: Seq<char>,
)
    requires
        router_wf(rs),
        0 <= k < rs.len(),
        is_path_text(path),
        pat_matches(rs[k].pattern, path_segments(path)),
    ensures
        spec_recognize(rs, rs[k].method, path) == OutcomeShape::Matched(
            rs[k].handler,
            spec_params(rs[k].pattern, path_segments(path)),
        ),
{
    let m = rs[k].method;
    let segs = path_segments(path);
    lemma_find_from(rs, m, segs, 0);
    match find_from(rs, m, segs, 0) {
        Some(k2) => {
            lemma_wf_match_unique(rs, m, segs, k, k2);
        },
        None => {
            assert(!(rs[k].method == m && pat_matches(rs[k].pattern, segs)));
        },
    }
}

/// The routing table. Mutated only by `register`; recognition reads it.
pub struct Router {
    pub routes: Vec<RouteEntry>,
}

impl View for Router {
    type V = Seq<EntryShape>;

    open spec fn view(&self) -> Seq<EntryShape> {
        self.routes.deep_view()
    }
}

impl Router {
    /// Well-formedness: no two entries for one method are ambiguous.
    pub open spec fn wf(&self) -> bool {
        router_wf(self@)
    }

    /// An empty table.
    pub fn new() -> (r: Router)
        ensures
            r@ == Seq::<EntryShape>::empty(),
            r.wf(),
    {
        let r = Router { routes: Vec::new() };
        proof {
            assert(r@ =~= Seq::<EntryShape>::empty());
        }
        r
    }

    /// Register a route. Fails loudly — never silently shadows: `Ok` exactly
    /// when the pattern is well formed and no already-registered pattern for
    /// the same method could accept a common path.
    pub fn register(&mut self, method: HttpMethod, pattern: &str, handler: usize) -> (r: Result<
        (),
        RegisterError,
    >)
        ensures
            match r {
                Ok(()) => {
                    &&& spec_compile(pattern@) is Some
                    &&& forall|i: int|
                        0 <= i < old(self)@.len() && old(self)@[i].method == method
                            ==> !unifiable(
                            #[trigger] old(self)@[i].pattern,
                            spec_compile(pattern@).unwrap(),
                        )
                    &&& final(self)@ == old(self)@.push(
                        EntryShape {
                            method,
                            pattern: spec_compile(pattern@).unwrap(),
                            handler,
                        },
                    )
                },
                Err(RegisterError::MalformedPattern) => {
                    &&& spec_compile(pattern@) is None
                    &&& final(self)@ == old(self)@
                },
                Err(RegisterError::Ambiguous) => {
                    &&& spec_compile(pattern@) is Some
                    &&& exists|i: int|
                        0 <= i < old(self)@.len() && old(self)@[i].method == method && unifiable(
                            #[trigger] old(self)@[i].pattern,
                            spec_compile(pattern@).unwrap(),
                        )
                    &&& final(self)@ == old(self)@
                },
            },
            old(self).wf() ==> final(self).wf(),
    {
        let pat = match compile_pattern(pattern) {
            Some(p) => p,
            None => {
                return Err(RegisterError::MalformedPattern);
            },
        };
        let n = self.routes.len();
        let mut i: usize = 0;
        while i < n
            invariant
                n == self.routes.len(),
                i <= n,
                spec_compile(pattern@) == Some(pat.deep_view()),
                forall|j: int|
                    0 <= j < i && self@[j].method == method ==> !unifiable(
                        #[trigger] self@[j].pattern,
                        pat.deep_view(),
                    ),
            decreases n - i,
        {
            if self.routes[i].method == method {
                if patterns_unifiable(&self.routes[i].pattern, &pat) {
                    proof {
                        assert(self@[i as int].method == method && unifiable(
                            self@[i as int].pattern,
                            pat.deep_view(),
                        ));
                    }
                    return Err(RegisterError::Ambiguous);
                }
            }
            i = i + 1;
        }
        let ghost old_view = self@;
        let entry = RouteEntry { method, pattern: pat, handler };
        let ghost entry_shape = entry.deep_view();
        self.routes.push(entry);
        proof {
            assert(self@ =~= old_view.push(entry_shape));
            if router_wf(old_view) {
                assert forall|a: int, b: int|
                    0 <= a < b < self@.len() && self@[a].method == self@[b].method
                        implies !unifiable(
                        #[trigger] self@[a].pattern,
                        #[trigger] self@[b].pattern,
                    ) by {
                    if b < old_view.len() {
                        assert(!unifiable(old_view[a].pattern, old_view[b].pattern));
                    } else {
                        assert(self@[b] == entry_shape);
                        assert(!unifiable(old_view[a].pattern, pat.deep_view()));
                    }
                }
            }
        }
        Ok(())
    }

    /// Recognize a request: the first matching route under this method, or
    /// which of the two failure kinds holds.
    pub fn recognize(&self, method: HttpMethod, path: &str) -> (r: RouteOutcome)
        ensures
            match r {
                RouteOutcome::Match { handler, params } => spec_recognize(self@, method, path@)
                    == OutcomeShape::Matched(handler, params.deep_view()),
                RouteOutcome::MethodNotAllowed => spec_recognize(self@, method, path@)
                    == OutcomeShape::MethodNotAllowed,
                RouteOutcome::NotFound => spec_recognize(self@, method, path@)
                    == OutcomeShape::NotFound,
            },
    {
        let segs = match crate::pattern::split_path(path) {
            Some(v) => v,
            None => {
                return RouteOutcome::NotFound;
            },
        };
        let n = self.routes.len();
        let mut any_accepts = false;
        let mut i: usize = 0;
        while i < n
            invariant
                n == self.routes.len(),
                i <= n,
                is_path_text(path@),
                segs.deep_view() == path_segments(path@),
                find_from(self@, method, segs.deep_view(), 0) == find_from(
                    self@,
                    method,
                    segs.deep_view(),
                    i as int,
                ),
                any_accepts == exists|j: int|
                    0 <= j < i && pat_matches(#[trigger] self@[j].pattern, segs.deep_view()),
            decreases n - i,
        {
            let entry = &self.routes[i];
            if pattern_matches(&entry.pattern, &segs) {
                if entry.method == method {
                    let params = extract_params(&entry.pattern, &segs);
                    proof {
                        assert(find_from(self@, method, segs.deep_view(), i as int) == Some(
                            i as int,
                        ));
                    }
                    return RouteOutcome::Match { handler: entry.handler, params };
                }
                any_accepts = true;
                proof {
                    assert(pat_matches(self@[i as int].pattern, segs.deep_view()));
                }
            }
            i = i + 1;
        }
        proof {
            assert(find_from(self@, method, segs.deep_view(), n as int) is None);
            assert(any_accepts == any_pattern_accepts(self@, segs.deep_view()));
        }
        if any_accepts {
            RouteOutcome::MethodNotAllowed
        } else {
            RouteOutcome::NotFound
        }
    }
}

} // verus!
