//! Static metadata about registered routes, kept for introspection (for
//! example, serving API documentation) without re-examining handler code at
//! runtime.

use vstd::prelude::*;

use crate::method::HttpMethod;
use crate::pattern::{seg_unifiable, spec_compile, unifiable, SegShape};
use crate::router::{router_wf, EntryShape};
use crate::strutil::str_eq;

verus! {

/// The metadata an annotation layer attaches to one route declaration: the
/// path pattern text and an optional group tag. This core consumes the
/// finished value; how it is extracted from source text is not its concern.
pub struct RouteMeta {
    pub path: String,
    pub group: Option<String>,
}

/// Static metadata describing one registered route. Immutable once created.
pub struct RouteDescriptor {
    /// The route's identifier, typically its handler's name.
    pub id: String,
    pub method: HttpMethod,
    /// The path pattern text the route was registered under.
    pub path: String,
    /// Optional group tag for documentation grouping.
    pub group: Option<String>,
    /// Optional human-readable description, passed through verbatim.
    pub description: Option<String>,
    pub deprecated: bool,
}

/// The mathematical shape of a route descriptor.
pub struct DescriptorShape {
    pub id: Seq<char>,
    pub method: HttpMethod,
    pub path: Seq<char>,
    pub group: Option<Seq<char>>,
    pub description: Option<Seq<char>>,
    pub deprecated: bool,
}

impl DeepView for RouteDescriptor {
    type V = DescriptorShape;

    open spec fn deep_view(&self) -> DescriptorShape {
        DescriptorShape {
            id: self.id@,
            method: self.method,
            path: self.path@,
            group: self.group.deep_view(),
            description: self.description.deep_view(),
            deprecated: self.deprecated,
        }
    }
}

impl RouteDescriptor {
    /// Assemble a descriptor from the values the annotation layer declares.
    /// Nothing is derived at runtime: every field is passed through, and a
    /// fresh route is never deprecated.
    pub fn from_meta(id: String, method: HttpMethod, meta: RouteMeta, description: Option<
        String,
    >) -> (r: RouteDescriptor)
        ensures
            r.deep_view() == (DescriptorShape {
                id: id@,
                method,
                path: meta.path@,
                group: meta.group.deep_view(),
                description: description.deep_view(),
                deprecated: false,
            }),
    {
        RouteDescriptor {
            id,
            method,
            path: meta.path,
            group: meta.group,
            description,
            deprecated: false,
        }
    }
}

/// The descriptor table describes exactly the router's entries: the same
/// count, and entry `i` was registered under descriptor `i`'s method and
/// path pattern. Registration inserts into both tables in step, so this
/// holds of every application built through the builder alone.
pub open spec fn table_consistent(rs: Seq<EntryShape>, ds: Seq<DescriptorShape>) -> bool {
    &&& rs.len() == ds.len()
    &&& forall|i: int|
        0 <= i < rs.len() ==> (#[trigger] rs[i]).method == ds[i].method && spec_compile(ds[i].path)
            == Some(rs[i].pattern)
}

/// There is exactly one descriptor per registered (path, method): in a
/// well-formed router whose descriptor table is consistent with it, no two
/// descriptors carry the same path text under the same method.
pub proof fn lemma_descriptor_unique(
    rs: Seq<EntryShape>,
    ds: Seq<DescriptorShape>,
    i: int,
    j: int,
)
    requires
        router_wf(rs),
        table_consistent(rs, ds),
        0 <= i < ds.len(),
        0 <= j < ds.len(),
        i != j,
        ds[i].method == ds[j].method,
    ensures
        ds[i].path != ds[j].path,
{
    if ds[i].path == ds[j].path {
        let p = rs[i].pattern;
        assert(rs[j].pattern == p);
        assert(unifiable(p, p)) by {
            assert forall|k: int| 0 <= k < p.len() implies seg_unifiable(p[k], p[k]) by {
                match p[k] {
                    SegShape::Lit(_) => {},
                    SegShape::Param(_) => {},
                }
            }
        }
        if i < j {
            assert(!unifiable(rs[i].pattern, rs[j].pattern));
        } else {
            assert(!unifiable(rs[j].pattern, rs[i].pattern));
        }
    }
}

/// What a route's description is, given the raw documentation lines
/// declared on its handler: each line trimmed of surrounding whitespace,
/// joined by newlines; no lines, no description.
pub open spec fn spec_description(lines: Seq<Seq<char>>) -> Option<Seq<char>> {
    if lines.len() == 0 {
        None
    } else {
        Some(crate::strutil::join_lines(lines.map_values(|l: Seq<char>| crate::strutil::spec_trim(l))))
    }
}

/// Assemble a route description from raw documentation lines.
pub fn assemble_description(lines: &Vec<String>) -> (r: Option<String>)
    ensures
        r.deep_view() == spec_description(lines.deep_view()),
{
    if lines.len() == 0 {
        return None;
    }
    let n = lines.len();
    let mut trimmed: Vec<String> = Vec::new();
    let mut i: usize = 0;
    while i < n
        invariant
            n == lines.len(),
            i <= n,
            trimmed.len() == i,
            forall|j: int|
                0 <= j < i ==> trimmed.deep_view()[j] == crate::strutil::spec_trim(
                    #[trigger] lines.deep_view()[j],
                ),
        decreases n - i,
    {
        trimmed.push(crate::strutil::trim(lines[i].as_str()));
        i = i + 1;
    }
    proof {
        assert(trimmed.deep_view() =~= lines.deep_view().map_values(
            |l: Seq<char>| crate::strutil::spec_trim(l),
        ));
    }
    Some(crate::strutil::join_with_newlines(&trimmed))
}

/// Index of the first descriptor registered under exactly this method and
/// path text, if any: the descriptor table is keyed by path, then method.
pub fn find_descriptor(ds: &Vec<RouteDescriptor>, method: HttpMethod, path: &str) -> (r: Option<
    usize,
>)
    ensures
        match r {
            Some(i) => {
                &&& i < ds.deep_view().len()
                &&& ds.deep_view()[i as int].method == method
                &&& ds.deep_view()[i as int].path == path@
                &&& forall|j: int|
                    0 <= j < i ==> !(ds.deep_view()[j].method == method && (#[trigger] ds.deep_view()[j].path)
                        == path@)
            },
            None => forall|j: int|
                0 <= j < ds.deep_view().len() ==> !(ds.deep_view()[j].method == method && (
                #[trigger] ds.deep_view()[j].path) == path@),
        },
{
    let n = ds.len();
    let mut i: usize = 0;
    while i < n
        invariant
            n == ds.len(),
            i <= n,
            forall|j: int|
                0 <= j < i ==> !(ds.deep_view()[j].method == method && (#[trigger] ds.deep_view()[j].path)
                    == path@),
        decreases n - i,
    {
        let d = &ds[i];
        if d.method == method && str_eq(d.path.as_str(), path) {
            proof {
                assert(ds.deep_view()[i as int].method == method && ds.deep_view()[i as int].path
                    == path@);
            }
            return Some(i);
        }
        i = i + 1;
    }
    None
}

} // verus!
