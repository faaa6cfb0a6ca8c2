//! Path patterns: segment splitting, compilation, matching, parameter
//! extraction, and structural ambiguity of two patterns.
//!
//! A path text is a string beginning with `/`; its segments are the
//! `/`-separated pieces after the leading slash (the root path `/` has the
//! single empty segment). A pattern text looks like a path, but a segment
//! beginning with `:` declares a named parameter that matches any non-empty
//! concrete segment and captures it.

use vstd::prelude::*;

use crate::strutil::str_eq;

verus! {

/// One compiled segment of a path pattern.
#[derive(Debug)]
pub enum Segment {
    /// Matches exactly this literal text.
    Lit(String),
    /// Matches any non-empty segment, capturing it under this name.
    Param(String),
}

/// The mathematical shape of a compiled segment.
pub enum SegShape {
    Lit(Seq<char>),
    Param(Seq<char>),
}

impl DeepView for Segment {
    type V = SegShape;

    open spec fn deep_view(&self) -> SegShape {
        match self {
            Segment::Lit(s) => SegShape::Lit(s@),
            Segment::Param(s) => SegShape::Param(s@),
        }
    }
}

/// A path text: non-empty and rooted at `/`.
pub open spec fn is_path_text(s: Seq<char>) -> bool {
    s.len() > 0 && s[0] == '/'
}

/// Split a character sequence on `/`, keeping empty pieces; the result
/// always has at least one piece.
pub open spec fn split_on_slash(s: Seq<char>) -> Seq<Seq<char>>
    decreases s.len(),
{
    if s.len() == 0 {
        seq![Seq::<char>::empty()]
    } else if s[s.len() - 1] == '/' {
        split_on_slash(s.drop_last()).push(Seq::<char>::empty())
    } else {
        let r = split_on_slash(s.drop_last());
        r.update(r.len() - 1, r[r.len() - 1].push(s[s.len() - 1]))
    }
}

pub proof fn lemma_split_on_slash_nonempty(s: Seq<char>)
    ensures
        split_on_slash(s).len() >= 1,
    decreases s.len(),
{
    if s.len() > 0 {
        lemma_split_on_slash_nonempty(s.drop_last());
    }
}

/// The segments of a path text: the `/`-separated pieces after the leading
/// slash.
pub open spec fn path_segments(s: Seq<char>) -> Seq<Seq<char>> {
    split_on_slash(s.subrange(1, s.len() as int))
}

/// Split a path into its segments; `None` exactly when `s` is not a path
/// text.
pub fn split_path(s: &str) -> (r: Option<Vec<String>>)
    ensures
        match r {
            Some(v) => is_path_text(s@) && v.deep_view() == path_segments(s@),
            None => !is_path_text(s@),
        },
{
    let n = s.unicode_len();
    if n == 0 {
        return None;
    }
    if s.get_char(0) != '/' {
        return None;
    }
    let mut segs: Vec<String> = Vec::new();
    let mut start: usize = 1;
    let mut i: usize = 1;
    proof {
        assert(s@.subrange(1, 1) =~= Seq::<char>::empty());
        assert(split_on_slash(s@.subrange(1, 1)) =~= seq![Seq::<char>::empty()]);
        assert(segs.deep_view().push(s@.subrange(1, 1)) =~= seq![Seq::<char>::empty()]);
    }
    while i < n
        invariant
            n == s@.len(),
            1 <= start <= i <= n,
            split_on_slash(s@.subrange(1, i as int)) == segs.deep_view().push(
                s@.subrange(start as int, i as int),
            ),
        decreases n - i,
    {
        let ghost t = s@.subrange(1, i as int);
        let ghost partial = s@.subrange(start as int, i as int);
        let c = s.get_char(i);
        proof {
            assert(s@.subrange(1, i + 1) =~= t.push(s@[i as int]));
            assert(s@.subrange(1, i + 1).drop_last() =~= t);
        }
        if c == '/' {
            let piece = s.substring_char(start, i).to_owned();
            segs.push(piece);
            proof {
                assert(segs.deep_view() =~= segs.deep_view().drop_last().push(partial));
                assert(split_on_slash(s@.subrange(1, i + 1)) == split_on_slash(t).push(
                    Seq::<char>::empty(),
                ));
                assert(s@.subrange(i + 1, i + 1) =~= Seq::<char>::empty());
            }
            start = i + 1;
        } else {
            proof {
                let r = split_on_slash(t);
                lemma_split_on_slash_nonempty(t);
                assert(r == segs.deep_view().push(partial));
                assert(r[r.len() - 1] == partial);
                assert(split_on_slash(s@.subrange(1, i + 1)) == r.update(
                    r.len() - 1,
                    partial.push(s@[i as int]),
                ));
                assert(r.update(r.len() - 1, partial.push(s@[i as int])) =~= segs.deep_view().push(
                    partial.push(s@[i as int]),
                ));
                assert(s@.subrange(start as int, i + 1) =~= partial.push(s@[i as int]));
            }
        }
        i = i + 1;
    }
    let ghost partial = s@.subrange(start as int, n as int);
    let piece = s.substring_char(start, n).to_owned();
    segs.push(piece);
    proof {
        assert(segs.deep_view() =~= segs.deep_view().drop_last().push(partial));
        assert(s@.subrange(1, n as int) =~= s@.subrange(1, s@.len() as int));
    }
    Some(segs)
}

/// Whether one compiled segment accepts one concrete segment.
pub open spec fn seg_matches(p: SegShape, s: Seq<char>) -> bool {
    match p {
        SegShape::Lit(l) => l == s,
        SegShape::Param(_) => s.len() > 0,
    }
}

/// Whether a compiled pattern accepts a concrete segment list.
pub open spec fn pat_matches(pat: Seq<SegShape>, segs: Seq<Seq<char>>) -> bool {
    &&& pat.len() == segs.len()
    &&& forall|i: int| 0 <= i < pat.len() ==> seg_matches(pat[i], segs[i])
}

/// Decide whether `pat` accepts `segs`.
pub fn pattern_matches(pat: &Vec<Segment>, segs: &Vec<String>) -> (r: bool)
    ensures
        r == pat_matches(pat.deep_view(), segs.deep_view()),
{
    if pat.len() != segs.len() {
        return false;
    }
    let n = pat.len();
    let mut i: usize = 0;
    while i < n
        invariant
            n == pat.len() == segs.len(),
            i <= n,
            forall|j: int| 0 <= j < i ==> seg_matches(pat.deep_view()[j], segs.deep_view()[j]),
        decreases n - i,
    {
        let ok = match &pat[i] {
            Segment::Lit(l) => str_eq(l.as_str(), segs[i].as_str()),
            Segment::Param(_) => !segs[i].as_str().is_empty(),
        };
        if !ok {
            proof {
                assert(!seg_matches(pat.deep_view()[i as int], segs.deep_view()[i as int]));
            }
            return false;
        }
        i = i + 1;
    }
    proof {
        assert(pat_matches(pat.deep_view(), segs.deep_view()));
    }
    true
}

/// The parameters a pattern extracts from a segment list it accepts: for
/// each named segment, in order, the pair of its name and the concrete text
/// standing in its place.
pub open spec fn spec_params(pat: Seq<SegShape>, segs: Seq<Seq<char>>) -> Seq<
    (Seq<char>, Seq<char>),
>
    decreases pat.len(),
{
    if pat.len() == 0 || segs.len() == 0 {
        Seq::empty()
    } else {
        let rest = spec_params(pat.drop_last(), segs.drop_last());
        match pat.last() {
            SegShape::Param(name) => rest.push((name, segs.last())),
            SegShape::Lit(_) => rest,
        }
    }
}

/// Extract the named-segment bindings of `pat` over `segs`.
pub fn extract_params(pat: &Vec<Segment>, segs: &Vec<String>) -> (r: Vec<(String, String)>)
    requires
        pat.deep_view().len() == segs.deep_view().len(),
    ensures
        r.deep_view() == spec_params(pat.deep_view(), segs.deep_view()),
{
    let n = pat.len();
    let mut out: Vec<(String, String)> = Vec::new();
    let mut i: usize = 0;
    proof {
        assert(pat.deep_view().subrange(0, 0) =~= Seq::<SegShape>::empty());
        assert(segs.deep_view().subrange(0, 0) =~= Seq::<Seq<char>>::empty());
        assert(out.deep_view() =~= Seq::<(Seq<char>, Seq<char>)>::empty());
    }
    while i < n
        invariant
            n == pat.len() == segs.len(),
            i <= n,
            out.deep_view() == spec_params(
                pat.deep_view().subrange(0, i as int),
                segs.deep_view().subrange(0, i as int),
            ),
        decreases n - i,
    {
        let ghost pp = pat.deep_view().subrange(0, i as int);
        let ghost sp = segs.deep_view().subrange(0, i as int);
        let ghost pp1 = pat.deep_view().subrange(0, i + 1);
        let ghost sp1 = segs.deep_view().subrange(0, i + 1);
        proof {
            assert(pp1.drop_last() =~= pp);
            assert(sp1.drop_last() =~= sp);
            assert(pp1.last() == pat.deep_view()[i as int]);
            assert(sp1.last() == segs.deep_view()[i as int]);
        }
        match &pat[i] {
            Segment::Param(name) => {
                let pair = (name.clone(), segs[i].clone());
                out.push(pair);
                proof {
                    assert(out.deep_view() =~= out.deep_view().drop_last().push(
                        (name@, segs@[i as int]@),
                    ));
                }
            },
            Segment::Lit(_) => {},
        }
        i = i + 1;
    }
    proof {
        assert(pat.deep_view().subrange(0, n as int) =~= pat.deep_view());
        assert(segs.deep_view().subrange(0, n as int) =~= segs.deep_view());
    }
    out
}

/// How one raw pattern segment compiles: a leading `:` introduces a named
/// parameter whose name must be non-empty; anything else is a literal.
pub open spec fn classify_seg(raw: Seq<char>) -> Option<SegShape> {
    if raw.len() > 0 && raw[0] == ':' {
        if raw.len() > 1 {
            Some(SegShape::Param(raw.subrange(1, raw.len() as int)))
        } else {
            None
        }
    } else {
        Some(SegShape::Lit(raw))
    }
}

/// How a whole pattern text compiles; `None` exactly when the text is not a
/// path text or some segment is a bare `:`.
pub open spec fn spec_compile(text: Seq<char>) -> Option<Seq<SegShape>> {
    if !is_path_text(text) {
        None
    } else {
        let raws = path_segments(text);
        if forall|i: int| 0 <= i < raws.len() ==> classify_seg(#[trigger] raws[i]) is Some {
            Some(Seq::new(raws.len(), |i: int| classify_seg(raws[i]).unwrap()))
        } else {
            None
        }
    }
}

/// Compile a pattern text; `None` exactly on malformed pattern text.
pub fn compile_pattern(text: &str) -> (r: Option<Vec<Segment>>)
    ensures
        match r {
            Some(v) => spec_compile(text@) == Some(v.deep_view()),
            None => spec_compile(text@) is None,
        },
{
    let raws = match split_path(text) {
        Some(v) => v,
        None => {
            return None;
        },
    };
    let n = raws.len();
    let mut out: Vec<Segment> = Vec::new();
    let mut i: usize = 0;
    while i < n
        invariant
            n == raws.len(),
            i <= n,
            out.len() == i,
            is_path_text(text@),
            raws.deep_view() == path_segments(text@),
            forall|j: int|
                0 <= j < i ==> classify_seg(#[trigger] raws.deep_view()[j]) is Some,
            forall|j: int|
                0 <= j < i ==> out.deep_view()[j] == classify_seg(
                    #[trigger] raws.deep_view()[j],
                ).unwrap(),
        decreases n - i,
    {
        let raw = &raws[i];
        proof {
            assert(raws.deep_view()[i as int] == raws@[i as int]@);
        }
        let len = raw.as_str().unicode_len();
        if len > 0 && raw.as_str().get_char(0) == ':' {
            if len > 1 {
                let name = raw.as_str().substring_char(1, len).to_owned();
                out.push(Segment::Param(name));
                proof {
                    assert(out.deep_view()[i as int] == SegShape::Param(name@));
                    assert(classify_seg(raws.deep_view()[i as int]) == Some(
                        SegShape::Param(name@),
                    ));
}
            } else {
                proof {
                    assert(classify_seg(raws.deep_view()[i as int]) is None);
                    assert(raws.deep_view() == path_segments(text@));
                    assert(classify_seg(path_segments(text@)[i as int]) is None);
                    assert(spec_compile(text@) is None);
                }
                return None;
            }
        } else {
            out.push(Segment::Lit(raw.clone()));
            proof {
                assert(out.deep_view()[i as int] == SegShape::Lit(raws@[i as int]@));
                assert(classify_seg(raws.deep_view()[i as int]) == Some(
                    SegShape::Lit(raws@[i as int]@),
                ));
            }
        }
        i = i + 1;
    }
    proof {
        let raws_dv = raws.deep_view();
        assert(out.deep_view() =~= Seq::new(
            raws_dv.len(),
            |j: int| classify_seg(raws_dv[j]).unwrap(),
        ));
    }
    Some(out)
}

/// Whether one segment of each of two patterns can accept the same concrete
/// segment.
pub open spec fn seg_unifiable(p: SegShape, q: SegShape) -> bool {
    match (p, q) {
        (SegShape::Lit(a), SegShape::Lit(b)) => a == b,
        (SegShape::Lit(a), SegShape::Param(_)) => a.len() > 0,
        (SegShape::Param(_), SegShape::Lit(b)) => b.len() > 0,
        (SegShape::Param(_), SegShape::Param(_)) => true,
    }
}

/// Structural ambiguity: two patterns are unifiable when some concrete path
/// could satisfy both.
pub open spec fn unifiable(p: Seq<SegShape>, q: Seq<SegShape>) -> bool {
    &&& p.len() == q.len()
    &&& forall|i: int| 0 <= i < p.len() ==> seg_unifiable(p[i], q[i])
}

/// Decide whether two compiled patterns are structurally ambiguous.
pub fn patterns_unifiable(p: &Vec<Segment>, q: &Vec<Segment>) -> (r: bool)
    ensures
        r == unifiable(p.deep_view(), q.deep_view()),
{
    if p.len() != q.len() {
        return false;
    }
    let n = p.len();
    let mut i: usize = 0;
    while i < n
        invariant
            n == p.len() == q.len(),
            i <= n,
            forall|j: int| 0 <= j < i ==> seg_unifiable(p.deep_view()[j], q.deep_view()[j]),
        decreases n - i,
    {
        let ok = match (&p[i], &q[i]) {
            (Segment::Lit(a), Segment::Lit(b)) => str_eq(a.as_str(), b.as_str()),
            (Segment::Lit(a), Segment::Param(_)) => !a.as_str().is_empty(),
            (Segment::Param(_), Segment::Lit(b)) => !b.as_str().is_empty(),
            (Segment::Param(_), Segment::Param(_)) => true,
        };
        if !ok {
            proof {
                assert(!seg_unifiable(p.deep_view()[i as int], q.deep_view()[i as int]));
            }
            return false;
        }
        i = i + 1;
    }
    proof {
        assert(unifiable(p.deep_view(), q.deep_view()));
    }
    true
}

/// A segment list that two unifiable patterns both accept.
pub open spec fn unify_witness(p: Seq<SegShape>, q: Seq<SegShape>) -> Seq<Seq<char>> {
    Seq::new(
        p.len(),
        |i: int|
            match (p[i], q[i]) {
                (SegShape::Lit(a), _) => a,
                (SegShape::Param(_), SegShape::Lit(b)) => b,
                (SegShape::Param(_), SegShape::Param(_)) => seq!['x'],
            },
    )
}

/// Two patterns that accept a common concrete segment list are unifiable:
/// a router that rejects unifiable pairs can never hold two routes that
/// both accept one path.
pub proof fn lemma_common_path_unifiable(p: Seq<SegShape>, q: Seq<SegShape>, segs: Seq<Seq<char>>)
    requires
        pat_matches(p, segs),
        pat_matches(q, segs),
    ensures
        unifiable(p, q),
{
    assert forall|i: int| 0 <= i < p.len() implies seg_unifiable(p[i], q[i]) by {
        assert(seg_matches(p[i], segs[i]));
        assert(seg_matches(q[i], segs[i]));
    }
}

/// Conversely, two unifiable patterns do accept a common concrete segment
/// list, so rejecting unifiable pairs rejects exactly the ambiguous ones.
pub proof fn lemma_unifiable_common_path(p: Seq<SegShape>, q: Seq<SegShape>)
    requires
        unifiable(p, q),
    ensures
        pat_matches(p, unify_witness(p, q)),
        pat_matches(q, unify_witness(p, q)),
{
    let w = unify_witness(p, q);
    assert forall|i: int| 0 <= i < p.len() implies seg_matches(p[i], w[i]) && seg_matches(
        q[i],
        w[i],
    ) by {
        assert(seg_unifiable(p[i], q[i]));
    }
}

} // verus!
