//! Route templates such as `/:version/search/:query` and their matching
//! against request paths, segment by segment.

use vstd::prelude::*;
use vstd::string::*;

use crate::http::ParamMap;
use crate::text::same_text;

verus! {

/// The pieces of `s` between the occurrences of `sep`, as `str::split` gives them.
pub open spec fn split(s: Seq<char>, sep: char) -> Seq<Seq<char>>
    decreases s.len(),
{
    if s.len() == 0 {
        seq![Seq::empty()]
    } else {
        let prev = split(s.drop_last(), sep);
        if s.last() == sep {
            prev.push(Seq::empty())
        } else {
            prev.update(prev.len() - 1, prev.last().push(s.last()))
        }
    }
}

/// The index of the first `c` in `s`, or the length of `s` when there is none.
pub open spec fn find(s: Seq<char>, c: char) -> nat
    decreases s.len(),
{
    if s.len() == 0 {
        0
    } else if s[0] == c {
        0
    } else {
        1 + find(s.drop_first(), c)
    }
}

/// Nothing before `find(s, c)` is `c`, and `c` stands there when it is in `s`.
pub proof fn lemma_find(s: Seq<char>, c: char)
    ensures
        find(s, c) <= s.len(),
        forall|i: int| 0 <= i < find(s, c) ==> s[i] != c,
        find(s, c) < s.len() ==> s[find(s, c) as int] == c,
    decreases s.len(),
{
    if s.len() > 0 && s[0] != c {
        lemma_find(s.drop_first(), c);
        assert forall|i: int| 0 <= i < find(s, c) implies s[i] != c by {
            if i > 0 {
                assert(s[i] == s.drop_first()[i - 1]);
            }
        }
    }
}

/// The index of the first `c` in `s`, or its length when there is none.
pub fn find_char(s: &str, c: char) -> (r: usize)
    ensures
        r == find(s@, c),
{
    let n = s.unicode_len();
    let mut i: usize = 0;
    proof {
        assert(s@.skip(0) =~= s@);
    }
    while i < n
        invariant
            n == s@.len(),
            i <= n,
            find(s@, c) == i + find(s@.skip(i as int), c),
        decreases n - i,
    {
        proof {
            assert(s@.skip(i as int)[0] == s@[i as int]);
            assert(s@.skip(i as int).drop_first() =~= s@.skip(i + 1));
        }
        if s.get_char(i) == c {
            return i;
        }
        i = i + 1;
    }
    i
}

/// The views of some strings.
pub open spec fn views(v: Seq<String>) -> Seq<Seq<char>> {
    v.map_values(|x: String| x@)
}

/// The pieces of `s` between the occurrences of `sep`.
pub fn split_on(s: &str, sep: char) -> (r: Vec<String>)
    ensures
        views(r@) == split(s@, sep),
{
    let n = s.unicode_len();
    let mut parts: Vec<String> = Vec::new();
    let mut start: usize = 0;
    let mut i: usize = 0;
    proof {
        assert(views(parts@) =~= Seq::<Seq<char>>::empty());
        assert(s@.subrange(0, 0) =~= Seq::<char>::empty());
        assert(views(parts@) + seq![s@.subrange(0, 0)] =~= split(s@.subrange(0, 0), sep));
    }
    while i < n
        invariant
            n == s@.len(),
            start <= i <= n,
            views(parts@) + seq![s@.subrange(start as int, i as int)] == split(
                s@.subrange(0, i as int),
                sep,
            ),
        decreases n - i,
    {
        let c = s.get_char(i);
        proof {
            let t = s@.subrange(0, i + 1);
            assert(t.drop_last() =~= s@.subrange(0, i as int));
            assert(t.last() == c);
        }
        if c == sep {
            let ghost old_parts = parts@;
            parts.push(s.substring_char(start, i).to_owned());
            proof {
                assert(views(parts@) =~= views(old_parts).push(s@.subrange(start as int, i as int)));
                assert(s@.subrange(i + 1, i + 1) =~= Seq::<char>::empty());
                assert(views(parts@) + seq![s@.subrange(i + 1, i + 1)] =~= split(
                    s@.subrange(0, i + 1),
                    sep,
                ));
            }
            start = i + 1;
        } else {
            proof {
                assert(s@.subrange(start as int, i + 1) =~= s@.subrange(start as int, i as int).push(
                    c,
                ));
                assert(views(parts@) + seq![s@.subrange(start as int, i + 1)] =~= split(
                    s@.subrange(0, i + 1),
                    sep,
                ));
            }
        }
        i = i + 1;
    }
    let ghost old_parts = parts@;
    parts.push(s.substring_char(start, n).to_owned());
    proof {
        assert(s@.subrange(0, n as int) =~= s@);
        assert(views(parts@) =~= views(old_parts) + seq![s@.subrange(start as int, n as int)]);
    }
    parts
}

/// One segment of a template, as the matcher sees it.
pub enum SegmentView {
    Literal(Seq<char>),
    Capture(Seq<char>),
}

/// One segment of a template: text that must be there, or a named capture.
#[derive(Clone, Debug)]
pub enum Segment {
    Literal(String),
    Capture(String),
}

impl View for Segment {
    type V = SegmentView;

    open spec fn view(&self) -> SegmentView {
        match self {
            Segment::Literal(s) => SegmentView::Literal(s@),
            Segment::Capture(s) => SegmentView::Capture(s@),
        }
    }
}

/// The segment that a piece of a template text stands for: `:name` captures.
pub open spec fn segment_of(piece: Seq<char>) -> SegmentView {
    if piece.len() > 0 && piece[0] == ':' {
        SegmentView::Capture(piece.drop_first())
    } else {
        SegmentView::Literal(piece)
    }
}

/// No two captures share a name.
pub open spec fn names_unique(segs: Seq<SegmentView>) -> bool {
    forall|i: int, j: int|
        0 <= i < j < segs.len() ==> !(#[trigger] segs[i] matches SegmentView::Capture(a) && #[trigger] segs[j] matches SegmentView::Capture(b) && a == b)
}

/// A compiled route template. Its captures have distinct names.
#[derive(Clone, Debug)]
pub struct PathTemplate {
    pub segments: Vec<Segment>,
}

impl View for PathTemplate {
    type V = Seq<SegmentView>;

    open spec fn view(&self) -> Seq<SegmentView> {
        self.segments@.map_values(|s: Segment| s@)
    }
}

/// Whether a segment accepts a piece of a path: a literal the same text, a
/// capture any text but the empty one.
pub open spec fn segment_accepts(seg: SegmentView, piece: Seq<char>) -> bool {
    match seg {
        SegmentView::Literal(l) => l == piece,
        SegmentView::Capture(_) => piece.len() > 0,
    }
}

/// Whether the template accepts the pieces of a path: as many segments as
/// pieces, each accepting its own.
pub open spec fn accepts(segs: Seq<SegmentView>, pieces: Seq<Seq<char>>) -> bool {
    &&& segs.len() == pieces.len()
    &&& forall|i: int| 0 <= i < segs.len() ==> segment_accepts(#[trigger] segs[i], pieces[i])
}

/// What the captures of the template bind, in order.
pub open spec fn bindings(segs: Seq<SegmentView>, pieces: Seq<Seq<char>>) -> Seq<(Seq<char>, Seq<char>)>
    decreases segs.len(),
{
    if segs.len() == 0 {
        Seq::empty()
    } else {
        let prev = bindings(segs.drop_last(), pieces);
        match segs.last() {
            SegmentView::Capture(name) => prev.push((name, pieces[segs.len() - 1])),
            SegmentView::Literal(_) => prev,
        }
    }
}

/// The part of a request target before `?`.
pub open spec fn path_part(target: Seq<char>) -> Seq<char> {
    target.take(find(target, '?') as int)
}

/// The part of a request target after the first `?`, empty when there is none.
pub open spec fn query_part(target: Seq<char>) -> Seq<char> {
    if find(target, '?') < target.len() {
        target.skip(find(target, '?') as int + 1)
    } else {
        Seq::empty()
    }
}

/// A `key=value` piece of a query as a binding; without `=` the value is empty.
pub open spec fn query_pair(piece: Seq<char>) -> (Seq<char>, Seq<char>) {
    let k = find(piece, '=');
    if k < piece.len() {
        (piece.take(k as int), piece.skip(k as int + 1))
    } else {
        (piece, Seq::empty())
    }
}

/// The bindings of a query string: one for each non-empty piece between `&`.
pub open spec fn query_bindings(pieces: Seq<Seq<char>>) -> Seq<(Seq<char>, Seq<char>)>
    decreases pieces.len(),
{
    if pieces.len() == 0 {
        Seq::empty()
    } else {
        let prev = query_bindings(pieces.drop_last());
        if pieces.last().len() == 0 {
            prev
        } else {
            prev.push(query_pair(pieces.last()))
        }
    }
}

/// Whether a request target reaches the template.
pub open spec fn target_accepted(segs: Seq<SegmentView>, target: Seq<char>) -> bool {
    accepts(segs, split(path_part(target), '/'))
}

/// The parameters of a target that reaches the template: the captures, then
/// the query's bindings.
pub open spec fn target_params(segs: Seq<SegmentView>, target: Seq<char>) -> Seq<(Seq<char>, Seq<char>)> {
    bindings(segs, split(path_part(target), '/')) + query_bindings(split(query_part(target), '&'))
}

} // verus!

verus! {

/// The segments that a template text stands for.
pub open spec fn template_segments(template: Seq<char>) -> Seq<SegmentView> {
    split(template, '/').map_values(|p: Seq<char>| segment_of(p))
}

fn segment_from(piece: &String) -> (r: Segment)
    ensures
        r@ == segment_of(piece@),
{
    let n = piece.as_str().unicode_len();
    if n > 0 && piece.as_str().get_char(0) == ':' {
        let name = piece.as_str().substring_char(1, n).to_owned();
        proof {
            assert(name@ =~= piece@.drop_first());
        }
        Segment::Capture(name)
    } else {
        Segment::Literal(piece.clone())
    }
}

fn capture_name(seg: &Segment) -> (r: Option<&String>)
    ensures
        r matches Some(n) ==> seg@ == SegmentView::Capture(n@),
        r is None ==> seg@ is Literal,
{
    match seg {
        Segment::Capture(n) => Some(n),
        Segment::Literal(_) => None,
    }
}

/// Whether no two captures of `segs` share a name.
fn captures_unique(segs: &Vec<Segment>) -> (r: bool)
    ensures
        r == names_unique(segs@.map_values(|s: Segment| s@)),
{
    let ghost v = segs@.map_values(|s: Segment| s@);
    let n = segs.len();
    let mut i: usize = 0;
    while i < n
        invariant
            n == segs@.len(),
            v == segs@.map_values(|s: Segment| s@),
            i <= n,
            forall|a: int, b: int|
                0 <= a < i && a < b < n ==> !(#[trigger] v[a] matches SegmentView::Capture(x)
                    && #[trigger] v[b] matches SegmentView::Capture(y) && x == y),
        decreases n - i,
    {
        if let Some(a) = capture_name(&segs[i]) {
            let mut j: usize = i + 1;
            while j < n
                invariant
                    n == segs@.len(),
                    v == segs@.map_values(|s: Segment| s@),
                    i < j <= n,
                    v[i as int] == SegmentView::Capture(a@),
                    forall|a: int, b: int|
                        0 <= a < i && a < b < n ==> !(#[trigger] v[a] matches SegmentView::Capture(x)
                            && #[trigger] v[b] matches SegmentView::Capture(y) && x == y),
                    forall|b: int|
                        i < b < j ==> !(#[trigger] v[b] matches SegmentView::Capture(y) && y == a@),
                decreases n - j,
            {
                if let Some(b) = capture_name(&segs[j]) {
                    if same_text(a.as_str(), b.as_str()) {
                        proof {
                            assert(v[j as int] == SegmentView::Capture(b@));
                            assert(!names_unique(v));
                        }
                        return false;
                    }
                }
                j = j + 1;
            }
        }
        i = i + 1;
    }
    true
}

impl PathTemplate {
    /// Compiles a template text such as `/:version/search/:query`: the
    /// pieces between `/` are its segments, and one that starts with `:`
    /// captures under the name that follows. None when two captures share
    /// a name.
    pub fn compile(template: &str) -> (r: Option<PathTemplate>)
        ensures
            names_unique(template_segments(template@)) ==> (r matches Some(t) && t@
                == template_segments(template@)),
            !names_unique(template_segments(template@)) ==> r is None,
    {
        let pieces = split_on(template, '/');
        let ghost pv = split(template@, '/');
        let mut segments: Vec<Segment> = Vec::new();
        let mut i: usize = 0;
        while i < pieces.len()
            invariant
                views(pieces@) == pv,
                pv == split(template@, '/'),
                i <= pieces@.len(),
                segments@.map_values(|s: Segment| s@) == pv.take(i as int).map_values(
                    |p: Seq<char>| segment_of(p),
                ),
            decreases pieces@.len() - i,
        {
            let ghost before = segments@.map_values(|s: Segment| s@);
            let seg = segment_from(&pieces[i]);
            let ghost sv = seg@;
            segments.push(seg);
            proof {
                assert(pieces@[i as int]@ == pv[i as int]);
                assert(sv == segment_of(pv[i as int]));
                assert(segments@.map_values(|s: Segment| s@) =~= before.push(sv));
                assert(pv.take(i + 1) =~= pv.take(i as int).push(pv[i as int]));
                assert(pv.take(i + 1).map_values(|p: Seq<char>| segment_of(p)) =~= pv.take(
                    i as int,
                ).map_values(|p: Seq<char>| segment_of(p)).push(sv));
                assert(segments@.map_values(|s: Segment| s@) =~= pv.take(i + 1).map_values(
                    |p: Seq<char>| segment_of(p),
                ));
            }
            i = i + 1;
        }
        proof {
            assert(pv.take(i as int) =~= pv);
        }
        if captures_unique(&segments) {
            Some(PathTemplate { segments })
        } else {
            None
        }
    }

    /// Matches a request target (a path, then optionally `?` and a query)
    /// against the template. The path must have as many `/`-separated
    /// pieces as the template has segments, each accepted by its segment.
    /// The parameters are what the captures bound, then the query's
    /// `key=value` pairs.
    pub fn match_target(&self, target: &str) -> (r: Option<ParamMap>)
        ensures
            target_accepted(self@, target@) ==> (r matches Some(m) && m@ == target_params(
                self@,
                target@,
            )),
            !target_accepted(self@, target@) ==> r is None,
    {
        let ghost segs = self@;
        let n = target.unicode_len();
        let q = find_char(target, '?');
        proof {
            lemma_find(target@, '?');
        }
        let path = target.substring_char(0, q);
        proof {
            assert(path@ =~= path_part(target@));
        }
        let pieces = split_on(path, '/');
        let ghost pv = split(path@, '/');
        if pieces.len() != self.segments.len() {
            return None;
        }
        let mut params = ParamMap::new();
        let mut i: usize = 0;
        while i < pieces.len()
            invariant
                segs == self@,
                views(pieces@) == pv,
                pv == split(path_part(target@), '/'),
                pv.len() == segs.len(),
                i <= segs.len(),
                forall|k: int| 0 <= k < i ==> segment_accepts(#[trigger] segs[k], pv[k]),
                params@ == bindings(segs.take(i as int), pv),
            decreases segs.len() - i,
        {
            proof {
                assert(pieces@[i as int]@ == pv[i as int]);
                assert(segs.take(i + 1).drop_last() =~= segs.take(i as int));
            }
            match &self.segments[i] {
                Segment::Literal(l) => {
                    if !same_text(l.as_str(), pieces[i].as_str()) {
                        proof {
                            assert(!segment_accepts(segs[i as int], pv[i as int]));
                            assert(pv == split(path_part(target@), '/'));
                            assert(!target_accepted(self@, target@));
                        }
                        return None;
                    }
                },
                Segment::Capture(name) => {
                    if pieces[i].as_str().unicode_len() == 0 {
                        proof {
                            assert(!segment_accepts(segs[i as int], pv[i as int]));
                            assert(pv == split(path_part(target@), '/'));
                            assert(!target_accepted(self@, target@));
                        }
                        return None;
                    }
                    params.insert(name.clone(), pieces[i].clone());
                },
            }
            i = i + 1;
        }
        proof {
            assert(segs.take(i as int) =~= segs);
        }
        let ghost captured = params@;
        if q < n {
            let query = target.substring_char(q + 1, n);
            let qp = split_on(query, '&');
            let ghost qv = split(query@, '&');
            let mut j: usize = 0;
            while j < qp.len()
                invariant
                    views(qp@) == qv,
                    j <= qv.len(),
                    params@ == captured + query_bindings(qv.take(j as int)),
                decreases qv.len() - j,
            {
                let piece = qp[j].as_str();
                proof {
                    assert(qp@[j as int]@ == qv[j as int]);
                    assert(qv.take(j + 1).drop_last() =~= qv.take(j as int));
                }
                let len = piece.unicode_len();
                if len > 0 {
                    let k = find_char(piece, '=');
                    proof {
                        lemma_find(piece@, '=');
                    }
                    if k < len {
                        params.insert(
                            piece.substring_char(0, k).to_owned(),
                            piece.substring_char(k + 1, len).to_owned(),
                        );
                    } else {
                        params.insert(piece.to_owned(), String::new());
                    }
                }
                proof {
                    assert(params@ =~= captured + query_bindings(qv.take(j + 1)));
                }
                j = j + 1;
            }
            proof {
                assert(qv.take(j as int) =~= qv);
                assert(query@ =~= query_part(target@));
            }
            Some(params)
        } else {
            proof {
                assert(query_part(target@) =~= Seq::<char>::empty());
                let ghost e = Seq::<char>::empty();
                let ghost s1 = seq![e];
                assert(s1.drop_last() =~= Seq::<Seq<char>>::empty());
                assert(query_bindings(Seq::<Seq<char>>::empty()) == Seq::<(Seq<char>, Seq<char>)>::empty());
                assert(s1.last() == e);
                assert(query_bindings(s1) =~= Seq::<(Seq<char>, Seq<char>)>::empty());
                assert(split(query_part(target@), '&') == s1);
                assert(params@ =~= target_params(segs, target@));
            }
            Some(params)
        }
    }
}

} // verus!

verus! {

proof fn lemma_bindings_prefix(segs: Seq<SegmentView>, pieces: Seq<Seq<char>>, v: Seq<char>)
    requires
        segs.len() <= pieces.len(),
    ensures
        bindings(segs, pieces.push(v)) == bindings(segs, pieces),
    decreases segs.len(),
{
    if segs.len() > 0 {
        lemma_bindings_prefix(segs.drop_last(), pieces, v);
        assert(pieces.push(v)[segs.len() - 1] == pieces[segs.len() - 1]);
    }
}

/// A template and the same template with one more capture never accept the
/// same target: their segment counts differ.
pub proof fn law_collection_item_disjoint(base: Seq<SegmentView>, name: Seq<char>, target: Seq<char>)
    ensures
        !(target_accepted(base, target) && target_accepted(
            base.push(SegmentView::Capture(name)),
            target,
        )),
{
}

/// Where a template accepts the pieces of a path, the template with one
/// more capture accepts those pieces and one more non-empty piece, and binds
/// that piece to the capture's name after the template's own bindings.
pub proof fn law_item_extends_collection(
    base: Seq<SegmentView>,
    name: Seq<char>,
    pieces: Seq<Seq<char>>,
    v: Seq<char>,
)
    requires
        accepts(base, pieces),
        v.len() > 0,
    ensures
        accepts(base.push(SegmentView::Capture(name)), pieces.push(v)),
        bindings(base.push(SegmentView::Capture(name)), pieces.push(v)) == bindings(
            base,
            pieces,
        ).push((name, v)),
{
    let item = base.push(SegmentView::Capture(name));
    let longer = pieces.push(v);
    assert forall|i: int| 0 <= i < item.len() implies segment_accepts(
        #[trigger] item[i],
        longer[i],
    ) by {
        if i < base.len() {
            assert(item[i] == base[i]);
            assert(longer[i] == pieces[i]);
        }
    }
    assert(item.drop_last() =~= base);
    lemma_bindings_prefix(base, pieces, v);
}

} // verus!
