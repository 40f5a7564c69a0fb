//! Request targets: absolute URLs held as their serialization, the two calls
//! into the URL parser, and the query component read and rewritten as text.

use vstd::prelude::*;
use crate::form::{form_pairs, merged, parse_form, merge};

verus! {

/// The serialization of `s` parsed as an absolute URL, if it parses.
pub uninterp spec fn url_parsed(s: Seq<char>) -> Option<Seq<char>>;

/// The serialization of `reference` resolved against `base`, if both parse.
pub uninterp spec fn url_joined(base: Seq<char>, reference: Seq<char>) -> Option<Seq<char>>;

/// Relies on `url::Url::parse`: the parsed URL's serialization, or the
/// parser's error.
#[verifier::external_body]
pub(crate) fn parse_url(s: &str) -> (r: Result<String, url::ParseError>)
    ensures
        r is Ok <==> url_parsed(s@) is Some,
        r is Ok ==> url_parsed(s@) == Some(r->Ok_0@),
{
    url::Url::parse(s).map(String::from)
}

/// Relies on `url::Url::parse` for the base and `url::Url::join` for the
/// reference: the resolved URL's serialization, or the parser's error.
#[verifier::external_body]
pub(crate) fn join_url(base: &str, reference: &str) -> (r: Result<String, url::ParseError>)
    ensures
        r is Ok <==> url_joined(base@, reference@) is Some,
        r is Ok ==> url_joined(base@, reference@) == Some(r->Ok_0@),
{
    url::Url::parse(base).and_then(|b| b.join(reference)).map(String::from)
}

/// Index of the first `c` in `s`, or `s.len()` where there is none.
pub open spec fn first_at(s: Seq<char>, c: char) -> nat
    decreases s.len(),
{
    if s.len() == 0 {
        0
    } else if s[0] == c {
        0
    } else {
        1 + first_at(s.drop_first(), c)
    }
}

/// Where the fragment starts (at its `#`), or the length of `u`.
pub open spec fn fragment_at(u: Seq<char>) -> nat {
    first_at(u, '#')
}

/// Where the query starts (at its `?`), or `fragment_at(u)` where there is none.
pub open spec fn query_at(u: Seq<char>) -> nat {
    first_at(u.take(fragment_at(u) as int), '?')
}

/// The query component of `u`: the text between the first `?` and the
/// fragment.
pub open spec fn query_of(u: Seq<char>) -> Option<Seq<char>> {
    if query_at(u) < fragment_at(u) {
        Some(u.subrange(query_at(u) as int + 1, fragment_at(u) as int))
    } else {
        None
    }
}

/// `u` with its query component, `?` included, taken out.
pub open spec fn without_query(u: Seq<char>) -> Seq<char> {
    u.take(query_at(u) as int) + u.skip(fragment_at(u) as int)
}

/// `u` with its query component set to `q`, before any fragment.
pub open spec fn with_query(u: Seq<char>, q: Seq<char>) -> Seq<char> {
    u.take(query_at(u) as int) + seq!['?'] + q + u.skip(fragment_at(u) as int)
}

/// The pairs already encoded in the query of `u`.
pub open spec fn query_pairs(u: Seq<char>) -> Seq<(Seq<char>, Seq<char>)> {
    match query_of(u) {
        Some(q) => form_pairs(q),
        None => Seq::empty(),
    }
}

/// Path segments joined by single `/` separators.
pub open spec fn joined_path(segments: Seq<Seq<char>>) -> Seq<char>
    decreases segments.len(),
{
    if segments.len() == 0 {
        Seq::empty()
    } else if segments.len() == 1 {
        segments[0]
    } else {
        joined_path(segments.drop_last()) + seq!['/'] + segments.last()
    }
}

/// The text of each path segment.
pub open spec fn segments_view(path: Seq<&str>) -> Seq<Seq<char>> {
    path.map_values(|s: &str| s@)
}

proof fn lemma_first_at(s: Seq<char>, c: char, i: int)
    requires
        0 <= i <= s.len(),
        forall|j: int| 0 <= j < i ==> s[j] != c,
        i == s.len() || s[i] == c,
    ensures
        first_at(s, c) == i,
    decreases i,
{
    if i > 0 {
        lemma_first_at(s.drop_first(), c, i - 1);
    }
}

pub(crate) proof fn lemma_first_at_bound(s: Seq<char>, c: char)
    ensures
        first_at(s, c) <= s.len(),
        first_at(s, c) < s.len() ==> s[first_at(s, c) as int] == c,
        forall|j: int| 0 <= j < first_at(s, c) ==> s[j] != c,
    decreases s.len(),
{
    if s.len() > 0 && s[0] != c {
        lemma_first_at_bound(s.drop_first(), c);
        assert forall|j: int| 0 <= j < first_at(s, c) implies s[j] != c by {
            if j > 0 {
                assert(s[j] == s.drop_first()[j - 1]);
            }
        }
    }
}

/// A URL with its query taken out has no query.
pub proof fn lemma_without_query_has_none(u: Seq<char>)
    ensures
        query_of(without_query(u)) is None,
{
    let f = fragment_at(u) as int;
    lemma_first_at_bound(u, '#');
    let front = u.take(f);
    let q = query_at(u) as int;
    lemma_first_at_bound(front, '?');
    let w = without_query(u);
    assert(w.len() == q + u.len() - f);
    assert forall|j: int| 0 <= j < q implies w[j] != '#' && w[j] != '?' by {
        assert(w[j] == u[j]);
        assert(front[j] == u[j]);
    }
    if f < u.len() {
        assert(w[q] == u[f]);
    }
    lemma_first_at(w, '#', q);
    assert(w.take(q) =~= front.take(q));
    lemma_first_at(w.take(q), '?', q);
}

/// Index of the first `c` in `s` before `end`, or `end`.
pub(crate) fn find_char(s: &str, c: char, end: usize) -> (r: usize)
    requires
        end <= s@.len(),
    ensures
        r == first_at(s@.take(end as int), c),
{
    let mut i: usize = 0;
    while i < end
        invariant
            i <= end <= s@.len(),
            forall|j: int| 0 <= j < i ==> s@[j] != c,
        ensures
            i <= end,
            forall|j: int| 0 <= j < i ==> s@[j] != c,
            i == end || s@[i as int] == c,
        decreases end - i,
    {
        if s.get_char(i) == c {
            break;
        }
        i = i + 1;
    }
    proof {
        lemma_first_at(s@.take(end as int), c, i as int);
    }
    i
}

/// Where the query and the fragment of `u` start.
fn query_bounds(u: &str) -> (r: (usize, usize))
    ensures
        r.0 == query_at(u@),
        r.1 == fragment_at(u@),
        r.0 <= r.1 <= u@.len(),
{
    let n = u.unicode_len();
    let h = find_char(u, '#', n);
    assert(u@.take(n as int) =~= u@);
    proof {
        lemma_first_at_bound(u@, '#');
    }
    let q = find_char(u, '?', h);
    proof {
        lemma_first_at_bound(u@.take(h as int), '?');
    }
    (q, h)
}

/// The query component of `u`, if it has one.
pub fn query_text(u: &str) -> (r: Option<String>)
    ensures
        query_of(u@) is Some <==> r is Some,
        r is Some ==> query_of(u@) == Some(r->Some_0@),
{
    let (q, h) = query_bounds(u);
    if q < h {
        Some(String::from_str(u.substring_char(q + 1, h)))
    } else {
        None
    }
}

/// `u` without its query component.
pub fn strip_query(u: &str) -> (r: String)
    ensures
        r@ == without_query(u@),
{
    let (q, h) = query_bounds(u);
    let n = u.unicode_len();
    let mut r = String::from_str(u.substring_char(0, q));
    r.append(u.substring_char(h, n));
    assert(r@ =~= without_query(u@));
    r
}

/// `u` with its query component set to `query`.
pub fn replace_query(u: &str, query: &str) -> (r: String)
    ensures
        r@ == with_query(u@, query@),
{
    let (q, h) = query_bounds(u);
    let n = u.unicode_len();
    let mut r = String::from_str(u.substring_char(0, q));
    r.append("?");
    r.append(query);
    r.append(u.substring_char(h, n));
    proof {
        reveal_strlit("?");
    }
    assert(r@ =~= with_query(u@, query@));
    r
}

/// The segments of `path` joined by `/`, the reference that a request's
/// target is resolved from.
pub fn join_segments(path: &[&str]) -> (r: String)
    ensures
        r@ == joined_path(segments_view(path@)),
{
    let mut r = String::new();
    let mut i: usize = 0;
    while i < path.len()
        invariant
            i <= path@.len(),
            r@ == joined_path(segments_view(path@).take(i as int)),
        decreases path@.len() - i,
    {
        let ghost segs = segments_view(path@);
        proof {
            reveal_strlit("/");
        }
        assert(segs.take(i + 1).drop_last() =~= segs.take(i as int));
        assert(segs.take(i + 1).last() == path@[i as int]@);
        if i > 0 {
            r.append("/");
        } else {
            assert(r@ =~= Seq::<char>::empty());
        }
        r.append(path[i]);
        i = i + 1;
        assert(r@ =~= joined_path(segs.take(i as int)));
    }
    assert(segments_view(path@).take(i as int) =~= segments_view(path@));
    r
}

/// The pairs already in the query of `u` followed by `params`.
pub fn updated_parameters(u: &str, params: &Vec<(String, String)>) -> (r: Vec<(String, String)>)
    ensures
        r.deep_view() == merged(query_pairs(u@), params.deep_view()),
{
    let existing = match query_text(u) {
        Some(q) => parse_form(q.as_str()),
        None => Vec::new(),
    };
    assert(existing.deep_view() =~= query_pairs(u@));
    merge(existing, params)
}

} // verus!
