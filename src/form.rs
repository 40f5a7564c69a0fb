//! Form-encoded parameter lists: merging, and the two calls into the
//! `application/x-www-form-urlencoded` codec.

use vstd::prelude::*;

verus! {

/// The name/value pairs that the form-urlencoded parser reads from `q`.
pub uninterp spec fn form_pairs(q: Seq<char>) -> Seq<(Seq<char>, Seq<char>)>;

/// The form-urlencoded serialization of `pairs`.
pub uninterp spec fn form_encoded(pairs: Seq<(Seq<char>, Seq<char>)>) -> Seq<char>;

/// Relies on `url::form_urlencoded::parse`: the percent-decoded pairs of `q`,
/// in order; an empty input holds none.
#[verifier::external_body]
pub(crate) fn parse_form(q: &str) -> (r: Vec<(String, String)>)
    ensures
        r.deep_view() == form_pairs(q@),
        q@.len() == 0 ==> r@.len() == 0,
{
    url::form_urlencoded::parse(q.as_bytes()).into_owned().collect()
}

/// Relies on `url::form_urlencoded::Serializer::extend_pairs`: the pairs
/// percent-encoded and joined by `&`; no pairs give the empty string, and
/// `url::form_urlencoded::parse` reads the pairs back unchanged (a space is
/// written `+`, every other byte outside `[A-Za-z0-9*-._]` percent-encoded).
#[verifier::external_body]
pub(crate) fn encode_form(pairs: &Vec<(String, String)>) -> (r: String)
    ensures
        r@ == form_encoded(pairs.deep_view()),
        pairs@.len() == 0 ==> r@.len() == 0,
        form_pairs(r@) == pairs.deep_view(),
{
    url::form_urlencoded::Serializer::new(String::new()).extend_pairs(pairs.iter()).finish()
}

/// Existing pairs first, incoming ones after, nothing collapsed.
pub open spec fn merged(
    existing: Seq<(Seq<char>, Seq<char>)>,
    incoming: Seq<(Seq<char>, Seq<char>)>,
) -> Seq<(Seq<char>, Seq<char>)> {
    existing + incoming
}

/// Appends copies of `incoming` to `existing`; duplicate names are kept.
pub fn merge(existing: Vec<(String, String)>, incoming: &Vec<(String, String)>) -> (r: Vec<(String, String)>)
    ensures
        r.deep_view() == merged(existing.deep_view(), incoming.deep_view()),
{
    let mut r = existing;
    let mut i: usize = 0;
    while i < incoming.len()
        invariant
            i <= incoming@.len(),
            r.deep_view() == merged(existing.deep_view(), incoming.deep_view().take(i as int)),
        decreases incoming@.len() - i,
    {
        let name = incoming[i].0.clone();
        let value = incoming[i].1.clone();
        let ghost before = r@;
        r.push((name, value));
        proof {
            assert(r@ == before.push((name, value)));
            assert(r.deep_view() =~= before.map_values(|p: (String, String)| p.deep_view()).push(
                incoming.deep_view()[i as int],
            ));
            assert(incoming.deep_view().take(i + 1) =~= incoming.deep_view().take(i as int).push(
                incoming.deep_view()[i as int],
            ));
            assert(merged(existing.deep_view(), incoming.deep_view().take(i + 1)) =~= merged(
                existing.deep_view(),
                incoming.deep_view().take(i as int),
            ).push(incoming.deep_view()[i as int]));
        }
        i = i + 1;
    }
    assert(incoming.deep_view().take(i as int) =~= incoming.deep_view());
    r
}

/// Merging `a` and then `b` equals merging `a` followed by `b` in one call.
pub proof fn lemma_merge_in_two_steps(
    existing: Seq<(Seq<char>, Seq<char>)>,
    a: Seq<(Seq<char>, Seq<char>)>,
    b: Seq<(Seq<char>, Seq<char>)>,
)
    ensures
        merged(merged(existing, a), b) == merged(existing, a + b),
{
    assert(merged(merged(existing, a), b) =~= merged(existing, a + b));
}

} // verus!
