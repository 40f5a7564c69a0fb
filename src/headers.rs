//! Header lists: an ordered multimap of names to values, whose names compare
//! without regard to ASCII case.

use vstd::prelude::*;

verus! {

/// The code of `c` with ASCII upper case letters taken to lower case.
pub open spec fn folded(c: char) -> u32 {
    if 65 <= c as u32 <= 90 {
        (c as u32 + 32) as u32
    } else {
        c as u32
    }
}

/// `a` and `b` are equal but for ASCII case.
pub open spec fn same_name(a: Seq<char>, b: Seq<char>) -> bool {
    &&& a.len() == b.len()
    &&& forall|i: int| 0 <= i < a.len() ==> folded(a[i]) == folded(b[i])
}

/// `hs` without the entries named `name`, in order.
pub open spec fn without_header(hs: Seq<(Seq<char>, Seq<char>)>, name: Seq<char>) -> Seq<
    (Seq<char>, Seq<char>),
>
    decreases hs.len(),
{
    if hs.len() == 0 {
        hs
    } else if same_name(hs.last().0, name) {
        without_header(hs.drop_last(), name)
    } else {
        without_header(hs.drop_last(), name).push(hs.last())
    }
}

/// `hs` with every entry named `name` replaced by one entry at the end.
pub open spec fn with_header(hs: Seq<(Seq<char>, Seq<char>)>, name: Seq<char>, value: Seq<char>) -> Seq<
    (Seq<char>, Seq<char>),
> {
    without_header(hs, name).push((name, value))
}

/// The value of the first entry of `hs` named `name`.
pub open spec fn first_header(hs: Seq<(Seq<char>, Seq<char>)>, name: Seq<char>) -> Option<Seq<char>>
    decreases hs.len(),
{
    if hs.len() == 0 {
        None
    } else {
        match first_header(hs.drop_last(), name) {
            Some(v) => Some(v),
            None => if same_name(hs.last().0, name) {
                Some(hs.last().1)
            } else {
                None
            },
        }
    }
}

proof fn lemma_without_header_has_none(hs: Seq<(Seq<char>, Seq<char>)>, name: Seq<char>)
    ensures
        first_header(without_header(hs, name), name) is None,
    decreases hs.len(),
{
    if hs.len() > 0 {
        lemma_without_header_has_none(hs.drop_last(), name);
        let rest = without_header(hs.drop_last(), name);
        if !same_name(hs.last().0, name) {
            assert(rest.push(hs.last()).drop_last() =~= rest);
        }
    }
}

/// Once header `name` is set to `value`, looking `name` up gives `value`.
pub proof fn lemma_with_header_lookup(hs: Seq<(Seq<char>, Seq<char>)>, name: Seq<char>, value: Seq<char>)
    ensures
        first_header(with_header(hs, name, value), name) == Some(value),
{
    lemma_without_header_has_none(hs, name);
    let rest = without_header(hs, name);
    assert(rest.push((name, value)).drop_last() =~= rest);
}

fn fold_char(c: char) -> (r: u32)
    ensures
        r == folded(c),
{
    let n = c as u32;
    if 65 <= n && n <= 90 {
        n + 32
    } else {
        n
    }
}

/// Whether `a` and `b` are equal but for ASCII case.
pub fn names_match(a: &str, b: &str) -> (r: bool)
    ensures
        r == same_name(a@, b@),
{
    let n = a.unicode_len();
    if n != b.unicode_len() {
        return false;
    }
    let mut i: usize = 0;
    while i < n
        invariant
            n == a@.len() == b@.len(),
            i <= n,
            forall|j: int| 0 <= j < i ==> folded(a@[j]) == folded(b@[j]),
        decreases n - i,
    {
        if fold_char(a.get_char(i)) != fold_char(b.get_char(i)) {
            return false;
        }
        i = i + 1;
    }
    true
}

/// Sets header `name` to `value`: earlier entries of that name go, the new
/// one comes last.
pub fn set_header(headers: &mut Vec<(String, String)>, name: &str, value: &str)
    ensures
        final(headers).deep_view() == with_header(old(headers).deep_view(), name@, value@),
{
    let mut kept: Vec<(String, String)> = Vec::new();
    let mut i: usize = 0;
    while i < headers.len()
        invariant
            i <= headers@.len(),
            kept.deep_view() == without_header(headers.deep_view().take(i as int), name@),
        decreases headers@.len() - i,
    {
        let ghost hs = headers.deep_view();
        assert(hs.take(i + 1).drop_last() =~= hs.take(i as int));
        assert(hs.take(i + 1).last() == hs[i as int]);
        if !names_match(headers[i].0.as_str(), name) {
            let entry = (headers[i].0.clone(), headers[i].1.clone());
            let ghost before = kept.deep_view();
            kept.push(entry);
            assert(kept.deep_view() =~= before.push(hs[i as int]));
        }
        i = i + 1;
    }
    assert(headers.deep_view().take(i as int) =~= headers.deep_view());
    let ghost before = kept.deep_view();
    kept.push((String::from_str(name), String::from_str(value)));
    assert(kept.deep_view() =~= before.push((name@, value@)));
    *headers = kept;
}

/// The value of the first header named `name`, if any.
pub fn get_header(headers: &Vec<(String, String)>, name: &str) -> (r: Option<String>)
    ensures
        r is Some <==> first_header(headers.deep_view(), name@) is Some,
        r is Some ==> first_header(headers.deep_view(), name@) == Some(r->Some_0@),
{
    let mut found: Option<String> = None;
    let mut i: usize = 0;
    while i < headers.len()
        invariant
            i <= headers@.len(),
            found is Some <==> first_header(headers.deep_view().take(i as int), name@) is Some,
            found is Some ==> first_header(headers.deep_view().take(i as int), name@) == Some(
                found->Some_0@,
            ),
        decreases headers@.len() - i,
    {
        let ghost hs = headers.deep_view();
        assert(hs.take(i + 1).drop_last() =~= hs.take(i as int));
        assert(hs.take(i + 1).last() == hs[i as int]);
        if found.is_none() && names_match(headers[i].0.as_str(), name) {
            found = Some(headers[i].1.clone());
        }
        i = i + 1;
    }
    assert(headers.deep_view().take(i as int) =~= headers.deep_view());
    found
}

} // verus!
