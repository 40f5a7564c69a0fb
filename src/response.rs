//! Responses: status, headers and the fully read body, and their decoding
//! into a JSON document after content-type negotiation.

use vstd::prelude::*;
use crate::error::Error;
use crate::headers::{first_header, get_header, names_match, same_name};
use crate::target::{find_char, first_at, lemma_first_at_bound};

verus! {

#[verifier::external_type_specification]
#[verifier::external_body]
pub struct ExValue(serde_json::Value);

/// Whether the JSON parser accepts `bytes` as one document.
pub uninterp spec fn json_accepts(bytes: Seq<u8>) -> bool;

/// The document that the JSON parser reads from `bytes`.
pub uninterp spec fn json_document(bytes: Seq<u8>) -> serde_json::Value;

/// Relies on `serde_json::from_slice` into `serde_json::Value`: the document,
/// or the parser's message where `bytes` is not one.
#[verifier::external_body]
fn parse_json(bytes: &[u8]) -> (r: Result<serde_json::Value, String>)
    ensures
        r is Ok <==> json_accepts(bytes@),
        r is Ok ==> r->Ok_0 == json_document(bytes@),
{
    serde_json::from_slice::<serde_json::Value>(bytes).map_err(|e| e.to_string())
}

pub open spec fn is_blank(c: char) -> bool {
    c == ' ' || c == '\t'
}

/// `s` without its leading blanks.
pub open spec fn trim_start(s: Seq<char>) -> Seq<char>
    decreases s.len(),
{
    if s.len() > 0 && is_blank(s[0]) {
        trim_start(s.drop_first())
    } else {
        s
    }
}

/// `s` without its trailing blanks.
pub open spec fn trim_end(s: Seq<char>) -> Seq<char>
    decreases s.len(),
{
    if s.len() > 0 && is_blank(s.last()) {
        trim_end(s.drop_last())
    } else {
        s
    }
}

/// The subtype of media type `v`: what stands between the first `/` and the
/// first `;`, without surrounding blanks; empty where there is no `/`.
pub open spec fn media_subtype(v: Seq<char>) -> Seq<char> {
    let essence = v.take(first_at(v, ';') as int);
    let slash = first_at(essence, '/');
    if slash < essence.len() {
        trim_end(trim_start(essence.skip(slash as int + 1)))
    } else {
        Seq::empty()
    }
}

/// Media type `v` has the subtype `json`, in any ASCII case.
pub open spec fn is_json_media(v: Seq<char>) -> bool {
    same_name(media_subtype(v), "json"@)
}

/// The headers declare a content type that is not JSON.
pub open spec fn declares_non_json(headers: Seq<(Seq<char>, Seq<char>)>) -> bool {
    match first_header(headers, "Content-Type"@) {
        Some(v) => !is_json_media(v),
        None => false,
    }
}

/// Index of the first `c` in `s`, or its length.
fn position(s: &str, c: char) -> (r: usize)
    ensures
        r == first_at(s@, c),
        r <= s@.len(),
{
    let n = s.unicode_len();
    assert(s@.take(n as int) =~= s@);
    proof {
        lemma_first_at_bound(s@, c);
    }
    find_char(s, c, n)
}

/// `s` without surrounding blanks.
fn trim(s: &str) -> (r: String)
    ensures
        r@ == trim_end(trim_start(s@)),
{
    let n = s.unicode_len();
    let mut i: usize = 0;
    assert(s@.skip(0) =~= s@);
    while i < n && is_blank_char(s.get_char(i))
        invariant
            n == s@.len(),
            i <= n,
            trim_start(s@) == trim_start(s@.skip(i as int)),
        decreases n - i,
    {
        assert(s@.skip(i as int).drop_first() =~= s@.skip(i + 1));
        i = i + 1;
    }
    let ghost front = s@.skip(i as int);
    assert(trim_start(front) == front);
    let mut j: usize = n;
    while j > i && is_blank_char(s.get_char(j - 1))
        invariant
            n == s@.len(),
            i <= j <= n,
            front == s@.skip(i as int),
            trim_end(front) == trim_end(s@.subrange(i as int, j as int)),
        decreases j - i,
    {
        assert(s@.subrange(i as int, j as int).drop_last() =~= s@.subrange(i as int, j - 1));
        j = j - 1;
    }
    let r = String::from_str(s.substring_char(i, j));
    assert(s@.skip(i as int) =~= s@.subrange(i as int, n as int));
    r
}

fn is_blank_char(c: char) -> (r: bool)
    ensures
        r == is_blank(c),
{
    c == ' ' || c == '\t'
}

/// Whether media type `v` has the subtype `json`.
pub fn json_media(v: &str) -> (r: bool)
    ensures
        r == is_json_media(v@),
{
    let semi = position(v, ';');
    let essence = v.substring_char(0, semi);
    let slash = position(essence, '/');
    let n = essence.unicode_len();
    if slash < n {
        let sub = trim(essence.substring_char(slash + 1, n));
        proof {
            reveal_strlit("json");
        }
        assert(essence@.skip(slash + 1) =~= essence@.subrange(slash + 1, n as int));
        names_match(sub.as_str(), "json")
    } else {
        proof {
            reveal_strlit("json");
        }
        assert(!same_name(Seq::<char>::empty(), "json"@));
        false
    }
}

/// The answer to a request: status, headers and the body as read.
#[derive(Debug)]
pub struct Response {
    status: u16,
    headers: Vec<(String, String)>,
    body: Vec<u8>,
}

impl Response {
    pub closed spec fn status_spec(&self) -> u16 {
        self.status
    }

    pub closed spec fn headers_spec(&self) -> Seq<(Seq<char>, Seq<char>)> {
        self.headers.deep_view()
    }

    pub closed spec fn body_spec(&self) -> Seq<u8> {
        self.body@
    }

    /// A response from what the transport received.
    pub fn new(status: u16, headers: Vec<(String, String)>, body: Vec<u8>) -> (r: Response)
        ensures
            r.status_spec() == status,
            r.headers_spec() == headers.deep_view(),
            r.body_spec() == body@,
    {
        Response { status, headers, body }
    }

    pub fn status(&self) -> (r: u16)
        ensures
            r == self.status_spec(),
    {
        self.status
    }

    pub fn headers(&self) -> (r: &Vec<(String, String)>)
        ensures
            r.deep_view() == self.headers_spec(),
    {
        &self.headers
    }

    pub fn body(&self) -> (r: &[u8])
        ensures
            r@ == self.body_spec(),
    {
        self.body.as_slice()
    }

    /// Fails with `UnexpectedStatus` unless the status is `expected`.
    pub fn expect_status(&self, expected: u16) -> (r: Result<(), Error>)
        ensures
            r is Ok <==> self.status_spec() == expected,
            r is Err ==> r->Err_0 == (Error::UnexpectedStatus {
                received: self.status_spec(),
                expected,
            }),
    {
        if self.status == expected {
            Ok(())
        } else {
            Err(Error::UnexpectedStatus { received: self.status, expected })
        }
    }

    /// Decodes the body as one JSON document. A declared content type whose
    /// subtype is not `json` fails with `NoJson` whatever the body holds; a
    /// missing one is accepted.
    pub fn into(self) -> (r: Result<serde_json::Value, Error>)
        ensures
            declares_non_json(self.headers_spec()) ==> r is Err && r->Err_0 is NoJson,
            !declares_non_json(self.headers_spec()) ==> (r is Ok <==> json_accepts(
                self.body_spec(),
            )),
            !declares_non_json(self.headers_spec()) && r is Err ==> r->Err_0 is Decode,
            r is Ok ==> r->Ok_0 == json_document(self.body_spec()),
    {
        match get_header(&self.headers, "Content-Type") {
            Some(v) => {
                if !json_media(v.as_str()) {
                    return Err(Error::NoJson);
                }
            },
            None => {},
        }
        match parse_json(self.body.as_slice()) {
            Ok(value) => Ok(value),
            Err(message) => Err(Error::Decode(message)),
        }
    }
}

} // verus!
