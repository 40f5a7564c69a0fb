//! A REST client core: URL joining, parameter merging, request building,
//! deadline bookkeeping and response decoding, all as verified logic over
//! plain values. The transport that carries the requests lives outside.

pub mod deadline;
pub mod error;
pub mod form;
pub mod headers;
pub mod request;
pub mod response;
pub mod target;

pub use crate::error::Error;
pub use crate::request::{Body, Data, Delete, Get, Method, Post, Request, RequestModel};
pub use crate::response::Response;

use vstd::prelude::*;
use crate::target::{joined_path, parse_url, segments_view, url_joined, url_parsed};

verus! {

/// The entry point: a base location that requests are resolved against.
///
/// Paths resolve by standard relative-reference resolution, so a trailing
/// `/` on the base matters: below `https://h.org/api/` the path `post`
/// gives `https://h.org/api/post`, while against `https://h.org/api` it
/// replaces the last segment and gives `https://h.org/post`.
#[derive(Debug)]
pub struct Endpoint {
    base: String,
}

impl View for Endpoint {
    type V = Seq<char>;

    closed spec fn view(&self) -> Seq<char> {
        self.base@
    }
}

impl Endpoint {
    /// An endpoint at `base`, held as the parsed URL's serialization.
    pub fn new(base: &str) -> (r: Result<Endpoint, Error>)
        ensures
            match url_parsed(base@) {
                Some(u) => r is Ok && r->Ok_0@ == u,
                None => r is Err && r->Err_0 is UrlParse,
            },
    {
        match parse_url(base) {
            Ok(u) => Ok(Endpoint { base: u }),
            Err(e) => Err(Error::UrlParse(e)),
        }
    }

    /// The base location, as parsed.
    pub fn base(&self) -> (r: &str)
        ensures
            r@ == self@,
    {
        self.base.as_str()
    }

    /// A `GET` request for `path` below the base.
    pub fn get(&self, path: &[&str]) -> (r: Result<Get, Error>)
        ensures
            match url_joined(self@, joined_path(segments_view(path@))) {
                Some(t) => r is Ok && r->Ok_0.model() == RequestModel::fresh(Method::Get, t),
                None => r is Err && r->Err_0 is UrlParse,
            },
    {
        Get::new(self, path)
    }

    /// A `POST` request for `path` below the base.
    pub fn post(&self, path: &[&str]) -> (r: Result<Post, Error>)
        ensures
            match url_joined(self@, joined_path(segments_view(path@))) {
                Some(t) => r is Ok && r->Ok_0.model() == RequestModel::fresh(Method::Post, t),
                None => r is Err && r->Err_0 is UrlParse,
            },
    {
        Post::new(self, path)
    }

    /// A `DELETE` request for `path` below the base.
    pub fn delete(&self, path: &[&str]) -> (r: Result<Delete, Error>)
        ensures
            match url_joined(self@, joined_path(segments_view(path@))) {
                Some(t) => r is Ok && r->Ok_0.model() == RequestModel::fresh(Method::Delete, t),
                None => r is Err && r->Err_0 is UrlParse,
            },
    {
        Delete::new(self, path)
    }
}

} // verus!
