//! REST requests: three kinds that share one capability, `Request`, of which
//! only `Post` also has `Body`.

use vstd::prelude::*;
use crate::error::Error;
use crate::form::{encode_form, form_encoded, form_pairs, merge, merged, parse_form};
use crate::headers::{first_header, lemma_with_header_lookup, set_header, with_header};
use crate::target::{
    join_segments, join_url, joined_path, lemma_without_query_has_none, query_of, query_pairs, replace_query, segments_view, strip_query,
    updated_parameters, url_joined, with_query, without_query,
};
use crate::Endpoint;

verus! {

/// The HTTP method of a request.
#[derive(Clone, Copy, Debug, PartialEq, Eq, Structural)]
pub enum Method {
    Get,
    Post,
    Delete,
}

/// What a request holds besides its method and target.
#[derive(Debug)]
pub struct Data {
    /// Headers in the order they were set.
    pub headers: Vec<(String, String)>,
    /// The payload, on kinds that carry one.
    pub body: Option<String>,
    /// The deadline in milliseconds for the whole exchange, head and body.
    pub timeout: Option<u64>,
}

/// The abstract state of a request.
pub struct RequestModel {
    pub method: Method,
    pub target: Seq<char>,
    pub headers: Seq<(Seq<char>, Seq<char>)>,
    pub body: Option<Seq<char>>,
    pub timeout: Option<u64>,
}

/// The name of the header that declares the media type of a body.
pub open spec fn content_type() -> Seq<char> {
    "Content-Type"@
}

/// The media type of a form-urlencoded body.
pub open spec fn form_media_type() -> Seq<char> {
    "application/x-www-form-urlencoded"@
}

/// The pairs that the form-urlencoded parser reads from a body, if any.
pub open spec fn body_pairs(body: Option<Seq<char>>) -> Seq<(Seq<char>, Seq<char>)> {
    match body {
        Some(b) => form_pairs(b),
        None => Seq::empty(),
    }
}

impl RequestModel {
    /// A fresh request of `method` aimed at `target`.
    pub open spec fn fresh(method: Method, target: Seq<char>) -> RequestModel {
        RequestModel { method, target, headers: Seq::empty(), body: None, timeout: None }
    }

    pub open spec fn with_header(self, name: Seq<char>, value: Seq<char>) -> RequestModel {
        RequestModel { headers: with_header(self.headers, name, value), ..self }
    }

    pub open spec fn with_body(self, body: Seq<char>) -> RequestModel {
        RequestModel { body: Some(body), ..self }
    }

    pub open spec fn with_timeout(self, millis: u64) -> RequestModel {
        RequestModel { timeout: Some(millis), ..self }
    }

    /// The pairs already in the target's query (and, on `POST`, those already
    /// in a body), then `params`.
    pub open spec fn merged_parameters(self, params: Seq<(Seq<char>, Seq<char>)>) -> Seq<
        (Seq<char>, Seq<char>),
    > {
        if self.method == Method::Post {
            merged(query_pairs(self.target) + body_pairs(self.body), params)
        } else {
            merged(query_pairs(self.target), params)
        }
    }

    /// On `POST` the merged pairs become a form body, the query goes and the
    /// content type is set; on other methods they become the query.
    pub open spec fn with_parameters(self, params: Seq<(Seq<char>, Seq<char>)>) -> RequestModel {
        let encoded = form_encoded(self.merged_parameters(params));
        if self.method == Method::Post {
            RequestModel {
                target: without_query(self.target),
                headers: with_header(self.headers, content_type(), form_media_type()),
                body: Some(encoded),
                ..self
            }
        } else {
            RequestModel { target: with_query(self.target, encoded), ..self }
        }
    }
}

impl Data {
    /// The state of a request of `method` at `target` that holds this data.
    pub open spec fn model(&self, method: Method, target: Seq<char>) -> RequestModel {
        RequestModel {
            method,
            target,
            headers: self.headers.deep_view(),
            body: match self.body {
                Some(b) => Some(b@),
                None => None,
            },
            timeout: self.timeout,
        }
    }

    fn empty() -> (r: Data)
        ensures
            r.headers@.len() == 0,
            r.body is None,
            r.timeout is None,
    {
        Data { headers: Vec::new(), body: None, timeout: None }
    }
}

/// Setting parameters on a `POST` request leaves its target without a query,
/// makes its content type the form media type, and puts the merged pairs,
/// form-encoded, in its body.
pub proof fn lemma_post_parameters(m: RequestModel, params: Seq<(Seq<char>, Seq<char>)>)
    requires
        m.method == Method::Post,
    ensures
        query_of(m.with_parameters(params).target) is None,
        first_header(m.with_parameters(params).headers, content_type()) == Some(form_media_type()),
        m.with_parameters(params).body == Some(form_encoded(m.merged_parameters(params))),
{
    lemma_without_query_has_none(m.target);
    lemma_with_header_lookup(m.headers, content_type(), form_media_type());
}

/// Core request behaviour, shared by every kind of request.
pub trait Request: Sized {
    spec fn model(&self) -> RequestModel;

    /// The method this kind of request is sent with.
    fn method(&self) -> (r: Method)
        ensures
            r == self.model().method,
    ;

    /// The absolute URL the request is aimed at.
    fn url(&self) -> (r: &str)
        ensures
            r@ == self.model().target,
    ;

    /// Sets header `name` to `value`, replacing earlier values of that name.
    fn header(&mut self, name: &str, value: &str)
        ensures
            final(self).model() == old(self).model().with_header(name@, value@),
    ;

    /// Appends `params` to the parameters already in the target's query. On
    /// `POST` they are appended to those of the query and the body, go in a
    /// form body, with the matching content type, and the query is cleared;
    /// otherwise they become the query. A `POST` body reads back as the merged
    /// pairs.
    fn parameters(&mut self, params: &Vec<(String, String)>)
        ensures
            final(self).model() == old(self).model().with_parameters(params.deep_view()),
            final(self).model().method == Method::Post ==> body_pairs(final(self).model().body)
                == old(self).model().merged_parameters(params.deep_view()),
    ;

    /// Sets the deadline for the exchange; timing starts when it is sent.
    fn timeout(&mut self, millis: u64)
        ensures
            final(self).model() == old(self).model().with_timeout(millis),
    ;

    /// Takes the request apart for the transport: method, target and data.
    fn explode(self) -> (r: (Method, String, Data))
        ensures
            r.2.model(r.0, r.1@) == self.model(),
    ;
}

/// Setting a payload, for requests with body semantics.
pub trait Body: Request {
    /// Sets the payload, replacing any earlier one.
    fn body(&mut self, body: &str)
        ensures
            final(self).model() == old(self).model().with_body(body@),
    ;
}

/// The target for a request at `path` below `endpoint`.
fn resolve(endpoint: &Endpoint, path: &[&str]) -> (r: Result<String, Error>)
    ensures
        match url_joined(endpoint@, joined_path(segments_view(path@))) {
            Some(t) => r is Ok && r->Ok_0@ == t,
            None => r is Err && r->Err_0 is UrlParse,
        },
{
    let reference = join_segments(path);
    match join_url(endpoint.base(), reference.as_str()) {
        Ok(t) => Ok(t),
        Err(e) => Err(Error::UrlParse(e)),
    }
}

fn add_query_parameters(url: &mut String, params: &Vec<(String, String)>)
    ensures
        final(url)@ == with_query(
            old(url)@,
            form_encoded(merged(query_pairs(old(url)@), params.deep_view())),
        ),
{
    let pairs = updated_parameters(url.as_str(), params);
    let encoded = encode_form(&pairs);
    *url = replace_query(url.as_str(), encoded.as_str());
}

/// A `GET` request.
#[derive(Debug)]
pub struct Get {
    url: String,
    data: Data,
}

impl Get {
    /// The state of this request; its method is fixed by the type.
    pub closed spec fn state(&self) -> RequestModel {
        self.data.model(Method::Get, self.url@)
    }

    /// A `GET` request for the resource at `path` (segments joined by `/`)
    /// resolved against the endpoint's base.
    pub fn new(endpoint: &Endpoint, path: &[&str]) -> (r: Result<Get, Error>)
        ensures
            match url_joined(endpoint@, joined_path(segments_view(path@))) {
                Some(t) => r is Ok && r->Ok_0.model() == RequestModel::fresh(Method::Get, t),
                None => r is Err && r->Err_0 is UrlParse,
            },
    {
        let url = resolve(endpoint, path)?;
        let r = Get { url, data: Data::empty() };
        assert(r.data.headers.deep_view() =~= Seq::empty());
        Ok(r)
    }
}

impl Request for Get {
    open spec fn model(&self) -> RequestModel {
        RequestModel { method: Method::Get, ..self.state() }
    }

    fn method(&self) -> (r: Method) {
        Method::Get
    }

    fn url(&self) -> (r: &str) {
        self.url.as_str()
    }

    fn header(&mut self, name: &str, value: &str) {
        set_header(&mut self.data.headers, name, value);
    }

    fn parameters(&mut self, params: &Vec<(String, String)>) {
        add_query_parameters(&mut self.url, params);
    }

    fn timeout(&mut self, millis: u64) {
        self.data.timeout = Some(millis);
    }

    fn explode(self) -> (r: (Method, String, Data)) {
        (Method::Get, self.url, self.data)
    }
}

/// A `DELETE` request.
#[derive(Debug)]
pub struct Delete {
    url: String,
    data: Data,
}

impl Delete {
    /// The state of this request; its method is fixed by the type.
    pub closed spec fn state(&self) -> RequestModel {
        self.data.model(Method::Delete, self.url@)
    }

    /// A `DELETE` request for the resource at `path` (segments joined by `/`)
    /// resolved against the endpoint's base.
    pub fn new(endpoint: &Endpoint, path: &[&str]) -> (r: Result<Delete, Error>)
        ensures
            match url_joined(endpoint@, joined_path(segments_view(path@))) {
                Some(t) => r is Ok && r->Ok_0.model() == RequestModel::fresh(Method::Delete, t),
                None => r is Err && r->Err_0 is UrlParse,
            },
    {
        let url = resolve(endpoint, path)?;
        let r = Delete { url, data: Data::empty() };
        assert(r.data.headers.deep_view() =~= Seq::empty());
        Ok(r)
    }
}

impl Request for Delete {
    open spec fn model(&self) -> RequestModel {
        RequestModel { method: Method::Delete, ..self.state() }
    }

    fn method(&self) -> (r: Method) {
        Method::Delete
    }

    fn url(&self) -> (r: &str) {
        self.url.as_str()
    }

    fn header(&mut self, name: &str, value: &str) {
        set_header(&mut self.data.headers, name, value);
    }

    fn parameters(&mut self, params: &Vec<(String, String)>) {
        add_query_parameters(&mut self.url, params);
    }

    fn timeout(&mut self, millis: u64) {
        self.data.timeout = Some(millis);
    }

    fn explode(self) -> (r: (Method, String, Data)) {
        (Method::Delete, self.url, self.data)
    }
}

/// A `POST` request.
#[derive(Debug)]
pub struct Post {
    url: String,
    data: Data,
}

impl Post {
    /// The state of this request; its method is fixed by the type.
    pub closed spec fn state(&self) -> RequestModel {
        self.data.model(Method::Post, self.url@)
    }

    /// A `POST` request for the resource at `path` (segments joined by `/`)
    /// resolved against the endpoint's base.
    pub fn new(endpoint: &Endpoint, path: &[&str]) -> (r: Result<Post, Error>)
        ensures
            match url_joined(endpoint@, joined_path(segments_view(path@))) {
                Some(t) => r is Ok && r->Ok_0.model() == RequestModel::fresh(Method::Post, t),
                None => r is Err && r->Err_0 is UrlParse,
            },
    {
        let url = resolve(endpoint, path)?;
        let r = Post { url, data: Data::empty() };
        assert(r.data.headers.deep_view() =~= Seq::empty());
        Ok(r)
    }
}

impl Request for Post {
    open spec fn model(&self) -> RequestModel {
        RequestModel { method: Method::Post, ..self.state() }
    }

    fn method(&self) -> (r: Method) {
        Method::Post
    }

    fn url(&self) -> (r: &str) {
        self.url.as_str()
    }

    fn header(&mut self, name: &str, value: &str) {
        set_header(&mut self.data.headers, name, value);
    }

    fn parameters(&mut self, params: &Vec<(String, String)>) {
        let in_body = match &self.data.body {
            Some(b) => parse_form(b.as_str()),
            None => Vec::new(),
        };
        let incoming = merge(in_body, params);
        let pairs = updated_parameters(self.url.as_str(), &incoming);
        assert(pairs.deep_view() =~= self.model().merged_parameters(params.deep_view()));
        self.url = strip_query(self.url.as_str());
        set_header(&mut self.data.headers, "Content-Type", "application/x-www-form-urlencoded");
        let encoded = encode_form(&pairs);
        self.body(encoded.as_str());
    }

    fn timeout(&mut self, millis: u64) {
        self.data.timeout = Some(millis);
    }

    fn explode(self) -> (r: (Method, String, Data)) {
        (Method::Post, self.url, self.data)
    }
}

impl Body for Post {
    fn body(&mut self, body: &str) {
        self.data.body = Some(String::from_str(body));
    }
}

} // verus!
