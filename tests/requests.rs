use crest::request::{Body, Method, Request};
use crest::Endpoint;
use crest::Error;

fn pairs(items: &[(&str, &str)]) -> Vec<(String, String)> {
    items.iter().map(|(k, v)| (k.to_string(), v.to_string())).collect()
}

fn httpbin() -> Endpoint {
    Endpoint::new("https://httpbin.org/").unwrap()
}

#[test]
fn join_below_trailing_slash() {
    let request = httpbin().get(&["ip"]).unwrap();
    assert_eq!(request.url(), "https://httpbin.org/ip");
}

#[test]
fn join_several_segments() {
    let request = httpbin().delete(&["status", "418"]).unwrap();
    assert_eq!(request.url(), "https://httpbin.org/status/418");
    assert_eq!(request.method(), Method::Delete);
}

#[test]
fn join_replaces_last_segment_without_trailing_slash() {
    let endpoint = Endpoint::new("https://httpbin.org/api").unwrap();
    let request = endpoint.post(&["post"]).unwrap();
    assert_eq!(request.url(), "https://httpbin.org/post");
}

#[test]
fn join_below_nested_directory() {
    let endpoint = Endpoint::new("https://example.com/v1/").unwrap();
    let request = endpoint.get(&["users", "7"]).unwrap();
    assert_eq!(request.url(), "https://example.com/v1/users/7");
}

#[test]
fn endpoint_keeps_parsed_base() {
    let endpoint = Endpoint::new("https://httpbin.org").unwrap();
    assert_eq!(endpoint.base(), "https://httpbin.org/");
}

#[test]
fn endpoint_rejects_relative_base() {
    match Endpoint::new("no/scheme/here") {
        Err(Error::UrlParse(e)) => assert_eq!(e, url::ParseError::RelativeUrlWithoutBase),
        other => panic!("unexpected {:?}", other),
    }
}

#[test]
fn endpoint_rejects_bad_port() {
    assert!(matches!(Endpoint::new("http://host:99999/"), Err(Error::UrlParse(_))));
}

#[test]
fn get_parameters_go_in_query() {
    let mut request = httpbin().get(&["get"]).unwrap();
    request.parameters(&pairs(&[("param1", "value1"), ("param2", "value2")]));
    assert_eq!(request.url(), "https://httpbin.org/get?param1=value1&param2=value2");
    let (method, url, data) = request.explode();
    assert_eq!(method, Method::Get);
    assert_eq!(url, "https://httpbin.org/get?param1=value1&param2=value2");
    assert!(data.headers.is_empty());
    assert_eq!(data.body, None);
}

#[test]
fn get_parameters_append_to_existing_query() {
    let mut request = httpbin().get(&["get?x=1"]).unwrap();
    request.parameters(&pairs(&[("a", "1")]));
    request.parameters(&pairs(&[("x", "2")]));
    assert_eq!(request.url(), "https://httpbin.org/get?x=1&a=1&x=2");
}

#[test]
fn get_parameters_are_percent_encoded() {
    let mut request = httpbin().get(&["get"]).unwrap();
    request.parameters(&pairs(&[("q", "a b&c")]));
    assert_eq!(request.url(), "https://httpbin.org/get?q=a+b%26c");
}

#[test]
fn get_parameters_keep_fragment() {
    let mut request = httpbin().get(&["page#top"]).unwrap();
    request.parameters(&pairs(&[("a", "1")]));
    assert_eq!(request.url(), "https://httpbin.org/page?a=1#top");
}

#[test]
fn delete_parameters_go_in_query() {
    let mut request = httpbin().delete(&["anything"]).unwrap();
    request.parameters(&pairs(&[("id", "3")]));
    assert_eq!(request.url(), "https://httpbin.org/anything?id=3");
}

#[test]
fn post_parameters_clear_query_and_set_form_type() {
    let mut request = httpbin().post(&["post?x=1"]).unwrap();
    request.header("content-type", "text/plain");
    request.parameters(&pairs(&[("a", "1"), ("b", "2")]));
    assert_eq!(request.url(), "https://httpbin.org/post");
    let (method, _, data) = request.explode();
    assert_eq!(method, Method::Post);
    assert_eq!(
        data.headers,
        pairs(&[("Content-Type", "application/x-www-form-urlencoded")])
    );
    assert_eq!(data.body, Some("x=1&a=1&b=2".to_string()));
}

#[test]
fn post_body_round_trips_through_form_parser() {
    let mut request = httpbin().post(&["post"]).unwrap();
    request.parameters(&pairs(&[("a", "1"), ("b", "2")]));
    let (_, _, data) = request.explode();
    let body = data.body.unwrap();
    assert_eq!(body, "a=1&b=2");
    let parsed: Vec<(String, String)> = url::form_urlencoded::parse(body.as_bytes())
        .into_owned()
        .collect();
    assert_eq!(parsed, pairs(&[("a", "1"), ("b", "2")]));
}

#[test]
fn post_body_is_set_and_replaced() {
    let mut request = httpbin().post(&["post"]).unwrap();
    request.body("first");
    request.body("crest-next");
    let (_, _, data) = request.explode();
    assert_eq!(data.body, Some("crest-next".to_string()));
}

#[test]
fn header_replaces_same_name_in_any_case() {
    let mut request = httpbin().get(&["headers"]).unwrap();
    request.header("Accept", "text/html");
    request.header("Connection", "close");
    request.header("accept", "application/json");
    let (_, _, data) = request.explode();
    assert_eq!(
        data.headers,
        pairs(&[("Connection", "close"), ("accept", "application/json")])
    );
}

#[test]
fn timeout_is_recorded_and_overwritten() {
    let mut request = httpbin().get(&["delay", "3"]).unwrap();
    request.timeout(2000);
    request.timeout(1);
    let (_, _, data) = request.explode();
    assert_eq!(data.timeout, Some(1));
}

#[test]
fn fresh_request_has_no_timeout() {
    let (_, _, data) = httpbin().post(&["post"]).unwrap().explode();
    assert_eq!(data.timeout, None);
    assert_eq!(data.body, None);
}

#[test]
fn post_parameters_in_two_calls_keep_earlier_pairs() {
    let mut request = httpbin().post(&["post"]).unwrap();
    request.parameters(&pairs(&[("a", "1")]));
    request.parameters(&pairs(&[("b", "2")]));
    let (_, url, data) = request.explode();
    assert_eq!(url, "https://httpbin.org/post");
    assert_eq!(data.body, Some("a=1&b=2".to_string()));
}

#[test]
fn post_parameters_follow_form_body() {
    let mut request = httpbin().post(&["post?q=0"]).unwrap();
    request.body("x=a+b");
    request.parameters(&pairs(&[("y", "c d")]));
    let (_, _, data) = request.explode();
    assert_eq!(data.body, Some("q=0&x=a+b&y=c+d".to_string()));
}
