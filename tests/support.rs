use crest::deadline::{bounded, remaining, settle, Outcome};
use crest::form::merge;
use crest::headers::{get_header, names_match, set_header};
use crest::response::{json_media, Response};
use crest::target::{join_segments, query_text, replace_query, strip_query, updated_parameters};
use crest::Error;

fn pairs(items: &[(&str, &str)]) -> Vec<(String, String)> {
    items.iter().map(|(k, v)| (k.to_string(), v.to_string())).collect()
}

fn response(content_type: Option<&str>, body: &str) -> Response {
    let headers = match content_type {
        Some(t) => pairs(&[("Content-Type", t)]),
        None => Vec::new(),
    };
    Response::new(200, headers, body.as_bytes().to_vec())
}

#[test]
fn merge_appends_and_keeps_duplicates() {
    let r = merge(pairs(&[("a", "1")]), &pairs(&[("a", "2"), ("b", "3")]));
    assert_eq!(r, pairs(&[("a", "1"), ("a", "2"), ("b", "3")]));
}

#[test]
fn merge_in_two_steps_equals_one() {
    let existing = pairs(&[("e", "0")]);
    let a = pairs(&[("a", "1")]);
    let b = pairs(&[("b", "2"), ("a", "3")]);
    let mut ab = a.clone();
    ab.extend(b.clone());
    let twice = merge(merge(existing.clone(), &a), &b);
    let once = merge(existing, &ab);
    assert_eq!(twice, once);
}

#[test]
fn updated_parameters_reads_existing_query() {
    let r = updated_parameters("https://h.org/p?x=1&y=a+b#f", &pairs(&[("z", "3")]));
    assert_eq!(r, pairs(&[("x", "1"), ("y", "a b"), ("z", "3")]));
}

#[test]
fn updated_parameters_without_query() {
    let r = updated_parameters("https://h.org/p", &pairs(&[("z", "3")]));
    assert_eq!(r, pairs(&[("z", "3")]));
}

#[test]
fn query_text_cases() {
    assert_eq!(query_text("https://h.org/p?a=1#x?y"), Some("a=1".to_string()));
    assert_eq!(query_text("https://h.org/p#x?y"), None);
    assert_eq!(query_text("https://h.org/p?"), Some(String::new()));
    assert_eq!(query_text("https://h.org/p"), None);
}

#[test]
fn strip_and_replace_query() {
    assert_eq!(strip_query("https://h.org/p?a=1#f"), "https://h.org/p#f");
    assert_eq!(strip_query("https://h.org/p"), "https://h.org/p");
    assert_eq!(replace_query("https://h.org/p?a=1#f", "b=2"), "https://h.org/p?b=2#f");
    assert_eq!(replace_query("https://h.org/p", "b=2"), "https://h.org/p?b=2");
}

#[test]
fn join_segments_cases() {
    assert_eq!(join_segments(&[]), "");
    assert_eq!(join_segments(&["ip"]), "ip");
    assert_eq!(join_segments(&["status", "418"]), "status/418");
}

#[test]
fn header_names_compare_without_case() {
    assert!(names_match("Content-Type", "content-TYPE"));
    assert!(!names_match("Content-Type", "Content-Typ"));
    assert!(!names_match("Accept", "Accept-"));
}

#[test]
fn header_set_and_get() {
    let mut hs = pairs(&[("A", "1"), ("B", "2"), ("a", "3")]);
    set_header(&mut hs, "a", "4");
    assert_eq!(hs, pairs(&[("B", "2"), ("a", "4")]));
    assert_eq!(get_header(&hs, "A"), Some("4".to_string()));
    assert_eq!(get_header(&hs, "C"), None);
}

#[test]
fn header_get_gives_first_entry() {
    let hs = pairs(&[("X", "1"), ("x", "2")]);
    assert_eq!(get_header(&hs, "x"), Some("1".to_string()));
}

#[test]
fn media_type_subtype_rules() {
    assert!(json_media("application/json"));
    assert!(json_media("application/json; charset=utf-8"));
    assert!(json_media("Application/JSON"));
    assert!(json_media("application/ json ;q=1"));
    assert!(!json_media("text/plain"));
    assert!(!json_media("application/vnd.api+json"));
    assert!(!json_media("json"));
    assert!(!json_media(""));
}

#[test]
fn decode_text_plain_is_no_json() {
    let r = response(Some("text/plain"), "{\"origin\":\"1.2.3.4\"}").into();
    assert!(matches!(r, Err(Error::NoJson)));
    let r = response(Some("text/plain"), "not json").into();
    assert!(matches!(r, Err(Error::NoJson)));
}

#[test]
fn decode_origin_document() {
    let value = response(Some("application/json"), "{\"origin\":\"1.2.3.4\"}")
        .into()
        .unwrap();
    assert_eq!(value.get("origin").and_then(|v| v.as_str()), Some("1.2.3.4"));
}

#[test]
fn decode_without_content_type() {
    let value = response(None, "[1, 2]").into().unwrap();
    assert_eq!(value.as_array().map(|a| a.len()), Some(2));
}

#[test]
fn decode_malformed_json() {
    let r = response(Some("application/json"), "{\"origin\":").into();
    assert!(matches!(r, Err(Error::Decode(_))));
}

#[test]
fn response_accessors_and_status_check() {
    let r = Response::new(404, pairs(&[("Server", "x")]), vec![1, 2]);
    assert_eq!(r.status(), 404);
    assert_eq!(r.headers(), &pairs(&[("Server", "x")]));
    assert_eq!(r.body(), &[1u8, 2u8][..]);
    assert!(r.expect_status(404).is_ok());
    match r.expect_status(200) {
        Err(Error::UnexpectedStatus { received, expected }) => {
            assert_eq!((received, expected), (404, 200));
        }
        other => panic!("unexpected {:?}", other),
    }
}

#[test]
fn one_millisecond_deadline_times_out_despite_response() {
    let r: Result<u32, Error> = bounded(Some(1), 5, Ok(200));
    assert!(matches!(r, Err(Error::Timeout)));
    let r: Result<u32, Error> = bounded(Some(1), 5, Err(Error::Transport("reset".to_string())));
    assert!(matches!(r, Err(Error::Timeout)));
}

#[test]
fn bounded_passes_outcome_within_deadline() {
    let r: Result<u32, Error> = bounded(Some(100), 99, Ok(7));
    assert_eq!(r.unwrap(), 7);
    let r: Result<u32, Error> = bounded(None, 1_000_000, Ok(8));
    assert_eq!(r.unwrap(), 8);
}

#[test]
fn remaining_budget_after_head() {
    assert_eq!(remaining(Some(2000), 500).unwrap(), Some(1500));
    assert_eq!(remaining(None, 500).unwrap(), None);
    assert!(matches!(remaining(Some(2000), 2000), Err(Error::Timeout)));
}

#[test]
fn settle_maps_timer_outcomes() {
    let r: Result<u8, Error> = settle(Outcome::TimedOut);
    assert!(matches!(r, Err(Error::Timeout)));
    let r: Result<u8, Error> = settle(Outcome::TimerFailed("wheel gone".to_string()));
    assert!(matches!(r, Err(Error::Timer(ref m)) if m == "wheel gone"));
    let r: Result<u8, Error> = settle(Outcome::Ready(Ok(3)));
    assert_eq!(r.unwrap(), 3);
}
