use azure_rs::links::parse_link_header;
use azure_rs::{handle_response, next_link, next_link_header, rate_limit_wait, CachedResponse, ErrorKind};
use http::header::{HeaderMap, HeaderValue};

fn rate_limited(remaining: &'static str, reset: &'static str) -> HeaderMap {
    let mut h = HeaderMap::new();
    h.insert("x-ratelimit-remaining", HeaderValue::from_static(remaining));
    h.insert("x-ratelimit-reset", HeaderValue::from_static(reset));
    h
}

#[test]
fn no_content_decodes_as_null() {
    let reply = handle_response(204, &HeaderMap::new(), Vec::new(), 0, None).unwrap();
    assert_eq!(reply.payload, b"null".to_vec());
    let unit: () = serde_json::from_slice(&reply.payload).unwrap();
    assert_eq!(unit, ());
    let none: Option<Vec<u32>> = serde_json::from_slice(&reply.payload).unwrap();
    assert_eq!(none, None);
}

#[test]
fn success_hands_back_the_body() {
    let reply = handle_response(200, &HeaderMap::new(), b"[1,2]".to_vec(), 0, None).unwrap();
    assert_eq!(reply.payload, b"[1,2]".to_vec());
    assert!(reply.link.is_none());
    assert!(reply.cache_update.is_none());
}

#[test]
fn success_with_a_validator_is_cached_with_its_next_link() {
    let mut h = HeaderMap::new();
    h.insert("etag", HeaderValue::from_static("\"v7\""));
    h.insert("link", HeaderValue::from_static("<https://h/a?page=1>; rel=\"prev\", <https://h/a?page=3>; rel=\"next\""));
    let reply = handle_response(200, &h, b"{}".to_vec(), 0, None).unwrap();
    assert!(reply.link.is_some());
    let update = reply.cache_update.unwrap();
    assert_eq!(update.body, b"{}".to_vec());
    assert_eq!(update.etag, b"\"v7\"".to_vec());
    assert_eq!(update.next_link, Some("https://h/a?page=3".to_string()));
}

#[test]
fn not_modified_uses_the_cached_body_and_link() {
    let cached = CachedResponse { body: b"{\"a\":1}".to_vec(), next_link: Some("https://h/a?page=2".to_string()) };
    let reply = handle_response(304, &HeaderMap::new(), Vec::new(), 0, Some(cached)).unwrap();
    assert_eq!(reply.payload, b"{\"a\":1}".to_vec());
    assert!(reply.cache_update.is_none());
    assert_eq!(next_link(&reply.link.unwrap()), Some("https://h/a?page=2".to_string()));
}

#[test]
fn not_modified_without_a_cached_body_fails() {
    let r = handle_response(304, &HeaderMap::new(), Vec::new(), 0, None);
    assert!(matches!(r, Err(ErrorKind::Cache)));
}

#[test]
fn exhausted_quota_is_a_rate_limit_error() {
    let r = handle_response(429, &rate_limited("0", "1000"), Vec::new(), 400, None);
    assert!(matches!(r, Err(ErrorKind::RateLimit { reset: 600 })));
}

#[test]
fn reset_in_the_past_waits_zero() {
    let r = handle_response(429, &rate_limited("0", "1000"), Vec::new(), 5000, None);
    assert!(matches!(r, Err(ErrorKind::RateLimit { reset: 0 })));
    assert_eq!(rate_limit_wait(1000, 400), 600);
    assert_eq!(rate_limit_wait(1000, 1000), 0);
    assert_eq!(rate_limit_wait(10, u64::MAX), 0);
}

#[test]
fn remaining_calls_give_a_fault() {
    let r = handle_response(403, &rate_limited("3", "1000"), b"{\"message\":\"no\"}".to_vec(), 400, None);
    match r {
        Err(ErrorKind::Fault { code, error }) => {
            assert_eq!(code, 403);
            assert_eq!(error["message"], "no");
        }
        other => panic!("unexpected {:?}", other),
    }
}

#[test]
fn undecodable_fault_is_a_codec_error() {
    let r = handle_response(500, &HeaderMap::new(), b"<html>".to_vec(), 0, None);
    assert!(matches!(r, Err(ErrorKind::Codec(_))));
}

#[test]
fn next_link_round_trip() {
    let target = "https://dev.azure.com/org/_apis/projects?continuationToken=42".to_string();
    let header = next_link_header(target.clone());
    assert_eq!(next_link(&header), Some(target));
}

#[test]
fn link_header_parsing() {
    let l = parse_link_header(b"<https://h/x?p=2>; rel=\"next\"").unwrap();
    assert_eq!(next_link(&l), Some("https://h/x?p=2".to_string()));
    let l = parse_link_header(b"<https://h/x?p=0>; rel=\"prev\"").unwrap();
    assert_eq!(next_link(&l), None);
    assert!(parse_link_header(b"https://h/x\x01").is_none());
    assert!(parse_link_header(b"not a link").is_none());
}
