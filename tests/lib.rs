use azure_rs::get_header_values;
use azure_rs::headers::parse_header_u32;
use azure_rs::headers::{ETAG, X_RATELIMIT_RESET, X_RATELIMIT_REMAINING};
use azure_rs::SortDirection;
use http::header::{HeaderMap, HeaderValue};

#[test]
fn default_sort_direction() {
    let default: SortDirection = Default::default();
    assert_eq!(default, SortDirection::Asc)
}

#[test]
fn header_values() {
    let empty = HeaderMap::new();
    let actual = get_header_values(&empty);
    let expected = (None, None);
    assert_eq!((actual.0, actual.1), expected);

    let mut all_valid = HeaderMap::new();
    all_valid.insert(X_RATELIMIT_REMAINING, HeaderValue::from_static("1234"));
    all_valid.insert(X_RATELIMIT_RESET, HeaderValue::from_static("5678"));
    let actual = get_header_values(&all_valid);
    let expected = (Some(1234), Some(5678));
    assert_eq!((actual.0, actual.1), expected);

    let mut invalid = HeaderMap::new();
    invalid.insert(X_RATELIMIT_REMAINING, HeaderValue::from_static("foo"));
    invalid.insert(X_RATELIMIT_RESET, HeaderValue::from_static("bar"));
    let actual = get_header_values(&invalid);
    let expected = (None, None);
    assert_eq!((actual.0, actual.1), expected);
}

#[test]
fn lib_header_values() {
    let empty = HeaderMap::new();
    let actual = get_header_values(&empty);
    let expected = (None, None, None);
    assert_eq!(actual, expected);

    let mut all_valid = HeaderMap::new();
    all_valid.insert(X_RATELIMIT_REMAINING, HeaderValue::from_static("1234"));
    all_valid.insert(X_RATELIMIT_RESET, HeaderValue::from_static("5678"));
    all_valid.insert(ETAG, HeaderValue::from_static("foobar"));
    let actual = get_header_values(&all_valid);
    let expected = (Some(1234), Some(5678), Some(b"foobar".to_vec()));
    assert_eq!(actual, expected);

    let mut invalid = HeaderMap::new();
    invalid.insert(X_RATELIMIT_REMAINING, HeaderValue::from_static("foo"));
    invalid.insert(X_RATELIMIT_RESET, HeaderValue::from_static("bar"));
    invalid.insert(ETAG, HeaderValue::from_static(""));
    let actual = get_header_values(&invalid);
    let expected = (None, None, Some(Vec::new()));
    assert_eq!(actual, expected);
}

#[test]
fn header_values_ignore_other_headers() {
    let mut headers = HeaderMap::new();
    headers.insert("x-ratelimit-limit", HeaderValue::from_static("9999"));
    headers.insert("content-type", HeaderValue::from_static("application/json"));
    headers.insert(X_RATELIMIT_REMAINING, HeaderValue::from_static("1234"));
    headers.insert(X_RATELIMIT_RESET, HeaderValue::from_static("5678"));
    let actual = get_header_values(&headers);
    assert_eq!(actual, (Some(1234), Some(5678), None));
}

#[test]
fn header_numbers_edge_cases() {
    assert_eq!(parse_header_u32(b"+5"), Some(5));
    assert_eq!(parse_header_u32(b"0"), Some(0));
    assert_eq!(parse_header_u32(b"4294967295"), Some(u32::MAX));
    assert_eq!(parse_header_u32(b"4294967296"), None);
    assert_eq!(parse_header_u32(b""), None);
    assert_eq!(parse_header_u32(b"+"), None);
    assert_eq!(parse_header_u32(b"-1"), None);
    assert_eq!(parse_header_u32(b" 12"), None);
    assert_eq!(parse_header_u32(b"12a"), None);
}
