//! Reading the rate-limit and validator headers of a response.
use vstd::prelude::*;

verus! {

#[verifier::external_type_specification]
#[verifier::external_body]
#[verifier::reject_recursive_types(T)]
pub struct ExHeaderMap<T>(http::HeaderMap<T>);

#[verifier::external_type_specification]
#[verifier::external_body]
pub struct ExHeaderValue(http::HeaderValue);

/// The header carrying the call quota of the window.
pub const X_RATELIMIT_LIMIT: &'static str = "x-ratelimit-limit";

/// The header carrying the calls left in the window.
pub const X_RATELIMIT_REMAINING: &'static str = "x-ratelimit-remaining";

/// The header carrying the time, in seconds since the epoch, the window ends.
pub const X_RATELIMIT_RESET: &'static str = "x-ratelimit-reset";

/// The header carrying a response's validator.
pub const ETAG: &'static str = "etag";

/// The header carrying pagination links.
pub const LINK: &'static str = "link";

/// For each header name (in lower case) the bytes of the first value stored
/// under it.
pub uninterp spec fn header_first_values(h: http::HeaderMap<http::HeaderValue>) -> Map<Seq<char>, Seq<u8>>;

/// A header name as a map stores it: lower-case letters, digits and dashes.
pub open spec fn is_lower_header_name(name: Seq<char>) -> bool {
    &&& name.len() > 0
    &&& forall|i: int| 0 <= i < name.len() ==> {
        ||| ('a' <= #[trigger] name[i] && name[i] <= 'z')
        ||| ('0' <= name[i] && name[i] <= '9')
        ||| name[i] == '-'
    }
}

/// The first value of a header, if the map holds one.
pub open spec fn header_value(h: http::HeaderMap<http::HeaderValue>, name: Seq<char>) -> Option<Seq<u8>> {
    if header_first_values(h).contains_key(name) {
        Some(header_first_values(h)[name])
    } else {
        None
    }
}

/// Relies on `http::HeaderMap::get` with a lower-case name: it finds the
/// first value stored under that name; `HeaderValue::as_bytes` hands out its
/// bytes.
#[verifier::external_body]
pub fn header_bytes(headers: &http::HeaderMap<http::HeaderValue>, name: &str) -> (r: Option<Vec<u8>>)
    requires
        is_lower_header_name(name@),
    ensures
        match r {
            Some(v) => header_first_values(*headers).contains_key(name@)
                && header_first_values(*headers)[name@] == v@,
            None => !header_first_values(*headers).contains_key(name@),
        },
{
    headers.get(name).map(|v| v.as_bytes().to_vec())
}

/// Whether a byte is an ASCII decimal digit.
pub open spec fn is_digit(b: u8) -> bool {
    48 <= b <= 57
}

/// The number that a sequence of decimal digits stands for.
pub open spec fn digits_value(s: Seq<u8>) -> nat
    decreases s.len(),
{
    if s.len() == 0 {
        0
    } else {
        digits_value(s.drop_last()) * 10 + (s.last() - 48) as nat
    }
}

/// The digits of an unsigned number's text: a leading `+` is dropped.
pub open spec fn unsigned_digits(b: Seq<u8>) -> Seq<u8> {
    if b.len() > 0 && b[0] == 43 {
        b.drop_first()
    } else {
        b
    }
}

/// The `u32` a text stands for, as `str::parse::<u32>` reads it: an optional
/// `+`, then one or more decimal digits, with a value that fits.
pub open spec fn parse_u32(b: Seq<u8>) -> Option<u32> {
    let d = unsigned_digits(b);
    if d.len() > 0 && (forall|i: int| 0 <= i < d.len() ==> is_digit(#[trigger] d[i]))
        && digits_value(d) <= u32::MAX {
        Some(digits_value(d) as u32)
    } else {
        None
    }
}

proof fn lemma_digits_value_grows(s: Seq<u8>, i: int)
    requires
        0 <= i <= s.len(),
        forall|j: int| 0 <= j < s.len() ==> is_digit(#[trigger] s[j]),
    ensures
        digits_value(s.subrange(0, i)) <= digits_value(s),
    decreases s.len() - i,
{
    if i < s.len() {
        lemma_digits_value_grows(s, i + 1);
        let t = s.subrange(0, i + 1);
        assert(t.drop_last() == s.subrange(0, i));
    } else {
        assert(s.subrange(0, i) == s);
    }
}

/// Reads an unsigned decimal number from a header value; `None` unless the
/// whole value is one that fits in `u32`.
pub fn parse_header_u32(b: &[u8]) -> (r: Option<u32>)
    ensures
        r == parse_u32(b@),
{
    let start: usize = if b.len() > 0 && b[0] == 43 { 1 } else { 0 };
    let ghost d = unsigned_digits(b@);
    assert(d == b@.subrange(start as int, b@.len() as int));
    if start == b.len() {
        return None;
    }
    let mut value: u64 = 0;
    let mut i: usize = start;
    while i < b.len()
        invariant
            start <= i <= b.len(),
            d == b@.subrange(start as int, b@.len() as int),
            d == unsigned_digits(b@),
            d.len() > 0,
            value <= u32::MAX,
            forall|j: int| 0 <= j < i - start ==> is_digit(#[trigger] d[j]),
            value == digits_value(d.subrange(0, i - start)),
        decreases b.len() - i,
    {
        let c = b[i];
        assert(d[i - start] == c);
        if c < 48 || c > 57 {
            assert(!is_digit(d[i - start]));
            assert(!(forall|j: int| 0 <= j < d.len() ==> is_digit(#[trigger] d[j])));
            return None;
        }
        let next = value * 10 + (c - 48) as u64;
        proof {
            let t = d.subrange(0, i - start + 1);
            assert(t.drop_last() == d.subrange(0, i - start));
            assert(t.last() == c);
            assert(digits_value(t) == value * 10 + (c - 48) as nat);
        }
        if next > u32::MAX as u64 {
            proof {
                let k = i - start + 1;
                if forall|j: int| 0 <= j < d.len() ==> is_digit(#[trigger] d[j]) {
                    lemma_digits_value_grows(d, k);
                }
            }
            return None;
        }
        value = next;
        i = i + 1;
    }
    assert(d.subrange(0, d.len() as int) == d);
    Some(value as u32)
}

/// The rate-limit values and the validator of a response: calls remaining,
/// the reset time, and the `etag` header's bytes.
pub type HeaderValues = (Option<u32>, Option<u32>, Option<Vec<u8>>);

/// The number a header holds, if it is present and holds one.
pub open spec fn header_number(h: http::HeaderMap<http::HeaderValue>, name: Seq<char>) -> Option<u32> {
    match header_value(h, name) {
        Some(v) => parse_u32(v),
        None => None,
    }
}

fn header_u32(headers: &http::HeaderMap<http::HeaderValue>, name: &str) -> (r: Option<u32>)
    requires
        is_lower_header_name(name@),
    ensures
        r == header_number(*headers, name@),
{
    match header_bytes(headers, name) {
        Some(v) => parse_header_u32(v.as_slice()),
        None => None,
    }
}

/// Reads the calls remaining, the reset time and the validator of a
/// response. A missing or malformed number reads as `None`, never as an
/// error.
pub fn get_header_values(headers: &http::HeaderMap<http::HeaderValue>) -> (r: HeaderValues)
    ensures
        r.0 == header_number(*headers, X_RATELIMIT_REMAINING@),
        r.1 == header_number(*headers, X_RATELIMIT_RESET@),
        match r.2 {
            Some(v) => header_value(*headers, ETAG@) == Some(v@),
            None => header_value(*headers, ETAG@) is None,
        },
{
    proof {
        reveal_strlit("x-ratelimit-remaining");
        reveal_strlit("x-ratelimit-reset");
        reveal_strlit("etag");
    }
    let remaining = header_u32(headers, X_RATELIMIT_REMAINING);
    let reset = header_u32(headers, X_RATELIMIT_RESET);
    let etag = header_bytes(headers, ETAG);
    (remaining, reset, etag)
}

} // verus!
