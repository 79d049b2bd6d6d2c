//! One HTTP exchange: the request built from a call, and the meaning of the
//! response that came back.
use vstd::prelude::*;
use crate::auth::{authorization_of, header_of, opt_text, parsed_query, query_of, url_query, url_text};
use crate::config::{AuthenticationConstraint, AzureClient, MediaType};
use crate::error::ErrorKind;
use crate::headers::{get_header_values, header_bytes, header_number, header_value, LINK};
use crate::links::{first_next, is_header_text, link_entries, parsed_link_entries, next_link, next_link_header, opt_string_view, parse_link_header};

verus! {

/// The HTTP methods the client uses.
#[derive(Clone, Copy, Debug, PartialEq, Eq, Structural)]
pub enum Method {
    Get,
    Post,
    Patch,
    Delete,
}

/// A call on the API, as a resource asks for it: method, full URI (without
/// the version), body, media type and authentication constraint.
#[derive(Debug)]
pub struct ApiCall {
    pub method: Method,
    pub uri: String,
    pub body: Option<Vec<u8>>,
    pub media: MediaType,
    pub authentication: AuthenticationConstraint,
}

impl ApiCall {
    /// Whether the call only reads; only a read is sent with a cached
    /// validator.
    pub fn is_read(&self) -> (r: bool)
        ensures
            r == (self.method == Method::Get),
    {
        match self.method {
            Method::Get => true,
            _ => false,
        }
    }
}

/// A request ready to be sent: the URL with version and credentials, the
/// user agent, the media type for the accept and content-type headers, the
/// authorization header, the validator to send as `if-none-match`, and the
/// body.
#[derive(Debug)]
pub struct HttpRequest {
    pub method: Method,
    pub url: url::Url,
    pub user_agent: String,
    pub media: MediaType,
    pub authorization: Option<String>,
    pub if_none_match: Option<Vec<u8>>,
    pub body: Option<Vec<u8>>,
}

/// The view of an optional byte vector.
pub open spec fn opt_bytes(o: Option<Vec<u8>>) -> Option<Seq<u8>> {
    match o {
        Some(v) => Some(v@),
        None => None,
    }
}

impl AzureClient {
    /// Builds the request for a call. `cached_etag` is the validator stored
    /// for the URI, if the caller keeps a cache; it is sent only with a
    /// read.
    pub fn request(
        &self,
        method: Method,
        uri: &str,
        body: Option<Vec<u8>>,
        media_type: MediaType,
        authentication: AuthenticationConstraint,
        cached_etag: Option<Vec<u8>>,
    ) -> (r: Result<HttpRequest, ErrorKind>)
        ensures
            r is Ok <==> parsed_query(url_text(uri@, self@.api_version)) is Some,
            r matches Err(e) ==> e is Url,
            r matches Ok(req) ==> {
                let auth = authorization_of(self@.credentials);
                &&& req.method == method
                &&& url_query(req.url) == parsed_query(url_text(uri@, self@.api_version)).unwrap() + query_of(auth)
                &&& req.user_agent@ == self@.agent
                &&& req.media == media_type
                &&& opt_text(req.authorization) == header_of(auth)
                &&& opt_bytes(req.if_none_match) == (if method == Method::Get {
                    opt_bytes(cached_etag)
                } else {
                    None
                })
                &&& opt_bytes(req.body) == opt_bytes(body)
            },
    {
        match self.url_and_auth(uri, authentication) {
            Ok((u, a)) => {
                let if_none_match = match method {
                    Method::Get => cached_etag,
                    _ => None,
                };
                Ok(HttpRequest {
                    method,
                    url: u,
                    user_agent: String::from_str(self.agent()),
                    media: media_type,
                    authorization: a,
                    if_none_match,
                    body,
                })
            },
            Err(e) => Err(e),
        }
    }

    /// The call that reads `uri` on this client's host.
    pub fn get(&self, uri: &str) -> (r: ApiCall)
        ensures
            r.method == Method::Get,
            r.uri@ == self@.host + uri@,
            r.body is None,
            r.media == MediaType::Json,
            r.authentication == AuthenticationConstraint::Unconstrained,
    {
        self.get_media(uri, MediaType::Json)
    }

    /// The call that reads `uri` on this client's host in a media type.
    pub fn get_media(&self, uri: &str, media: MediaType) -> (r: ApiCall)
        ensures
            r.method == Method::Get,
            r.uri@ == self@.host + uri@,
            r.body is None,
            r.media == media,
            r.authentication == AuthenticationConstraint::Unconstrained,
    {
        ApiCall {
            method: Method::Get,
            uri: String::from_str(self.host_name()).concat(uri),
            body: None,
            media,
            authentication: AuthenticationConstraint::Unconstrained,
        }
    }

    /// The call that deletes `uri` on this client's host.
    pub fn delete(&self, uri: &str) -> (r: ApiCall)
        ensures
            r.method == Method::Delete,
            r.uri@ == self@.host + uri@,
            r.body is None,
            r.media == MediaType::Json,
            r.authentication == AuthenticationConstraint::Unconstrained,
    {
        ApiCall {
            method: Method::Delete,
            uri: String::from_str(self.host_name()).concat(uri),
            body: None,
            media: MediaType::Json,
            authentication: AuthenticationConstraint::Unconstrained,
        }
    }

    /// The call that posts a JSON message to `uri` on this client's host.
    pub fn post(&self, uri: &str, message: Vec<u8>) -> (r: ApiCall)
        ensures
            r.method == Method::Post,
            r.uri@ == self@.host + uri@,
            opt_bytes(r.body) == Some(message@),
            r.media == MediaType::Json,
            r.authentication == AuthenticationConstraint::Unconstrained,
    {
        self.post_media(uri, message, MediaType::Json, AuthenticationConstraint::Unconstrained)
    }

    /// The call that posts a message to `uri` on this client's host.
    pub fn post_media(
        &self,
        uri: &str,
        message: Vec<u8>,
        media: MediaType,
        authentication: AuthenticationConstraint,
    ) -> (r: ApiCall)
        ensures
            r.method == Method::Post,
            r.uri@ == self@.host + uri@,
            opt_bytes(r.body) == Some(message@),
            r.media == media,
            r.authentication == authentication,
    {
        ApiCall {
            method: Method::Post,
            uri: String::from_str(self.host_name()).concat(uri),
            body: Some(message),
            media,
            authentication,
        }
    }

    /// The call that patches `uri` on this client's host in a media type.
    pub fn patch_media(&self, uri: &str, message: Vec<u8>, media: MediaType) -> (r: ApiCall)
        ensures
            r.method == Method::Patch,
            r.uri@ == self@.host + uri@,
            opt_bytes(r.body) == Some(message@),
            r.media == media,
            r.authentication == AuthenticationConstraint::Unconstrained,
    {
        ApiCall {
            method: Method::Patch,
            uri: String::from_str(self.host_name()).concat(uri),
            body: Some(message),
            media,
            authentication: AuthenticationConstraint::Unconstrained,
        }
    }

    /// The call that patches `uri` on this client's host with JSON.
    pub fn patch(&self, uri: &str, message: Vec<u8>) -> (r: ApiCall)
        ensures
            r.method == Method::Patch,
            r.uri@ == self@.host + uri@,
            opt_bytes(r.body) == Some(message@),
            r.media == MediaType::Json,
            r.authentication == AuthenticationConstraint::Unconstrained,
    {
        self.patch_media(uri, message, MediaType::Json)
    }
}

/// Whether a JSON text is well formed.
pub uninterp spec fn json_parses(b: Seq<u8>) -> bool;

/// Relies on `serde_json::from_slice` into a `serde_json::Value`: it
/// succeeds exactly on well-formed JSON text.
#[verifier::external_body]
fn parse_json(b: &[u8]) -> (r: Result<serde_json::Value, serde_json::Error>)
    ensures
        r is Ok <==> json_parses(b@),
{
    serde_json::from_slice(b)
}

/// The "no content" status.
pub const NO_CONTENT: u16 = 204;

/// The "not modified" status.
pub const NOT_MODIFIED: u16 = 304;

/// Whether a status is a success.
pub open spec fn is_success(status: u16) -> bool {
    200 <= status < 300
}

/// The JSON text `null`.
pub open spec fn null_json() -> Seq<u8> {
    seq![110u8, 117u8, 108u8, 108u8]
}

/// The seconds to wait until the reset time; none once it has passed.
pub open spec fn wait_secs(reset: u32, now: u64) -> u64 {
    if reset as u64 > now {
        (reset as u64 - now) as u64
    } else {
        0
    }
}

/// The seconds from `now` until the reset time, and zero once it has passed.
pub fn rate_limit_wait(reset: u32, now: u64) -> (r: u64)
    ensures
        r == wait_secs(reset, now),
        reset as u64 >= now ==> r == reset as u64 - now,
{
    let reset = reset as u64;
    if reset > now {
        reset - now
    } else {
        0
    }
}

/// What a cache holds for a URI: the body and the `next` link stored with it.
#[derive(Debug)]
pub struct CachedResponse {
    pub body: Vec<u8>,
    pub next_link: Option<String>,
}

/// What to store in a cache for the URI of a successful read: the body, its
/// validator, and its `next` link.
#[derive(Debug)]
pub struct CacheUpdate {
    pub body: Vec<u8>,
    pub etag: Vec<u8>,
    pub next_link: Option<String>,
}

/// What a response comes to: the pagination links, the JSON text to decode
/// into the caller's type, and what to store in the cache.
#[derive(Debug)]
pub struct Reply {
    pub link: Option<hyperx::header::Link>,
    pub payload: Vec<u8>,
    pub cache_update: Option<CacheUpdate>,
}

/// Whether the response's `link` header is there, is text, and parses.
pub open spec fn has_link(h: http::HeaderMap<http::HeaderValue>) -> bool {
    match header_value(h, "link"@) {
        Some(v) => is_header_text(v) && parsed_link_entries(v) is Some,
        None => false,
    }
}

/// The entries of the response's link header, where it has one that parses.
pub open spec fn header_link_entries(h: http::HeaderMap<http::HeaderValue>) -> Seq<(Seq<char>, bool)> {
    parsed_link_entries(header_value(h, "link"@).unwrap()).unwrap()
}

/// The `next` target of an optional link header.
pub open spec fn next_of(l: Option<hyperx::header::Link>) -> Option<Seq<char>> {
    match l {
        Some(l) => first_next(link_entries(l)),
        None => None,
    }
}

/// Whether a failed response reports a used-up quota with a reset time.
pub open spec fn is_rate_limited(h: http::HeaderMap<http::HeaderValue>) -> bool {
    header_number(h, "x-ratelimit-remaining"@) == Some(0u32)
        && header_number(h, "x-ratelimit-reset"@) is Some
}

/// The meaning of a successful response.
pub open spec fn success_reply(
    status: u16,
    h: http::HeaderMap<http::HeaderValue>,
    body: Seq<u8>,
    rep: Reply,
) -> bool {
    &&& rep.payload@ == (if status == 204 { null_json() } else { body })
    &&& (rep.link is Some <==> has_link(h))
    &&& (rep.link matches Some(l) ==> link_entries(l) == header_link_entries(h))
    &&& match header_value(h, "etag"@) {
        None => rep.cache_update is None,
        Some(t) => rep.cache_update matches Some(u) && u.body@ == body && u.etag@ == t
            && opt_string_view(u.next_link) == next_of(rep.link),
    }
}

/// The meaning of a "not modified" response, given what the cache holds.
pub open spec fn not_modified_reply(
    h: http::HeaderMap<http::HeaderValue>,
    cached: CachedResponse,
    rep: Reply,
) -> bool {
    &&& rep.payload@ == cached.body@
    &&& rep.cache_update is None
    &&& if has_link(h) {
        rep.link matches Some(l) && link_entries(l) == header_link_entries(h)
    } else {
        match cached.next_link {
            Some(n) => rep.link matches Some(l) && link_entries(l) == seq![(n@, true)],
            None => rep.link is None,
        }
    }
}

/// The meaning of a response that is neither success nor "not modified".
pub open spec fn failure(
    status: u16,
    h: http::HeaderMap<http::HeaderValue>,
    body: Seq<u8>,
    now: u64,
    e: ErrorKind,
) -> bool {
    if is_rate_limited(h) {
        e matches ErrorKind::RateLimit { reset } && reset == wait_secs(
            header_number(h, "x-ratelimit-reset"@).unwrap(),
            now,
        )
    } else if json_parses(body) {
        e matches ErrorKind::Fault { code, .. } && code == status
    } else {
        e is Codec
    }
}

fn response_link(headers: &http::HeaderMap<http::HeaderValue>) -> (r: Option<hyperx::header::Link>)
    ensures
        r is Some <==> has_link(*headers),
        r matches Some(l) ==> link_entries(l) == header_link_entries(*headers),
{
    proof {
        reveal_strlit("link");
    }
    match header_bytes(headers, LINK) {
        Some(v) => parse_link_header(v.as_slice()),
        None => None,
    }
}

/// Interprets a response to a request: its status, headers and body, the
/// time now in seconds since the epoch, and, for a "not modified" status,
/// what the cache holds for the request's URI.
///
/// A success hands back the body to decode (`null` for "no content") and,
/// where the response carries a validator, what to cache. "Not modified"
/// hands back the cached body, and the cached `next` link where the
/// response has no link header. Any other status is a rate-limit error when
/// no calls remain and a reset time is given, else a fault with the decoded
/// error payload.
pub fn handle_response(
    status: u16,
    headers: &http::HeaderMap<http::HeaderValue>,
    body: Vec<u8>,
    now: u64,
    cached: Option<CachedResponse>,
) -> (r: Result<Reply, ErrorKind>)
    ensures
        is_success(status) ==> (r matches Ok(rep) && success_reply(status, *headers, body@, rep)),
        status == 304 ==> match cached {
            None => r matches Err(ErrorKind::Cache),
            Some(c) => r matches Ok(rep) && not_modified_reply(*headers, c, rep),
        },
        !is_success(status) && status != 304 ==> (r matches Err(e) && failure(
            status,
            *headers,
            body@,
            now,
            e,
        )),
{
    proof {
        reveal_strlit("x-ratelimit-remaining");
        reveal_strlit("x-ratelimit-reset");
        reveal_strlit("etag");
        reveal_strlit("link");
    }
    let (remaining, reset, etag) = get_header_values(headers);
    let link = response_link(headers);
    if 200 <= status && status < 300 {
        let cache_update = match etag {
            Some(etag) => {
                let next = match &link {
                    Some(l) => next_link(l),
                    None => None,
                };
                Some(CacheUpdate { body: body.clone(), etag, next_link: next })
            },
            None => None,
        };
        let payload = if status == NO_CONTENT {
            vec![110u8, 117u8, 108u8, 108u8]
        } else {
            body
        };
        let rep = Reply { link, payload, cache_update };
        assert(rep.payload@ == (if status == 204 { null_json() } else { body@ }));
        Ok(rep)
    } else if status == NOT_MODIFIED {
        match cached {
            Some(c) => {
                let link = match link {
                    Some(l) => Some(l),
                    None => match c.next_link {
                        Some(n) => Some(next_link_header(n)),
                        None => None,
                    },
                };
                Ok(Reply { link, payload: c.body, cache_update: None })
            },
            None => Err(ErrorKind::Cache),
        }
    } else {
        match (remaining, reset) {
            (Some(0u32), Some(reset)) => Err(ErrorKind::RateLimit { reset: rate_limit_wait(reset, now) }),
            _ => match parse_json(body.as_slice()) {
                Ok(error) => Err(ErrorKind::Fault { code: status, error }),
                Err(e) => Err(ErrorKind::Codec(e)),
            },
        }
    }
}

} // verus!
