//! Credentials and the URL a request is sent to.
use vstd::prelude::*;
use crate::config::{AuthenticationConstraint, AzureClient, Credentials, CredentialsView, ApiVersion};
use crate::error::ErrorKind;

verus! {

#[verifier::external_type_specification]
#[verifier::external_body]
pub struct ExUrl(url::Url);

/// Standard base64 (with padding) of the UTF-8 bytes of a text.
pub uninterp spec fn base64_of(s: Seq<char>) -> Seq<char>;

/// The decoded query pairs of the URL a text parses as, or `None` when the
/// text is not an absolute URL.
pub uninterp spec fn parsed_query(s: Seq<char>) -> Option<Seq<(Seq<char>, Seq<char>)>>;

/// The decoded name/value pairs of a URL's query, in order.
pub uninterp spec fn url_query(u: url::Url) -> Seq<(Seq<char>, Seq<char>)>;

/// Relies on `base64::encode` (standard alphabet, padded), whose result
/// depends on the text alone; no `str` is long enough for its size
/// computation to overflow.
#[verifier::external_body]
fn base64_encode(s: &str) -> (r: String)
    ensures
        r@ == base64_of(s@),
{
    base64::encode(s)
}

/// Relies on `url::Url::parse`: it accepts a text or returns its parse
/// error; the URL it builds depends on the text alone, and `query_pairs`
/// decodes that URL's query.
#[verifier::external_body]
fn parse_url(s: &str) -> (r: Result<url::Url, url::ParseError>)
    ensures
        r is Ok <==> parsed_query(s@) is Some,
        r matches Ok(u) ==> url_query(u) == parsed_query(s@).unwrap(),
{
    url::Url::parse(s)
}

/// Relies on `url::Url::query_pairs_mut` and `append_pair`: the pair is
/// form-encoded after the query's existing pairs, which decode as before.
#[verifier::external_body]
fn append_query_pair(u: &mut url::Url, key: &str, value: &str)
    ensures
        url_query(*final(u)) == url_query(*old(u)).push((key@, value@)),
{
    u.query_pairs_mut().append_pair(key, value);
}

/// The header value sent for an OAuth token.
pub open spec fn token_header(token: Seq<char>) -> Seq<char> {
    "token "@ + token
}

/// The header value sent for a personal access token.
pub open spec fn basic_header(token: Seq<char>) -> Seq<char> {
    "Basic "@ + base64_of("pat:"@ + token)
}

/// What credentials add to a request.
#[derive(Debug, PartialEq, Eq)]
pub enum Authorization {
    /// Two query parameters: the client id and the client secret.
    Query { client_id: String, client_secret: String },
    /// An authorization header with this value.
    Header(String),
    /// Nothing.
    Anonymous,
}

/// The mathematical value of an [`Authorization`].
pub enum AuthorizationView {
    Query { client_id: Seq<char>, client_secret: Seq<char> },
    Header(Seq<char>),
    Anonymous,
}

impl View for Authorization {
    type V = AuthorizationView;

    open spec fn view(&self) -> AuthorizationView {
        match self {
            Authorization::Query { client_id, client_secret } => AuthorizationView::Query {
                client_id: client_id@,
                client_secret: client_secret@,
            },
            Authorization::Header(h) => AuthorizationView::Header(h@),
            Authorization::Anonymous => AuthorizationView::Anonymous,
        }
    }
}

/// What each form of credentials adds to a request: one header value, two
/// query parameters, or nothing when there are none.
pub open spec fn authorization_of(c: Option<CredentialsView>) -> AuthorizationView {
    match c {
        Some(CredentialsView::Token(t)) => AuthorizationView::Header(token_header(t)),
        Some(CredentialsView::Basic(t)) => AuthorizationView::Header(basic_header(t)),
        Some(CredentialsView::Client(id, secret)) => AuthorizationView::Query {
            client_id: id,
            client_secret: secret,
        },
        None => AuthorizationView::Anonymous,
    }
}

/// The header value an authorization sends, if any.
pub open spec fn header_of(a: AuthorizationView) -> Option<Seq<char>> {
    match a {
        AuthorizationView::Header(h) => Some(h),
        _ => None,
    }
}

/// The query parameters an authorization adds.
pub open spec fn query_of(a: AuthorizationView) -> Seq<(Seq<char>, Seq<char>)> {
    match a {
        AuthorizationView::Query { client_id, client_secret } => seq![
            ("client_id"@, client_id),
            ("client_secret"@, client_secret),
        ],
        _ => seq![],
    }
}

/// Turns credentials into what they add to a request.
pub fn resolve_credentials(credentials: Option<&Credentials>) -> (r: Authorization)
    ensures
        r@ == authorization_of(
            match credentials {
                Some(c) => Some(c@),
                None => None,
            },
        ),
{
    match credentials {
        Some(Credentials::Client(id, secret)) => Authorization::Query {
            client_id: id.clone(),
            client_secret: secret.clone(),
        },
        Some(Credentials::Token(token)) => {
            let auth = String::from_str("token ").concat(token.as_str());
            Authorization::Header(auth)
        },
        Some(Credentials::Basic(token)) => {
            let user = String::from_str("pat:").concat(token.as_str());
            let encoded = base64_encode(user.as_str());
            Authorization::Header(String::from_str("Basic ").concat(encoded.as_str()))
        },
        None => Authorization::Anonymous,
    }
}

/// Each form of credentials has exactly one effect on a request, and no
/// credentials have none: a token gives the header `token X`, a personal
/// access token the header `Basic` with the base64 of `pat:X`, client
/// credentials the two query parameters `client_id` and `client_secret` and
/// no header.
pub proof fn lemma_credentials_effects(c: Option<CredentialsView>)
    ensures
        c is None ==> header_of(authorization_of(c)) is None && query_of(authorization_of(c)).len() == 0,
        c matches Some(CredentialsView::Token(t)) ==> header_of(authorization_of(c)) == Some("token "@ + t)
            && query_of(authorization_of(c)).len() == 0,
        c matches Some(CredentialsView::Basic(t)) ==> header_of(authorization_of(c)) == Some(
            "Basic "@ + base64_of("pat:"@ + t),
        ) && query_of(authorization_of(c)).len() == 0,
        c matches Some(CredentialsView::Client(id, secret)) ==> header_of(authorization_of(c)) is None
            && query_of(authorization_of(c)) == seq![("client_id"@, id), ("client_secret"@, secret)],
        header_of(authorization_of(c)) is None || query_of(authorization_of(c)).len() == 0,
{
}

/// On the request URL the same holds: with a token, a personal access token
/// or no credentials the URL's query is that of the parsed text, with client
/// credentials it is that query followed by `client_id` and `client_secret`.
pub proof fn lemma_url_credentials_effects(
    c: Option<CredentialsView>,
    parsed: Seq<(Seq<char>, Seq<char>)>,
    query: Seq<(Seq<char>, Seq<char>)>,
)
    requires
        query == parsed + query_of(authorization_of(c)),
    ensures
        !(c matches Some(CredentialsView::Client(_, _))) ==> query == parsed,
        c matches Some(CredentialsView::Client(id, secret)) ==> query == parsed + seq![
            ("client_id"@, id),
            ("client_secret"@, secret),
        ],
{
    if !(c matches Some(CredentialsView::Client(_, _))) {
        assert(query =~= parsed);
    }
}

/// Whether a URI already has a query.
pub open spec fn has_query(uri: Seq<char>) -> bool {
    uri.contains('?')
}

/// The text of a request URL: the API version is added as a query
/// parameter of its own, after `?`, or after `&` where the URI already has a
/// query.
pub open spec fn url_text(uri: Seq<char>, version: ApiVersion) -> Seq<char> {
    uri + (if has_query(uri) {
        "&"@
    } else {
        "?"@
    }) + version.spec_query()
}

/// Whether a URI has a `?`.
pub fn uri_has_query(uri: &str) -> (r: bool)
    ensures
        r == has_query(uri@),
{
    let n = uri.unicode_len();
    let mut i: usize = 0;
    while i < n
        invariant
            i <= n,
            n == uri@.len(),
            forall|j: int| 0 <= j < i ==> uri@[j] != '?',
        decreases n - i,
    {
        if uri.get_char(i) == '?' {
            return true;
        }
        i = i + 1;
    }
    false
}

/// The text of the request URL for `uri` under an API version.
pub fn versioned_uri(uri: &str, version: ApiVersion) -> (r: String)
    ensures
        r@ == url_text(uri@, version),
{
    proof {
        reveal_strlit("?");
        reveal_strlit("&");
    }
    let sep = if uri_has_query(uri) {
        "&"
    } else {
        "?"
    };
    String::from_str(uri).concat(sep).concat(version.as_str())
}

/// The view of an optional text.
pub open spec fn opt_text(o: Option<String>) -> Option<Seq<char>> {
    match o {
        Some(s) => Some(s@),
        None => None,
    }
}

/// Applies an authorization to a URL: query parameters are appended to it,
/// a header value is handed back.
pub fn authorize(url: url::Url, authorization: Authorization) -> (r: (url::Url, Option<String>))
    ensures
        url_query(r.0) == url_query(url) + query_of(authorization@),
        opt_text(r.1) == header_of(authorization@),
{
    match authorization {
        Authorization::Query { client_id, client_secret } => {
            let mut u = url;
            append_query_pair(&mut u, "client_id", client_id.as_str());
            append_query_pair(&mut u, "client_secret", client_secret.as_str());
            assert(url_query(u) =~= url_query(url) + query_of(authorization@));
            (u, None)
        },
        Authorization::Header(h) => {
            assert(url_query(url) =~= url_query(url) + query_of(authorization@));
            (url, Some(h))
        },
        Authorization::Anonymous => {
            assert(url_query(url) =~= url_query(url) + query_of(authorization@));
            (url, None)
        },
    }
}

impl AzureClient {
    /// The URL of a request to `uri` and the authorization header to send
    /// with it: the API version is appended as the query, then the
    /// credentials are applied.
    pub fn url_and_auth(&self, uri: &str, authentication: AuthenticationConstraint) -> (r: Result<(url::Url, Option<String>), ErrorKind>)
        ensures
            r is Ok <==> parsed_query(url_text(uri@, self@.api_version)) is Some,
            r matches Err(e) ==> e is Url,
            r matches Ok((u, a)) ==> {
                let auth = authorization_of(self@.credentials);
                &&& opt_text(a) == header_of(auth)
                &&& url_query(u) == parsed_query(url_text(uri@, self@.api_version)).unwrap() + query_of(auth)
            },
    {
        let text = versioned_uri(uri, self.api_version());
        let authorization = resolve_credentials(self.credentials(authentication));
        match parse_url(text.as_str()) {
            Ok(url) => Ok(authorize(url, authorization)),
            Err(e) => Err(ErrorKind::Url(e)),
        }
    }
}

} // verus!
