//! The client's configuration and the small enumerations it is made of.
use vstd::prelude::*;

verus! {

/// The host that requests go to unless another is set.
pub const DEFAULT_HOST: &'static str = "https://dev.azure.com";

/// The media type that a request body is sent in and a response is asked for.
#[derive(Clone, Copy, Debug, PartialEq, Eq, Structural)]
pub enum MediaType {
    /// Plain JSON (the default).
    Json,
    /// A JSON patch document.
    JsonPatch,
}

impl Default for MediaType {
    fn default() -> (r: MediaType)
        ensures
            r == MediaType::Json,
    {
        MediaType::Json
    }
}

impl MediaType {
    /// The MIME text of the media type.
    pub open spec fn spec_mime(self) -> Seq<char> {
        match self {
            MediaType::Json => "application/json"@,
            MediaType::JsonPatch => "application/json-patch+json"@,
        }
    }

    /// The MIME text of the media type.
    pub fn mime(&self) -> (r: &'static str)
        ensures
            r@ == self.spec_mime(),
    {
        match self {
            MediaType::Json => "application/json",
            MediaType::JsonPatch => "application/json-patch+json",
        }
    }
}

/// What sort of authentication a request requires.
#[derive(Clone, Copy, Debug, PartialEq, Eq, Structural)]
pub enum AuthenticationConstraint {
    /// No constraint: the configured credentials, if any, are used.
    Unconstrained,
}

/// The order in which a list is sorted.
#[derive(Clone, Copy, Debug, PartialEq, Eq, Structural)]
pub enum SortDirection {
    /// Ascending order (the default).
    Asc,
    /// Descending order.
    Desc,
}

impl Default for SortDirection {
    fn default() -> (r: SortDirection)
        ensures
            r == SortDirection::Asc,
    {
        SortDirection::Asc
    }
}

impl SortDirection {
    /// The text of the direction in a query.
    pub open spec fn spec_text(self) -> Seq<char> {
        match self {
            SortDirection::Asc => "asc"@,
            SortDirection::Desc => "desc"@,
        }
    }

    /// The text of the direction in a query.
    pub fn as_str(&self) -> (r: &'static str)
        ensures
            r@ == self.spec_text(),
    {
        match self {
            SortDirection::Asc => "asc",
            SortDirection::Desc => "desc",
        }
    }
}

/// The API versions that requests can be made against.
#[derive(Clone, Copy, Debug, PartialEq, Eq, Structural)]
pub enum ApiVersion {
    /// Version 5.1 (the default).
    V5_1,
    /// Version 5.0.
    V5_0,
}

impl Default for ApiVersion {
    fn default() -> (r: ApiVersion)
        ensures
            r == ApiVersion::V5_1,
    {
        ApiVersion::V5_1
    }
}

impl ApiVersion {
    /// The query parameter that marks a request with this version.
    pub open spec fn spec_query(self) -> Seq<char> {
        match self {
            ApiVersion::V5_1 => "api-version=5.1"@,
            ApiVersion::V5_0 => "api-version=5.0"@,
        }
    }

    /// The query parameter that marks a request with this version.
    pub fn as_str(&self) -> (r: &'static str)
        ensures
            r@ == self.spec_query(),
    {
        match self {
            ApiVersion::V5_1 => "api-version=5.1",
            ApiVersion::V5_0 => "api-version=5.0",
        }
    }
}

/// The forms of credentials that the service accepts.
#[derive(Debug, PartialEq, Eq)]
pub enum Credentials {
    /// An OAuth token, sent in a header.
    Token(String),
    /// A personal access token, sent base64 encoded in a basic header.
    Basic(String),
    /// An OAuth client id and secret, sent as query parameters.
    Client(String, String),
}

/// The mathematical value of a credential.
pub enum CredentialsView {
    Token(Seq<char>),
    Basic(Seq<char>),
    Client(Seq<char>, Seq<char>),
}

impl View for Credentials {
    type V = CredentialsView;

    open spec fn view(&self) -> CredentialsView {
        match self {
            Credentials::Token(t) => CredentialsView::Token(t@),
            Credentials::Basic(t) => CredentialsView::Basic(t@),
            Credentials::Client(id, secret) => CredentialsView::Client(id@, secret@),
        }
    }
}

/// The view of optional credentials.
pub open spec fn creds_view(c: Option<Credentials>) -> Option<CredentialsView> {
    match c {
        Some(c) => Some(c@),
        None => None,
    }
}

impl Clone for Credentials {
    fn clone(&self) -> (r: Credentials)
        ensures
            r@ == self@,
    {
        match self {
            Credentials::Token(t) => Credentials::Token(t.clone()),
            Credentials::Basic(t) => Credentials::Basic(t.clone()),
            Credentials::Client(id, secret) => Credentials::Client(id.clone(), secret.clone()),
        }
    }
}

/// The configuration every request is made with: host, user agent,
/// organization, credentials and API version.
#[derive(Debug)]
pub struct AzureClient {
    host: String,
    agent: String,
    org: String,
    credentials: Option<Credentials>,
    api_version: ApiVersion,
}

/// The mathematical value of a client's configuration.
pub struct AzureClientView {
    pub host: Seq<char>,
    pub agent: Seq<char>,
    pub org: Seq<char>,
    pub credentials: Option<CredentialsView>,
    pub api_version: ApiVersion,
}

impl View for AzureClient {
    type V = AzureClientView;

    closed spec fn view(&self) -> AzureClientView {
        AzureClientView {
            host: self.host@,
            agent: self.agent@,
            org: self.org@,
            credentials: creds_view(self.credentials),
            api_version: self.api_version,
        }
    }
}

impl Clone for AzureClient {
    fn clone(&self) -> (r: AzureClient)
        ensures
            r@ == self@,
    {
        let credentials = match &self.credentials {
            Some(c) => Some(c.clone()),
            None => None,
        };
        AzureClient {
            host: self.host.clone(),
            agent: self.agent.clone(),
            org: self.org.clone(),
            credentials,
            api_version: self.api_version,
        }
    }
}

impl AzureClient {
    /// A client for the default host.
    pub fn new(agent: String, org: String, credentials: Option<Credentials>) -> (r: AzureClient)
        ensures
            r@.host == DEFAULT_HOST@,
            r@.agent == agent@,
            r@.org == org@,
            r@.credentials == creds_view(credentials),
            r@.api_version == ApiVersion::V5_1,
    {
        Self::host(String::from_str(DEFAULT_HOST), agent, org, credentials)
    }

    /// A client for the given host.
    pub fn host(host: String, agent: String, org: String, credentials: Option<Credentials>) -> (r: AzureClient)
        ensures
            r@.host == host@,
            r@.agent == agent@,
            r@.org == org@,
            r@.credentials == creds_view(credentials),
            r@.api_version == ApiVersion::V5_1,
    {
        Self::custom(host, agent, org, credentials)
    }

    /// A client made of the given parts, with the default API version.
    pub fn custom(host: String, agent: String, org: String, credentials: Option<Credentials>) -> (r: AzureClient)
        ensures
            r@.host == host@,
            r@.agent == agent@,
            r@.org == org@,
            r@.credentials == creds_view(credentials),
            r@.api_version == ApiVersion::V5_1,
    {
        AzureClient { host, agent, org, credentials, api_version: ApiVersion::default() }
    }

    /// Replaces the credentials; the old ones are discarded.
    pub fn set_credentials(&mut self, credentials: Option<Credentials>)
        ensures
            final(self)@ == (AzureClientView { credentials: creds_view(credentials), ..old(self)@ }),
    {
        self.credentials = credentials;
    }

    /// Replaces the API version.
    pub fn set_api_version(&mut self, version: ApiVersion)
        ensures
            final(self)@ == (AzureClientView { api_version: version, ..old(self)@ }),
    {
        self.api_version = version;
    }

    /// Replaces the host.
    pub fn set_host(&mut self, host: String)
        ensures
            final(self)@ == (AzureClientView { host: host@, ..old(self)@ }),
    {
        self.host = host;
    }

    /// Replaces the organization.
    pub fn set_organization(&mut self, org: String)
        ensures
            final(self)@ == (AzureClientView { org: org@, ..old(self)@ }),
    {
        self.org = org;
    }

    /// The host.
    pub fn host_name(&self) -> (r: &str)
        ensures
            r@ == self@.host,
    {
        self.host.as_str()
    }

    /// The user agent.
    pub fn agent(&self) -> (r: &str)
        ensures
            r@ == self@.agent,
    {
        self.agent.as_str()
    }

    /// The organization.
    pub fn organization(&self) -> (r: &str)
        ensures
            r@ == self@.org,
    {
        self.org.as_str()
    }

    /// The API version.
    pub fn api_version(&self) -> (r: ApiVersion)
        ensures
            r == self@.api_version,
    {
        self.api_version
    }

    /// The credentials to use under the given constraint.
    pub fn credentials(&self, authentication: AuthenticationConstraint) -> (r: Option<&Credentials>)
        ensures
            match r {
                Some(c) => self@.credentials == Some(c@),
                None => self@.credentials is None,
            },
    {
        match authentication {
            AuthenticationConstraint::Unconstrained => self.credentials.as_ref(),
        }
    }
}

} // verus!
