use azure_rs::{resolve_credentials, ApiVersion, AuthenticationConstraint, Authorization, AzureClient, Credentials, ErrorKind, MediaType, Method};

fn client(credentials: Option<Credentials>) -> AzureClient {
    AzureClient::new("agent".to_string(), "org".to_string(), credentials)
}

#[test]
fn token_credentials_give_a_token_header() {
    let c = Credentials::Token("abc".to_string());
    assert_eq!(resolve_credentials(Some(&c)), Authorization::Header("token abc".to_string()));
}

#[test]
fn basic_credentials_give_a_base64_header() {
    let c = Credentials::Basic("abc".to_string());
    assert_eq!(resolve_credentials(Some(&c)), Authorization::Header("Basic cGF0OmFiYw==".to_string()));
    let c = Credentials::Basic("my-token".to_string());
    assert_eq!(resolve_credentials(Some(&c)), Authorization::Header("Basic cGF0Om15LXRva2Vu".to_string()));
}

#[test]
fn client_credentials_give_query_parameters() {
    let c = Credentials::Client("id".to_string(), "secret".to_string());
    assert_eq!(
        resolve_credentials(Some(&c)),
        Authorization::Query { client_id: "id".to_string(), client_secret: "secret".to_string() }
    );
    assert_eq!(resolve_credentials(None), Authorization::Anonymous);
}

#[test]
fn url_and_auth_appends_version_and_client_pairs() {
    let c = client(Some(Credentials::Client("my id".to_string(), "s&t".to_string())));
    let (url, auth) = c.url_and_auth("https://dev.azure.com/org/P", AuthenticationConstraint::Unconstrained).unwrap();
    assert_eq!(auth, None);
    assert_eq!(url.as_str(), "https://dev.azure.com/org/P?api-version=5.1&client_id=my+id&client_secret=s%26t");
    let pairs: Vec<(String, String)> = url.query_pairs().map(|(k, v)| (k.into_owned(), v.into_owned())).collect();
    assert_eq!(pairs[1], ("client_id".to_string(), "my id".to_string()));
    assert_eq!(pairs[2], ("client_secret".to_string(), "s&t".to_string()));
}

#[test]
fn url_and_auth_with_token_and_other_version() {
    let mut c = client(Some(Credentials::Token("t0k".to_string())));
    c.set_api_version(ApiVersion::V5_0);
    let (url, auth) = c.url_and_auth("https://dev.azure.com/org", AuthenticationConstraint::Unconstrained).unwrap();
    assert_eq!(auth, Some("token t0k".to_string()));
    assert_eq!(url.as_str(), "https://dev.azure.com/org?api-version=5.0");
    let pairs: Vec<(String, String)> = url.query_pairs().map(|(k, v)| (k.into_owned(), v.into_owned())).collect();
    assert_eq!(pairs, vec![("api-version".to_string(), "5.0".to_string())]);
}

#[test]
fn url_and_auth_rejects_a_relative_path() {
    let c = client(None);
    let r = c.url_and_auth("/org/P", AuthenticationConstraint::Unconstrained);
    assert!(matches!(r, Err(ErrorKind::Url(_))));
}

#[test]
fn set_credentials_replaces_the_old_ones() {
    let mut c = client(Some(Credentials::Token("a".to_string())));
    c.set_credentials(None);
    let (_, auth) = c.url_and_auth("https://h/x", AuthenticationConstraint::Unconstrained).unwrap();
    assert_eq!(auth, None);
    c.set_credentials(Some(Credentials::Basic("abc".to_string())));
    let (_, auth) = c.url_and_auth("https://h/x", AuthenticationConstraint::Unconstrained).unwrap();
    assert_eq!(auth, Some("Basic cGF0OmFiYw==".to_string()));
}

#[test]
fn request_sends_the_validator_only_with_a_read() {
    let c = client(Some(Credentials::Token("abc".to_string())));
    let get = c
        .request(Method::Get, "https://h/a", None, MediaType::Json, AuthenticationConstraint::Unconstrained, Some(b"v1".to_vec()))
        .unwrap();
    assert_eq!(get.if_none_match, Some(b"v1".to_vec()));
    assert_eq!(get.user_agent, "agent");
    assert_eq!(get.authorization, Some("token abc".to_string()));
    assert_eq!(get.url.as_str(), "https://h/a?api-version=5.1");
    let post = c
        .request(
            Method::Post,
            "https://h/a",
            Some(b"{}".to_vec()),
            MediaType::JsonPatch,
            AuthenticationConstraint::Unconstrained,
            Some(b"v1".to_vec()),
        )
        .unwrap();
    assert_eq!(post.if_none_match, None);
    assert_eq!(post.body, Some(b"{}".to_vec()));
    assert_eq!(post.media.mime(), "application/json-patch+json");
}
