use azure_rs::projects::ProjectOptions;
use azure_rs::pull_requests::{PullListOptions, PullStatus, PullUpdateOptions, MergeStrategy};
use azure_rs::query::QueryParams;
use azure_rs::repository::{RepoListOptions, RepoOptions};
use azure_rs::text::decimal_text;
use azure_rs::{handle_response, AuthenticationConstraint, AzureClient, Method};
use http::header::HeaderMap;

fn client() -> AzureClient {
    AzureClient::new("agent".to_string(), "myorg".to_string(), None)
}

#[test]
fn list_repositories_end_to_end() {
    let c = client();
    let call = c.repos("P".to_string()).list(&RepoListOptions::default());
    assert_eq!(call.method, Method::Get);
    assert_eq!(call.uri, "https://dev.azure.com/myorg/P/_apis/git/repositories");
    let req = c
        .request(call.method, &call.uri, call.body, call.media, call.authentication, None)
        .unwrap();
    assert_eq!(req.url.as_str(), "https://dev.azure.com/myorg/P/_apis/git/repositories?api-version=5.1");
    let reply = handle_response(200, &HeaderMap::new(), b"{\"value\":[],\"count\":0}".to_vec(), 0, None).unwrap();
    let v: serde_json::Value = serde_json::from_slice(&reply.payload).unwrap();
    assert_eq!(v["value"].as_array().unwrap().len(), 0);
    assert_eq!(v["count"], 0);
}

#[test]
fn list_repositories_with_options() {
    let c = client();
    let mut b = RepoListOptions::builder();
    b.include_hidden(true).include_links(false);
    b.include_hidden(false);
    let call = c.repos("P".to_string()).list(&b.build());
    assert_eq!(call.uri, "https://dev.azure.com/myorg/P/_apis/git/repositories?includeHidden=false&includeLinks=false");
}

#[test]
fn project_paths() {
    let c = client();
    assert_eq!(c.projects().list(&ProjectOptions::default()).uri, "https://dev.azure.com/myorg//_apis/projects");
    let create = c.projects().create(b"{}".to_vec());
    assert_eq!(create.method, Method::Post);
    assert_eq!(create.body, Some(b"{}".to_vec()));
    assert_eq!(c.project("P".to_string()).get().uri, "https://dev.azure.com/myorg/_apis/projects/P");
    assert_eq!(c.project("P".to_string()).delete().method, Method::Delete);
}

#[test]
fn repository_and_pull_request_paths() {
    let mut c = client();
    c.set_host("https://example.test".to_string());
    let repo = c.repo("P".to_string(), "R".to_string());
    assert_eq!(repo.get().uri, "https://example.test/myorg/P/_apis/git/repositories/R");
    assert_eq!(repo.delete().method, Method::Delete);
    assert_eq!(repo.pull(42).get().uri, "https://example.test/myorg/P/_apis/git/repositories/R/pullrequests/42");
    let update = repo.pulls().pull(7).update(b"{}".to_vec());
    assert_eq!(update.method, Method::Patch);
    assert_eq!(update.uri, "https://example.test/myorg/P/_apis/git/repositories/R/pullrequests/7");
    assert_eq!(repo.pulls().create(b"{}".to_vec()).uri, "https://example.test/myorg/P/_apis/git/repositories/R/pullrequests");
}

#[test]
fn pull_request_listing() {
    let c = client();
    let mut b = PullListOptions::builder();
    b.status(PullStatus::Active).top(10);
    let call = c.repo("P".to_string(), "R".to_string()).pulls().list(b.build());
    assert_eq!(
        call.uri,
        "https://dev.azure.com/myorg/P/_apis/git/repositories/R/pullrequests?searchCriteria.status=active&top=10"
    );
    let empty = c.repo("P".to_string(), "R".to_string()).pulls().list(PullListOptions::default());
    assert_eq!(empty.uri, "https://dev.azure.com/myorg/P/_apis/git/repositories/R/pullrequests");
    assert_eq!(b.build().serialize(), Some("searchCriteria.status=active&top=10".to_string()));
}

#[test]
fn query_parameters_keep_one_value_per_name() {
    let mut q = QueryParams::new();
    assert_eq!(q.serialize(), None);
    q.insert("a b", "x&y".to_string());
    q.insert("c", "1".to_string());
    q.insert("a b", "z".to_string());
    assert_eq!(q.len(), 2);
    assert_eq!(q.get(0), ("a b", "z"));
    assert_eq!(q.serialize(), Some("a+b=z&c=1".to_string()));
}

#[test]
fn update_options_builder() {
    let mut b = PullUpdateOptions::builder();
    b.title("t".to_string()).status(PullStatus::Abandoned).merge_strategy(MergeStrategy::Rebase).draft(true);
    let o = b.build();
    assert_eq!(o.title, Some("t".to_string()));
    assert_eq!(o.description, None);
    assert_eq!(o.status, Some(PullStatus::Abandoned));
    assert_eq!(o.merge_strategy, Some(MergeStrategy::Rebase));
    assert_eq!(o.draft, Some(true));
}

#[test]
fn enumeration_texts_and_defaults() {
    assert_eq!(PullStatus::NotSet.as_str(), "notSet");
    assert_eq!(PullStatus::default(), PullStatus::NotSet);
    assert_eq!(MergeStrategy::default(), MergeStrategy::Squash);
    assert_eq!(MergeStrategy::NoFastForward.as_str(), "noFastForward");
    assert_eq!(azure_rs::ApiVersion::default().as_str(), "api-version=5.1");
    assert_eq!(azure_rs::SortDirection::Desc.as_str(), "desc");
    assert_eq!(azure_rs::MediaType::default().mime(), "application/json");
    assert_eq!(RepoOptions::builder("r".to_string()).build().name, "r");
    let _ = AuthenticationConstraint::Unconstrained;
}

#[test]
fn decimal_texts() {
    assert_eq!(decimal_text(0), "0");
    assert_eq!(decimal_text(907), "907");
    assert_eq!(decimal_text(u64::MAX), "18446744073709551615");
}

#[test]
fn only_reads_take_a_validator() {
    let c = client();
    assert!(c.project("P".to_string()).get().is_read());
    assert!(!c.project("P".to_string()).delete().is_read());
    assert!(!c.projects().create(Vec::new()).is_read());
}

#[test]
fn version_is_a_query_parameter_of_its_own() {
    let c = client();
    let mut b = RepoListOptions::builder();
    b.include_hidden(true);
    let call = c.repos("P".to_string()).list(&b.build());
    let req = c
        .request(call.method, &call.uri, call.body, call.media, call.authentication, None)
        .unwrap();
    assert_eq!(
        req.url.as_str(),
        "https://dev.azure.com/myorg/P/_apis/git/repositories?includeHidden=true&api-version=5.1"
    );
    let pairs: Vec<(String, String)> = req.url.query_pairs().map(|(k, v)| (k.into_owned(), v.into_owned())).collect();
    assert_eq!(pairs.len(), 2);
    assert_eq!(pairs[1], ("api-version".to_string(), "5.1".to_string()));
}

#[test]
fn status_updates() {
    let a = PullUpdateOptions::active();
    assert_eq!(a.status, Some(PullStatus::Active));
    assert_eq!(a.title, None);
    let b = PullUpdateOptions::abandon();
    assert_eq!(b.status, Some(PullStatus::Abandoned));
    assert!(b.source_commit.is_none());
}
