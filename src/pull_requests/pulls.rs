//! The pull requests of a repository.
use vstd::prelude::*;
use crate::config::{AuthenticationConstraint, AzureClient, AzureClientView, MediaType};
use crate::exchange::{opt_bytes, ApiCall, Method};
use crate::projects::{append_query, query_text, with_query};
use super::{PullListOptions, PullRequest};

verus! {

/// The path of a repository's pull requests:
/// `/{org}/{project}/_apis/git/repositories/{repo}/pullrequests{more}`.
pub open spec fn pulls_path(org: Seq<char>, project: Seq<char>, repo: Seq<char>, more: Seq<char>) -> Seq<char> {
    "/"@ + org + "/"@ + project + "/_apis/git/repositories/"@ + repo + "/pullrequests"@ + more
}

/// The pull requests of a repository of a project.
pub struct PullRequests {
    ops: AzureClient,
    project: String,
    repo: String,
}

impl PullRequests {
    /// The client the calls are made with.
    pub closed spec fn client(&self) -> AzureClientView {
        self.ops@
    }

    /// The project and repository.
    pub closed spec fn key(&self) -> (Seq<char>, Seq<char>) {
        (self.project@, self.repo@)
    }

    /// The pull requests of a repository of a project.
    pub fn new(ops: AzureClient, project: String, repo: String) -> (r: PullRequests)
        ensures
            r.client() == ops@,
            r.key() == (project@, repo@),
    {
        PullRequests { ops, project, repo }
    }

    /// The call that creates a pull request from its JSON description.
    pub fn create(&self, options: Vec<u8>) -> (r: ApiCall)
        ensures
            r.method == Method::Post,
            r.media == MediaType::Json,
            r.authentication == AuthenticationConstraint::Unconstrained,
            r.uri@ == self.client().host + pulls_path(self.client().org, self.key().0, self.key().1, seq![]),
            opt_bytes(r.body) == Some(options@),
    {
        proof {
            reveal_strlit("");
        }
        self.ops.post(self.path("").as_str(), options)
    }

    /// The pull request `id` of the repository.
    pub fn pull(&self, id: u64) -> (r: PullRequest)
        ensures
            r.client() == self.client(),
            r.key() == (self.key().0, self.key().1, id),
    {
        PullRequest::new(self.ops.clone(), self.project.clone(), self.repo.clone(), id)
    }

    /// The call that lists pull requests, with the options as the query.
    pub fn list(&self, options: PullListOptions) -> (r: ApiCall)
        ensures
            r.method == Method::Get,
            r.media == MediaType::Json,
            r.authentication == AuthenticationConstraint::Unconstrained,
            r.uri@ == self.client().host + with_query(
                pulls_path(self.client().org, self.key().0, self.key().1, seq![]),
                query_text(options.params@),
            ),
            r.body is None,
    {
        proof {
            reveal_strlit("");
        }
        let query = options.serialize();
        let uri = append_query(self.path(""), query);
        self.ops.get(uri.as_str())
    }

    fn path(&self, more: &str) -> (r: String)
        ensures
            r@ == pulls_path(self.client().org, self.key().0, self.key().1, more@),
    {
        proof {
            reveal_strlit("/");
            reveal_strlit("/_apis/git/repositories/");
            reveal_strlit("/pullrequests");
        }
        String::from_str("/").concat(self.ops.organization()).concat("/").concat(self.project.as_str()).concat(
            "/_apis/git/repositories/",
        ).concat(self.repo.as_str()).concat("/pullrequests").concat(more)
    }
}

} // verus!
