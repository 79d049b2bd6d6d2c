//! One pull request of a repository.
use vstd::prelude::*;
use crate::config::{AuthenticationConstraint, AzureClient, AzureClientView, MediaType};
use crate::exchange::{opt_bytes, ApiCall, Method};
use crate::text::{decimal, decimal_text};

verus! {

/// The path of a pull request:
/// `/{org}/{project}/_apis/git/repositories/{repo}/pullrequests/{id}{more}`.
pub open spec fn pull_path(org: Seq<char>, project: Seq<char>, repo: Seq<char>, id: u64, more: Seq<char>) -> Seq<char> {
    "/"@ + org + "/"@ + project + "/_apis/git/repositories/"@ + repo + "/pullrequests/"@ + decimal(id as nat) + more
}

/// A pull request of a repository, by id.
pub struct PullRequest {
    ops: AzureClient,
    project: String,
    repo: String,
    id: u64,
}

impl PullRequest {
    /// The client the calls are made with.
    pub closed spec fn client(&self) -> AzureClientView {
        self.ops@
    }

    /// The project, repository and id of the pull request.
    pub closed spec fn key(&self) -> (Seq<char>, Seq<char>, u64) {
        (self.project@, self.repo@, self.id)
    }

    /// The pull request `id` of a repository of a project.
    pub fn new(ops: AzureClient, project: String, repo: String, id: u64) -> (r: PullRequest)
        ensures
            r.client() == ops@,
            r.key() == (project@, repo@, id),
    {
        PullRequest { ops, project, repo, id }
    }

    fn path(&self, more: &str) -> (r: String)
        ensures
            r@ == pull_path(self.client().org, self.key().0, self.key().1, self.key().2, more@),
    {
        proof {
            reveal_strlit("/");
            reveal_strlit("/_apis/git/repositories/");
            reveal_strlit("/pullrequests/");
        }
        let id = decimal_text(self.id);
        String::from_str("/").concat(self.ops.organization()).concat("/").concat(self.project.as_str()).concat(
            "/_apis/git/repositories/",
        ).concat(self.repo.as_str()).concat("/pullrequests/").concat(id.as_str()).concat(more)
    }

    /// The call that reads the pull request.
    pub fn get(&self) -> (r: ApiCall)
        ensures
            r.method == Method::Get,
            r.media == MediaType::Json,
            r.authentication == AuthenticationConstraint::Unconstrained,
            r.uri@ == self.client().host + pull_path(
                self.client().org,
                self.key().0,
                self.key().1,
                self.key().2,
                seq![],
            ),
            r.body is None,
    {
        proof {
            reveal_strlit("");
        }
        self.ops.get(self.path("").as_str())
    }

    /// The call that updates the pull request with a JSON description of
    /// the changes.
    pub fn update(&self, pr: Vec<u8>) -> (r: ApiCall)
        ensures
            r.method == Method::Patch,
            r.media == MediaType::Json,
            r.authentication == AuthenticationConstraint::Unconstrained,
            r.uri@ == self.client().host + pull_path(
                self.client().org,
                self.key().0,
                self.key().1,
                self.key().2,
                seq![],
            ),
            opt_bytes(r.body) == Some(pr@),
    {
        proof {
            reveal_strlit("");
        }
        self.ops.patch(self.path("").as_str(), pr)
    }
}

} // verus!
