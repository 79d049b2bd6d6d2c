//! Git repositories of a project.
use vstd::prelude::*;
use crate::config::{AuthenticationConstraint, AzureClient, AzureClientView, MediaType};
use crate::exchange::{opt_bytes, ApiCall, Method};
use crate::projects::{append_query, query_text, with_query};
use crate::pull_requests::{PullRequest, PullRequests};
use crate::query::QueryParams;
use crate::pull_requests::sets;
use crate::text::{bool_string, bool_text};

verus! {

/// The path of a repository:
/// `/{org}/{project}/_apis/git/repositories/{repo}{more}`.
pub open spec fn repository_path(org: Seq<char>, project: Seq<char>, repo: Seq<char>, more: Seq<char>) -> Seq<char> {
    "/"@ + org + "/"@ + project + "/_apis/git/repositories/"@ + repo + more
}

/// The path of a project's repositories:
/// `/{org}/{project}/_apis/git/repositories{more}`.
pub open spec fn repositories_path(org: Seq<char>, project: Seq<char>, more: Seq<char>) -> Seq<char> {
    "/"@ + org + "/"@ + project + "/_apis/git/repositories"@ + more
}

/// A repository of a project.
pub struct Repository {
    ops: AzureClient,
    project: String,
    repo: String,
}

impl Repository {
    /// The client the calls are made with.
    pub closed spec fn client(&self) -> AzureClientView {
        self.ops@
    }

    /// The project and repository.
    pub closed spec fn key(&self) -> (Seq<char>, Seq<char>) {
        (self.project@, self.repo@)
    }

    /// The repository `repo` of `project`.
    pub fn new(ops: AzureClient, project: String, repo: String) -> (r: Repository)
        ensures
            r.client() == ops@,
            r.key() == (project@, repo@),
    {
        Repository { ops, project, repo }
    }

    /// The call that deletes the repository.
    pub fn delete(&self) -> (r: ApiCall)
        ensures
            r.method == Method::Delete,
            r.media == MediaType::Json,
            r.authentication == AuthenticationConstraint::Unconstrained,
            r.body is None,
            r.uri@ == self.client().host + repository_path(self.client().org, self.key().0, self.key().1, seq![]),
    {
        proof {
            reveal_strlit("");
        }
        self.ops.delete(self.path("").as_str())
    }

    /// The repository's pull requests.
    pub fn pulls(&self) -> (r: PullRequests)
        ensures
            r.client() == self.client(),
            r.key() == self.key(),
    {
        PullRequests::new(self.ops.clone(), self.project.clone(), self.repo.clone())
    }

    /// The repository's pull request `id`.
    pub fn pull(&self, id: u64) -> (r: PullRequest)
        ensures
            r.client() == self.client(),
            r.key() == (self.key().0, self.key().1, id),
    {
        PullRequest::new(self.ops.clone(), self.project.clone(), self.repo.clone(), id)
    }

    fn path(&self, more: &str) -> (r: String)
        ensures
            r@ == repository_path(self.client().org, self.key().0, self.key().1, more@),
    {
        proof {
            reveal_strlit("/");
            reveal_strlit("/_apis/git/repositories/");
        }
        String::from_str("/").concat(self.ops.organization()).concat("/").concat(self.project.as_str()).concat(
            "/_apis/git/repositories/",
        ).concat(self.repo.as_str()).concat(more)
    }

    /// The call that reads the repository.
    pub fn get(&self) -> (r: ApiCall)
        ensures
            r.method == Method::Get,
            r.media == MediaType::Json,
            r.authentication == AuthenticationConstraint::Unconstrained,
            r.body is None,
            r.uri@ == self.client().host + repository_path(self.client().org, self.key().0, self.key().1, seq![]),
    {
        proof {
            reveal_strlit("");
        }
        self.ops.get(self.path("").as_str())
    }
}

/// The repositories of a project.
pub struct Repositories {
    ops: AzureClient,
    project: String,
}

impl Repositories {
    /// The client the calls are made with.
    pub closed spec fn client(&self) -> AzureClientView {
        self.ops@
    }

    /// The project.
    pub closed spec fn project(&self) -> Seq<char> {
        self.project@
    }

    /// The repositories of `project`.
    pub fn new(ops: AzureClient, project: String) -> (r: Repositories)
        ensures
            r.client() == ops@,
            r.project() == project@,
    {
        Repositories { ops, project }
    }

    /// The call that creates a repository from its JSON description.
    pub fn create(&self, repo: Vec<u8>) -> (r: ApiCall)
        ensures
            r.method == Method::Post,
            r.media == MediaType::Json,
            r.authentication == AuthenticationConstraint::Unconstrained,
            r.uri@ == self.client().host + repositories_path(self.client().org, self.project(), seq![]),
            opt_bytes(r.body) == Some(repo@),
    {
        proof {
            reveal_strlit("");
        }
        self.ops.post(self.path("").as_str(), repo)
    }

    fn path(&self, more: &str) -> (r: String)
        ensures
            r@ == repositories_path(self.client().org, self.project(), more@),
    {
        proof {
            reveal_strlit("/");
            reveal_strlit("/_apis/git/repositories");
        }
        String::from_str("/").concat(self.ops.organization()).concat("/").concat(self.project.as_str()).concat(
            "/_apis/git/repositories",
        ).concat(more)
    }

    /// The call that lists the repositories, with the options as the query.
    pub fn list(&self, options: &RepoListOptions) -> (r: ApiCall)
        ensures
            r.method == Method::Get,
            r.media == MediaType::Json,
            r.authentication == AuthenticationConstraint::Unconstrained,
            r.uri@ == self.client().host + with_query(
                repositories_path(self.client().org, self.project(), seq![]),
                query_text(options.params()),
            ),
            r.body is None,
    {
        proof {
            reveal_strlit("");
        }
        let uri = append_query(self.path(""), options.serialize());
        self.ops.get(uri.as_str())
    }
}

/// A new repository.
#[derive(Debug, Default)]
pub struct RepoOptions {
    pub name: String,
}

impl RepoOptions {
    /// A new repository of the given name.
    pub fn new(name: String) -> (r: RepoOptions)
        ensures
            r.name@ == name@,
    {
        RepoOptions { name }
    }

    /// A builder of a new repository of the given name.
    pub fn builder(name: String) -> (r: RepoOptionsBuilder)
        ensures
            r.0.name@ == name@,
    {
        RepoOptionsBuilder::new(name)
    }
}

/// Builds a [`RepoOptions`].
pub struct RepoOptionsBuilder(pub RepoOptions);

impl RepoOptionsBuilder {
    pub(crate) fn new(name: String) -> (r: RepoOptionsBuilder)
        ensures
            r.0.name@ == name@,
    {
        RepoOptionsBuilder(RepoOptions { name })
    }

    /// The options built so far.
    pub fn build(&self) -> (r: RepoOptions)
        ensures
            r.name@ == self.0.name@,
    {
        RepoOptions::new(self.0.name.clone())
    }
}

/// The options of a repository listing.
pub struct RepoListOptions {
    params: QueryParams,
}

impl Default for RepoListOptions {
    fn default() -> (r: RepoListOptions)
        ensures
            r.params().len() == 0,
            r.wf(),
    {
        RepoListOptions { params: QueryParams::new() }
    }
}

impl RepoListOptions {
    /// The parameters that are set.
    pub closed spec fn params(&self) -> Seq<(Seq<char>, Seq<char>)> {
        self.params@
    }

    /// No parameter is set twice.
    pub closed spec fn wf(&self) -> bool {
        self.params.wf()
    }

    /// A builder with no options set.
    pub fn builder() -> (r: RepoListOptionsBuilder)
        ensures
            r.0.params().len() == 0,
            r.0.wf(),
    {
        RepoListOptionsBuilder(RepoListOptions::default())
    }

    /// The options as a query text; `None` when none are set.
    pub fn serialize(&self) -> (r: Option<String>)
        ensures
            match r {
                Some(t) => query_text(self.params()) == Some(t@),
                None => query_text(self.params()) is None,
            },
    {
        self.params.serialize()
    }
}

/// Builds a [`RepoListOptions`].
pub struct RepoListOptionsBuilder(pub RepoListOptions);

impl Default for RepoListOptionsBuilder {
    fn default() -> (r: RepoListOptionsBuilder)
        ensures
            r.0.params().len() == 0,
            r.0.wf(),
    {
        RepoListOptions::builder()
    }
}

impl RepoListOptionsBuilder {
    fn set(&mut self, name: &str, value: String) -> (r: &mut Self)
        requires
            old(self).0.wf(),
        ensures
            r.0.wf(),
            sets(old(self).0.params(), r.0.params(), name@, value@),
            *final(self) == *final(r),
    {
        self.0.params.insert(name, value);
        self
    }

    /// Whether to include hidden repositories.
    pub fn include_hidden(&mut self, include_hidden: bool) -> (r: &mut Self)
        requires
            old(self).0.wf(),
        ensures
            r.0.wf(),
            sets(old(self).0.params(), r.0.params(), "includeHidden"@, bool_text(include_hidden)),
            *final(self) == *final(r),
    {
        self.set("includeHidden", bool_string(include_hidden))
    }

    /// Whether to include links.
    pub fn include_links(&mut self, include_links: bool) -> (r: &mut Self)
        requires
            old(self).0.wf(),
        ensures
            r.0.wf(),
            sets(old(self).0.params(), r.0.params(), "includeLinks"@, bool_text(include_links)),
            *final(self) == *final(r),
    {
        self.set("includeLinks", bool_string(include_links))
    }

    /// Whether to include all URLs.
    pub fn include_all_urls(&mut self, include_all_urls: bool) -> (r: &mut Self)
        requires
            old(self).0.wf(),
        ensures
            r.0.wf(),
            sets(old(self).0.params(), r.0.params(), "includeAllUrls"@, bool_text(include_all_urls)),
            *final(self) == *final(r),
    {
        self.set("includeAllUrls", bool_string(include_all_urls))
    }

    /// The options set so far.
    pub fn build(&self) -> (r: RepoListOptions)
        ensures
            r.params() == self.0.params(),
            r.wf() == self.0.wf(),
    {
        RepoListOptions { params: self.0.params.copy() }
    }
}

impl AzureClient {
    /// The repository `repo` of `project`.
    pub fn repo(&self, project: String, repo: String) -> (r: Repository)
        ensures
            r.client() == self@,
            r.key() == (project@, repo@),
    {
        Repository::new(self.clone(), project, repo)
    }

    /// The repositories of `project`.
    pub fn repos(&self, project: String) -> (r: Repositories)
        ensures
            r.client() == self@,
            r.project() == project@,
    {
        Repositories::new(self.clone(), project)
    }
}

} // verus!
