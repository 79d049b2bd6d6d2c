//! Pull requests: their options, statuses and merge strategies.
use vstd::prelude::*;
use crate::query::{as_map, QueryParams};
use crate::text::{bool_string, bool_text, decimal, decimal_text};

pub mod pull;
pub mod pulls;

pub use pull::PullRequest;
pub use pulls::PullRequests;

verus! {

/// The status of a pull request.
#[derive(Clone, Copy, Debug, PartialEq, Eq, Structural)]
pub enum PullStatus {
    Abandoned,
    Active,
    Draft,
    All,
    Completed,
    NotSet,
}

impl PullStatus {
    /// The text of the status in a query.
    pub open spec fn spec_text(self) -> Seq<char> {
        match self {
            PullStatus::Abandoned => "abandoned"@,
            PullStatus::Active => "active"@,
            PullStatus::Draft => "draft"@,
            PullStatus::All => "all"@,
            PullStatus::Completed => "completed"@,
            PullStatus::NotSet => "notSet"@,
        }
    }

    /// The text of the status in a query.
    pub fn as_str(&self) -> (r: &'static str)
        ensures
            r@ == self.spec_text(),
    {
        match self {
            PullStatus::Abandoned => "abandoned",
            PullStatus::Active => "active",
            PullStatus::Draft => "draft",
            PullStatus::All => "all",
            PullStatus::Completed => "completed",
            PullStatus::NotSet => "notSet",
        }
    }
}

impl Default for PullStatus {
    fn default() -> (r: PullStatus)
        ensures
            r == PullStatus::NotSet,
    {
        PullStatus::NotSet
    }
}

/// How a pull request is merged; squash by default.
#[derive(Clone, Copy, Debug, PartialEq, Eq, Structural)]
pub enum MergeStrategy {
    NoFastForward,
    Rebase,
    RebaseMerge,
    Squash,
}

impl MergeStrategy {
    /// The text of the strategy.
    pub open spec fn spec_text(self) -> Seq<char> {
        match self {
            MergeStrategy::NoFastForward => "noFastForward"@,
            MergeStrategy::Rebase => "rebase"@,
            MergeStrategy::RebaseMerge => "rebaseMerge"@,
            MergeStrategy::Squash => "squash"@,
        }
    }

    /// The text of the strategy.
    pub fn as_str(&self) -> (r: &'static str)
        ensures
            r@ == self.spec_text(),
    {
        match self {
            MergeStrategy::NoFastForward => "noFastForward",
            MergeStrategy::Rebase => "rebase",
            MergeStrategy::RebaseMerge => "rebaseMerge",
            MergeStrategy::Squash => "squash",
        }
    }
}

impl Default for MergeStrategy {
    fn default() -> (r: MergeStrategy)
        ensures
            r == MergeStrategy::Squash,
    {
        MergeStrategy::Squash
    }
}

/// The options of a pull request listing, by query parameter name.
pub struct PullListOptions {
    pub params: QueryParams,
}

impl Default for PullListOptions {
    fn default() -> (r: PullListOptions)
        ensures
            r.params.wf(),
            r.params@.len() == 0,
    {
        PullListOptions { params: QueryParams::new() }
    }
}

impl PullListOptions {
    /// A builder with no options set.
    pub fn builder() -> (r: PullListOptionsBuilder)
        ensures
            r.0.params.wf(),
            r.0.params@.len() == 0,
    {
        PullListOptionsBuilder(PullListOptions::default())
    }

    /// The options as a query text; `None` when none are set.
    pub fn serialize(&self) -> (r: Option<String>)
        ensures
            self.params@.len() == 0 ==> r is None,
            self.params@.len() > 0 ==> (r matches Some(t) && t@ == crate::query::urlencoded(self.params@)),
    {
        self.params.serialize()
    }
}

/// Builds a [`PullListOptions`].
pub struct PullListOptionsBuilder(pub PullListOptions);

impl Default for PullListOptionsBuilder {
    fn default() -> (r: PullListOptionsBuilder)
        ensures
            r.0.params.wf(),
            r.0.params@.len() == 0,
    {
        PullListOptions::builder()
    }
}

/// The parameters after one is set.
pub open spec fn sets(
    before: Seq<(Seq<char>, Seq<char>)>,
    after: Seq<(Seq<char>, Seq<char>)>,
    name: Seq<char>,
    value: Seq<char>,
) -> bool {
    as_map(after) == as_map(before).insert(name, value)
}

impl PullListOptionsBuilder {
    fn set(&mut self, name: &str, value: String) -> (r: &mut Self)
        requires
            old(self).0.params.wf(),
        ensures
            r.0.params.wf(),
            sets(old(self).0.params@, r.0.params@, name@, value@),
            *final(self) == *final(r),
    {
        self.0.params.insert(name, value);
        self
    }

    /// Skips this many pull requests.
    pub fn skip(&mut self, skip: u32) -> (r: &mut Self)
        requires
            old(self).0.params.wf(),
        ensures
            r.0.params.wf(),
            sets(old(self).0.params@, r.0.params@, "skip"@, decimal(skip as nat)),
            *final(self) == *final(r),
    {
        self.set("skip", decimal_text(skip as u64))
    }

    /// Lists at most this many pull requests.
    pub fn top(&mut self, top: u32) -> (r: &mut Self)
        requires
            old(self).0.params.wf(),
        ensures
            r.0.params.wf(),
            sets(old(self).0.params@, r.0.params@, "top"@, decimal(top as nat)),
            *final(self) == *final(r),
    {
        self.set("top", decimal_text(top as u64))
    }

    /// The sort direction.
    pub fn direction(&mut self, direction: String) -> (r: &mut Self)
        requires
            old(self).0.params.wf(),
        ensures
            r.0.params.wf(),
            sets(old(self).0.params@, r.0.params@, "direction"@, direction@),
            *final(self) == *final(r),
    {
        self.set("direction", direction)
    }

    /// Only pull requests of this status.
    pub fn status(&mut self, status: PullStatus) -> (r: &mut Self)
        requires
            old(self).0.params.wf(),
        ensures
            r.0.params.wf(),
            sets(old(self).0.params@, r.0.params@, "searchCriteria.status"@, status.spec_text()),
            *final(self) == *final(r),
    {
        self.set("searchCriteria.status", String::from_str(status.as_str()))
    }

    /// Only pull requests of this repository.
    pub fn repository_id(&mut self, repo_id: String) -> (r: &mut Self)
        requires
            old(self).0.params.wf(),
        ensures
            r.0.params.wf(),
            sets(old(self).0.params@, r.0.params@, "searchCriteria.repositoryId"@, repo_id@),
            *final(self) == *final(r),
    {
        self.set("searchCriteria.repositoryId", repo_id)
    }

    /// Only pull requests from this source branch.
    pub fn source_ref_name(&mut self, ref_name: String) -> (r: &mut Self)
        requires
            old(self).0.params.wf(),
        ensures
            r.0.params.wf(),
            sets(old(self).0.params@, r.0.params@, "searchCriteria.sourceRefName"@, ref_name@),
            *final(self) == *final(r),
    {
        self.set("searchCriteria.sourceRefName", ref_name)
    }

    /// Only pull requests from this source repository.
    pub fn source_ref_repo_id(&mut self, ref_name: String) -> (r: &mut Self)
        requires
            old(self).0.params.wf(),
        ensures
            r.0.params.wf(),
            sets(old(self).0.params@, r.0.params@, "searchCriteria.sourceRepositoryId"@, ref_name@),
            *final(self) == *final(r),
    {
        self.set("searchCriteria.sourceRepositoryId", ref_name)
    }

    /// Only pull requests into this target branch.
    pub fn target_ref_name(&mut self, ref_name: String) -> (r: &mut Self)
        requires
            old(self).0.params.wf(),
        ensures
            r.0.params.wf(),
            sets(old(self).0.params@, r.0.params@, "searchCriteria.targetRefName"@, ref_name@),
            *final(self) == *final(r),
    {
        self.set("searchCriteria.targetRefName", ref_name)
    }

    /// Only pull requests whose approval is asked of this identity.
    pub fn reviewer_id(&mut self, reviewer_id: String) -> (r: &mut Self)
        requires
            old(self).0.params.wf(),
        ensures
            r.0.params.wf(),
            sets(old(self).0.params@, r.0.params@, "searchCriteria.reviewerId"@, reviewer_id@),
            *final(self) == *final(r),
    {
        self.set("searchCriteria.reviewerId", reviewer_id)
    }

    /// Whether to include links.
    pub fn include_links(&mut self, include_links: bool) -> (r: &mut Self)
        requires
            old(self).0.params.wf(),
        ensures
            r.0.params.wf(),
            sets(old(self).0.params@, r.0.params@, "searchCriteria.includeLinks"@, bool_text(include_links)),
            *final(self) == *final(r),
    {
        self.set("searchCriteria.includeLinks", bool_string(include_links))
    }

    /// The options set so far.
    pub fn build(&self) -> (r: PullListOptions)
        ensures
            r.params@ == self.0.params@,
    {
        PullListOptions { params: self.0.params.copy() }
    }
}

/// A new pull request.
#[derive(Debug)]
pub struct PROption {
    pub source_ref_name: String,
    pub target_ref_name: String,
    pub title: String,
    pub description: Option<String>,
    pub reviewers: Option<Vec<Reviewer>>,
}

/// An identity whose approval a new pull request asks for.
#[derive(Debug)]
pub struct Reviewer {
    pub id: String,
}

/// The changes of a pull request update; fields left `None` are not sent.
#[derive(Debug)]
pub struct PullUpdateOptions {
    pub title: Option<String>,
    pub description: Option<String>,
    pub status: Option<PullStatus>,
    pub merge_strategy: Option<MergeStrategy>,
    pub source_commit: Option<LastMergeSourceCommit>,
    pub completion_options: Option<CompletionOptions>,
    pub draft: Option<bool>,
}

/// The source commit of a merge.
#[derive(Debug, Clone)]
pub struct LastMergeSourceCommit {
    pub commit_id: Option<String>,
}

/// How a pull request is completed.
#[derive(Debug, Clone)]
pub struct CompletionOptions {
    pub bypass_policy: Option<bool>,
    pub bypass_reason: Option<String>,
    pub delete_source_branch: Option<bool>,
}

/// A copy of an optional string with the same view.
fn copy_opt_string(o: &Option<String>) -> (r: Option<String>)
    ensures
        crate::links::opt_string_view(r) == crate::links::opt_string_view(*o),
{
    match o {
        Some(s) => Some(s.clone()),
        None => None,
    }
}

/// The view of an optional source commit: its commit id, if any.
pub open spec fn source_commit_view(o: Option<LastMergeSourceCommit>) -> Option<Option<Seq<char>>> {
    match o {
        Some(c) => Some(crate::links::opt_string_view(c.commit_id)),
        None => None,
    }
}

/// The view of optional completion options.
pub open spec fn completion_view(o: Option<CompletionOptions>) -> Option<(Option<bool>, Option<Seq<char>>, Option<bool>)> {
    match o {
        Some(c) => Some((c.bypass_policy, crate::links::opt_string_view(c.bypass_reason), c.delete_source_branch)),
        None => None,
    }
}

fn copy_source_commit(o: &Option<LastMergeSourceCommit>) -> (r: Option<LastMergeSourceCommit>)
    ensures
        source_commit_view(r) == source_commit_view(*o),
{
    match o {
        Some(c) => Some(LastMergeSourceCommit { commit_id: copy_opt_string(&c.commit_id) }),
        None => None,
    }
}

fn copy_completion(o: &Option<CompletionOptions>) -> (r: Option<CompletionOptions>)
    ensures
        completion_view(r) == completion_view(*o),
{
    match o {
        Some(c) => Some(CompletionOptions {
            bypass_policy: c.bypass_policy,
            bypass_reason: copy_opt_string(&c.bypass_reason),
            delete_source_branch: c.delete_source_branch,
        }),
        None => None,
    }
}

impl Default for PullUpdateOptions {
    fn default() -> (r: PullUpdateOptions)
        ensures
            r.title is None,
            r.description is None,
            r.status is None,
            r.merge_strategy is None,
            r.source_commit is None,
            r.completion_options is None,
            r.draft is None,
    {
        PullUpdateOptions {
            title: None,
            description: None,
            status: None,
            merge_strategy: None,
            source_commit: None,
            completion_options: None,
            draft: None,
        }
    }
}

impl PullUpdateOptions {
    /// The update that only sets the status to active.
    pub fn active() -> (r: PullUpdateOptions)
        ensures
            r.status == Some(PullStatus::Active),
            r.title is None,
            r.description is None,
            r.merge_strategy is None,
            r.source_commit is None,
            r.completion_options is None,
            r.draft is None,
    {
        PullUpdateOptions { status: Some(PullStatus::Active), ..PullUpdateOptions::default() }
    }

    /// The update that only sets the status to abandoned.
    pub fn abandon() -> (r: PullUpdateOptions)
        ensures
            r.status == Some(PullStatus::Abandoned),
            r.title is None,
            r.description is None,
            r.merge_strategy is None,
            r.source_commit is None,
            r.completion_options is None,
            r.draft is None,
    {
        PullUpdateOptions { status: Some(PullStatus::Abandoned), ..PullUpdateOptions::default() }
    }

    /// A builder with nothing to change.
    pub fn builder() -> (r: PullUpdateOptionsBuilder)
        ensures
            r.0.title is None,
            r.0.description is None,
            r.0.status is None,
            r.0.merge_strategy is None,
            r.0.source_commit is None,
            r.0.completion_options is None,
            r.0.draft is None,
    {
        PullUpdateOptionsBuilder(PullUpdateOptions::default())
    }
}

/// Builds a [`PullUpdateOptions`].
pub struct PullUpdateOptionsBuilder(pub PullUpdateOptions);

impl Default for PullUpdateOptionsBuilder {
    fn default() -> (r: PullUpdateOptionsBuilder)
        ensures
            r.0.title is None,
            r.0.description is None,
            r.0.status is None,
            r.0.merge_strategy is None,
            r.0.source_commit is None,
            r.0.completion_options is None,
            r.0.draft is None,
    {
        PullUpdateOptions::builder()
    }
}

impl PullUpdateOptionsBuilder {
    /// Sets the title.
    pub fn title(&mut self, title: String) -> (r: &mut Self)
        ensures
            crate::links::opt_string_view(r.0.title) == Some(title@),
            r.0.description == old(self).0.description,
            r.0.status == old(self).0.status,
            r.0.merge_strategy == old(self).0.merge_strategy,
            r.0.draft == old(self).0.draft,
            r.0.source_commit == old(self).0.source_commit,
            r.0.completion_options == old(self).0.completion_options,
            *final(self) == *final(r),
    {
        self.0.title = Some(title);
        self
    }

    /// Sets the description.
    pub fn description(&mut self, description: String) -> (r: &mut Self)
        ensures
            crate::links::opt_string_view(r.0.description) == Some(description@),
            r.0.title == old(self).0.title,
            r.0.status == old(self).0.status,
            r.0.merge_strategy == old(self).0.merge_strategy,
            r.0.draft == old(self).0.draft,
            r.0.source_commit == old(self).0.source_commit,
            r.0.completion_options == old(self).0.completion_options,
            *final(self) == *final(r),
    {
        self.0.description = Some(description);
        self
    }

    /// Sets the status.
    pub fn status(&mut self, status: PullStatus) -> (r: &mut Self)
        ensures
            r.0.status == Some(status),
            r.0.title == old(self).0.title,
            r.0.description == old(self).0.description,
            r.0.merge_strategy == old(self).0.merge_strategy,
            r.0.draft == old(self).0.draft,
            r.0.source_commit == old(self).0.source_commit,
            r.0.completion_options == old(self).0.completion_options,
            *final(self) == *final(r),
    {
        self.0.status = Some(status);
        self
    }

    /// Sets the merge strategy.
    pub fn merge_strategy(&mut self, merge_strategy: MergeStrategy) -> (r: &mut Self)
        ensures
            r.0.merge_strategy == Some(merge_strategy),
            r.0.title == old(self).0.title,
            r.0.description == old(self).0.description,
            r.0.status == old(self).0.status,
            r.0.draft == old(self).0.draft,
            r.0.source_commit == old(self).0.source_commit,
            r.0.completion_options == old(self).0.completion_options,
            *final(self) == *final(r),
    {
        self.0.merge_strategy = Some(merge_strategy);
        self
    }

    /// Sets whether the pull request is a draft.
    pub fn draft(&mut self, draft: bool) -> (r: &mut Self)
        ensures
            r.0.draft == Some(draft),
            r.0.title == old(self).0.title,
            r.0.description == old(self).0.description,
            r.0.status == old(self).0.status,
            r.0.merge_strategy == old(self).0.merge_strategy,
            r.0.source_commit == old(self).0.source_commit,
            r.0.completion_options == old(self).0.completion_options,
            *final(self) == *final(r),
    {
        self.0.draft = Some(draft);
        self
    }

    /// The changes set so far.
    pub fn build(&self) -> (r: PullUpdateOptions)
        ensures
            crate::links::opt_string_view(r.title) == crate::links::opt_string_view(self.0.title),
            crate::links::opt_string_view(r.description) == crate::links::opt_string_view(self.0.description),
            r.status == self.0.status,
            r.merge_strategy == self.0.merge_strategy,
            r.draft == self.0.draft,
            source_commit_view(r.source_commit) == source_commit_view(self.0.source_commit),
            completion_view(r.completion_options) == completion_view(self.0.completion_options),
    {
        PullUpdateOptions {
            title: copy_opt_string(&self.0.title),
            description: copy_opt_string(&self.0.description),
            status: self.0.status,
            draft: self.0.draft,
            merge_strategy: self.0.merge_strategy,
            source_commit: copy_source_commit(&self.0.source_commit),
            completion_options: copy_completion(&self.0.completion_options),
        }
    }
}

} // verus!
