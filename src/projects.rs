//! Projects: listing, creating, reading and deleting them.
use vstd::prelude::*;
use crate::config::{AuthenticationConstraint, AzureClient, AzureClientView, MediaType};
use crate::exchange::{opt_bytes, ApiCall, Method};
use crate::query::{urlencoded, QueryParams};

verus! {

/// The path of the projects collection: `/{org}/{more}/_apis/projects`.
pub open spec fn projects_path(org: Seq<char>, more: Seq<char>) -> Seq<char> {
    "/"@ + org + "/"@ + more + "/_apis/projects"@
}

/// A path followed by an optional query.
pub open spec fn with_query(path: Seq<char>, query: Option<Seq<char>>) -> Seq<char> {
    match query {
        Some(q) => path + "?"@ + q,
        None => path,
    }
}

/// The query text of parameters: none when there are none.
pub open spec fn query_text(params: Seq<(Seq<char>, Seq<char>)>) -> Option<Seq<char>> {
    if params.len() == 0 {
        None
    } else {
        Some(urlencoded(params))
    }
}

/// Appends `?` and the query, if there is one.
pub fn append_query(path: String, query: Option<String>) -> (r: String)
    ensures
        r@ == with_query(path@, match query {
            Some(q) => Some(q@),
            None => None,
        }),
{
    proof {
        reveal_strlit("?");
    }
    match query {
        Some(q) => path.concat("?").concat(q.as_str()),
        None => path,
    }
}

/// The projects of the client's organization.
pub struct Projects {
    ops: AzureClient,
}

impl Projects {
    /// The client the calls are made with.
    pub closed spec fn client(&self) -> AzureClientView {
        self.ops@
    }

    /// The projects of the client's organization.
    pub fn new(ops: AzureClient) -> (r: Projects)
        ensures
            r.client() == ops@,
    {
        Projects { ops }
    }

    /// The call that creates a project from its JSON description.
    pub fn create(&self, project: Vec<u8>) -> (r: ApiCall)
        ensures
            r.method == Method::Post,
            r.media == MediaType::Json,
            r.authentication == AuthenticationConstraint::Unconstrained,
            r.uri@ == self.client().host + projects_path(self.client().org, seq![]),
            opt_bytes(r.body) == Some(project@),
    {
        proof {
            reveal_strlit("");
        }
        self.ops.post(self.path("").as_str(), project)
    }

    fn path(&self, more: &str) -> (r: String)
        ensures
            r@ == projects_path(self.client().org, more@),
    {
        proof {
            reveal_strlit("/");
            reveal_strlit("/_apis/projects");
            reveal_strlit("");
        }
        String::from_str("/").concat(self.ops.organization()).concat("/").concat(more).concat("/_apis/projects")
    }

    /// The call that lists the projects, with the options as the query.
    pub fn list(&self, options: &ProjectOptions) -> (r: ApiCall)
        ensures
            r.method == Method::Get,
            r.media == MediaType::Json,
            r.authentication == AuthenticationConstraint::Unconstrained,
            r.body is None,
            r.uri@ == self.client().host + with_query(
                projects_path(self.client().org, seq![]),
                query_text(options.params()),
            ),
    {
        proof {
            reveal_strlit("");
        }
        let uri = append_query(self.path(""), options.serialize());
        self.ops.get(uri.as_str())
    }
}

/// The options of a project listing.
pub struct ProjectOptions {
    params: QueryParams,
}

impl Default for ProjectOptions {
    fn default() -> (r: ProjectOptions)
        ensures
            r.params().len() == 0,
    {
        ProjectOptions { params: QueryParams::new() }
    }
}

impl ProjectOptions {
    /// The parameters that are set.
    pub closed spec fn params(&self) -> Seq<(Seq<char>, Seq<char>)> {
        self.params@
    }

    /// The options as a query text; `None` when none are set.
    pub fn serialize(&self) -> (r: Option<String>)
        ensures
            match r {
                Some(t) => query_text(self.params()) == Some(t@),
                None => query_text(self.params()) is None,
            },
    {
        self.params.serialize()
    }
}

/// A project of the client's organization.
pub struct Project {
    ops: AzureClient,
    project: String,
}

/// The path of a project: `/{org}/_apis/projects/{project}{more}`.
pub open spec fn project_path(org: Seq<char>, project: Seq<char>, more: Seq<char>) -> Seq<char> {
    "/"@ + org + "/_apis/projects/"@ + project + more
}

impl Project {
    /// The client the calls are made with.
    pub closed spec fn client(&self) -> AzureClientView {
        self.ops@
    }

    /// The project's name or id.
    pub closed spec fn name(&self) -> Seq<char> {
        self.project@
    }

    /// The project of the given name or id.
    pub fn new(ops: AzureClient, project: String) -> (r: Project)
        ensures
            r.client() == ops@,
            r.name() == project@,
    {
        Project { ops, project }
    }

    /// The call that reads the project.
    pub fn get(&self) -> (r: ApiCall)
        ensures
            r.method == Method::Get,
            r.media == MediaType::Json,
            r.authentication == AuthenticationConstraint::Unconstrained,
            r.body is None,
            r.uri@ == self.client().host + project_path(self.client().org, self.name(), seq![]),
    {
        proof {
            reveal_strlit("");
        }
        self.ops.get(self.path("").as_str())
    }

    /// The call that deletes the project.
    pub fn delete(&self) -> (r: ApiCall)
        ensures
            r.method == Method::Delete,
            r.media == MediaType::Json,
            r.authentication == AuthenticationConstraint::Unconstrained,
            r.body is None,
            r.uri@ == self.client().host + project_path(self.client().org, self.name(), seq![]),
    {
        proof {
            reveal_strlit("");
        }
        self.ops.delete(self.path("").as_str())
    }

    fn path(&self, more: &str) -> (r: String)
        ensures
            r@ == project_path(self.client().org, self.name(), more@),
    {
        proof {
            reveal_strlit("/");
            reveal_strlit("/_apis/projects/");
        }
        String::from_str("/").concat(self.ops.organization()).concat("/_apis/projects/").concat(
            self.project.as_str(),
        ).concat(more)
    }
}

/// A new project: name, description and capabilities.
#[derive(Debug, Default)]
pub struct ProjectsOptions {
    pub name: String,
    pub description: String,
    pub capabilities: Capabilities,
}

/// The capabilities of a new project.
#[derive(Debug, Default)]
pub struct Capabilities {
    pub versioncontrol: Versioncontrol,
    pub process_template: ProcessTemplate,
}

/// The version control of a new project.
#[derive(Debug, Default)]
pub struct Versioncontrol {
    pub source_control_type: String,
}

/// The process template of a new project.
#[derive(Debug, Default)]
pub struct ProcessTemplate {
    pub template_type_id: String,
}

impl ProjectsOptions {
    /// A new project from its four parts.
    pub fn new(name: String, description: String, source_control_type: String, template_type_id: String) -> (r: ProjectsOptions)
        ensures
            r.name@ == name@,
            r.description@ == description@,
            r.capabilities.versioncontrol.source_control_type@ == source_control_type@,
            r.capabilities.process_template.template_type_id@ == template_type_id@,
    {
        ProjectsOptions {
            name,
            description,
            capabilities: Capabilities {
                versioncontrol: Versioncontrol { source_control_type },
                process_template: ProcessTemplate { template_type_id },
            },
        }
    }

    /// A builder of a new project of the given name.
    pub fn builder(name: String) -> (r: ProjectsOptionsBuilder)
        ensures
            r.0.name@ == name@,
            r.0.description@.len() == 0,
            r.0.capabilities.versioncontrol.source_control_type@.len() == 0,
            r.0.capabilities.process_template.template_type_id@.len() == 0,
    {
        ProjectsOptionsBuilder::new(name)
    }
}

/// Builds a [`ProjectsOptions`].
pub struct ProjectsOptionsBuilder(pub ProjectsOptions);

impl ProjectsOptionsBuilder {
    pub(crate) fn new(name: String) -> (r: ProjectsOptionsBuilder)
        ensures
            r.0.name@ == name@,
            r.0.description@.len() == 0,
            r.0.capabilities.versioncontrol.source_control_type@.len() == 0,
            r.0.capabilities.process_template.template_type_id@.len() == 0,
    {
        ProjectsOptionsBuilder(ProjectsOptions::new(name, String::new(), String::new(), String::new()))
    }

    /// Sets the description.
    pub fn description(&mut self, description: String) -> (r: &mut Self)
        ensures
            r.0.description@ == description@,
            r.0.name@ == old(self).0.name@,
            r.0.capabilities == old(self).0.capabilities,
            *final(self) == *final(r),
    {
        self.0.description = description;
        self
    }

    /// Sets the source control type.
    pub fn source_control_type(&mut self, source_control_type: String) -> (r: &mut Self)
        ensures
            r.0.capabilities.versioncontrol.source_control_type@ == source_control_type@,
            r.0.capabilities.process_template == old(self).0.capabilities.process_template,
            r.0.name == old(self).0.name,
            r.0.description == old(self).0.description,
            *final(self) == *final(r),
    {
        self.0.capabilities.versioncontrol.source_control_type = source_control_type;
        self
    }

    /// Sets the process template.
    pub fn template_type_id(&mut self, template_type_id: String) -> (r: &mut Self)
        ensures
            r.0.capabilities.process_template.template_type_id@ == template_type_id@,
            r.0.capabilities.versioncontrol == old(self).0.capabilities.versioncontrol,
            r.0.name == old(self).0.name,
            r.0.description == old(self).0.description,
            *final(self) == *final(r),
    {
        self.0.capabilities.process_template.template_type_id = template_type_id;
        self
    }

    /// The options built so far.
    pub fn build(&self) -> (r: ProjectsOptions)
        ensures
            r.name@ == self.0.name@,
            r.description@ == self.0.description@,
            r.capabilities.versioncontrol.source_control_type@ == self.0.capabilities.versioncontrol.source_control_type@,
            r.capabilities.process_template.template_type_id@ == self.0.capabilities.process_template.template_type_id@,
    {
        ProjectsOptions::new(
            self.0.name.clone(),
            self.0.description.clone(),
            self.0.capabilities.versioncontrol.source_control_type.clone(),
            self.0.capabilities.process_template.template_type_id.clone(),
        )
    }
}

impl AzureClient {
    /// The projects of the organization.
    pub fn projects(&self) -> (r: Projects)
        ensures
            r.client() == self@,
    {
        Projects::new(self.clone())
    }

    /// The project of the given name or id.
    pub fn project(&self, project: String) -> (r: Project)
        ensures
            r.client() == self@,
            r.name() == project@,
    {
        Project::new(self.clone(), project)
    }
}

} // verus!
