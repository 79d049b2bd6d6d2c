//! Work items as the service describes them.
use vstd::prelude::*;

verus! {

/// The work items a query found.
#[derive(Debug)]
pub struct WorkItems {
    pub work_items: Vec<WorkItemRef>,
}

/// A reference to a work item: its id and URL.
#[derive(Debug)]
pub struct WorkItemRef {
    pub id: usize,
    pub url: String,
}

/// A work item: its id and fields.
#[derive(Debug, PartialEq, Eq)]
pub struct WorkItem {
    pub id: usize,
    pub fields: WorkItemFields,
}

/// The fields of a work item this library reads.
#[derive(Debug, PartialEq, Eq)]
pub struct WorkItemFields {
    pub title: String,
    pub jira: Option<String>,
}

} // verus!
