//! The shapes of Jira's REST requests and responses, and how a returned issue
//! becomes a cached issue.
use vstd::prelude::*;
use crate::domain::{Assignee, Issue, IssueReference};

verus! {

/// The authenticated user as Jira describes it.
#[derive(Debug)]
pub struct CurrentUser {
    pub name: String,
    pub display_name: String,
}

/// A request for one page of search results.
#[derive(Debug)]
pub struct SearchRequest {
    pub jql: String,
    pub start_at: usize,
    pub max_results: usize,
    pub fields: Vec<String>,
}

/// One page of search results.
#[derive(Debug)]
pub struct SearchResponse {
    pub start_at: usize,
    pub max_results: usize,
    pub total: usize,
    pub issues: Vec<JiraIssue>,
}

/// An issue as Jira returns it.
#[derive(Debug)]
pub struct JiraIssue {
    pub id: String,
    pub key: String,
    pub fields: IssueFields,
}

/// The fields that are requested for each issue.
#[derive(Debug)]
pub struct IssueFields {
    pub summary: String,
    pub status: NamedField,
    pub issue_type: NamedField,
    pub assignee: Option<JiraAssignee>,
    pub description: Option<String>,
    pub updated: String,
    pub parent: Option<JiraIssueReference>,
    pub subtasks: Vec<JiraIssueReference>,
}

/// A field that Jira returns as an object with a name.
#[derive(Debug)]
pub struct NamedField {
    pub name: String,
}

/// An assignee as Jira returns it.
#[derive(Debug)]
pub struct JiraAssignee {
    pub name: String,
    pub display_name: String,
}

/// A reference to another issue as Jira returns it.
#[derive(Debug)]
pub struct JiraIssueReference {
    pub id: String,
    pub key: String,
}

/// The cached reference holds the returned id and key.
pub open spec fn reference_converted(reference: IssueReference, jira: JiraIssueReference) -> bool {
    reference.id@ == jira.id@ && reference.key@ == jira.key@
}

/// The cached assignee holds the returned username and display name.
pub open spec fn assignee_converted(assignee: Assignee, jira: JiraAssignee) -> bool {
    assignee.username@ == jira.name@ && assignee.display_name@ == jira.display_name@
}

/// The cached issue holds exactly what Jira returned: id, key, summary, the
/// status and type names, the assignee, description, update time, parent and
/// subtasks (in order).
pub open spec fn issue_converted(issue: Issue, jira: JiraIssue) -> bool {
    &&& issue.id@ == jira.id@
    &&& issue.key@ == jira.key@
    &&& issue.summary@ == jira.fields.summary@
    &&& issue.status@ == jira.fields.status.name@
    &&& issue.issue_type@ == jira.fields.issue_type.name@
    &&& match (issue.assignee, jira.fields.assignee) {
        (Some(a), Some(j)) => assignee_converted(a, j),
        (None, None) => true,
        _ => false,
    }
    &&& match (issue.description, jira.fields.description) {
        (Some(a), Some(j)) => a@ == j@,
        (None, None) => true,
        _ => false,
    }
    &&& issue.updated_at@ == jira.fields.updated@
    &&& match (issue.parent, jira.fields.parent) {
        (Some(a), Some(j)) => reference_converted(a, j),
        (None, None) => true,
        _ => false,
    }
    &&& issue.subtasks@.len() == jira.fields.subtasks@.len()
    &&& forall|i: int|
        0 <= i < issue.subtasks@.len() ==> reference_converted(
            #[trigger] issue.subtasks@[i],
            jira.fields.subtasks@[i],
        )
}

/// A converted issue keeps everything Jira returned, field for field: the
/// id, key, summary, status and type names, update time, assignee,
/// description and parent as returned, and every subtask, one for one and in
/// order, with its id and key.
pub proof fn lemma_conversion_keeps_every_field(issue: Issue, jira: JiraIssue)
    requires
        issue_converted(issue, jira),
    ensures
        issue.id@ == jira.id@,
        issue.key@ == jira.key@,
        issue.summary@ == jira.fields.summary@,
        issue.status@ == jira.fields.status.name@,
        issue.issue_type@ == jira.fields.issue_type.name@,
        issue.updated_at@ == jira.fields.updated@,
        issue.assignee is Some <==> jira.fields.assignee is Some,
        issue.assignee matches Some(a) ==> a.username@ == jira.fields.assignee->0.name@
            && a.display_name@ == jira.fields.assignee->0.display_name@,
        issue.description is Some <==> jira.fields.description is Some,
        issue.description matches Some(d) ==> d@ == jira.fields.description->0@,
        issue.parent is Some <==> jira.fields.parent is Some,
        issue.parent matches Some(p) ==> p.id@ == jira.fields.parent->0.id@ && p.key@
            == jira.fields.parent->0.key@,
        issue.subtasks@.len() == jira.fields.subtasks@.len(),
        forall|i: int|
            0 <= i < issue.subtasks@.len() ==> (#[trigger] issue.subtasks@[i]).id@
                == jira.fields.subtasks@[i].id@ && issue.subtasks@[i].key@
                == jira.fields.subtasks@[i].key@,
{
}

impl IssueReference {
    /// The cached form of a returned issue reference.
    pub fn from_jira(reference: JiraIssueReference) -> (r: IssueReference)
        ensures
            reference_converted(r, reference),
    {
        IssueReference { id: reference.id, key: reference.key }
    }
}

impl Assignee {
    /// The cached form of a returned assignee.
    pub fn from_jira(assignee: JiraAssignee) -> (r: Assignee)
        ensures
            assignee_converted(r, assignee),
    {
        Assignee { username: assignee.name, display_name: assignee.display_name }
    }
}

impl Issue {
    /// The cached form of a returned issue.
    pub fn from_jira(issue: JiraIssue) -> (r: Issue)
        ensures
            issue_converted(r, issue),
    {
        let ghost original = issue;
        let JiraIssue { id, key, fields } = issue;
        let IssueFields {
            summary,
            status,
            issue_type,
            assignee,
            description,
            updated,
            parent,
            subtasks: jira_subtasks,
        } = fields;
        let assignee = match assignee {
            Some(assignee) => Some(Assignee::from_jira(assignee)),
            None => None,
        };
        let parent = match parent {
            Some(parent) => Some(IssueReference::from_jira(parent)),
            None => None,
        };
        let ghost jira_view = jira_subtasks@;
        let mut subtasks: Vec<IssueReference> = Vec::new();
        for reference in it: jira_subtasks
            invariant
                it.seq() == jira_view,
                subtasks@.len() == it.index(),
                forall|i: int|
                    0 <= i < it.index() ==> reference_converted(
                        #[trigger] subtasks@[i],
                        jira_view[i],
                    ),
        {
            subtasks.push(IssueReference::from_jira(reference));
        }
        Issue {
            id,
            key,
            summary,
            status: status.name,
            issue_type: issue_type.name,
            assignee,
            description,
            updated_at: updated,
            parent,
            subtasks,
        }
    }
}

} // verus!
