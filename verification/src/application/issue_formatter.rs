//! The detailed, multi-line description of one cached issue.
use vstd::prelude::*;
use crate::domain::{Assignee, Issue, IssueReference};
use crate::text::{join, push_str};

verus! {

/// "Display Name (@username)" for an assignee, or "Unassigned".
pub open spec fn assignee_text(assignee: Option<Assignee>) -> Seq<char> {
    match assignee {
        Some(a) => a.display_name@ + " (@"@ + a.username@ + ")"@,
        None => "Unassigned"@,
    }
}

/// The parent's key, or "None".
pub open spec fn parent_text(parent: Option<IssueReference>) -> Seq<char> {
    match parent {
        Some(p) => p.key@,
        None => "None"@,
    }
}

/// The keys of the referenced issues, in order.
pub open spec fn reference_keys(references: Seq<IssueReference>) -> Seq<Seq<char>> {
    references.map_values(|reference: IssueReference| reference.key@)
}

/// The subtask keys separated by ", ", or "None" when there are none.
pub open spec fn subtasks_text(subtasks: Seq<IssueReference>) -> Seq<char> {
    if subtasks.len() == 0 {
        "None"@
    } else {
        join(reference_keys(subtasks), ", "@)
    }
}

/// The description, or "No description.".
pub open spec fn description_text(description: Option<String>) -> Seq<char> {
    match description {
        Some(d) => d@,
        None => "No description."@,
    }
}

/// "KEY — Summary".
pub open spec fn heading_text(issue: Issue) -> Seq<char> {
    issue.key@ + " — "@ + issue.summary@
}

/// The type, status and assignee lines.
pub open spec fn classification_text(issue: Issue) -> Seq<char> {
    "\n\nType:       "@ + issue.issue_type@ + "\nStatus:     "@ + issue.status@
        + "\nAssignee:   "@ + assignee_text(issue.assignee)
}

/// The update time, Jira id and parent lines.
pub open spec fn provenance_text(issue: Issue, updated: Seq<char>) -> Seq<char> {
    "\nUpdated:    "@ + updated + "\nJira ID:    "@ + issue.id@ + "\nParent:     "@ + parent_text(
        issue.parent,
    )
}

/// The subtasks line and the description under its heading.
pub open spec fn contents_text(issue: Issue) -> Seq<char> {
    "\nSubtasks:   "@ + subtasks_text(issue.subtasks@) + "\n\nDescription\n-----------\n"@
        + description_text(issue.description)
}

/// The heading line and the labelled fields of an issue, with `updated` as
/// the text shown for the update time.
pub open spec fn issue_details(issue: Issue, updated: Seq<char>) -> Seq<char> {
    heading_text(issue) + classification_text(issue) + provenance_text(issue, updated)
        + contents_text(issue)
}

/// The issue card: an arrow before the heading, and the raw update time.
pub open spec fn issue_card(issue: Issue) -> Seq<char> {
    "==> "@ + issue_details(issue, issue.updated_at@)
}

/// The subtasks line names every subtask, in order: "None" when there are no
/// subtasks, the key alone for one subtask, and each further subtask's key
/// after a ", ".
pub proof fn lemma_subtasks_text_lists_every_key(subtasks: Seq<IssueReference>)
    ensures
        subtasks.len() == 0 ==> subtasks_text(subtasks) == "None"@,
        subtasks.len() == 1 ==> subtasks_text(subtasks) == subtasks[0].key@,
        subtasks.len() >= 2 ==> subtasks_text(subtasks) == subtasks_text(subtasks.drop_last())
            + ", "@ + subtasks.last().key@,
{
    if subtasks.len() >= 2 {
        assert(reference_keys(subtasks).drop_last() =~= reference_keys(subtasks.drop_last()));
    }
}

/// Appends the assignee text.
fn push_assignee(out: &mut String, assignee: &Option<Assignee>)
    ensures
        final(out)@ == old(out)@ + assignee_text(*assignee),
{
    match assignee {
        Some(a) => {
            push_str(out, a.display_name.as_str());
            push_str(out, " (@");
            push_str(out, a.username.as_str());
            push_str(out, ")");
            assert(out@ =~= old(out)@ + assignee_text(*assignee));
        },
        None => push_str(out, "Unassigned"),
    }
}

/// Appends the subtask keys separated by ", ", or "None".
fn push_subtasks(out: &mut String, subtasks: &Vec<IssueReference>)
    ensures
        final(out)@ == old(out)@ + subtasks_text(subtasks@),
{
    if subtasks.len() == 0 {
        push_str(out, "None");
        return;
    }
    let ghost start = out@;
    let ghost keys = reference_keys(subtasks@);
    push_str(out, subtasks[0].key.as_str());
    assert(keys.take(1) =~= seq![keys[0]]);
    let mut i: usize = 1;
    while i < subtasks.len()
        invariant
            1 <= i <= subtasks@.len(),
            keys == reference_keys(subtasks@),
            out@ == start + join(keys.take(i as int), ", "@),
        decreases subtasks.len() - i,
    {
        push_str(out, ", ");
        push_str(out, subtasks[i].key.as_str());
        assert(keys.take(i + 1).drop_last() =~= keys.take(i as int));
        assert(out@ =~= start + join(keys.take(i + 1), ", "@));
        i += 1;
    }
    assert(keys.take(subtasks@.len() as int) =~= keys);
}

fn push_heading(out: &mut String, issue: &Issue)
    ensures
        final(out)@ == old(out)@ + heading_text(*issue),
{
    push_str(out, issue.key.as_str());
    push_str(out, " — ");
    push_str(out, issue.summary.as_str());
    assert(out@ =~= old(out)@ + heading_text(*issue));
}

fn push_classification(out: &mut String, issue: &Issue)
    ensures
        final(out)@ == old(out)@ + classification_text(*issue),
{
    push_str(out, "\n\nType:       ");
    push_str(out, issue.issue_type.as_str());
    push_str(out, "\nStatus:     ");
    push_str(out, issue.status.as_str());
    push_str(out, "\nAssignee:   ");
    push_assignee(out, &issue.assignee);
    assert(out@ =~= old(out)@ + classification_text(*issue));
}

fn push_provenance(out: &mut String, issue: &Issue, updated: &str)
    ensures
        final(out)@ == old(out)@ + provenance_text(*issue, updated@),
{
    push_str(out, "\nUpdated:    ");
    push_str(out, updated);
    push_str(out, "\nJira ID:    ");
    push_str(out, issue.id.as_str());
    push_str(out, "\nParent:     ");
    match &issue.parent {
        Some(parent) => push_str(out, parent.key.as_str()),
        None => push_str(out, "None"),
    }
    assert(out@ =~= old(out)@ + provenance_text(*issue, updated@));
}

fn push_contents(out: &mut String, issue: &Issue)
    ensures
        final(out)@ == old(out)@ + contents_text(*issue),
{
    push_str(out, "\nSubtasks:   ");
    push_subtasks(out, &issue.subtasks);
    push_str(out, "\n\nDescription\n-----------\n");
    match &issue.description {
        Some(description) => push_str(out, description.as_str()),
        None => push_str(out, "No description."),
    }
    assert(out@ =~= old(out)@ + contents_text(*issue));
}

/// Appends the labelled details of an issue, showing `updated` as its update time.
pub(crate) fn push_issue_details(out: &mut String, issue: &Issue, updated: &str)
    ensures
        final(out)@ == old(out)@ + issue_details(*issue, updated@),
{
    push_heading(out, issue);
    push_classification(out, issue);
    push_provenance(out, issue, updated);
    push_contents(out, issue);
    assert(out@ =~= old(out)@ + issue_details(*issue, updated@));
}

/// The issue card: "==> KEY — Summary", a blank line, the labelled fields
/// (type, status, assignee, raw update time, Jira id, parent, subtasks), and
/// the description under a heading.
pub fn format_issue(issue: &Issue) -> (r: String)
    ensures
        r@ == issue_card(*issue),
{
    let mut out = String::new();
    push_str(&mut out, "==> ");
    push_issue_details(&mut out, issue, issue.updated_at.as_str());
    assert(out@ =~= issue_card(*issue));
    out
}

} // verus!
