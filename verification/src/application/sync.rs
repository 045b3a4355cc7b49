//! Turning the issues fetched from Jira into a snapshot, and reporting how
//! many were synchronized.
use vstd::prelude::*;
use crate::config::{trim_trailing_slashes, JiraJql, JiraUrl};
use crate::domain::{Issue, Snapshot, SnapshotMetadata, Timestamp};
use crate::text::{decimal, push_decimal, push_str};

verus! {

/// The report of a synchronization: no issues, exactly one, or how many.
pub open spec fn sync_summary_text(issue_count: nat) -> Seq<char> {
    if issue_count == 0 {
        "No issues found."@
    } else if issue_count == 1 {
        "Synchronized 1 issue."@
    } else {
        "Synchronized "@ + decimal(issue_count) + " issues."@
    }
}

/// The report of a synchronization that fetched `issue_count` issues.
pub fn sync_summary(issue_count: usize) -> (r: String)
    ensures
        r@ == sync_summary_text(issue_count as nat),
{
    let mut out = String::new();
    if issue_count == 0 {
        push_str(&mut out, "No issues found.");
    } else if issue_count == 1 {
        push_str(&mut out, "Synchronized 1 issue.");
    } else {
        push_str(&mut out, "Synchronized ");
        push_decimal(&mut out, issue_count as u64);
        push_str(&mut out, " issues.");
        assert(out@ =~= sync_summary_text(issue_count as nat));
    }
    out
}

/// The snapshot of fetched issues: the issues as fetched, in order, with the
/// fetch time, the Jira base URL without trailing slashes, and the JQL.
pub fn new_snapshot(issues: Vec<Issue>, fetched_at: Timestamp, jira_url: &JiraUrl, jql: &JiraJql) -> (r:
    Snapshot)
    ensures
        r.issues@ == issues@,
        r.metadata.fetched_at == fetched_at,
        r.metadata.jira_url@ == trim_trailing_slashes(jira_url@),
        r.metadata.jql@ == jql@,
{
    let mut jql_text = String::new();
    push_str(&mut jql_text, jql.as_str());
    Snapshot {
        metadata: SnapshotMetadata { fetched_at, jira_url: jira_url.base_url(), jql: jql_text },
        issues,
    }
}

} // verus!
