//! What the local issue cache holds, and when and from where it was fetched.
use vstd::prelude::*;
use crate::application::presentation::{format_relative_time, relative_time_between};
use crate::domain::{format_rfc3339_seconds, spec_rfc3339_seconds, Snapshot, Timestamp};
use crate::text::{decimal, push_decimal, push_str};

verus! {

/// "N issue(s) cached", with the singular for exactly one issue.
pub open spec fn issue_count_text(count: nat) -> Seq<char> {
    decimal(count) + (if count == 1 {
        " issue"@
    } else {
        " issues"@
    }) + " cached"@
}

/// When the snapshot was fetched, in RFC 3339 to the second, followed by how
/// long before `reference_time` that was unless it lies after it.
pub open spec fn fetched_at_text(fetched_at: Timestamp, reference_time: Timestamp) -> Seq<char> {
    let text = spec_rfc3339_seconds(fetched_at.spec_seconds(), fetched_at.spec_nanos());
    match relative_time_between(
        fetched_at.spec_seconds() as int,
        fetched_at.spec_nanos() as int,
        reference_time.spec_seconds() as int,
        reference_time.spec_nanos() as int,
    ) {
        Some(relative) => text + " ("@ + relative + ")"@,
        None => text,
    }
}

/// The status of a snapshot: how many issues it holds, when it was fetched,
/// the Jira URL and the JQL it was fetched with.
pub open spec fn status_text(snapshot: Snapshot, reference_time: Timestamp) -> Seq<char> {
    issue_count_text(snapshot.issues@.len()) + "\n\nFetched: "@ + fetched_at_text(
        snapshot.metadata.fetched_at,
        reference_time,
    ) + "\nURL:     "@ + snapshot.metadata.jira_url@ + "\nJQL:\n"@ + snapshot.metadata.jql@
}

/// What the status shows when there is no snapshot.
pub open spec fn no_cache_text() -> Seq<char> {
    "No local issue cache found"@
}

/// The status of a snapshot, such as "5 issues cached", a blank line, then
/// "Fetched: 2026-09-18T12:15:00Z (3h ago)", the URL and the JQL.
pub fn format_status(snapshot: &Snapshot, reference_time: Timestamp) -> (r: String)
    ensures
        r@ == status_text(*snapshot, reference_time),
{
    let issue_count = snapshot.issues.len();
    let mut out = String::new();
    push_decimal(&mut out, issue_count as u64);
    if issue_count == 1 {
        push_str(&mut out, " issue");
    } else {
        push_str(&mut out, " issues");
    }
    push_str(&mut out, " cached");
    let ghost count_part = out@;
    assert(count_part =~= issue_count_text(snapshot.issues@.len()));
    let fetched_at = format_rfc3339_seconds(snapshot.metadata.fetched_at);
    let relative = format_relative_time(snapshot.metadata.fetched_at, reference_time);
    push_str(&mut out, "\n\nFetched: ");
    push_str(&mut out, fetched_at.as_str());
    match relative {
        Some(relative) => {
            push_str(&mut out, " (");
            push_str(&mut out, relative.as_str());
            push_str(&mut out, ")");
        },
        None => {},
    }
    let ghost fetched_part = out@;
    assert(fetched_part =~= count_part + "\n\nFetched: "@ + fetched_at_text(
        snapshot.metadata.fetched_at,
        reference_time,
    ));
    push_str(&mut out, "\nURL:     ");
    push_str(&mut out, snapshot.metadata.jira_url.as_str());
    push_str(&mut out, "\nJQL:\n");
    push_str(&mut out, snapshot.metadata.jql.as_str());
    assert(out@ =~= status_text(*snapshot, reference_time));
    out
}

/// The status report: the snapshot's status, or that there is no cache.
pub fn status_report(snapshot: Option<&Snapshot>, reference_time: Timestamp) -> (r: String)
    ensures
        r@ == match snapshot {
            Some(snapshot) => status_text(*snapshot, reference_time),
            None => no_cache_text(),
        },
{
    match snapshot {
        Some(snapshot) => format_status(snapshot, reference_time),
        None => {
            let mut out = String::new();
            push_str(&mut out, "No local issue cache found");
            out
        },
    }
}

} // verus!
