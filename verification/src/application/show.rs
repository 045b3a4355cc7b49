//! The details of one cached issue, with how long ago it was updated.
use vstd::prelude::*;
use crate::application::issue_formatter::{issue_details, push_issue_details};
use crate::application::presentation::{format_relative_time, relative_time_between};
use crate::domain::{parse_timestamp, spec_parse_timestamp, spec_utc_representable, Issue, Timestamp};
use crate::text::push_str;

verus! {

/// The format of Jira's update times, such as "2026-09-15T10:00:00.000+0000".
pub open spec fn jira_timestamp_format() -> Seq<char> {
    "%Y-%m-%dT%H:%M:%S%.f%z"@
}

/// The update time as shown: the raw text followed by how long before
/// `reference_time` it lies, in parentheses; only the raw text when it does
/// not parse as a Jira time or lies after the reference time.
pub open spec fn updated_at_text(updated_at: Seq<char>, reference_time: Timestamp) -> Seq<char> {
    match spec_parse_timestamp(updated_at, jira_timestamp_format()) {
        Some((seconds, nanos)) => {
            if spec_utc_representable(seconds, nanos) {
                match relative_time_between(
                    seconds as int,
                    nanos as int,
                    reference_time.spec_seconds() as int,
                    reference_time.spec_nanos() as int,
                ) {
                    Some(relative) => updated_at + " ("@ + relative + ")"@,
                    None => updated_at,
                }
            } else {
                updated_at
            }
        },
        None => updated_at,
    }
}

/// The issue's details, showing its update time with how long ago it was.
pub open spec fn issue_view_text(issue: Issue, reference_time: Timestamp) -> Seq<char> {
    issue_details(issue, updated_at_text(issue.updated_at@, reference_time))
}

/// The update time with how long before `reference_time` it lies, such as
/// "2026-09-18T12:59:39.000-0400 (3d ago)"; the raw text when it cannot be
/// read as a Jira time or lies after the reference time.
pub fn format_updated_at(updated_at: &str, reference_time: Timestamp) -> (r: String)
    ensures
        r@ == updated_at_text(updated_at@, reference_time),
{
    let format = "%Y-%m-%dT%H:%M:%S%.f%z";
    let relative_time = match parse_timestamp(updated_at, format) {
        Some((seconds, nanos)) => match Timestamp::new(seconds, nanos) {
            Some(timestamp) => format_relative_time(timestamp, reference_time),
            None => None,
        },
        None => None,
    };
    let mut out = String::new();
    push_str(&mut out, updated_at);
    match relative_time {
        Some(relative_time) => {
            push_str(&mut out, " (");
            push_str(&mut out, relative_time.as_str());
            push_str(&mut out, ")");
        },
        None => {},
    }
    assert(out@ =~= updated_at_text(updated_at@, reference_time));
    out
}

/// The details of an issue: "KEY — Summary", a blank line, the labelled
/// fields (with the update time and how long ago it was), and the description.
pub fn format_issue(issue: &Issue, reference_time: Timestamp) -> (r: String)
    ensures
        r@ == issue_view_text(*issue, reference_time),
{
    let updated_at = format_updated_at(issue.updated_at.as_str(), reference_time);
    let mut out = String::new();
    push_issue_details(&mut out, issue, updated_at.as_str());
    assert(out@ =~= issue_view_text(*issue, reference_time));
    out
}

/// The first issue whose key is exactly `key`, if there is one.
#[verifier::loop_isolation(false)]
pub fn find_issue(issues: Vec<Issue>, key: &str) -> (r: Option<Issue>)
    ensures
        r is None <==> forall|i: int| 0 <= i < issues@.len() ==> (#[trigger] issues@[i]).key@ != key@,
        r matches Some(found) ==> exists|i: int|
            0 <= i < issues@.len() && found == issues@[i] && issues@[i].key@ == key@ && forall|j: int|
                0 <= j < i ==> (#[trigger] issues@[j]).key@ != key@,
{
    let mut issues = issues;
    let ghost all = issues@;
    let mut i: usize = 0;
    while i < issues.len()
        invariant
            i <= issues@.len(),
            issues@ == all,
            forall|j: int| 0 <= j < i ==> (#[trigger] all[j]).key@ != key@,
        decreases issues.len() - i,
    {
        if crate::text::str_eq(issues[i].key.as_str(), key) {
            let found = issues.remove(i);
            assert(found == all[i as int]);
            assert(all[i as int].key@ == key@);
            return Some(found);
        }
        i += 1;
    }
    None
}

} // verus!
