//! Searching the cached issues and rendering the matches as a compact table.
use vstd::prelude::*;
use std::io::Write;
use crate::application::issue_filter::IssueFilter;
use crate::domain::{Assignee, Issue, Snapshot};
use crate::text::{collapse_whitespace, collapse_whitespace_of, push_str};

verus! {

/// What a `tabwriter::TabWriter` configured with `padding` writes when
/// `text` is written to it and it is flushed: the tab-separated cells of
/// consecutive lines aligned into columns.
pub uninterp spec fn spec_aligned_columns(text: Seq<char>, padding: usize) -> Seq<char>;

/// Writes `text` through a `tabwriter::TabWriter` with the given `padding`
/// (`TabWriter::new`, `padding`, `write_all`, `into_inner`) into memory and
/// returns what it wrote; the result is named `spec_aligned_columns`. Writing
/// into memory cannot fail, and the table holds only the input's characters
/// and spaces, so its bytes are valid UTF-8.
#[verifier::external_body]
fn align_columns(text: &str, padding: usize) -> (r: String)
    ensures
        r@ == spec_aligned_columns(text@, padding),
{
    let mut table = tabwriter::TabWriter::new(Vec::new()).padding(padding);
    let _ = table.write_all(text.as_bytes());
    match table.into_inner() {
        Ok(bytes) => String::from_utf8_lossy(&bytes).into_owned(),
        Err(_) => String::new(),
    }
}

/// The spaces between table columns.
pub open spec fn column_padding() -> usize {
    2
}

/// "@username" with the username's whitespace collapsed, or "Unassigned".
pub open spec fn assignee_cell(assignee: Option<Assignee>) -> Seq<char> {
    match assignee {
        Some(a) => "@"@ + collapse_whitespace(a.username@),
        None => "Unassigned"@,
    }
}

/// One table line: key, type, status, assignee and summary, each with its
/// whitespace collapsed, separated by tabs and ended by a newline.
pub open spec fn result_row(issue: Issue) -> Seq<char> {
    collapse_whitespace(issue.key@) + "\t"@ + collapse_whitespace(issue.issue_type@) + "\t"@
        + collapse_whitespace(issue.status@) + "\t"@ + assignee_cell(issue.assignee) + "\t"@
        + collapse_whitespace(issue.summary@) + "\n"@
}

/// The lines of the issues, in order.
pub open spec fn result_rows(issues: Seq<Issue>) -> Seq<char>
    decreases issues.len(),
{
    if issues.len() == 0 {
        seq![]
    } else {
        result_rows(issues.drop_last()) + result_row(issues.last())
    }
}

/// The header line followed by one line per issue.
pub open spec fn results_text(issues: Seq<Issue>) -> Seq<char> {
    "KEY\tTYPE\tSTATUS\tASSIGNEE\tSUMMARY\n"@ + result_rows(issues)
}

/// The issues that the filter accepts, in their original order.
pub open spec fn matching_issues(issues: Seq<Issue>, filter: IssueFilter) -> Seq<Issue>
    decreases issues.len(),
{
    if issues.len() == 0 {
        seq![]
    } else {
        let earlier = matching_issues(issues.drop_last(), filter);
        if filter.spec_matches(issues.last()) {
            earlier.push(issues.last())
        } else {
            earlier
        }
    }
}

/// Appends the table line of one issue.
fn push_result_row(out: &mut String, issue: &Issue)
    ensures
        final(out)@ == old(out)@ + result_row(*issue),
{
    let key = collapse_whitespace_of(issue.key.as_str());
    let issue_type = collapse_whitespace_of(issue.issue_type.as_str());
    let status = collapse_whitespace_of(issue.status.as_str());
    let summary = collapse_whitespace_of(issue.summary.as_str());
    push_str(out, key.as_str());
    push_str(out, "\t");
    push_str(out, issue_type.as_str());
    push_str(out, "\t");
    push_str(out, status.as_str());
    push_str(out, "\t");
    match &issue.assignee {
        Some(assignee) => {
            let username = collapse_whitespace_of(assignee.username.as_str());
            push_str(out, "@");
            push_str(out, username.as_str());
        },
        None => push_str(out, "Unassigned"),
    }
    push_str(out, "\t");
    push_str(out, summary.as_str());
    push_str(out, "\n");
    assert(out@ =~= old(out)@ + result_row(*issue));
}

/// The search results as a table aligned into columns, two spaces apart:
/// a header line ("KEY  TYPE  STATUS  ASSIGNEE  SUMMARY") and one line per
/// issue, in the given order.
pub fn format_search_results(issues: &Vec<Issue>) -> (r: String)
    ensures
        r@ == spec_aligned_columns(results_text(issues@), column_padding()),
{
    let mut text = String::new();
    push_str(&mut text, "KEY\tTYPE\tSTATUS\tASSIGNEE\tSUMMARY\n");
    let ghost header = text@;
    let mut i: usize = 0;
    while i < issues.len()
        invariant
            i <= issues@.len(),
            header == "KEY\tTYPE\tSTATUS\tASSIGNEE\tSUMMARY\n"@,
            text@ == header + result_rows(issues@.take(i as int)),
        decreases issues.len() - i,
    {
        push_result_row(&mut text, &issues[i]);
        assert(issues@.take(i + 1).drop_last() =~= issues@.take(i as int));
        assert(text@ =~= header + result_rows(issues@.take(i + 1)));
        i += 1;
    }
    assert(issues@.take(issues@.len() as int) =~= issues@);
    align_columns(text.as_str(), 2)
}

/// The issues that the filter accepts, in their original order.
pub fn select_matching_issues(issues: Vec<Issue>, filter: &IssueFilter) -> (r: Vec<Issue>)
    ensures
        r@ == matching_issues(issues@, *filter),
{
    let ghost all = issues@;
    let mut selected: Vec<Issue> = Vec::new();
    for issue in it: issues
        invariant
            it.seq() == all,
            selected@ == matching_issues(it.seq().take(it.index() as int), *filter),
    {
        let ghost done = it.seq().take(it.index() as int);
        let ghost next = it.seq().take(it.index() + 1);
        assert(next.drop_last() =~= done);
        assert(next.last() == issue);
        if filter.matches(&issue) {
            selected.push(issue);
        }
    }
    assert(all.take(all.len() as int) =~= all);
    selected
}

/// What a search prints for a snapshot: nothing when no cached issue matches
/// the filter, and otherwise the table of the matching issues in snapshot
/// order.
pub fn search_output(snapshot: Snapshot, filter: &IssueFilter) -> (r: Option<String>)
    ensures
        r is None <==> matching_issues(snapshot.issues@, *filter).len() == 0,
        r matches Some(table) ==> table@ == spec_aligned_columns(
            results_text(matching_issues(snapshot.issues@, *filter)),
            column_padding(),
        ),
{
    let issues = select_matching_issues(snapshot.issues, filter);
    if issues.len() == 0 {
        return None;
    }
    Some(format_search_results(&issues))
}

/// Without criteria, a search lists every cached issue, in snapshot order.
pub proof fn lemma_unconstrained_search_lists_every_issue(issues: Seq<Issue>, filter: IssueFilter)
    requires
        filter.spec_is_unconstrained(),
    ensures
        matching_issues(issues, filter) == issues,
    decreases issues.len(),
{
    if issues.len() > 0 {
        lemma_unconstrained_search_lists_every_issue(issues.drop_last(), filter);
        assert(issues.drop_last().push(issues.last()) =~= issues);
    }
}

/// A search keeps exactly the issues that the filter accepts: every listed
/// issue is accepted, and every accepted issue is listed.
pub proof fn lemma_search_keeps_exactly_the_matches(issues: Seq<Issue>, filter: IssueFilter)
    ensures
        forall|i: int|
            0 <= i < matching_issues(issues, filter).len() ==> filter.spec_matches(
                #[trigger] matching_issues(issues, filter)[i],
            ),
        forall|i: int|
            0 <= i < issues.len() && filter.spec_matches(#[trigger] issues[i]) ==> matching_issues(
                issues,
                filter,
            ).contains(issues[i]),
        matching_issues(issues, filter).len() <= issues.len(),
    decreases issues.len(),
{
    if issues.len() > 0 {
        let earlier = issues.drop_last();
        lemma_search_keeps_exactly_the_matches(earlier, filter);
        let kept = matching_issues(issues, filter);
        let kept_earlier = matching_issues(earlier, filter);
        assert forall|i: int| 0 <= i < kept.len() implies filter.spec_matches(#[trigger] kept[i]) by {
            if i < kept_earlier.len() {
                assert(kept[i] == kept_earlier[i]);
            }
        }
        assert forall|i: int|
            0 <= i < issues.len() && filter.spec_matches(#[trigger] issues[i]) implies kept.contains(
            issues[i],
        ) by {
            if i < issues.len() - 1 {
                assert(earlier[i] == issues[i]);
                let j = choose|j: int| 0 <= j < kept_earlier.len() && kept_earlier[j] == issues[i];
                assert(kept[j] == issues[i]);
            } else {
                assert(kept[kept.len() - 1] == issues[i]);
            }
        }
    }
}

} // verus!
