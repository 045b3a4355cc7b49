use chrono::{DateTime, Utc};
use jiracc::application::issue_filter::IssueFilter;
use jiracc::application::search::{format_search_results, search_output, select_matching_issues};
use jiracc::domain::{Assignee, Issue, Snapshot, SnapshotMetadata, Timestamp};

#[test]
fn writes_compact_results_in_input_order() {
    // GIVEN
    let issues = vec![
        issue(
            "TEST-2",
            "Technical Story",
            "In Progress",
            Some(("alice", "Alice Example")),
            "Investigate intermittent timeout",
        ),
        issue("TEST-1", "Bug", "Done", None, "Document recovery steps"),
    ];

    // WHEN
    let output = format_search_results(&issues);

    // THEN
    assert_eq!(
        output,
        "KEY     TYPE             STATUS       ASSIGNEE    SUMMARY
TEST-2  Technical Story  In Progress  @alice      Investigate intermittent timeout
TEST-1  Bug              Done         Unassigned  Document recovery steps
"
    );
}

#[test]
fn normalizes_whitespace_before_writing_cells() {
    // GIVEN
    let issues = vec![
        issue(
            " TEST\t-\n3 ",
            " User\n\tStory ",
            " In\r\nProgress ",
            Some((" alice\t smith\n", "Ignored\nDisplay Name")),
            "  Preserve\nexactly\tone logical\r\nline  ",
        ),
        issue(
            "TEST-\n4",
            "Technical\tStory",
            "To\nDo",
            Some(("bob\tjones", "Ignored Display Name")),
            "Another\nissue\tsummary",
        ),
    ];

    // WHEN
    let output = format_search_results(&issues);

    // THEN
    assert_eq!(
        output,
        "KEY       TYPE             STATUS       ASSIGNEE      SUMMARY
TEST - 3  User Story       In Progress  @alice smith  Preserve exactly one logical line
TEST- 4   Technical Story  To Do        @bob jones    Another issue summary
"
    );
}

#[test]
fn aligns_unicode_fields_without_padding_the_summary() {
    // GIVEN
    let issues = vec![
        issue("É-1", "改善", "Open", None, "短い"),
        issue("A-20", "Bug", "À faire", Some(("zoë", "Zoë")), "x"),
    ];

    // WHEN
    let output = format_search_results(&issues);

    // THEN
    assert_eq!(
        output,
        "KEY   TYPE  STATUS   ASSIGNEE    SUMMARY
É-1   改善  Open     Unassigned  短い
A-20  Bug   À faire  @zoë        x
"
    );
}

#[test]
fn search_lists_matches_in_snapshot_order_or_nothing() -> anyhow::Result<()> {
    let issues = vec![
        issue("TEST-3", "Bug", "Open", Some(("alice", "Alice")), "Retry sync"),
        issue("TEST-1", "Story", "Done", Some(("bob", "Bob")), "Connection pool"),
        issue("TEST-2", "Bug", "Open", Some(("alice", "Alice")), "Connection timeout"),
    ];
    let filter = IssueFilter::new(
        Some("connection".to_owned()),
        Vec::new(),
        Vec::new(),
        Vec::new(),
    )
    .map_err(|error| anyhow::Error::msg(format!("{error:?}")))?;
    let selected = select_matching_issues(issues, &filter);
    let keys = selected.iter().map(|issue| issue.key.as_str()).collect::<Vec<_>>();
    assert_eq!(keys, ["TEST-1", "TEST-2"]);

    let filter = IssueFilter::new(Some("database".to_owned()), Vec::new(), Vec::new(), Vec::new())
        .map_err(|error| anyhow::Error::msg(format!("{error:?}")))?;
    assert_eq!(search_output(snapshot(selected), &filter), None);
    Ok(())
}

#[test]
fn search_without_criteria_lists_every_cached_issue() -> anyhow::Result<()> {
    let issues = vec![
        issue("TEST-1", "Bug", "Open", None, "First"),
        issue("TEST-2", "Bug", "Open", None, "Second"),
    ];
    let filter = IssueFilter::new(None, Vec::new(), Vec::new(), Vec::new())
        .map_err(|error| anyhow::Error::msg(format!("{error:?}")))?;
    let output = search_output(snapshot(issues), &filter);
    assert_eq!(
        output.as_deref(),
        Some(
            "KEY     TYPE  STATUS  ASSIGNEE    SUMMARY
TEST-1  Bug   Open    Unassigned  First
TEST-2  Bug   Open    Unassigned  Second
"
        )
    );
    assert_eq!(search_output(snapshot(Vec::new()), &filter), None);
    Ok(())
}

fn snapshot(issues: Vec<Issue>) -> Snapshot {
    let fetched_at = "2026-09-18T12:15:00Z"
        .parse::<DateTime<Utc>>()
        .expect("a valid time");
    Snapshot {
        metadata: SnapshotMetadata {
            fetched_at: Timestamp::new(fetched_at.timestamp(), 0).expect("representable"),
            jira_url: "https://jira.example.com".to_owned(),
            jql: "project = TEST".to_owned(),
        },
        issues,
    }
}

fn issue(
    key: &str,
    issue_type: &str,
    status: &str,
    assignee: Option<(&str, &str)>,
    summary: &str,
) -> Issue {
    Issue {
        id: "10001".to_owned(),
        key: key.to_owned(),
        summary: summary.to_owned(),
        status: status.to_owned(),
        issue_type: issue_type.to_owned(),
        assignee: assignee.map(|(username, display_name)| Assignee {
            username: username.to_owned(),
            display_name: display_name.to_owned(),
        }),
        description: None,
        updated_at: "2026-09-18T10:00:00.000+0000".to_owned(),
        parent: None,
        subtasks: Vec::new(),
    }
}

fn refusal(
    query: Option<&str>,
    assignees: &[&str],
    statuses: &[&str],
    issue_types: &[&str],
) -> Option<String> {
    let owned = |values: &[&str]| values.iter().map(|value| (*value).to_owned()).collect();
    IssueFilter::new(
        query.map(str::to_owned),
        owned(assignees),
        owned(statuses),
        owned(issue_types),
    )
    .err()
    .map(|error| error.message())
}

#[test]
fn rejects_an_explicitly_empty_query() {
    assert_eq!(
        refusal(Some(""), &[], &[], &[]).as_deref(),
        Some("'query' must not be empty")
    );
}

#[test]
fn rejects_a_whitespace_only_query() {
    assert_eq!(
        refusal(Some("   "), &[], &[], &[]).as_deref(),
        Some("'query' must not be empty")
    );
}

#[test]
fn rejects_an_empty_issue_type() {
    assert_eq!(
        refusal(None, &[], &[], &[""]).as_deref(),
        Some("'issue type' must not be empty")
    );
}

#[test]
fn rejects_empty_assignees_and_statuses() {
    assert_eq!(
        refusal(None, &["alice", " "], &[], &[]).as_deref(),
        Some("'assignee' must not be empty")
    );
    assert_eq!(
        refusal(None, &[], &["\t"], &[]).as_deref(),
        Some("'status' must not be empty")
    );
}
