use chrono::{DateTime, Utc};
use jiracc::application::show::{find_issue, format_issue, format_updated_at};
use jiracc::domain::{Assignee, Issue, IssueReference, Timestamp};

fn timestamp(text: &str) -> anyhow::Result<Timestamp> {
    let instant = text.parse::<DateTime<Utc>>()?;
    Timestamp::new(instant.timestamp(), instant.timestamp_subsec_nanos())
        .ok_or_else(|| anyhow::Error::msg("unrepresentable instant"))
}

#[test]
fn format_issue_with_all_fields() -> anyhow::Result<()> {
    let issue = Issue {
        id: "10001".to_owned(),
        key: "TEST-42".to_owned(),
        summary: "Investigate intermittent timeout".to_owned(),
        status: "In Progress".to_owned(),
        issue_type: "Bug".to_owned(),
        assignee: Some(Assignee {
            username: "alice".to_owned(),
            display_name: "Alice Example".to_owned(),
        }),
        description: Some(
            "First line of the description.\nSecond line with more detail.".to_owned(),
        ),
        updated_at: "2026-09-15T10:00:00.000+0000".to_owned(),
        parent: Some(IssueReference {
            id: "10000".to_owned(),
            key: "TEST-40".to_owned(),
        }),
        subtasks: vec![
            IssueReference {
                id: "10002".to_owned(),
                key: "TEST-43".to_owned(),
            },
            IssueReference {
                id: "10003".to_owned(),
                key: "TEST-44".to_owned(),
            },
        ],
    };
    let now = timestamp("2026-09-18T15:15:00Z")?;

    assert_eq!(
        format_issue(&issue, now),
        "TEST-42 — Investigate intermittent timeout

Type:       Bug
Status:     In Progress
Assignee:   Alice Example (@alice)
Updated:    2026-09-15T10:00:00.000+0000 (3d 5h ago)
Jira ID:    10001
Parent:     TEST-40
Subtasks:   TEST-43, TEST-44

Description
-----------
First line of the description.
Second line with more detail."
    );

    Ok(())
}

#[test]
fn format_issue_without_optional_fields() -> anyhow::Result<()> {
    let issue = Issue {
        id: "20001".to_owned(),
        key: "TEST-50".to_owned(),
        summary: "Document the deployment process".to_owned(),
        status: "Open".to_owned(),
        issue_type: "Task".to_owned(),
        assignee: None,
        description: None,
        updated_at: "2026-09-16T14:30:00.000+0000".to_owned(),
        parent: None,
        subtasks: Vec::new(),
    };
    let now = timestamp("2026-09-18T15:15:00Z")?;

    assert_eq!(
        format_issue(&issue, now),
        "TEST-50 — Document the deployment process

Type:       Task
Status:     Open
Assignee:   Unassigned
Updated:    2026-09-16T14:30:00.000+0000 (2d ago)
Jira ID:    20001
Parent:     None
Subtasks:   None

Description
-----------
No description."
    );

    Ok(())
}

#[test]
fn format_updated_at_respects_offset() -> anyhow::Result<()> {
    let now = timestamp("2026-09-21T16:59:39Z")?;

    assert_eq!(
        format_updated_at("2026-09-18T12:59:39.000-0400", now),
        "2026-09-18T12:59:39.000-0400 (3d ago)"
    );

    Ok(())
}

#[test]
fn format_updated_at_falls_back_to_raw_value() -> anyhow::Result<()> {
    let now = timestamp("2026-09-21T16:59:39Z")?;
    let cases = ["not-a-timestamp", "2026-09-21T17:00:00.000+0000"];

    for updated_at in cases {
        assert_eq!(format_updated_at(updated_at, now), updated_at);
    }

    Ok(())
}

#[test]
fn format_updated_at_reads_a_leap_second() -> anyhow::Result<()> {
    let now = timestamp("2017-01-01T00:01:01Z")?;

    assert_eq!(
        format_updated_at("2016-12-31T23:59:60.500+0000", now),
        "2016-12-31T23:59:60.500+0000 (1m ago)"
    );

    Ok(())
}

fn issue(key: &str) -> Issue {
    Issue {
        id: key.to_owned(),
        key: key.to_owned(),
        summary: "Summary".to_owned(),
        status: "Open".to_owned(),
        issue_type: "Task".to_owned(),
        assignee: None,
        description: None,
        updated_at: "2026-09-18T10:00:00.000+0000".to_owned(),
        parent: None,
        subtasks: Vec::new(),
    }
}

#[test]
fn finds_the_first_issue_with_exactly_the_key() {
    let mut second = issue("TEST-1");
    second.id = "second".to_owned();
    let issues = vec![issue("TEST-10"), issue("TEST-1"), second];
    let found = find_issue(issues, "TEST-1").expect("an issue with the key");
    assert_eq!(found.id, "TEST-1");

    assert!(find_issue(vec![issue("TEST-10")], "TEST-1").is_none());
    assert!(find_issue(vec![issue("TEST-1")], "test-1").is_none());
}
