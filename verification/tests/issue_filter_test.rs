use jiracc::application::issue_filter::{IssueFilter, IssueFilterError};
use jiracc::domain::{Assignee, Issue};

//-------------//
//  SUCCESSES  //
//-------------//

#[test]
fn query_matches_each_searchable_field() -> Result<(), IssueFilterError> {
    // GIVEN
    let issue = test_issue();
    let test_cases = [
        ("key", "PROJ-42"),
        ("summary", "Investigate connection timeout"),
        ("description", "Failures occur after a VPN reconnect."),
    ];

    for (name, query) in test_cases {
        let filter =
            IssueFilter::new(Some(query.to_owned()), Vec::new(), Vec::new(), Vec::new())?;

        // WHEN
        let result = filter.matches(&issue);

        // THEN
        assert!(result, "test case: {name}");
    }

    Ok(())
}

#[test]
fn supplied_search_values_are_trimmed_and_matched_case_insensitively(
) -> Result<(), IssueFilterError> {
    // GIVEN
    let test_cases = [
        (
            "query",
            IssueFilter::new(
                Some("  CONNECTION TIMEOUT  ".to_owned()),
                Vec::new(),
                Vec::new(),
                Vec::new(),
            )?,
        ),
        (
            "assignee",
            IssueFilter::new(None, strings(&["  ALICE  "]), Vec::new(), Vec::new())?,
        ),
        (
            "status",
            IssueFilter::new(None, Vec::new(), strings(&["  PROGRESS  "]), Vec::new())?,
        ),
        (
            "issue type",
            IssueFilter::new(None, Vec::new(), Vec::new(), strings(&["  STORY  "]))?,
        ),
    ];
    let issue = test_issue();

    for (name, filter) in test_cases {
        // WHEN
        let result = filter.matches(&issue);

        // THEN
        assert!(result, "test case: {name}");
    }

    Ok(())
}

#[test]
fn query_treats_special_characters_literally() -> Result<(), IssueFilterError> {
    // GIVEN
    let filter = IssueFilter::new(Some("[v2]+".to_owned()), Vec::new(), Vec::new(), Vec::new())?;
    let test_cases = [
        ("literal match", "Support parser [v2]+", true),
        ("regex-like match", "Support parser v222", false),
    ];

    for (name, summary, expected) in test_cases {
        let mut issue = test_issue();
        issue.summary = summary.to_owned();

        // WHEN
        let result = filter.matches(&issue);

        // THEN
        assert_eq!(result, expected, "test case: {name}");
    }

    Ok(())
}

#[test]
fn values_within_each_category_are_combined_with_or() -> Result<(), IssueFilterError> {
    // GIVEN
    let issue = test_issue();
    let test_cases = [
        (
            "assignee",
            IssueFilter::new(None, strings(&["aaron", "alice"]), Vec::new(), Vec::new())?,
        ),
        (
            "status",
            IssueFilter::new(
                None,
                Vec::new(),
                strings(&["Closed", "In Progress"]),
                Vec::new(),
            )?,
        ),
        (
            "issue type",
            IssueFilter::new(
                None,
                Vec::new(),
                Vec::new(),
                strings(&["Assignment", "Story"]),
            )?,
        ),
    ];

    for (name, filter) in test_cases {
        // WHEN
        let result = filter.matches(&issue);

        // THEN
        assert!(result, "test case: {name}");
    }

    Ok(())
}

#[test]
fn query_split_across_fields_does_not_match() -> Result<(), IssueFilterError> {
    // GIVEN
    let filter = IssueFilter::new(
        Some("connection timeout".to_owned()),
        Vec::new(),
        Vec::new(),
        Vec::new(),
    )?;
    let mut issue = test_issue();
    issue.summary = "Connection failures".to_owned();
    issue.description = Some("Investigate the timeout".to_owned());

    // WHEN
    let result = filter.matches(&issue);

    // THEN
    assert!(!result);

    Ok(())
}

#[test]
fn query_does_not_match_an_issue_without_a_description() -> Result<(), IssueFilterError> {
    // GIVEN
    let filter = IssueFilter::new(
        Some("release notes".to_owned()),
        Vec::new(),
        Vec::new(),
        Vec::new(),
    )?;
    let mut issue = test_issue();
    issue.description = None;

    // WHEN
    let result = filter.matches(&issue);

    // THEN
    assert!(!result);

    Ok(())
}

#[test]
fn search_values_match_substrings() -> Result<(), IssueFilterError> {
    // GIVEN
    let test_cases = [
        (
            "query",
            IssueFilter::new(
                Some("connection timeout".to_owned()),
                Vec::new(),
                Vec::new(),
                Vec::new(),
            )?,
        ),
        (
            "assignee",
            IssueFilter::new(None, strings(&["alice"]), Vec::new(), Vec::new())?,
        ),
        (
            "status",
            IssueFilter::new(None, Vec::new(), strings(&["Progress"]), Vec::new())?,
        ),
        (
            "issue type",
            IssueFilter::new(None, Vec::new(), Vec::new(), strings(&["Story"]))?,
        ),
    ];
    let issue = test_issue();

    for (name, filter) in test_cases {
        // WHEN
        let result = filter.matches(&issue);

        // THEN
        assert!(result, "test case: {name}");
    }

    Ok(())
}

#[test]
fn search_criteria_are_combined_with_and() -> Result<(), IssueFilterError> {
    // GIVEN
    let test_cases = [
        (
            "all categories match",
            IssueFilter::new(
                Some("Investigate connection timeout".to_owned()),
                strings(&["alice.smith"]),
                strings(&["In Progress"]),
                strings(&["Technical Story"]),
            )?,
            true,
        ),
        (
            "query doesn't match",
            IssueFilter::new(
                Some("database".to_owned()),
                strings(&["alice.smith"]),
                strings(&["In Progress"]),
                strings(&["Technical Story"]),
            )?,
            false,
        ),
        (
            "assignee doesn't match",
            IssueFilter::new(
                Some("Investigate connection timeout".to_owned()),
                strings(&["bob"]),
                strings(&["In Progress"]),
                strings(&["Technical Story"]),
            )?,
            false,
        ),
        (
            "status doesn't match",
            IssueFilter::new(
                Some("Investigate connection timeout".to_owned()),
                strings(&["alice.smith"]),
                strings(&["Done"]),
                strings(&["Technical Story"]),
            )?,
            false,
        ),
        (
            "issue type doesn't match",
            IssueFilter::new(
                Some("Investigate connection timeout".to_owned()),
                strings(&["alice.smith"]),
                strings(&["In Progress"]),
                strings(&["Bug"]),
            )?,
            false,
        ),
    ];
    let issue = test_issue();

    for (name, filter, expected) in test_cases {
        // WHEN
        let result = filter.matches(&issue);

        // THEN
        assert_eq!(result, expected, "test case: {name}");
    }

    Ok(())
}

#[test]
fn assignee_filter_does_not_match_the_display_name() -> Result<(), IssueFilterError> {
    // GIVEN
    let filter = IssueFilter::new(None, strings(&["Alice Example"]), Vec::new(), Vec::new())?;
    let issue = test_issue();

    // WHEN
    let result = filter.matches(&issue);

    // THEN
    assert!(!result);

    Ok(())
}

#[test]
fn assignee_filter_does_not_match_an_unassigned_issue() -> Result<(), IssueFilterError> {
    // GIVEN
    let filter = IssueFilter::new(None, strings(&["alice"]), Vec::new(), Vec::new())?;
    let mut issue = test_issue();
    issue.assignee = None;

    // WHEN
    let result = filter.matches(&issue);

    // THEN
    assert!(!result);

    Ok(())
}

#[test]
fn filter_without_criteria_matches_an_issue() -> Result<(), IssueFilterError> {
    // GIVEN
    let filter = IssueFilter::new(None, Vec::new(), Vec::new(), Vec::new())?;
    let issue = test_issue();

    // WHEN
    let result = filter.matches(&issue);

    // THEN
    assert!(result);

    Ok(())
}

//------------//
//  FAILURES  //
//------------//

#[test]
fn empty_query_fails() {
    // GIVEN
    let test_cases = [("empty", ""), ("whitespace only", "   ")];

    for (name, query) in test_cases {
        // WHEN
        let result = IssueFilter::new(Some(query.to_owned()), Vec::new(), Vec::new(), Vec::new());

        // THEN
        assert!(
            matches!(
                result,
                Err(IssueFilterError::EmptyValue { property: "query" })
            ),
            "test case: {name}"
        );
    }
}

#[test]
fn empty_categorical_value_fails() {
    // GIVEN
    let test_cases = [
        (
            "empty assignee",
            "assignee",
            strings(&["alice", ""]),
            Vec::new(),
            Vec::new(),
        ),
        (
            "whitespace-only assignee",
            "assignee",
            strings(&["alice", "   "]),
            Vec::new(),
            Vec::new(),
        ),
        (
            "empty status",
            "status",
            Vec::new(),
            strings(&["Open", ""]),
            Vec::new(),
        ),
        (
            "whitespace-only status",
            "status",
            Vec::new(),
            strings(&["Open", "   "]),
            Vec::new(),
        ),
        (
            "empty issue type",
            "issue type",
            Vec::new(),
            Vec::new(),
            strings(&["Bug", ""]),
        ),
        (
            "whitespace-only issue type",
            "issue type",
            Vec::new(),
            Vec::new(),
            strings(&["Bug", "   "]),
        ),
    ];

    for (name, expected_property, assignees, statuses, issue_types) in test_cases {
        // WHEN
        let result = IssueFilter::new(None, assignees, statuses, issue_types);

        // THEN
        assert!(
            matches!(
                result,
                Err(IssueFilterError::EmptyValue { property })
                    if property == expected_property
            ),
            "test case: {name}"
        );
    }
}

//---------------------------//
//  FURTHER FILTER BEHAVIOUR //
//---------------------------//

#[test]
fn unconstrained_filter_reports_itself_and_matches_everything() -> Result<(), IssueFilterError> {
    let filter = IssueFilter::new(None, Vec::new(), Vec::new(), Vec::new())?;
    assert!(filter.is_unconstrained());
    let mut issue = test_issue();
    issue.assignee = None;
    issue.description = None;
    assert!(filter.matches(&issue));

    let constrained = IssueFilter::new(None, Vec::new(), strings(&["open"]), Vec::new())?;
    assert!(!constrained.is_unconstrained());
    Ok(())
}

#[test]
fn value_order_and_repeats_do_not_change_the_outcome() -> Result<(), IssueFilterError> {
    let issue = test_issue();
    let first = IssueFilter::new(
        None,
        strings(&["bob", "ALICE", "alice"]),
        strings(&["done", "progress"]),
        Vec::new(),
    )?;
    let second = IssueFilter::new(
        None,
        strings(&[" alice ", "bob"]),
        strings(&["Progress", "Done", "DONE"]),
        Vec::new(),
    )?;
    assert_eq!(first.matches(&issue), second.matches(&issue));
    assert!(first.matches(&issue));
    assert_eq!(format!("{first:?}"), format!("{second:?}"));
    Ok(())
}

#[test]
fn query_is_checked_before_the_categories() {
    let result = IssueFilter::new(
        Some("  ".to_owned()),
        strings(&[""]),
        strings(&[""]),
        strings(&[""]),
    );
    assert!(matches!(
        result,
        Err(IssueFilterError::EmptyValue { property: "query" })
    ));
    let result = IssueFilter::new(None, Vec::new(), strings(&[" "]), strings(&[""]));
    assert!(matches!(
        result,
        Err(IssueFilterError::EmptyValue { property: "status" })
    ));
}

#[test]
fn unicode_whitespace_is_trimmed_and_unicode_text_is_lower_cased() -> Result<(), IssueFilterError> {
    let mut issue = test_issue();
    issue.summary = "ÉTUDE de la connexion".to_owned();
    let filter = IssueFilter::new(
        Some("\u{3000}étude\u{a0}".to_owned()),
        Vec::new(),
        Vec::new(),
        Vec::new(),
    )?;
    assert!(filter.matches(&issue));
    Ok(())
}

fn test_issue() -> Issue {
    Issue {
        id: "10042".to_owned(),
        key: "PROJ-42".to_owned(),
        summary: "Investigate connection timeout".to_owned(),
        status: "In Progress".to_owned(),
        issue_type: "Technical Story".to_owned(),
        assignee: Some(Assignee {
            username: "alice.smith".to_owned(),
            display_name: "Alice Example".to_owned(),
        }),
        description: Some("Failures occur after a VPN reconnect.".to_owned()),
        updated_at: "2026-09-15T10:00:00.000+0000".to_owned(),
        parent: None,
        subtasks: Vec::new(),
    }
}

fn strings(values: &[&str]) -> Vec<String> {
    values.iter().map(|value| (*value).to_owned()).collect()
}
