use jiracc::config::{
    canonicalize_path, expand_environment_variables, lookup_variable, parse_config_file, Config,
    ConfigError, ConfigFile, Environment, EnvironmentVariable, EnvironmentVariableError,
    JiraConfigFile, JiraJql, JiraToken, JiraUrl,
};

fn test_environment() -> Environment {
    Environment {
        variables: vec![
            EnvironmentVariable {
                name: "HOST".to_owned(),
                value: Some("jira.example.com".to_owned()),
            },
            EnvironmentVariable {
                name: "TOKEN".to_owned(),
                value: Some("secret-token".to_owned()),
            },
            EnvironmentVariable {
                name: "PROJECT".to_owned(),
                value: Some("TEST".to_owned()),
            },
        ],
    }
}

fn config_file(url: &str, token: &str, jql: &str) -> ConfigFile {
    ConfigFile {
        jira: JiraConfigFile {
            url: url.to_owned(),
            token: token.to_owned(),
            jql: jql.to_owned(),
        },
    }
}

fn parse(url: &str, token: &str, jql: &str) -> Result<Config, ConfigError> {
    parse_config_file(config_file(url, token, jql), &test_environment())
}

//-------------//
//  SUCCESSES  //
//-------------//

#[test]
fn parsing_correct_config_works() -> anyhow::Result<()> {
    // GIVEN / WHEN
    let result = parse("https://jira.example.com/jira", "secret-token", "project = TEST")
        .map_err(|error| anyhow::Error::msg(error.message()))?;

    // THEN
    assert_eq!(
        result.jira.url.as_url().as_str(),
        "https://jira.example.com/jira/"
    );
    assert_eq!(result.jira.token.as_str(), "secret-token");
    assert_eq!(result.jira.jql.as_str(), "project = TEST");

    Ok(())
}

#[test]
fn parsing_config_with_environment_variables_works() -> anyhow::Result<()> {
    // GIVEN / WHEN
    let result = parse("https://${HOST}/jira", "${TOKEN}", "project = ${PROJECT}")
        .map_err(|error| anyhow::Error::msg(error.message()))?;

    // THEN
    assert_eq!(
        result.jira.url.as_url().as_str(),
        "https://jira.example.com/jira/"
    );
    assert_eq!(result.jira.token.as_str(), "secret-token");
    assert_eq!(result.jira.jql.as_str(), "project = TEST");

    Ok(())
}

#[test]
fn expanding_supported_environment_variable_syntax_works() -> anyhow::Result<()> {
    // GIVEN
    let test_cases = [
        ("no variables", "literal", "literal"),
        ("unbraced variable", "$HOST", "jira.example.com"),
        ("braced variable", "${HOST}", "jira.example.com"),
        (
            "embedded variables",
            "https://${HOST}/${PROJECT}",
            "https://jira.example.com/TEST",
        ),
        ("default value", "${MISSING:-fallback}", "fallback"),
    ];

    for (name, input, expected) in test_cases {
        let environment = test_environment();

        // WHEN
        let result = expand_environment_variables(input.to_owned(), "jira.url", &environment)
            .map_err(|error| anyhow::Error::msg(error.message()))?;

        // THEN
        assert_eq!(result, expected, "test case: {name}");
    }

    Ok(())
}

#[test]
fn base_url_has_no_trailing_slash() -> anyhow::Result<()> {
    let test_cases = [
        ("https://jira.example.com", "https://jira.example.com"),
        ("https://jira.example.com/", "https://jira.example.com"),
        ("https://jira.example.com/jira//", "https://jira.example.com/jira"),
        ("http://localhost:8080/a/b", "http://localhost:8080/a/b"),
    ];

    for (input, expected) in test_cases {
        let url = JiraUrl::try_from(input.to_owned())
            .map_err(|error| anyhow::Error::msg(error.message()))?;
        assert_eq!(url.base_url(), expected, "input: {input}");
    }

    Ok(())
}

#[test]
fn canonical_paths_end_in_exactly_one_slash() {
    let test_cases = [
        ("", "/"),
        ("/", "/"),
        ("///", "/"),
        ("/jira", "/jira/"),
        ("/jira/", "/jira/"),
        ("/a//b///", "/a//b/"),
    ];

    for (input, expected) in test_cases {
        let canonical = canonicalize_path(input);
        assert_eq!(canonical, expected, "input: {input}");
        assert_eq!(canonicalize_path(&canonical), canonical, "input: {input}");
    }
}

#[test]
fn a_token_is_shown_redacted() {
    let token = JiraToken::try_from("secret-token".to_owned());
    assert!(matches!(&token, Ok(token) if token.redacted_text() == "JiraToken([REDACTED])"));
}

#[test]
fn token_and_jql_are_kept_as_given() {
    let token = JiraToken::try_from("  padded token ".to_owned());
    assert!(matches!(&token, Ok(token) if token.as_str() == "  padded token "));

    let jql = JiraJql::try_from("\tproject = TEST\n".to_owned());
    assert!(matches!(&jql, Ok(jql) if jql.as_str() == "\tproject = TEST\n"));
}

#[test]
fn the_first_variable_with_a_name_is_used() {
    let environment = Environment {
        variables: vec![
            EnvironmentVariable {
                name: "HOST".to_owned(),
                value: Some("first.example.com".to_owned()),
            },
            EnvironmentVariable {
                name: "HOST".to_owned(),
                value: Some("second.example.com".to_owned()),
            },
            EnvironmentVariable {
                name: "BINARY".to_owned(),
                value: None,
            },
        ],
    };

    assert_eq!(
        lookup_variable(&environment, "HOST"),
        Ok(Some("first.example.com".to_owned()))
    );
    assert_eq!(
        lookup_variable(&environment, "BINARY"),
        Err(EnvironmentVariableError::NotUnicode)
    );
    assert_eq!(
        lookup_variable(&environment, "MISSING"),
        Err(EnvironmentVariableError::NotPresent)
    );
}

#[test]
fn a_variable_that_is_not_unicode_fails_with_its_cause() {
    let environment = Environment {
        variables: vec![EnvironmentVariable {
            name: "TOKEN".to_owned(),
            value: None,
        }],
    };

    let result = expand_environment_variables("${TOKEN}".to_owned(), "jira.token", &environment);

    assert!(matches!(
        &result,
        Err(ConfigError::EnvironmentVariable {
            field,
            variable,
            source: EnvironmentVariableError::NotUnicode,
        }) if field == "jira.token" && variable == "TOKEN"
    ));
    assert_eq!(
        result.err().map(|error| error.message()).as_deref(),
        Some("environment variable TOKEN referenced by jira.token is unavailable")
    );
}

#[test]
fn values_are_expanded_and_checked_in_order() {
    // The URL is expanded before the token, and the token before the JQL.
    let result = parse("${MISSING_URL}", "${MISSING_TOKEN}", "${MISSING_JQL}");
    assert!(matches!(
        result,
        Err(ConfigError::EnvironmentVariable { field, variable, .. })
            if field == "jira.url" && variable == "MISSING_URL"
    ));

    let result = parse("https://jira.example.com", "${MISSING_TOKEN}", "${MISSING_JQL}");
    assert!(matches!(
        result,
        Err(ConfigError::EnvironmentVariable { field, .. }) if field == "jira.token"
    ));

    // The URL is checked before the token, and the token before the JQL.
    let result = parse("not a URL", "", "");
    assert!(matches!(result, Err(ConfigError::InvalidJiraUrl(_))));

    let result = parse("https://jira.example.com", " ", "");
    assert!(matches!(result, Err(ConfigError::EmptyJiraToken)));
}

#[test]
fn a_failed_read_names_the_path() {
    let error = ConfigError::Read {
        path: std::path::PathBuf::from("/etc/jiracc/config.toml"),
        source: std::io::Error::from(std::io::ErrorKind::NotFound),
    };

    assert_eq!(
        error.message(),
        "failed to read configuration from /etc/jiracc/config.toml"
    );
}

//------------//
//  FAILURES  //
//------------//

#[test]
fn parsing_config_with_invalid_jira_url_fails() {
    // GIVEN
    let test_cases = [
        (
            "malformed URL",
            "not a URL",
            "jira.url is not a valid URL",
        ),
        (
            "unsupported scheme",
            "ftp://jira.example.com",
            "jira.url must use http or https, not ftp",
        ),
        (
            "query",
            "https://jira.example.com?view=all",
            "jira.url must not contain a query or fragment",
        ),
        (
            "fragment",
            "https://jira.example.com#issues",
            "jira.url must not contain a query or fragment",
        ),
    ];

    for (name, url, expected) in test_cases {
        // WHEN
        let result = parse(url, "secret-token", "project = TEST");

        // THEN
        assert_eq!(
            result.err().map(|error| error.message()).as_deref(),
            Some(expected),
            "test case: {name}"
        );
    }
}

#[test]
fn parsing_config_with_empty_values_fails() {
    // GIVEN
    let test_cases = [
        (
            "empty token",
            ("https://jira.example.com", "", "project = TEST"),
            "jira.token must not be empty",
        ),
        (
            "whitespace-only token",
            ("https://jira.example.com", "   ", "project = TEST"),
            "jira.token must not be empty",
        ),
        (
            "empty JQL",
            ("https://jira.example.com", "secret-token", ""),
            "jira.jql must not be empty",
        ),
        (
            "whitespace-only JQL",
            ("https://jira.example.com", "secret-token", "   "),
            "jira.jql must not be empty",
        ),
    ];

    for (name, (url, token, jql), expected) in test_cases {
        // WHEN
        let result = parse(url, token, jql);

        // THEN
        assert_eq!(
            result.err().map(|error| error.message()).as_deref(),
            Some(expected),
            "test case: {name}"
        );
    }
}

#[test]
fn expanding_a_missing_environment_variable_fails() {
    // GIVEN
    let environment = test_environment();

    // WHEN
    let result = expand_environment_variables("${MISSING}".to_owned(), "jira.jql", &environment);

    // THEN
    assert!(matches!(
        result,
        Err(ConfigError::EnvironmentVariable {
            field,
            variable,
            ..
        }) if field == "jira.jql" && variable == "MISSING"
    ));
}
