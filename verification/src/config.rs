//! The configuration: where Jira is, how to authenticate, and which issues to
//! synchronize. Values may reference environment variables, which are expanded
//! before the values are checked.
use vstd::prelude::*;
use crate::text::{chars_of, push_chars, push_str, str_eq, trim, trim_chars};

verus! {

/// Declares `std::path::PathBuf` so that errors can carry a path.
#[verifier::external_type_specification]
#[verifier::external_body]
pub struct ExPathBuf(std::path::PathBuf);

/// Declares `std::io::Error` so that errors can carry the cause of a failed read.
#[verifier::external_type_specification]
#[verifier::external_body]
pub struct ExIoError(std::io::Error);

/// Declares `toml::de::Error` so that errors can carry the cause of a failed parse.
#[verifier::external_type_specification]
#[verifier::external_body]
pub struct ExTomlError(toml::de::Error);

/// Declares `url::Url`, the parsed Jira URL.
#[verifier::external_type_specification]
#[verifier::external_body]
pub struct ExUrl(url::Url);

/// Declares `url::ParseError`, why a URL did not parse.
#[verifier::external_type_specification]
#[verifier::external_body]
pub struct ExUrlParseError(url::ParseError);

/// A checked configuration.
pub struct Config {
    pub jira: JiraConfig,
}

/// The checked Jira settings.
pub struct JiraConfig {
    pub url: JiraUrl,
    pub token: JiraToken,
    pub jql: JiraJql,
}

/// The base URL of a Jira deployment: http or https, without query or
/// fragment, and with a path that ends in exactly one slash. It keeps the
/// parsed URL and the URL's text.
#[derive(Debug)]
pub struct JiraUrl {
    url: url::Url,
    text: String,
}

impl View for JiraUrl {
    type V = Seq<char>;

    /// The URL's text.
    closed spec fn view(&self) -> Seq<char> {
        self.text@
    }
}

/// A personal access token that is not blank.
pub struct JiraToken(String);

/// The JQL that selects the issues to synchronize; not blank.
#[derive(Debug)]
pub struct JiraJql(String);

/// Why an environment variable could not be used.
#[derive(Debug, Clone, Copy, PartialEq, Eq)]
pub enum EnvironmentVariableError {
    /// The variable is not set.
    NotPresent,
    /// The variable is set but its value is not valid Unicode.
    NotUnicode,
}

/// Why a configuration could not be loaded.
#[derive(Debug)]
#[allow(inconsistent_fields)]
pub enum ConfigError {
    /// The file could not be read.
    Read { path: std::path::PathBuf, source: std::io::Error },
    /// The file is not valid TOML or lacks a field.
    Parse(toml::de::Error),
    /// A value references an environment variable that cannot be used.
    EnvironmentVariable { field: String, variable: String, source: EnvironmentVariableError },
    /// `jira.url` is not a URL.
    InvalidJiraUrl(url::ParseError),
    /// `jira.url` uses a scheme other than http or https.
    UnsupportedJiraUrlScheme { scheme: String },
    /// `jira.url` has a query or a fragment.
    JiraUrlContainsQueryOrFragment,
    /// `jira.token` is blank.
    EmptyJiraToken,
    /// `jira.jql` is blank.
    EmptyJiraJql,
}

/// The configuration file's contents as read, before expansion and checks.
#[derive(Debug)]
pub struct ConfigFile {
    pub jira: JiraConfigFile,
}

/// The Jira section of the configuration file as read.
#[derive(Debug)]
pub struct JiraConfigFile {
    pub url: String,
    pub token: String,
    pub jql: String,
}

/// One environment variable: its name and its value, or `None` when the value
/// is not valid Unicode.
#[derive(Debug)]
pub struct EnvironmentVariable {
    pub name: String,
    pub value: Option<String>,
}

/// The environment variables that configuration values may reference.
#[derive(Debug)]
pub struct Environment {
    pub variables: Vec<EnvironmentVariable>,
}

/// The path of a configuration file after it was made absolute and resolved.
#[derive(Debug)]
pub struct CanonicalConfigPath(String);

impl View for CanonicalConfigPath {
    type V = Seq<char>;

    closed spec fn view(&self) -> Seq<char> {
        self.0@
    }
}

impl CanonicalConfigPath {
    /// Wraps a resolved path.
    pub fn new(path: String) -> (r: CanonicalConfigPath)
        ensures
            r@ == path@,
    {
        CanonicalConfigPath(path)
    }

    /// The resolved path as text.
    pub fn as_str(&self) -> (r: &str)
        ensures
            r@ == self@,
    {
        self.0.as_str()
    }
}

/// The variables of an environment as names and values.
pub open spec fn environment_view(environment: Environment) -> Seq<(Seq<char>, Option<Seq<char>>)> {
    environment.variables@.map_values(
        |variable: EnvironmentVariable|
            (
                variable.name@,
                match variable.value {
                    Some(value) => Some(value@),
                    None => None,
                },
            ),
    )
}

/// The value of the first variable named `name`, or why there is none.
pub open spec fn lookup(variables: Seq<(Seq<char>, Option<Seq<char>>)>, name: Seq<char>) -> Result<
    Seq<char>,
    EnvironmentVariableError,
>
    decreases variables.len(),
{
    if variables.len() == 0 {
        Err(EnvironmentVariableError::NotPresent)
    } else if variables[0].0 == name {
        match variables[0].1 {
            Some(value) => Ok(value),
            None => Err(EnvironmentVariableError::NotUnicode),
        }
    } else {
        lookup(variables.drop_first(), name)
    }
}

/// What `shellexpand::env_with_context` gives for `input` when variables are
/// looked up in `variables` as `lookup` does: the expanded text, or the name
/// of the variable whose lookup failed.
pub uninterp spec fn spec_expand_environment(
    input: Seq<char>,
    variables: Seq<(Seq<char>, Option<Seq<char>>)>,
) -> Result<Seq<char>, Seq<char>>;

/// The value of the first variable named `name` in the environment, or why
/// there is none.
pub fn lookup_variable(environment: &Environment, name: &str) -> (r: Result<
    Option<String>,
    EnvironmentVariableError,
>)
    ensures
        match lookup(environment_view(*environment), name@) {
            Ok(value) => r matches Ok(Some(found)) && found@ == value,
            Err(error) => r == Err::<Option<String>, EnvironmentVariableError>(error),
        },
{
    let ghost all = environment_view(*environment);
    assert(all.skip(0) =~= all);
    let mut i: usize = 0;
    while i < environment.variables.len()
        invariant
            i <= environment.variables@.len(),
            all == environment_view(*environment),
            lookup(all, name@) == lookup(all.skip(i as int), name@),
        decreases environment.variables.len() - i,
    {
        let variable = &environment.variables[i];
        assert(all.skip(i as int)[0] == all[i as int]);
        if str_eq(variable.name.as_str(), name) {
            return match &variable.value {
                Some(value) => Ok(Some(value.clone())),
                None => Err(EnvironmentVariableError::NotUnicode),
            };
        }
        assert(all.skip(i as int).drop_first() =~= all.skip(i + 1));
        i += 1;
    }
    Err(EnvironmentVariableError::NotPresent)
}

/// Calls `shellexpand::env_with_context` on `input`, looking variables up
/// with `lookup_variable`. The expanded text, or the failed variable's name,
/// is named `spec_expand_environment`; when a lookup fails, the error carries
/// the failed variable's name and the error that `lookup_variable` gave for it.
#[verifier::external_body]
fn expand_with_environment(input: &str, environment: &Environment) -> (r: Result<
    String,
    (String, EnvironmentVariableError),
>)
    ensures
        match r {
            Ok(expanded) => spec_expand_environment(input@, environment_view(*environment)) == Ok::<
                Seq<char>,
                Seq<char>,
            >(expanded@),
            Err((variable, cause)) => spec_expand_environment(
                input@,
                environment_view(*environment),
            ) == Err::<Seq<char>, Seq<char>>(variable@) && lookup(
                environment_view(*environment),
                variable@,
            ) == Err::<Seq<char>, EnvironmentVariableError>(cause),
        },
{
    match shellexpand::env_with_context(input, |name: &str| lookup_variable(environment, name)) {
        Ok(expanded) => Ok(expanded.into_owned()),
        Err(error) => Err((error.var_name, error.cause)),
    }
}

/// `value` with its environment variable references expanded, or the error
/// naming `field` and the variable that could not be used.
pub open spec fn expansion_outcome(
    value: Seq<char>,
    field: Seq<char>,
    environment: Environment,
    r: Result<String, ConfigError>,
) -> bool {
    match spec_expand_environment(value, environment_view(environment)) {
        Ok(expanded) => r matches Ok(text) && text@ == expanded,
        Err(variable) => r matches Err(ConfigError::EnvironmentVariable { field: f, variable: v, source })
            && f@ == field && v@ == variable && lookup(environment_view(environment), variable)
            == Err::<Seq<char>, EnvironmentVariableError>(source),
    }
}

/// Expands the environment variable references (`$NAME`, `${NAME}`,
/// `${NAME:-default}`) in the value of `field`.
pub fn expand_environment_variables(value: String, field: &str, environment: &Environment) -> (r:
    Result<String, ConfigError>)
    ensures
        expansion_outcome(value@, field@, *environment, r),
{
    match expand_with_environment(value.as_str(), environment) {
        Ok(expanded) => Ok(expanded),
        Err((variable, source)) => {
            let mut field_name = String::new();
            push_str(&mut field_name, field);
            Err(ConfigError::EnvironmentVariable { field: field_name, variable, source })
        },
    }
}

/// What `url::Url::parse` gives for a text, as the parsed URL's scheme, its
/// path, whether it has a query and whether it has a fragment; `None` when the
/// text is not a URL.
pub uninterp spec fn spec_url_components(input: Seq<char>) -> Option<
    (Seq<char>, Seq<char>, bool, bool),
>;

/// The parts of a parsed URL that the checks read.
struct ParsedUrl {
    scheme: String,
    path: String,
    has_query: bool,
    has_fragment: bool,
}

/// Calls `url::Url::parse`; the parsed URL's scheme, path, and whether it has
/// a query or a fragment (`scheme`, `path`, `query`, `fragment`) are named
/// `spec_url_components` of the input.
#[verifier::external_body]
fn parse_url(input: &str) -> (r: Result<ParsedUrl, url::ParseError>)
    ensures
        match r {
            Ok(parsed) => spec_url_components(input@) == Some(
                (parsed.scheme@, parsed.path@, parsed.has_query, parsed.has_fragment),
            ),
            Err(_) => spec_url_components(input@) is None,
        },
{
    match url::Url::parse(input) {
        Ok(url) => Ok(
            ParsedUrl {
                scheme: url.scheme().to_owned(),
                path: url.path().to_owned(),
                has_query: url.query().is_some(),
                has_fragment: url.fragment().is_some(),
            },
        ),
        Err(error) => Err(error),
    }
}

/// The text (`url::Url::as_str`) of the URL that `url::Url::parse` gives for
/// `input` once `url::Url::set_path` has set its path to `path`.
pub uninterp spec fn spec_url_with_path(input: Seq<char>, path: Seq<char>) -> Seq<char>;

/// Calls `url::Url::parse` on `input` and then `url::Url::set_path` with
/// `path`, and returns the URL with its text (`url::Url::as_str`), which is
/// named `spec_url_with_path`. It returns a URL exactly when `parse_url`
/// parses the same input.
#[verifier::external_body]
fn parse_url_with_path(input: &str, path: &str) -> (r: Option<(url::Url, String)>)
    ensures
        r is Some <==> spec_url_components(input@) is Some,
        r matches Some((_, text)) ==> text@ == spec_url_with_path(input@, path@),
{
    match url::Url::parse(input) {
        Ok(mut url) => {
            url.set_path(path);
            let text = url.as_str().to_owned();
            Some((url, text))
        },
        Err(_) => None,
    }
}

/// `path` without its trailing slashes.
pub open spec fn trim_trailing_slashes(path: Seq<char>) -> Seq<char>
    decreases path.len(),
{
    if path.len() > 0 && path.last() == '/' {
        trim_trailing_slashes(path.drop_last())
    } else {
        path
    }
}

/// A URL path that ends in exactly one slash: "/" for an empty or all-slash
/// path, otherwise the path without trailing slashes followed by one.
pub open spec fn canonical_path(path: Seq<char>) -> Seq<char> {
    let trimmed = trim_trailing_slashes(path);
    if trimmed.len() == 0 {
        seq!['/']
    } else {
        trimmed.push('/')
    }
}

/// Removing trailing slashes leaves no trailing slash, and removes nothing
/// more from a path that has none.
proof fn lemma_trim_trailing_slashes(path: Seq<char>)
    ensures
        trim_trailing_slashes(path).len() == 0 || trim_trailing_slashes(path).last() != '/',
        trim_trailing_slashes(trim_trailing_slashes(path)) == trim_trailing_slashes(path),
    decreases path.len(),
{
    if path.len() > 0 && path.last() == '/' {
        lemma_trim_trailing_slashes(path.drop_last());
    }
}

/// A canonical path ends in exactly one slash, and making it canonical again
/// changes nothing.
pub proof fn lemma_canonical_path_is_stable(path: Seq<char>)
    ensures
        canonical_path(path).len() > 0,
        canonical_path(path).last() == '/',
        canonical_path(path).len() >= 2 ==> canonical_path(path)[canonical_path(path).len() - 2]
            != '/',
        canonical_path(canonical_path(path)) == canonical_path(path),
{
    let trimmed = trim_trailing_slashes(path);
    lemma_trim_trailing_slashes(path);
    let canonical = canonical_path(path);
    if trimmed.len() == 0 {
        assert(canonical.drop_last() =~= seq![]);
        assert(trim_trailing_slashes(canonical) == trim_trailing_slashes(canonical.drop_last()));
    } else {
        assert(canonical.drop_last() =~= trimmed);
        assert(trim_trailing_slashes(canonical) == trim_trailing_slashes(trimmed));
    }
}

/// The canonical form of a URL path.
pub fn canonicalize_path(path: &str) -> (r: String)
    ensures
        r@ == canonical_path(path@),
{
    let chars = chars_of(path);
    let mut end: usize = chars.len();
    assert(chars@.take(end as int) =~= chars@);
    while end > 0 && chars[end - 1] == '/'
        invariant
            end <= chars@.len(),
            chars@ == path@,
            trim_trailing_slashes(path@) == trim_trailing_slashes(chars@.take(end as int)),
        decreases end,
    {
        assert(chars@.take(end as int).drop_last() =~= chars@.take(end - 1));
        end -= 1;
    }
    let mut kept: Vec<char> = Vec::new();
    let mut i: usize = 0;
    while i < end
        invariant
            i <= end <= chars@.len(),
            kept@ == chars@.take(i as int),
        decreases end - i,
    {
        kept.push(chars[i]);
        assert(chars@.take(i + 1) =~= chars@.take(i as int).push(chars@[i as int]));
        i += 1;
    }
    assert(trim_trailing_slashes(chars@.take(end as int)) == chars@.take(end as int));
    let mut out = String::new();
    push_chars(&mut out, &kept);
    push_str(&mut out, "/");
    proof {
        reveal_strlit("/");
    }
    if end == 0 {
        assert(out@ =~= seq!['/']);
    } else {
        assert(out@ =~= kept@.push('/'));
    }
    out
}

/// Whether a scheme is http or https.
pub open spec fn supported_scheme(scheme: Seq<char>) -> bool {
    scheme == "http"@ || scheme == "https"@
}

/// The outcome of checking a Jira URL: refused when it does not parse, when
/// its scheme is not http or https (naming the scheme), or when it has a query
/// or a fragment; accepted otherwise, as the URL with its path made canonical
/// (ending in exactly one slash).
pub open spec fn url_check_outcome(value: Seq<char>, r: Result<JiraUrl, ConfigError>) -> bool {
    match spec_url_components(value) {
        None => r matches Err(ConfigError::InvalidJiraUrl(_)),
        Some((scheme, path, has_query, has_fragment)) => {
            if !supported_scheme(scheme) {
                r matches Err(ConfigError::UnsupportedJiraUrlScheme { scheme: s }) && s@ == scheme
            } else if has_query || has_fragment {
                r matches Err(ConfigError::JiraUrlContainsQueryOrFragment)
            } else {
                r matches Ok(url) && url@ == spec_url_with_path(value, canonical_path(path))
            }
        },
    }
}

impl JiraUrl {
    /// Parses and checks a Jira URL; an accepted URL has its path made
    /// canonical (ending in exactly one slash).
    pub fn try_from(value: String) -> (r: Result<JiraUrl, ConfigError>)
        ensures
            url_check_outcome(value@, r),
    {
        let parsed = match parse_url(value.as_str()) {
            Ok(parsed) => parsed,
            Err(error) => return Err(ConfigError::InvalidJiraUrl(error)),
        };
        let is_http = str_eq(parsed.scheme.as_str(), "http");
        let is_https = str_eq(parsed.scheme.as_str(), "https");
        if !is_http && !is_https {
            return Err(ConfigError::UnsupportedJiraUrlScheme { scheme: parsed.scheme });
        }
        if parsed.has_query || parsed.has_fragment {
            return Err(ConfigError::JiraUrlContainsQueryOrFragment);
        }
        let canonical = canonicalize_path(parsed.path.as_str());
        match parse_url_with_path(value.as_str(), canonical.as_str()) {
            Some((url, text)) => Ok(JiraUrl { url, text }),
            None => {
                // `parse_url` parsed the same input.
                assert(false);
                Err(ConfigError::JiraUrlContainsQueryOrFragment)
            },
        }
    }

    /// The parsed URL that this Jira URL holds.
    pub closed spec fn parsed_url(&self) -> url::Url {
        self.url
    }

    /// The parsed URL.
    pub fn as_url(&self) -> (r: &url::Url)
        ensures
            *r == self.parsed_url(),
    {
        &self.url
    }

    /// The URL as text without trailing slashes, to which resource paths
    /// (which start with a slash) are appended.
    pub fn base_url(&self) -> (r: String)
        ensures
            r@ == trim_trailing_slashes(self@),
    {
        let chars = chars_of(self.text.as_str());
        let mut end: usize = chars.len();
        assert(chars@.take(end as int) =~= chars@);
        while end > 0 && chars[end - 1] == '/'
            invariant
                end <= chars@.len(),
                chars@ == self@,
                trim_trailing_slashes(self@) == trim_trailing_slashes(chars@.take(end as int)),
            decreases end,
        {
            assert(chars@.take(end as int).drop_last() =~= chars@.take(end - 1));
            end -= 1;
        }
        let mut kept: Vec<char> = Vec::new();
        let mut i: usize = 0;
        while i < end
            invariant
                i <= end <= chars@.len(),
                kept@ == chars@.take(i as int),
            decreases end - i,
        {
            kept.push(chars[i]);
            assert(chars@.take(i + 1) =~= chars@.take(i as int).push(chars@[i as int]));
            i += 1;
        }
        let text = crate::text::string_from_chars(&kept);
        text
    }
}

impl View for JiraToken {
    type V = Seq<char>;

    closed spec fn view(&self) -> Seq<char> {
        self.0@
    }
}

impl View for JiraJql {
    type V = Seq<char>;

    closed spec fn view(&self) -> Seq<char> {
        self.0@
    }
}

/// Whether a text is empty or only whitespace.
fn is_blank(value: &str) -> (r: bool)
    ensures
        r == (trim(value@).len() == 0),
{
    let chars = chars_of(value);
    let trimmed = trim_chars(&chars);
    trimmed.len() == 0
}

impl JiraToken {
    /// The token as it is shown in diagnostics, with its value withheld:
    /// "JiraToken([REDACTED])".
    pub fn redacted_text(&self) -> (r: String)
        ensures
            r@ == "JiraToken([REDACTED])"@,
    {
        let mut out = String::new();
        push_str(&mut out, "JiraToken([REDACTED])");
        out
    }

    /// Accepts a token unless it is empty or only whitespace; the token is kept
    /// as given.
    pub fn try_from(value: String) -> (r: Result<JiraToken, ConfigError>)
        ensures
            trim(value@).len() == 0 ==> r matches Err(ConfigError::EmptyJiraToken),
            trim(value@).len() != 0 ==> (r matches Ok(token) && token@ == value@),
    {
        if is_blank(value.as_str()) {
            return Err(ConfigError::EmptyJiraToken);
        }
        Ok(JiraToken(value))
    }

    /// The token as given.
    pub fn as_str(&self) -> (r: &str)
        ensures
            r@ == self@,
    {
        self.0.as_str()
    }
}

impl JiraJql {
    /// Accepts JQL unless it is empty or only whitespace; the JQL is kept as
    /// given.
    pub fn try_from(value: String) -> (r: Result<JiraJql, ConfigError>)
        ensures
            trim(value@).len() == 0 ==> r matches Err(ConfigError::EmptyJiraJql),
            trim(value@).len() != 0 ==> (r matches Ok(jql) && jql@ == value@),
    {
        if is_blank(value.as_str()) {
            return Err(ConfigError::EmptyJiraJql);
        }
        Ok(JiraJql(value))
    }

    /// The JQL as given.
    pub fn as_str(&self) -> (r: &str)
        ensures
            r@ == self@,
    {
        self.0.as_str()
    }
}

/// The outcome of checking the three Jira values: the URL is checked first,
/// then the token, then the JQL; the first refusal is the result. An accepted
/// configuration holds the URL with its path made canonical, and the token
/// and JQL as given.
pub open spec fn config_check_outcome(
    url: Seq<char>,
    token: Seq<char>,
    jql: Seq<char>,
    r: Result<Config, ConfigError>,
) -> bool {
    match spec_url_components(url) {
        None => r matches Err(ConfigError::InvalidJiraUrl(_)),
        Some((scheme, path, has_query, has_fragment)) => {
            if !supported_scheme(scheme) {
                r matches Err(ConfigError::UnsupportedJiraUrlScheme { scheme: s }) && s@ == scheme
            } else if has_query || has_fragment {
                r matches Err(ConfigError::JiraUrlContainsQueryOrFragment)
            } else if trim(token).len() == 0 {
                r matches Err(ConfigError::EmptyJiraToken)
            } else if trim(jql).len() == 0 {
                r matches Err(ConfigError::EmptyJiraJql)
            } else {
                r matches Ok(config) && config.jira.url@ == spec_url_with_path(
                    url,
                    canonical_path(path),
                ) && config.jira.token@ == token && config.jira.jql@ == jql
            }
        },
    }
}

impl Config {
    /// Checks the values of a configuration file: URL, then token, then JQL.
    pub fn try_from(config: ConfigFile) -> (r: Result<Config, ConfigError>)
        ensures
            config_check_outcome(config.jira.url@, config.jira.token@, config.jira.jql@, r),
    {
        let ConfigFile { jira } = config;
        let JiraConfigFile { url, token, jql } = jira;
        let ghost token_text = token@;
        let ghost jql_text = jql@;
        let url = match JiraUrl::try_from(url) {
            Ok(url) => url,
            Err(error) => {
                return Err(error);
            },
        };
        let token = match JiraToken::try_from(token) {
            Ok(token) => token,
            Err(error) => return Err(error),
        };
        let jql = match JiraJql::try_from(jql) {
            Ok(jql) => jql,
            Err(error) => return Err(error),
        };
        Ok(Config { jira: JiraConfig { url, token, jql } })
    }
}

/// Expands environment variable references in the Jira values (URL, then
/// token, then JQL) and checks the expanded values.
pub fn parse_config_file(config: ConfigFile, environment: &Environment) -> (r: Result<
    Config,
    ConfigError,
>)
    ensures
        match (
            spec_expand_environment(config.jira.url@, environment_view(*environment)),
            spec_expand_environment(config.jira.token@, environment_view(*environment)),
            spec_expand_environment(config.jira.jql@, environment_view(*environment)),
        ) {
            (Ok(url), Ok(token), Ok(jql)) => config_check_outcome(url, token, jql, r),
            (Err(_), _, _) => r matches Err(ConfigError::EnvironmentVariable { field, .. })
                && field@ == "jira.url"@,
            (Ok(_), Err(_), _) => r matches Err(ConfigError::EnvironmentVariable { field, .. })
                && field@ == "jira.token"@,
            (Ok(_), Ok(_), Err(_)) => r matches Err(ConfigError::EnvironmentVariable { field, .. })
                && field@ == "jira.jql"@,
        },
{
    let ConfigFile { jira } = config;
    let url = match expand_environment_variables(jira.url, "jira.url", environment) {
        Ok(url) => url,
        Err(error) => return Err(error),
    };
    let token = match expand_environment_variables(jira.token, "jira.token", environment) {
        Ok(token) => token,
        Err(error) => return Err(error),
    };
    let jql = match expand_environment_variables(jira.jql, "jira.jql", environment) {
        Ok(jql) => jql,
        Err(error) => return Err(error),
    };
    Config::try_from(ConfigFile { jira: JiraConfigFile { url, token, jql } })
}

/// Calls `std::path::Path::to_string_lossy`: the path as text, with any bytes
/// that are not valid Unicode replaced. What the text holds is not stated.
#[verifier::external_body]
fn path_text(path: &std::path::PathBuf) -> String {
    path.to_string_lossy().into_owned()
}

/// The message that describes a configuration error other than a failed read.
pub open spec fn config_error_message(error: ConfigError) -> Seq<char> {
    match error {
        ConfigError::Read { .. } => "failed to read configuration from "@,
        ConfigError::Parse(_) => "failed to parse configuration"@,
        ConfigError::EnvironmentVariable { field, variable, .. } => "environment variable "@
            + variable@ + " referenced by "@ + field@ + " is unavailable"@,
        ConfigError::InvalidJiraUrl(_) => "jira.url is not a valid URL"@,
        ConfigError::UnsupportedJiraUrlScheme { scheme } => "jira.url must use http or https, not "@
            + scheme@,
        ConfigError::JiraUrlContainsQueryOrFragment => "jira.url must not contain a query or fragment"@,
        ConfigError::EmptyJiraToken => "jira.token must not be empty"@,
        ConfigError::EmptyJiraJql => "jira.jql must not be empty"@,
    }
}

impl ConfigError {
    /// The message that describes the error; for a failed read it is followed
    /// by the path that could not be read.
    pub fn message(&self) -> (r: String)
        ensures
            self is Read ==> r@.len() >= config_error_message(*self).len() && r@.subrange(
                0,
                config_error_message(*self).len() as int,
            ) == config_error_message(*self),
            !(self is Read) ==> r@ == config_error_message(*self),
    {
        let mut out = String::new();
        match self {
            ConfigError::Read { path, .. } => {
                push_str(&mut out, "failed to read configuration from ");
                let shown = path_text(path);
                let ghost prefix = out@;
                push_str(&mut out, shown.as_str());
                assert(out@.subrange(0, prefix.len() as int) =~= prefix);
            },
            ConfigError::Parse(_) => push_str(&mut out, "failed to parse configuration"),
            ConfigError::EnvironmentVariable { field, variable, .. } => {
                push_str(&mut out, "environment variable ");
                push_str(&mut out, variable.as_str());
                push_str(&mut out, " referenced by ");
                push_str(&mut out, field.as_str());
                push_str(&mut out, " is unavailable");
            },
            ConfigError::InvalidJiraUrl(_) => push_str(&mut out, "jira.url is not a valid URL"),
            ConfigError::UnsupportedJiraUrlScheme { scheme } => {
                push_str(&mut out, "jira.url must use http or https, not ");
                push_str(&mut out, scheme.as_str());
            },
            ConfigError::JiraUrlContainsQueryOrFragment => push_str(
                &mut out,
                "jira.url must not contain a query or fragment",
            ),
            ConfigError::EmptyJiraToken => push_str(&mut out, "jira.token must not be empty"),
            ConfigError::EmptyJiraJql => push_str(&mut out, "jira.jql must not be empty"),
        }
        out
    }
}

} // verus!
