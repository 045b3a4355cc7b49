//! The decisions of the Jira client: which responses are accepted, where the
//! next page of search results starts, and how pages accumulate into the list
//! of synchronized issues. The requests themselves are sent by the caller.
use vstd::prelude::*;
use crate::config::{trim_trailing_slashes, JiraJql, JiraUrl};
use crate::domain::Issue;
use crate::jira::dto::{issue_converted, CurrentUser, JiraIssue, SearchRequest, SearchResponse};
use crate::text::{chars_of, decimal, push_decimal, push_str, string_from_chars};

verus! {

/// Declares `reqwest::Error` so that client errors can carry it.
#[verifier::external_type_specification]
#[verifier::external_body]
pub struct ExReqwestError(reqwest::Error);

/// The user that a token authenticates as.
#[derive(Debug, PartialEq, Eq)]
pub struct JiraUser {
    pub username: String,
    pub display_name: String,
}

/// Why a request to Jira failed.
#[derive(Debug)]
pub enum JiraClientError {
    /// The HTTP client could not be built.
    BuildClient(reqwest::Error),
    /// The request could not be sent.
    Request(reqwest::Error),
    /// Jira answered with an unexpected HTTP status code.
    ResponseStatus { status: u16 },
    /// The response body did not have the expected shape.
    Decode(reqwest::Error),
    /// A page started elsewhere than requested.
    UnexpectedPageStart { requested: usize, received: usize },
    /// Jira returned pages of size zero while results remained.
    ZeroPageSize { start_at: usize, total: usize },
    /// The next page's offset does not fit in a `usize`.
    PageOffsetOverflow { start_at: usize, page_size: usize },
}

/// The reason phrase that `http::StatusCode::canonical_reason` gives for a
/// status code (such as "Not Found" for 404), or `None` when it has none.
pub uninterp spec fn spec_status_reason(status: u16) -> Option<Seq<char>>;

/// Calls `reqwest::StatusCode::from_u16` and then `canonical_reason` on the
/// code; the phrase is named `spec_status_reason`. A code outside 100 to 999
/// is not a status code and has no phrase.
#[verifier::external_body]
fn status_reason(status: u16) -> (r: Option<String>)
    ensures
        match r {
            Some(reason) => spec_status_reason(status) == Some(reason@),
            None => spec_status_reason(status) is None,
        },
        !(100 <= status <= 999) ==> r is None,
{
    match reqwest::StatusCode::from_u16(status) {
        Ok(code) => code.canonical_reason().map(|reason| reason.to_owned()),
        Err(_) => None,
    }
}

/// A status code as `http::StatusCode` shows it: the number, a space, and
/// its reason phrase, or "<unknown status code>" when it has none.
pub open spec fn status_code_text(status: u16) -> Seq<char> {
    decimal(status as nat) + " "@ + match spec_status_reason(status) {
        Some(reason) => reason,
        None => "<unknown status code>"@,
    }
}

/// The message that describes a Jira client error.
pub open spec fn client_error_message(error: JiraClientError) -> Seq<char> {
    match error {
        JiraClientError::BuildClient(_) => "failed to build Jira HTTP client"@,
        JiraClientError::Request(_) => "failed to send request to Jira"@,
        JiraClientError::ResponseStatus { status } => "Jira request failed with HTTP status: "@
            + status_code_text(status),
        JiraClientError::Decode(_) => "failed to decode response from Jira"@,
        JiraClientError::UnexpectedPageStart { requested, received } => "Jira returned page start "@
            + decimal(received as nat) + " when "@ + decimal(requested as nat)
            + " was requested"@,
        JiraClientError::ZeroPageSize { start_at, total } =>
            "Jira returned a zero page size at offset "@ + decimal(start_at as nat) + " with "@
            + decimal(total as nat) + " results remaining"@,
        JiraClientError::PageOffsetOverflow { start_at, page_size } =>
            "Jira page offset overflowed at offset "@ + decimal(start_at as nat)
            + " with page size "@ + decimal(page_size as nat),
    }
}

impl JiraClientError {
    /// The message that describes the error, such as
    /// "Jira request failed with HTTP status: 404 Not Found".
    pub fn message(&self) -> (r: String)
        ensures
            r@ == client_error_message(*self),
    {
        let mut out = String::new();
        match self {
            JiraClientError::BuildClient(_) => push_str(&mut out, "failed to build Jira HTTP client"),
            JiraClientError::Request(_) => push_str(&mut out, "failed to send request to Jira"),
            JiraClientError::ResponseStatus { status } => {
                push_str(&mut out, "Jira request failed with HTTP status: ");
                push_decimal(&mut out, *status as u64);
                push_str(&mut out, " ");
                match status_reason(*status) {
                    Some(reason) => push_str(&mut out, reason.as_str()),
                    None => push_str(&mut out, "<unknown status code>"),
                }
            },
            JiraClientError::Decode(_) => push_str(&mut out, "failed to decode response from Jira"),
            JiraClientError::UnexpectedPageStart { requested, received } => {
                push_str(&mut out, "Jira returned page start ");
                push_decimal(&mut out, *received as u64);
                push_str(&mut out, " when ");
                push_decimal(&mut out, *requested as u64);
                push_str(&mut out, " was requested");
            },
            JiraClientError::ZeroPageSize { start_at, total } => {
                push_str(&mut out, "Jira returned a zero page size at offset ");
                push_decimal(&mut out, *start_at as u64);
                push_str(&mut out, " with ");
                push_decimal(&mut out, *total as u64);
                push_str(&mut out, " results remaining");
            },
            JiraClientError::PageOffsetOverflow { start_at, page_size } => {
                push_str(&mut out, "Jira page offset overflowed at offset ");
                push_decimal(&mut out, *start_at as u64);
                push_str(&mut out, " with page size ");
                push_decimal(&mut out, *page_size as u64);
            },
        }
        assert(out@ =~= client_error_message(*self));
        out
    }
}

/// The path of the current-user resource.
pub open spec fn current_user_path() -> Seq<char> {
    "/rest/api/2/myself"@
}

/// The path of the search resource.
pub open spec fn search_path() -> Seq<char> {
    "/rest/api/2/search"@
}

/// The size of the first requested page.
pub open spec fn initial_page_size() -> usize {
    100
}

/// The fields requested for each issue.
pub open spec fn issue_fields() -> Seq<Seq<char>> {
    seq![
        "summary"@,
        "status"@,
        "issuetype"@,
        "assignee"@,
        "description"@,
        "updated"@,
        "parent"@,
        "subtasks"@,
    ]
}

/// The address of a resource below the Jira base URL: the URL without
/// trailing slashes followed by the resource's path.
pub fn resource_url(url: &JiraUrl, path: &str) -> (r: String)
    ensures
        r@ == trim_trailing_slashes(url@) + path@,
{
    let mut text = url.base_url();
    push_str(&mut text, path);
    text
}

/// The address of the current-user resource.
pub fn current_user_url(url: &JiraUrl) -> (r: String)
    ensures
        r@ == trim_trailing_slashes(url@) + current_user_path(),
{
    resource_url(url, "/rest/api/2/myself")
}

/// The address of the search resource.
pub fn search_url(url: &JiraUrl) -> (r: String)
    ensures
        r@ == trim_trailing_slashes(url@) + search_path(),
{
    resource_url(url, "/rest/api/2/search")
}

/// Accepts a current-user response only with status 200 (OK).
pub fn check_current_user_status(status: u16) -> (r: Result<(), JiraClientError>)
    ensures
        status == 200 ==> r is Ok,
        status != 200 ==> (r matches Err(JiraClientError::ResponseStatus { status: s }) && s
            == status),
{
    if status != 200 {
        return Err(JiraClientError::ResponseStatus { status });
    }
    Ok(())
}

/// Accepts a search response only with a success status (200 to 299).
pub fn check_search_status(status: u16) -> (r: Result<(), JiraClientError>)
    ensures
        200 <= status < 300 ==> r is Ok,
        !(200 <= status < 300) ==> (r matches Err(JiraClientError::ResponseStatus { status: s })
            && s == status),
{
    if status < 200 || status >= 300 {
        return Err(JiraClientError::ResponseStatus { status });
    }
    Ok(())
}

impl JiraUser {
    /// The user described by a current-user response.
    pub fn from_current_user(user: CurrentUser) -> (r: JiraUser)
        ensures
            r.username@ == user.name@,
            r.display_name@ == user.display_name@,
    {
        JiraUser { username: user.name, display_name: user.display_name }
    }
}

/// Where the page after `response` starts: `Ok(None)` when no results remain
/// after it, and an error when the page started elsewhere than `requested_start_at`,
/// when results remain but the page size is zero, or when the next offset
/// does not fit in a `usize`.
pub open spec fn next_page_start_outcome(
    response_start_at: usize,
    response_max_results: usize,
    response_total: usize,
    requested_start_at: usize,
    r: Result<Option<usize>, JiraClientError>,
) -> bool {
    if response_start_at != requested_start_at {
        r matches Err(JiraClientError::UnexpectedPageStart { requested, received }) && requested
            == requested_start_at && received == response_start_at
    } else if response_start_at >= response_total {
        r matches Ok(None)
    } else if response_max_results == 0 {
        r matches Err(JiraClientError::ZeroPageSize { start_at, total }) && start_at
            == response_start_at && total == response_total
    } else if response_start_at + response_max_results > usize::MAX {
        r matches Err(JiraClientError::PageOffsetOverflow { start_at, page_size }) && start_at
            == response_start_at && page_size == response_max_results
    } else if response_start_at + response_max_results < response_total {
        r matches Ok(Some(next)) && next == response_start_at + response_max_results
    } else {
        r matches Ok(None)
    }
}

/// Where the page after `response` starts, if results remain after it.
pub fn next_page_start(response: &SearchResponse, requested_start_at: usize) -> (r: Result<
    Option<usize>,
    JiraClientError,
>)
    ensures
        next_page_start_outcome(
            response.start_at,
            response.max_results,
            response.total,
            requested_start_at,
            r,
        ),
{
    if response.start_at != requested_start_at {
        return Err(
            JiraClientError::UnexpectedPageStart {
                requested: requested_start_at,
                received: response.start_at,
            },
        );
    }
    if response.start_at >= response.total {
        return Ok(None);
    }
    if response.max_results == 0 {
        return Err(
            JiraClientError::ZeroPageSize { start_at: response.start_at, total: response.total },
        );
    }
    let next_start_at = match response.start_at.checked_add(response.max_results) {
        Some(next) => next,
        None => {
            return Err(
                JiraClientError::PageOffsetOverflow {
                    start_at: response.start_at,
                    page_size: response.max_results,
                },
            );
        },
    };
    if next_start_at < response.total {
        Ok(Some(next_start_at))
    } else {
        Ok(None)
    }
}

/// Each page continues where the previous one was expected to end: a next
/// page always starts after the requested one and before the reported total.
pub proof fn lemma_pages_advance(
    response_start_at: usize,
    response_max_results: usize,
    response_total: usize,
    requested_start_at: usize,
    r: Result<Option<usize>, JiraClientError>,
)
    requires
        next_page_start_outcome(
            response_start_at,
            response_max_results,
            response_total,
            requested_start_at,
            r,
        ),
    ensures
        r matches Ok(Some(next)) ==> requested_start_at < next < response_total,
        r matches Ok(Some(next)) ==> next == requested_start_at + response_max_results,
{
}

/// Paging stops only when the reported total is reached: when a page starts
/// where it was requested, has a non-zero size, and results remain after it,
/// the next page starts right after it; when no next page is asked for, the
/// page started where it was requested and reached the total; and a page is
/// refused only when it started elsewhere, when results remain but its size
/// is zero, or when the next offset does not fit in a `usize`.
pub proof fn lemma_paging_stops_only_at_the_total(
    response_start_at: usize,
    response_max_results: usize,
    response_total: usize,
    requested_start_at: usize,
    r: Result<Option<usize>, JiraClientError>,
)
    requires
        next_page_start_outcome(
            response_start_at,
            response_max_results,
            response_total,
            requested_start_at,
            r,
        ),
    ensures
        (response_start_at == requested_start_at && response_max_results > 0 && response_start_at
            + response_max_results < response_total) ==> (r matches Ok(Some(next)) && next
            == response_start_at + response_max_results),
        r matches Ok(None) ==> response_start_at == requested_start_at && response_start_at
            + response_max_results >= response_total,
        r is Err ==> {
            ||| response_start_at != requested_start_at
            ||| (response_max_results == 0 && response_start_at < response_total)
            ||| response_start_at + response_max_results > usize::MAX
        },
{
}

/// The progress of a paged search: the issues gathered so far, where the next
/// page starts, and how many results to ask for.
pub struct IssuePager {
    issues: Vec<Issue>,
    start_at: usize,
    page_size: usize,
}

/// What to do after a page was received.
pub enum PageStep {
    /// Ask for another page.
    Continue(IssuePager),
    /// All pages were received; these are the issues, in page order.
    Finished(Vec<Issue>),
}

/// The cached forms of returned issues, one for one and in order.
pub open spec fn issues_converted(issues: Seq<Issue>, returned: Seq<JiraIssue>) -> bool {
    issues.len() == returned.len() && forall|i: int|
        0 <= i < issues.len() ==> issue_converted(#[trigger] issues[i], returned[i])
}

impl IssuePager {
    /// The issues gathered so far.
    pub closed spec fn gathered(self) -> Seq<Issue> {
        self.issues@
    }

    /// Where the next page starts.
    pub closed spec fn spec_start_at(self) -> usize {
        self.start_at
    }

    /// How many results the next request asks for.
    pub closed spec fn spec_page_size(self) -> usize {
        self.page_size
    }

    /// A search that has gathered nothing and asks for 100 results from offset 0.
    pub fn new() -> (r: IssuePager)
        ensures
            r.gathered().len() == 0,
            r.spec_start_at() == 0,
            r.spec_page_size() == initial_page_size(),
    {
        IssuePager { issues: Vec::new(), start_at: 0, page_size: 100 }
    }

    /// The request for the next page: the JQL, the next offset, the page size
    /// and the issue fields.
    pub fn next_request(&self, jql: &JiraJql) -> (r: SearchRequest)
        ensures
            r.jql@ == jql@,
            r.start_at == self.spec_start_at(),
            r.max_results == self.spec_page_size(),
            r.fields@.map_values(|field: String| field@) == issue_fields(),
    {
        let mut jql_text = String::new();
        push_str(&mut jql_text, jql.as_str());
        let mut fields: Vec<String> = Vec::new();
        fields.push(owned("summary"));
        fields.push(owned("status"));
        fields.push(owned("issuetype"));
        fields.push(owned("assignee"));
        fields.push(owned("description"));
        fields.push(owned("updated"));
        fields.push(owned("parent"));
        fields.push(owned("subtasks"));
        assert(fields@.map_values(|field: String| field@) =~= issue_fields());
        SearchRequest {
            jql: jql_text,
            start_at: self.start_at,
            max_results: self.page_size,
            fields,
        }
    }

    /// Takes in the page that answers `next_request`: refuses it as
    /// `next_page_start` does; otherwise adds its issues, in order, to those
    /// gathered, and either asks for the page at the next offset with the page
    /// size that Jira reported, or finishes with all gathered issues.
    pub fn receive(self, response: SearchResponse) -> (r: Result<PageStep, JiraClientError>)
        ensures
            ({
                let outcome = next_page_start_outcome(
                    response.start_at,
                    response.max_results,
                    response.total,
                    self.spec_start_at(),
                    match r {
                        Ok(PageStep::Continue(next)) => Ok(Some(next.spec_start_at())),
                        Ok(PageStep::Finished(_)) => Ok(None),
                        Err(e) => Err(e),
                    },
                );
                outcome
            }),
            r matches Ok(PageStep::Continue(next)) ==> {
                &&& next.spec_page_size() == response.max_results
                &&& next.gathered().len() == self.gathered().len() + response.issues@.len()
                &&& next.gathered().take(self.gathered().len() as int) == self.gathered()
                &&& issues_converted(
                    next.gathered().skip(self.gathered().len() as int),
                    response.issues@,
                )
            },
            r matches Ok(PageStep::Finished(issues)) ==> {
                &&& issues@.len() == self.gathered().len() + response.issues@.len()
                &&& issues@.take(self.gathered().len() as int) == self.gathered()
                &&& issues_converted(issues@.skip(self.gathered().len() as int), response.issues@)
            },
    {
        let next_start_at = next_page_start(&response, self.start_at);
        let next_start_at = match next_start_at {
            Ok(next) => next,
            Err(error) => return Err(error),
        };
        let IssuePager { issues, start_at: _, page_size: _ } = self;
        let mut issues = issues;
        let ghost before = issues@;
        let page_size = response.max_results;
        let SearchResponse { start_at: _, max_results: _, total: _, issues: returned } = response;
        let ghost returned_view = returned@;
        for jira_issue in it: returned
            invariant
                it.seq() == returned_view,
                issues@.len() == before.len() + it.index(),
                issues@.take(before.len() as int) == before,
                forall|i: int|
                    0 <= i < it.index() ==> issue_converted(
                        #[trigger] issues@[before.len() + i],
                        returned_view[i],
                    ),
        {
            let ghost previous = issues@;
            issues.push(Issue::from_jira(jira_issue));
            assert(issues@.take(before.len() as int) =~= previous.take(before.len() as int));
        }
        assert(issues@.skip(before.len() as int).len() == returned_view.len());
        assert forall|i: int| 0 <= i < returned_view.len() implies issue_converted(
            #[trigger] issues@.skip(before.len() as int)[i],
            returned_view[i],
        ) by {
            assert(issues@.skip(before.len() as int)[i] == issues@[before.len() + i]);
        }
        match next_start_at {
            Some(start_at) => Ok(PageStep::Continue(IssuePager { issues, start_at, page_size })),
            None => Ok(PageStep::Finished(issues)),
        }
    }
}

/// An owned copy of a text.
fn owned(text: &str) -> (r: String)
    ensures
        r@ == text@,
{
    let chars = chars_of(text);
    string_from_chars(&chars)
}

} // verus!
