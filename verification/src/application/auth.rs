//! Reporting who a token authenticates as.
use vstd::prelude::*;
use crate::config::{trim_trailing_slashes, JiraUrl};
use crate::jira::client::JiraUser;
use crate::text::push_str;

verus! {

/// "Authenticated to URL as Display Name (username)."
pub open spec fn authentication_text(jira_url: Seq<char>, user: JiraUser) -> Seq<char> {
    "Authenticated to "@ + jira_url + " as "@ + user.display_name@ + " ("@ + user.username@ + ")."@
}

/// The report of a successful authentication check against `jira_url`, which
/// is shown without trailing slashes.
pub fn authentication_report(jira_url: &JiraUrl, user: &JiraUser) -> (r: String)
    ensures
        r@ == authentication_text(trim_trailing_slashes(jira_url@), *user),
{
    let base = jira_url.base_url();
    let mut out = String::new();
    push_str(&mut out, "Authenticated to ");
    push_str(&mut out, base.as_str());
    push_str(&mut out, " as ");
    push_str(&mut out, user.display_name.as_str());
    push_str(&mut out, " (");
    push_str(&mut out, user.username.as_str());
    push_str(&mut out, ").");
    assert(out@ =~= authentication_text(base@, *user));
    out
}

} // verus!
