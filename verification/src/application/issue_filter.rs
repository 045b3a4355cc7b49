//! Search criteria over cached issues: a free-text query and lists of
//! assignees, statuses and issue types. Values are trimmed and lower-cased;
//! matching is case-insensitive substring matching; values within one
//! category are combined with OR and categories with AND.
use vstd::prelude::*;
use crate::domain::Issue;
use crate::text::{
    chars_lt, chars_of, contains_chars, push_str, contains_seq, lemma_seq_lt_irreflexive, lemma_seq_lt_total,
    lemma_seq_lt_transitive, seq_lt, spec_is_whitespace, spec_lowercase, string_from_chars,
    to_lowercase, trim, trim_chars, trim_end, trim_start,
};

verus! {

/// Search criteria over issues.
#[derive(Debug)]
pub struct IssueFilter {
    query: Option<String>,
    assignee_usernames: Vec<String>,
    statuses: Vec<String>,
    issue_types: Vec<String>,
}

/// Why search criteria were refused.
#[derive(Debug)]
pub enum IssueFilterError {
    /// A supplied value was empty after trimming; `property` names its category.
    EmptyValue { property: &'static str },
}

impl IssueFilterError {
    /// The message that describes the error: "'<category>' must not be empty".
    pub fn message(&self) -> (r: String)
        ensures
            r@ == match *self {
                IssueFilterError::EmptyValue { property } => "'"@ + property@ + "' must not be empty"@,
            },
    {
        let mut out = String::new();
        match self {
            IssueFilterError::EmptyValue { property } => {
                push_str(&mut out, "'");
                push_str(&mut out, property);
                push_str(&mut out, "' must not be empty");
            },
        }
        out
    }
}

/// A search value as it is compared: trimmed and lower-cased.
pub open spec fn normalized(value: Seq<char>) -> Seq<char> {
    spec_lowercase(trim(value))
}

/// The character sequences of a list of strings.
pub open spec fn string_views(values: Seq<String>) -> Seq<Seq<char>> {
    values.map_values(|value: String| value@)
}

/// Each value comes strictly before the next, so no value occurs twice.
pub open spec fn strictly_sorted(values: Seq<Seq<char>>) -> bool {
    forall|i: int, j: int| 0 <= i < j < values.len() ==> seq_lt(#[trigger] values[i], #[trigger] values[j])
}

/// The set of normalized forms of the supplied values.
pub open spec fn normalized_set(values: Seq<String>) -> Set<Seq<char>> {
    values.map_values(|value: String| normalized(value@)).to_set()
}

/// Some supplied value is empty once trimmed.
pub open spec fn has_empty_value(values: Seq<String>) -> bool {
    exists|i: int| 0 <= i < values.len() && (#[trigger] trim(values[i]@)).len() == 0
}

/// The supplied query is present and empty once trimmed.
pub open spec fn query_is_empty(query: Option<String>) -> bool {
    query matches Some(q) && trim(q@).len() == 0
}

/// The criteria were refused because a value of the named category was empty.
pub open spec fn refused_for(r: Result<IssueFilter, IssueFilterError>, category: Seq<char>) -> bool {
    r matches Err(IssueFilterError::EmptyValue { property }) && property@ == category
}

/// `allowed` is empty, or the lower-cased candidate contains one of its values.
pub open spec fn matches_any_value(allowed: Seq<Seq<char>>, candidate: Seq<char>) -> bool {
    allowed.len() == 0 || exists|i: int|
        0 <= i < allowed.len() && contains_seq(spec_lowercase(candidate), #[trigger] allowed[i])
}

/// The lower-cased `text` contains `query`.
pub open spec fn text_contains(text: Seq<char>, query: Seq<char>) -> bool {
    contains_seq(spec_lowercase(text), query)
}

/// The issue's key, summary or description contains the query, ignoring case.
pub open spec fn query_matches_issue(query: Option<Seq<char>>, issue: Issue) -> bool {
    match query {
        None => true,
        Some(q) => {
            ||| text_contains(issue.key@, q)
            ||| text_contains(issue.summary@, q)
            ||| (issue.description matches Some(d) && text_contains(d@, q))
        },
    }
}

/// No assignee is required, or the issue has an assignee whose username
/// contains one of the required values.
pub open spec fn assignee_matches_issue(assignees: Seq<Seq<char>>, issue: Issue) -> bool {
    assignees.len() == 0 || (issue.assignee matches Some(a) && matches_any_value(
        assignees,
        a.username@,
    ))
}

/// Every category of the criteria accepts the issue.
pub open spec fn criteria_match(
    query: Option<Seq<char>>,
    assignees: Seq<Seq<char>>,
    statuses: Seq<Seq<char>>,
    issue_types: Seq<Seq<char>>,
    issue: Issue,
) -> bool {
    &&& query_matches_issue(query, issue)
    &&& assignee_matches_issue(assignees, issue)
    &&& matches_any_value(statuses, issue.status@)
    &&& matches_any_value(issue_types, issue.issue_type@)
}

impl IssueFilter {
    #[verifier::type_invariant]
    spec fn well_formed(self) -> bool {
        &&& strictly_sorted(string_views(self.assignee_usernames@))
        &&& strictly_sorted(string_views(self.statuses@))
        &&& strictly_sorted(string_views(self.issue_types@))
    }

    /// The normalized query, if one was given.
    pub closed spec fn query_view(self) -> Option<Seq<char>> {
        match self.query {
            Some(q) => Some(q@),
            None => None,
        }
    }

    /// The normalized assignee usernames, sorted and without repeats.
    pub closed spec fn assignees_view(self) -> Seq<Seq<char>> {
        string_views(self.assignee_usernames@)
    }

    /// The normalized statuses, sorted and without repeats.
    pub closed spec fn statuses_view(self) -> Seq<Seq<char>> {
        string_views(self.statuses@)
    }

    /// The normalized issue types, sorted and without repeats.
    pub closed spec fn issue_types_view(self) -> Seq<Seq<char>> {
        string_views(self.issue_types@)
    }

    /// The filter accepts the issue.
    pub open spec fn spec_matches(self, issue: Issue) -> bool {
        criteria_match(
            self.query_view(),
            self.assignees_view(),
            self.statuses_view(),
            self.issue_types_view(),
            issue,
        )
    }

    /// The filter has no criterion at all.
    pub open spec fn spec_is_unconstrained(self) -> bool {
        &&& self.query_view() is None
        &&& self.assignees_view().len() == 0
        &&& self.statuses_view().len() == 0
        &&& self.issue_types_view().len() == 0
    }

    /// Builds criteria from supplied values: each value is trimmed and
    /// lower-cased, and each list is sorted with repeats removed. A value that
    /// is empty once trimmed is refused; the query is checked first, then
    /// assignees, statuses and issue types.
    pub fn new(
        query: Option<String>,
        assignee_usernames: Vec<String>,
        statuses: Vec<String>,
        issue_types: Vec<String>,
    ) -> (r: Result<Self, IssueFilterError>)
        ensures
            r is Ok <==> !query_is_empty(query) && !has_empty_value(assignee_usernames@)
                && !has_empty_value(statuses@) && !has_empty_value(issue_types@),
            query_is_empty(query) ==> refused_for(r, "query"@),
            !query_is_empty(query) && has_empty_value(assignee_usernames@) ==> refused_for(
                r,
                "assignee"@,
            ),
            !query_is_empty(query) && !has_empty_value(assignee_usernames@) && has_empty_value(
                statuses@,
            ) ==> refused_for(r, "status"@),
            !query_is_empty(query) && !has_empty_value(assignee_usernames@) && !has_empty_value(
                statuses@,
            ) && has_empty_value(issue_types@) ==> refused_for(r, "issue type"@),
            r matches Ok(filter) ==> {
                &&& filter.query_view() == match query {
                    Some(q) => Some(normalized(q@)),
                    None => None::<Seq<char>>,
                }
                &&& filter.assignees_view().to_set() == normalized_set(assignee_usernames@)
                &&& filter.statuses_view().to_set() == normalized_set(statuses@)
                &&& filter.issue_types_view().to_set() == normalized_set(issue_types@)
                &&& strictly_sorted(filter.assignees_view())
                &&& strictly_sorted(filter.statuses_view())
                &&& strictly_sorted(filter.issue_types_view())
            },
    {
        let query = match query {
            Some(query) => {
                let query = normalize_filter_value(&query);
                if query.as_str().is_empty() {
                    return Err(IssueFilterError::EmptyValue { property: "query" });
                }
                Some(query)
            },
            None => None,
        };
        let assignee_usernames = match normalize_values(assignee_usernames, "assignee") {
            Ok(values) => values,
            Err(error) => return Err(error),
        };
        let statuses = match normalize_values(statuses, "status") {
            Ok(values) => values,
            Err(error) => return Err(error),
        };
        let issue_types = match normalize_values(issue_types, "issue type") {
            Ok(values) => values,
            Err(error) => return Err(error),
        };
        Ok(IssueFilter { query, assignee_usernames, statuses, issue_types })
    }

    /// Whether the issue meets every criterion.
    pub fn matches(&self, issue: &Issue) -> (r: bool)
        ensures
            r == self.spec_matches(*issue),
    {
        self.matches_query(issue) && self.matches_assignee(issue) && matches_any(
            &self.statuses,
            &issue.status,
        ) && matches_any(&self.issue_types, &issue.issue_type)
    }

    /// Whether the filter has no criterion at all.
    pub fn is_unconstrained(&self) -> (r: bool)
        ensures
            r == self.spec_is_unconstrained(),
    {
        self.query.is_none() && self.assignee_usernames.len() == 0 && self.statuses.len() == 0
            && self.issue_types.len() == 0
    }

    fn matches_query(&self, issue: &Issue) -> (r: bool)
        ensures
            r == query_matches_issue(self.query_view(), *issue),
    {
        match &self.query {
            None => true,
            Some(query) => {
                if contains(&issue.key, query) {
                    return true;
                }
                if contains(&issue.summary, query) {
                    return true;
                }
                match &issue.description {
                    Some(description) => contains(description, query),
                    None => false,
                }
            },
        }
    }

    fn matches_assignee(&self, issue: &Issue) -> (r: bool)
        ensures
            r == assignee_matches_issue(self.assignees_view(), *issue),
    {
        if self.assignee_usernames.len() == 0 {
            return true;
        }
        match &issue.assignee {
            Some(assignee) => matches_any(&self.assignee_usernames, &assignee.username),
            None => false,
        }
    }
}

/// Normalizes every value; refuses the list if a value is empty once
/// normalized, and otherwise returns the distinct normalized values sorted.
fn normalize_values(values: Vec<String>, property: &'static str) -> (r: Result<
    Vec<String>,
    IssueFilterError,
>)
    ensures
        r is Err <==> has_empty_value(values@),
        r matches Err(IssueFilterError::EmptyValue { property: p }) ==> p == property,
        r matches Ok(sorted) ==> strictly_sorted(string_views(sorted@)) && string_views(
            sorted@,
        ).to_set() == normalized_set(values@),
{
    let mut normalized_values: Vec<String> = Vec::new();
    let mut i: usize = 0;
    while i < values.len()
        invariant
            i <= values@.len(),
            normalized_values@.len() == i,
            forall|k: int|
                0 <= k < i ==> (#[trigger] normalized_values@[k])@ == normalized(values@[k]@),
            forall|k: int|
                0 <= k < i ==> ((#[trigger] normalized_values@[k])@.len() == 0 <==> trim(
                    values@[k]@,
                ).len() == 0),
        decreases values.len() - i,
    {
        let value = normalize_filter_value(&values[i]);
        normalized_values.push(value);
        i += 1;
    }
    let mut j: usize = 0;
    while j < normalized_values.len()
        invariant
            j <= normalized_values@.len(),
            normalized_values@.len() == values@.len(),
            forall|k: int|
                0 <= k < values@.len() ==> (#[trigger] normalized_values@[k])@ == normalized(
                    values@[k]@,
                ),
            forall|k: int|
                0 <= k < values@.len() ==> ((#[trigger] normalized_values@[k])@.len() == 0
                    <==> trim(values@[k]@).len() == 0),
            forall|k: int| 0 <= k < j ==> (#[trigger] trim(values@[k]@)).len() > 0,
        decreases normalized_values.len() - j,
    {
        if normalized_values[j].as_str().is_empty() {
            assert(trim(values@[j as int]@).len() == 0);
            return Err(IssueFilterError::EmptyValue { property });
        }
        j += 1;
    }
    let mut sorted: Vec<String> = Vec::new();
    let mut k: usize = 0;
    while k < normalized_values.len()
        invariant
            k <= normalized_values@.len(),
            normalized_values@.len() == values@.len(),
            forall|m: int|
                0 <= m < values@.len() ==> (#[trigger] normalized_values@[m])@ == normalized(
                    values@[m]@,
                ),
            strictly_sorted(string_views(sorted@)),
            string_views(sorted@).to_set() == values@.take(k as int).map_values(
                |value: String| normalized(value@),
            ).to_set(),
        decreases normalized_values.len() - k,
    {
        let value = normalized_values[k].clone();
        let ghost before = string_views(sorted@).to_set();
        insert_sorted(&mut sorted, value);
        proof {
            lemma_push_to_set(
                values@.take(k as int).map_values(|value: String| normalized(value@)),
                normalized(values@[k as int]@),
            );
        }
        assert(values@.take(k + 1).map_values(|value: String| normalized(value@)) =~= values@.take(
            k as int,
        ).map_values(|value: String| normalized(value@)).push(normalized(values@[k as int]@)));
        k += 1;
    }
    assert(values@.take(values@.len() as int) =~= values@);
    Ok(sorted)
}

/// Appending an element adds it to the set of elements.
proof fn lemma_push_to_set(s: Seq<Seq<char>>, x: Seq<char>)
    ensures
        s.push(x).to_set() == s.to_set().insert(x),
{
    assert forall|y: Seq<char>| s.push(x).to_set().contains(y) implies s.to_set().insert(x).contains(
        y,
    ) by {
        let idx = choose|idx: int| 0 <= idx < s.push(x).len() && s.push(x)[idx] == y;
        if idx < s.len() {
            assert(s[idx] == y);
        }
    }
    assert forall|y: Seq<char>| s.to_set().insert(x).contains(y) implies s.push(x).to_set().contains(
        y,
    ) by {
        if y == x {
            assert(s.push(x)[s.len() as int] == y);
        } else {
            let idx = choose|idx: int| 0 <= idx < s.len() && s[idx] == y;
            assert(s.push(x)[idx] == y);
        }
    }
    assert(s.push(x).to_set() =~= s.to_set().insert(x));
}

/// Inserts `value` at its place in a strictly sorted list, unless it is
/// already there.
fn insert_sorted(sorted: &mut Vec<String>, value: String)
    requires
        strictly_sorted(string_views(old(sorted)@)),
    ensures
        strictly_sorted(string_views(final(sorted)@)),
        string_views(final(sorted)@).to_set() == string_views(old(sorted)@).to_set().insert(value@),
{
    let ghost views = string_views(sorted@);
    let value_chars = chars_of(value.as_str());
    let mut i: usize = 0;
    while i < sorted.len()
        invariant_except_break
            i <= sorted@.len(),
            sorted@ == old(sorted)@,
            views == string_views(sorted@),
            value_chars@ == value@,
            forall|m: int| 0 <= m < i ==> seq_lt(#[trigger] views[m], value@),
        ensures
            i <= sorted@.len(),
            sorted@ == old(sorted)@,
            views == string_views(sorted@),
            value_chars@ == value@,
            forall|m: int| 0 <= m < i ==> seq_lt(#[trigger] views[m], value@),
            i < sorted@.len() ==> !seq_lt(views[i as int], value@),
        decreases sorted.len() - i,
    {
        let current = chars_of(sorted[i].as_str());
        if !chars_lt(&current, &value_chars) {
            break;
        }
        i += 1;
    }
    if i < sorted.len() {
        let current = chars_of(sorted[i].as_str());
        if !chars_lt(&value_chars, &current) {
            proof {
                lemma_seq_lt_total(views[i as int], value@);
                assert(views[i as int] == value@);
                assert(views.to_set().contains(value@));
                assert(views.to_set().insert(value@) =~= views.to_set());
            }
            return;
        }
    }
    proof {
        assert forall|m: int| i <= m < views.len() implies seq_lt(value@, #[trigger] views[m]) by {
            if m > i {
                lemma_seq_lt_transitive(value@, views[i as int], views[m]);
            }
        }
    }
    sorted.insert(i, value);
    proof {
        let new_views = string_views(sorted@);
        assert(new_views =~= views.insert(i as int, value@));
        views.insert_ensures(i as int, value@);
        assert forall|a: int, b: int| 0 <= a < b < new_views.len() implies seq_lt(
            #[trigger] new_views[a],
            #[trigger] new_views[b],
        ) by {
            if b < i {
            } else if a < i && b == i {
            } else if a < i && b > i {
                assert(new_views[b] == views[b - 1]);
            } else if a == i {
                assert(new_views[b] == views[b - 1]);
            } else {
                assert(new_views[a] == views[a - 1]);
                assert(new_views[b] == views[b - 1]);
            }
        }
        assert(new_views.to_set() =~= views.to_set().insert(value@)) by {
            assert forall|x: Seq<char>| new_views.to_set().contains(x) implies views.to_set().insert(
                value@,
            ).contains(x) by {
                let idx = choose|idx: int| 0 <= idx < new_views.len() && new_views[idx] == x;
                if idx < i {
                    assert(views[idx] == x);
                } else if idx > i {
                    assert(views[idx - 1] == x);
                }
            }
            assert forall|x: Seq<char>| views.to_set().insert(value@).contains(x) implies new_views.to_set().contains(
                x,
            ) by {
                if x == value@ {
                    assert(new_views[i as int] == x);
                } else {
                    let idx = choose|idx: int| 0 <= idx < views.len() && views[idx] == x;
                    if idx < i {
                        assert(new_views[idx] == x);
                    } else {
                        assert(new_views[idx + 1] == x);
                    }
                }
            }
        }
    }
}

/// A search value trimmed and lower-cased; it is empty exactly when the
/// trimmed value is.
fn normalize_filter_value(value: &str) -> (r: String)
    ensures
        r@ == normalized(value@),
        r@.len() == 0 <==> trim(value@).len() == 0,
{
    let chars = chars_of(value);
    let trimmed = trim_chars(&chars);
    let trimmed = string_from_chars(&trimmed);
    to_lowercase(trimmed.as_str())
}

/// Whether the lower-cased `haystack` contains `needle`.
fn contains(haystack: &str, needle: &str) -> (r: bool)
    ensures
        r == text_contains(haystack@, needle@),
{
    let lowered = to_lowercase(haystack);
    let hay = chars_of(lowered.as_str());
    let pattern = chars_of(needle);
    contains_chars(&hay, &pattern)
}

/// Whether no value is required or the lower-cased candidate contains one of
/// the values.
fn matches_any(allowed_values: &Vec<String>, candidate: &str) -> (r: bool)
    ensures
        r == matches_any_value(string_views(allowed_values@), candidate@),
{
    if allowed_values.len() == 0 {
        return true;
    }
    let lowered = to_lowercase(candidate);
    let hay = chars_of(lowered.as_str());
    let ghost views = string_views(allowed_values@);
    let mut i: usize = 0;
    while i < allowed_values.len()
        invariant
            i <= allowed_values@.len(),
            views == string_views(allowed_values@),
            hay@ == spec_lowercase(candidate@),
            forall|k: int| 0 <= k < i ==> !contains_seq(hay@, #[trigger] views[k]),
        decreases allowed_values.len() - i,
    {
        let allowed = chars_of(allowed_values[i].as_str());
        if contains_chars(&hay, &allowed) {
            assert(contains_seq(spec_lowercase(candidate@), views[i as int]));
            return true;
        }
        i += 1;
    }
    false
}

/// A text query looks only at an issue's key, summary and description: a
/// filter that has only a query accepts an issue exactly when the lower-cased
/// key, summary or description contains the query. The status, issue type and
/// assignee play no part.
pub proof fn lemma_query_looks_only_at_key_summary_and_description(
    filter: IssueFilter,
    issue: Issue,
)
    requires
        filter.query_view() is Some,
        filter.assignees_view().len() == 0,
        filter.statuses_view().len() == 0,
        filter.issue_types_view().len() == 0,
    ensures
        filter.spec_matches(issue) <==> {
            let q = filter.query_view()->0;
            ||| contains_seq(spec_lowercase(issue.key@), q)
            ||| contains_seq(spec_lowercase(issue.summary@), q)
            ||| (issue.description matches Some(d) && contains_seq(spec_lowercase(d@), q))
        },
{
}

/// Two issues with the same key, summary and description are accepted alike
/// by a filter that has only a query, whatever their status, issue type and
/// assignee.
pub proof fn lemma_query_ignores_status_type_and_assignee(
    filter: IssueFilter,
    first: Issue,
    second: Issue,
)
    requires
        filter.assignees_view().len() == 0,
        filter.statuses_view().len() == 0,
        filter.issue_types_view().len() == 0,
        first.key@ == second.key@,
        first.summary@ == second.summary@,
        first.description matches Some(d) ==> (second.description matches Some(e) && d@ == e@),
        first.description is None ==> second.description is None,
    ensures
        filter.spec_matches(first) == filter.spec_matches(second),
{
    if filter.query_view() is Some {
        lemma_query_looks_only_at_key_summary_and_description(filter, first);
        lemma_query_looks_only_at_key_summary_and_description(filter, second);
    }
}

/// A filter accepts an issue exactly when it meets every criterion: its key,
/// summary or description contains the query; its assignee's username (not
/// the display name) contains one of the assignee values; its status contains
/// one of the statuses; and its type contains one of the issue types. Each is
/// compared lower-cased, and a criterion without values asks nothing.
pub proof fn lemma_filters_combine_categories_with_and_values_with_or(
    filter: IssueFilter,
    issue: Issue,
)
    ensures
        filter.spec_matches(issue) <==> {
            &&& (filter.query_view() matches Some(q) ==> {
                ||| contains_seq(spec_lowercase(issue.key@), q)
                ||| contains_seq(spec_lowercase(issue.summary@), q)
                ||| (issue.description matches Some(d) && contains_seq(spec_lowercase(d@), q))
            })
            &&& (filter.assignees_view().len() > 0 ==> (issue.assignee matches Some(a)
                && exists|i: int|
                0 <= i < filter.assignees_view().len() && contains_seq(
                    spec_lowercase(a.username@),
                    #[trigger] filter.assignees_view()[i],
                )))
            &&& (filter.statuses_view().len() > 0 ==> exists|i: int|
                0 <= i < filter.statuses_view().len() && contains_seq(
                    spec_lowercase(issue.status@),
                    #[trigger] filter.statuses_view()[i],
                ))
            &&& (filter.issue_types_view().len() > 0 ==> exists|i: int|
                0 <= i < filter.issue_types_view().len() && contains_seq(
                    spec_lowercase(issue.issue_type@),
                    #[trigger] filter.issue_types_view()[i],
                ))
        },
{
}

/// A filter without criteria accepts every issue.
pub proof fn lemma_unconstrained_filter_matches_every_issue(filter: IssueFilter, issue: Issue)
    requires
        filter.spec_is_unconstrained(),
    ensures
        filter.spec_matches(issue),
{
}

/// Two strictly sorted lists with the same elements are the same list.
pub proof fn lemma_sorted_lists_with_same_elements_are_equal(a: Seq<Seq<char>>, b: Seq<Seq<char>>)
    requires
        strictly_sorted(a),
        strictly_sorted(b),
        a.to_set() == b.to_set(),
    ensures
        a == b,
    decreases a.len() + b.len(),
{
    if a.len() == 0 || b.len() == 0 {
        if a.len() > 0 {
            assert(a.to_set().contains(a[0]));
        }
        if b.len() > 0 {
            assert(b.to_set().contains(b[0]));
        }
        assert(a =~= b);
    } else {
        assert(a.to_set().contains(a[0]));
        assert(b.to_set().contains(b[0]));
        let j = choose|j: int| 0 <= j < b.len() && b[j] == a[0];
        let k = choose|k: int| 0 <= k < a.len() && a[k] == b[0];
        if j > 0 {
            assert(seq_lt(b[0], b[j]));
            if k > 0 {
                assert(seq_lt(a[0], a[k]));
                lemma_seq_lt_total(a[0], b[0]);
            } else {
                lemma_seq_lt_irreflexive(a[0]);
            }
        }
        assert(a[0] == b[0]);
        let a1 = a.drop_first();
        let b1 = b.drop_first();
        assert forall|x: Seq<char>| a1.to_set().contains(x) implies b1.to_set().contains(x) by {
            let p = choose|p: int| 0 <= p < a1.len() && a1[p] == x;
            assert(seq_lt(a[0], a[p + 1]));
            assert(a.to_set().contains(x));
            let q = choose|q: int| 0 <= q < b.len() && b[q] == x;
            if q == 0 {
                lemma_seq_lt_irreflexive(x);
            }
            assert(b1[q - 1] == x);
        }
        assert forall|x: Seq<char>| b1.to_set().contains(x) implies a1.to_set().contains(x) by {
            let p = choose|p: int| 0 <= p < b1.len() && b1[p] == x;
            assert(seq_lt(b[0], b[p + 1]));
            assert(b.to_set().contains(x));
            let q = choose|q: int| 0 <= q < a.len() && a[q] == x;
            if q == 0 {
                lemma_seq_lt_irreflexive(x);
            }
            assert(a1[q - 1] == x);
        }
        assert(a1.to_set() =~= b1.to_set());
        assert forall|i: int, m: int| 0 <= i < m < a1.len() implies seq_lt(
            #[trigger] a1[i],
            #[trigger] a1[m],
        ) by {
            assert(a1[i] == a[i + 1] && a1[m] == a[m + 1]);
        }
        assert forall|i: int, m: int| 0 <= i < m < b1.len() implies seq_lt(
            #[trigger] b1[i],
            #[trigger] b1[m],
        ) by {
            assert(b1[i] == b[i + 1] && b1[m] == b[m + 1]);
        }
        lemma_sorted_lists_with_same_elements_are_equal(a1, b1);
        assert(a =~= seq![a[0]] + a1);
        assert(b =~= seq![b[0]] + b1);
    }
}

/// The order in which values are supplied, and repeated values, make no
/// difference: filters whose value lists hold the same normalized values (as
/// `IssueFilter::new` guarantees of lists with the same normalized values)
/// have the same criteria and accept the same issues.
pub proof fn lemma_value_order_and_repeats_do_not_matter(
    first: IssueFilter,
    second: IssueFilter,
    issue: Issue,
)
    requires
        strictly_sorted(first.assignees_view()),
        strictly_sorted(first.statuses_view()),
        strictly_sorted(first.issue_types_view()),
        strictly_sorted(second.assignees_view()),
        strictly_sorted(second.statuses_view()),
        strictly_sorted(second.issue_types_view()),
        first.query_view() == second.query_view(),
        first.assignees_view().to_set() == second.assignees_view().to_set(),
        first.statuses_view().to_set() == second.statuses_view().to_set(),
        first.issue_types_view().to_set() == second.issue_types_view().to_set(),
    ensures
        first.assignees_view() == second.assignees_view(),
        first.statuses_view() == second.statuses_view(),
        first.issue_types_view() == second.issue_types_view(),
        first.spec_matches(issue) == second.spec_matches(issue),
{
    lemma_sorted_lists_with_same_elements_are_equal(
        first.assignees_view(),
        second.assignees_view(),
    );
    lemma_sorted_lists_with_same_elements_are_equal(first.statuses_view(), second.statuses_view());
    lemma_sorted_lists_with_same_elements_are_equal(
        first.issue_types_view(),
        second.issue_types_view(),
    );
}

/// Removing leading whitespace twice is the same as removing it once.
proof fn lemma_trim_start_idempotent(s: Seq<char>)
    ensures
        trim_start(trim_start(s)) == trim_start(s),
        trim_start(s).len() == 0 || !spec_is_whitespace(trim_start(s)[0]),
    decreases s.len(),
{
    if s.len() > 0 && spec_is_whitespace(s[0]) {
        lemma_trim_start_idempotent(s.drop_first());
    }
}

/// Removing trailing whitespace twice is the same as removing it once, and
/// keeps a non-whitespace first character.
proof fn lemma_trim_end_idempotent(s: Seq<char>)
    ensures
        trim_end(trim_end(s)) == trim_end(s),
        trim_end(s).len() == 0 || !spec_is_whitespace(trim_end(s).last()),
        trim_end(s).len() <= s.len(),
        trim_end(s) == s.take(trim_end(s).len() as int),
    decreases s.len(),
{
    if s.len() > 0 && spec_is_whitespace(s.last()) {
        lemma_trim_end_idempotent(s.drop_last());
        assert(s.drop_last().take(trim_end(s).len() as int) =~= s.take(trim_end(s).len() as int));
    } else {
        assert(s.take(s.len() as int) =~= s);
    }
}

/// Supplied values are compared trimmed: trimming a value beforehand changes
/// nothing.
pub proof fn lemma_trimmed_values_normalize_alike(value: Seq<char>)
    ensures
        normalized(trim(value)) == normalized(value),
{
    let t = trim_start(value);
    lemma_trim_start_idempotent(value);
    lemma_trim_end_idempotent(t);
    let e = trim_end(t);
    // `e` is a prefix of `t`, which has no leading whitespace.
    if e.len() > 0 {
        assert(e[0] == t[0]);
    }
    assert(trim_start(e) == e);
    assert(trim(trim(value)) == trim_end(e));
}

} // verus!
