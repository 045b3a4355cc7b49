//! The issues that are synchronized from Jira and kept in a local snapshot.
use vstd::prelude::*;

verus! {

/// A Jira issue as it is cached locally.
#[derive(Debug)]
pub struct Issue {
    pub id: String,
    pub key: String,
    pub summary: String,
    pub status: String,
    pub issue_type: String,
    pub assignee: Option<Assignee>,
    pub description: Option<String>,
    pub updated_at: String,
    pub parent: Option<IssueReference>,
    pub subtasks: Vec<IssueReference>,
}

/// The user an issue is assigned to.
#[derive(Debug)]
pub struct Assignee {
    pub username: String,
    pub display_name: String,
}

/// A reference to another issue (a parent or a subtask).
#[derive(Debug)]
pub struct IssueReference {
    pub id: String,
    pub key: String,
}

/// A point in time as the time library represents a UTC instant: whole
/// seconds since the Unix epoch and the nanoseconds within that second. The
/// nanoseconds reach past one second only during a leap second.
#[derive(Debug, Clone, Copy)]
pub struct Timestamp {
    seconds: i64,
    nanos: u32,
}

/// The first second that the time library can represent (January 1 of the
/// year -262143, 00:00:00 UTC).
pub open spec fn min_utc_seconds() -> int {
    -8_334_601_228_800
}

/// The last second that the time library can represent (December 31 of the
/// year 262142, 23:59:59 UTC).
pub open spec fn max_utc_seconds() -> int {
    8_210_266_876_799
}

/// Whether `DateTime::<Utc>::from_timestamp(seconds, nanos)` returns an
/// instant: the seconds lie in the representable years, the nanoseconds are
/// below two seconds, and a second or more of nanoseconds (a leap second) is
/// allowed only in the last second of a minute.
pub open spec fn spec_utc_representable(seconds: i64, nanos: u32) -> bool {
    &&& min_utc_seconds() <= seconds <= max_utc_seconds()
    &&& nanos < 2_000_000_000
    &&& (nanos >= 1_000_000_000 ==> seconds % 60 == 59)
}

/// Calls `chrono::DateTime::<Utc>::from_timestamp` and tells whether it
/// returned an instant, which is `spec_utc_representable`.
#[verifier::external_body]
fn utc_representable(seconds: i64, nanos: u32) -> (r: bool)
    ensures
        r == spec_utc_representable(seconds, nanos),
{
    chrono::DateTime::<chrono::Utc>::from_timestamp(seconds, nanos).is_some()
}

impl Timestamp {
    #[verifier::type_invariant]
    spec fn valid(self) -> bool {
        spec_utc_representable(self.seconds, self.nanos)
    }

    /// Seconds since the Unix epoch.
    pub closed spec fn spec_seconds(self) -> i64 {
        self.seconds
    }

    /// Nanoseconds within the second (a second or more during a leap second).
    pub closed spec fn spec_nanos(self) -> u32 {
        self.nanos
    }

    /// The instant `seconds` + `nanos`/10^9 after the Unix epoch, if the time
    /// library can represent it.
    pub fn new(seconds: i64, nanos: u32) -> (r: Option<Timestamp>)
        ensures
            r is Some <==> spec_utc_representable(seconds, nanos),
            r matches Some(t) ==> t.spec_seconds() == seconds && t.spec_nanos() == nanos,
    {
        if utc_representable(seconds, nanos) {
            Some(Timestamp { seconds, nanos })
        } else {
            None
        }
    }

    /// Seconds since the Unix epoch.
    pub fn seconds(&self) -> (r: i64)
        ensures
            r == self.spec_seconds(),
            spec_utc_representable(r, self.spec_nanos()),
    {
        proof {
            use_type_invariant(self);
        }
        self.seconds
    }

    /// Nanoseconds within the second.
    pub fn nanos(&self) -> (r: u32)
        ensures
            r == self.spec_nanos(),
            spec_utc_representable(self.spec_seconds(), r),
    {
        proof {
            use_type_invariant(self);
        }
        self.nanos
    }
}

/// The RFC 3339 text, to whole seconds and in UTC with a `Z` suffix, that
/// `DateTime::<Utc>::to_rfc3339_opts(SecondsFormat::Secs, true)` gives for an instant.
pub uninterp spec fn spec_rfc3339_seconds(seconds: i64, nanos: u32) -> Seq<char>;

/// What `DateTime::parse_from_str(text, format)` gives for a text and a
/// format, as the parsed instant's seconds since the Unix epoch and
/// nanoseconds within the second, or `None` when parsing fails.
pub uninterp spec fn spec_parse_timestamp(text: Seq<char>, format: Seq<char>) -> Option<(i64, u32)>;

/// Calls `DateTime::<Utc>::from_timestamp` and `to_rfc3339_opts(SecondsFormat::Secs, true)`
/// on the instant; the text is named `spec_rfc3339_seconds`.
#[verifier::external_body]
pub(crate) fn format_rfc3339_seconds(timestamp: Timestamp) -> (r: String)
    ensures
        r@ == spec_rfc3339_seconds(timestamp.spec_seconds(), timestamp.spec_nanos()),
{
    match chrono::DateTime::<chrono::Utc>::from_timestamp(timestamp.seconds, timestamp.nanos) {
        Some(instant) => instant.to_rfc3339_opts(chrono::SecondsFormat::Secs, true),
        None => String::new(),
    }
}

/// Calls `DateTime::parse_from_str(text, format)`; the parsed instant, as
/// seconds and nanoseconds since the Unix epoch, is named `spec_parse_timestamp`.
#[verifier::external_body]
pub(crate) fn parse_timestamp(text: &str, format: &str) -> (r: Option<(i64, u32)>)
    ensures
        r == spec_parse_timestamp(text@, format@),
{
    match chrono::DateTime::parse_from_str(text, format) {
        Ok(instant) => Some((instant.timestamp(), instant.timestamp_subsec_nanos())),
        Err(_) => None,
    }
}

/// Where and when a snapshot was taken.
#[derive(Debug)]
pub struct SnapshotMetadata {
    pub fetched_at: Timestamp,
    pub jira_url: String,
    pub jql: String,
}

/// The issues that one synchronization fetched, with where they came from.
#[derive(Debug)]
pub struct Snapshot {
    pub metadata: SnapshotMetadata,
    pub issues: Vec<Issue>,
}

} // verus!
