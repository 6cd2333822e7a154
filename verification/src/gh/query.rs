//! The search string: which repository, which kind of item, created since when.
//!
//! The string reads `repo:<owner/name> is:pr [is:open] created:><YYYY-MM-DD>`;
//! the day is that of the instant one week before "now", in UTC.

use vstd::prelude::*;

verus! {

/// One week, in seconds.
pub const WEEK_SECONDS: i64 = 604_800;

/// The first second (counted from the Unix epoch) that has a calendar date:
/// the start of the year -262143.
pub const MIN_TIMESTAMP: i64 = -8_334_601_228_800;

/// The last second (counted from the Unix epoch) that has a calendar date:
/// the end of the year 262142.
pub const MAX_TIMESTAMP: i64 = 8_210_266_876_799;

/// The format of the day in the search string: year, month and day of month.
pub const DAY_FORMAT: &'static str = "%Y-%m-%d";

/// Whether a number of seconds since the Unix epoch has a calendar date.
pub open spec fn has_date(seconds: int) -> bool {
    MIN_TIMESTAMP <= seconds <= MAX_TIMESTAMP
}

/// The UTC calendar day on which the given second since the Unix epoch
/// falls, written as year, month and day of month with `-` between them.
pub uninterp spec fn utc_day_text(seconds: int) -> Seq<char>;

/// The search string for a repository and a day.
pub open spec fn search_text(repo: Seq<char>, open_only: bool, since: Seq<char>) -> Seq<char> {
    "repo:"@ + repo + " is:pr"@ + (if open_only {
        " is:open"@
    } else {
        Seq::<char>::empty()
    }) + " created:>"@ + since
}

/// The search string for a repository and the week that ends at `now`.
pub open spec fn week_text(repo: Seq<char>, open_only: bool, now: int) -> Seq<char> {
    search_text(repo, open_only, utc_day_text(now - WEEK_SECONDS))
}

/// The current time in whole seconds since the Unix epoch.
///
/// Calls `chrono::Utc::now` and reads the result with `DateTime::timestamp`.
/// `now` builds its result from a duration since the epoch and unwraps it,
/// so what it returns is not negative and has a calendar date; with a system
/// clock before 1970 it does not return.
#[verifier::external_body]
fn utc_now_seconds() -> (now: i64)
    ensures
        0 <= now <= MAX_TIMESTAMP,
{
    chrono::Utc::now().timestamp()
}

/// The UTC day of a second since the Unix epoch, as text.
///
/// Calls `chrono::DateTime::from_timestamp`, which gives a date and time for every
/// second from `MIN_TIMESTAMP` to `MAX_TIMESTAMP`, and `DateTime::format` with
/// the day format; the text depends on the second alone.
#[verifier::external_body]
fn utc_day(seconds: i64, format: &str) -> (day: String)
    requires
        has_date(seconds as int),
        format@ == DAY_FORMAT@,
    ensures
        day@ == utc_day_text(seconds as int),
{
    chrono::DateTime::from_timestamp(seconds, 0).unwrap().format(format).to_string()
}

/// The search string for pull requests of `repo` created after the day
/// `since`, open ones only if `open_only`.
pub fn search_query(repo: &str, open_only: bool, since: &str) -> (query: String)
    ensures
        query@ == search_text(repo@, open_only, since@),
{
    let mut query = String::from_str("repo:");
    query.append(repo);
    query.append(" is:pr");
    if open_only {
        query.append(" is:open");
    }
    query.append(" created:>");
    query.append(since);
    query
}

/// The search string for the week that ends at `now`, where the instant one
/// week before `now` has a calendar date.
fn query_for_week(repo: &str, open_only: bool, now: i64) -> (query: String)
    requires
        has_date(now - WEEK_SECONDS),
    ensures
        query@ == week_text(repo@, open_only, now as int),
{
    let since: i64 = now - WEEK_SECONDS;
    let day = utc_day(since, DAY_FORMAT);
    search_query(repo, open_only, day.as_str())
}

/// The search string for the week that ends at `now`, given in seconds since
/// the Unix epoch; `None` where the instant one week before `now` has no
/// calendar date.
pub fn week_query_at(repo: &str, open_only: bool, now: i64) -> (query: Option<String>)
    ensures
        query is Some <==> has_date(now - WEEK_SECONDS),
        query matches Some(text) ==> text@ == week_text(repo@, open_only, now as int),
{
    if now < MIN_TIMESTAMP + WEEK_SECONDS || now > MAX_TIMESTAMP + WEEK_SECONDS {
        None
    } else {
        Some(query_for_week(repo, open_only, now))
    }
}

/// The search string for the pull requests of `repo` created in the week
/// that ends now, by the system clock.
pub fn week_query(repo: &str) -> (query: String)
    ensures
        exists|now: int| 0 <= now <= MAX_TIMESTAMP && query@ == week_text(repo@, false, now),
{
    let now: i64 = utc_now_seconds();
    query_for_week(repo, false, now)
}

/// As [`week_query`], for the open pull requests only.
pub fn open_week_query(repo: &str) -> (query: String)
    ensures
        exists|now: int| 0 <= now <= MAX_TIMESTAMP && query@ == week_text(repo@, true, now),
{
    let now: i64 = utc_now_seconds();
    query_for_week(repo, true, now)
}

} // verus!
