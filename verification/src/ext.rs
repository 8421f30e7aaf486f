//! The few points where the library leans on outside code: wall-clock time,
//! fresh identifiers, strftime formatting and parsing, the home directory,
//! and appending a single character to a `String`.
//!
//! Each function here is trusted: its contract states only what the outside
//! code's own source or documentation shows.

use vstd::prelude::*;
use std::fmt::Write;

verus! {

/// What chrono's strftime formatter produces for the given UTC timestamp
/// (Unix seconds) and format pattern; `None` when the timestamp is out of
/// chrono's range or the pattern cannot be formatted. The outcome is a
/// function of the two arguments alone.
pub uninterp spec fn format_utc(ts: i64, pattern: Seq<char>) -> Option<Seq<char>>;

/// What chrono's `NaiveDateTime::parse_from_str` yields for the given text
/// and strftime pattern, taken as UTC and reduced to Unix seconds; `None`
/// when parsing fails.
pub uninterp spec fn parse_datetime_utc(s: Seq<char>, pattern: Seq<char>) -> Option<i64>;

/// What chrono's `NaiveDate::parse_from_str` yields for the given text and
/// strftime pattern, taken as midnight UTC and reduced to Unix seconds;
/// `None` when parsing fails.
pub uninterp spec fn parse_date_utc(s: Seq<char>, pattern: Seq<char>) -> Option<i64>;

/// What chrono's RFC 3339 `FromStr` for `DateTime<Utc>` yields for the
/// given text, reduced to Unix seconds; `None` when parsing fails.
pub uninterp spec fn parse_rfc3339_utc(s: Seq<char>) -> Option<i64>;

/// Relies on chrono's `Utc::now`: the current wall-clock time as Unix
/// seconds. Nothing can be promised of the value.
#[verifier::external_body]
pub(crate) fn now_seconds() -> i64 {
    chrono::Utc::now().timestamp()
}

/// Relies on uuid's `Uuid::new_v4` and its `Display` (hyphenated lower-hex
/// form): a fresh random identifier, always 36 characters long. Nothing
/// more can be promised of a random value.
#[verifier::external_body]
pub(crate) fn new_uuid() -> (r: String)
    ensures
        r@.len() == 36,
{
    uuid::Uuid::new_v4().to_string()
}

/// Relies on chrono's `DateTime::from_timestamp` and its strftime
/// `format` (`DelayedFormat`): formats the timestamp with the pattern.
/// A failing pattern surfaces as a formatter error, reported as `None`.
#[verifier::external_body]
pub(crate) fn format_timestamp(ts: i64, pattern: &str) -> (r: Option<String>)
    ensures
        r.deep_view() == format_utc(ts, pattern@),
{
    let dt = chrono::DateTime::<chrono::Utc>::from_timestamp(ts, 0)?;
    let mut out = String::new();
    match write!(out, "{}", dt.format(pattern)) {
        Ok(()) => Some(out),
        Err(_) => None,
    }
}

/// Relies on chrono's `NaiveDateTime::parse_from_str`: parses `s` against
/// the strftime `pattern`; the result is reduced to Unix seconds in UTC.
#[verifier::external_body]
pub(crate) fn parse_datetime_str(s: &str, pattern: &str) -> (r: Option<i64>)
    ensures
        r == parse_datetime_utc(s@, pattern@),
{
    match chrono::NaiveDateTime::parse_from_str(s, pattern) {
        Ok(dt) => Some(dt.and_utc().timestamp()),
        Err(_) => None,
    }
}

/// Relies on chrono's `NaiveDate::parse_from_str`: parses `s` against the
/// strftime `pattern`; the date is taken at midnight UTC.
#[verifier::external_body]
pub(crate) fn parse_date_str(s: &str, pattern: &str) -> (r: Option<i64>)
    ensures
        r == parse_date_utc(s@, pattern@),
{
    let d = chrono::NaiveDate::parse_from_str(s, pattern).ok()?;
    let dt = d.and_hms_opt(0, 0, 0)?;
    Some(dt.and_utc().timestamp())
}

/// Relies on chrono's RFC 3339 `FromStr` impl for `DateTime<Utc>`.
#[verifier::external_body]
pub(crate) fn parse_rfc3339_str(s: &str) -> (r: Option<i64>)
    ensures
        r == parse_rfc3339_utc(s@),
{
    match s.parse::<chrono::DateTime<chrono::Utc>>() {
        Ok(dt) => Some(dt.timestamp()),
        Err(_) => None,
    }
}

/// Relies on dirs' `home_dir`: the user's home directory as a string path,
/// if the environment provides one. The environment decides the outcome.
#[verifier::external_body]
pub(crate) fn home_dir_string() -> Option<String> {
    Some(dirs::home_dir()?.to_string_lossy().into_owned())
}

/// Relies on std's `String::push`: appends one character.
#[verifier::external_body]
pub(crate) fn push_char(s: &mut String, c: char)
    ensures
        final(s)@ == old(s)@.push(c),
{
    s.push(c);
}

} // verus!
