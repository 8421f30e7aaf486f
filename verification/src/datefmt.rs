//! Date and duration rendering: humanised durations and relative times,
//! and parsing of date strings in the accepted formats.

use vstd::prelude::*;
use crate::chars::{i64_to_string, spec_i64_string};
use crate::ext::{
    format_utc, now_seconds, parse_date_str, parse_date_utc, parse_datetime_str,
    parse_datetime_utc, parse_rfc3339_str, parse_rfc3339_utc,
};

verus! {

/// Quotient truncated toward zero, as Rust's integer division gives it.
pub open spec fn spec_div_trunc(a: int, b: int) -> int
    recommends
        b > 0,
{
    if a >= 0 {
        a / b
    } else {
        -((-a) / b)
    }
}

/// Whole units between `then` and `now` in Unix seconds, truncated
/// toward zero.
pub fn units_between(now: i64, then: i64, unit: u64) -> (r: i64)
    requires
        60 <= unit,
    ensures
        r == spec_div_trunc(now as int - then as int, unit as int),
{
    if now >= then {
        let diff: u128 = (now as i128 - then as i128) as u128;
        let q: u128 = diff / (unit as u128);
        proof {
            vstd::arithmetic::div_mod::lemma_div_is_ordered_by_denominator(
                diff as int,
                60,
                unit as int,
            );
            vstd::arithmetic::div_mod::lemma_div_is_ordered(diff as int, u64::MAX as int, 60);
        }
        q as i64
    } else {
        let diff: u128 = (then as i128 - now as i128) as u128;
        let q: u128 = diff / (unit as u128);
        proof {
            vstd::arithmetic::div_mod::lemma_div_is_ordered_by_denominator(
                diff as int,
                60,
                unit as int,
            );
            vstd::arithmetic::div_mod::lemma_div_is_ordered(diff as int, u64::MAX as int, 60);
        }
        -(q as i64)
    }
}

/// The humanised rendering of a whole number of days.
pub open spec fn spec_format_duration_days(days: int) -> Seq<char> {
    if days == 0 {
        "Today"@
    } else if days == 1 {
        "1 day"@
    } else if days < 7 {
        spec_i64_string(days) + " days"@
    } else if days < 30 {
        if days / 7 == 1 {
            "1 week"@
        } else {
            spec_i64_string(days / 7) + " weeks"@
        }
    } else {
        if days / 30 == 1 {
            "1 month"@
        } else {
            spec_i64_string(days / 30) + " months"@
        }
    }
}

/// Renders a day count as a humanised duration: days, then whole weeks,
/// then whole months.
pub fn format_duration_days(days: i64) -> (r: String)
    ensures
        r@ == spec_format_duration_days(days as int),
{
    if days == 0 {
        "Today".to_owned()
    } else if days == 1 {
        "1 day".to_owned()
    } else if days < 7 {
        let mut s = i64_to_string(days);
        s.append(" days");
        s
    } else if days < 30 {
        let weeks = days / 7;
        if weeks == 1 {
            "1 week".to_owned()
        } else {
            let mut s = i64_to_string(weeks);
            s.append(" weeks");
            s
        }
    } else {
        let months = days / 30;
        if months == 1 {
            "1 month".to_owned()
        } else {
            let mut s = i64_to_string(months);
            s.append(" months");
            s
        }
    }
}

/// The relative-time rendering of `then` as seen from `now`: minutes,
/// hours, days and weeks ago, falling back to the plain date for
/// anything four weeks old or older.
pub open spec fn spec_relative_time(now: int, then: int) -> Seq<char> {
    let secs = now - then;
    let minutes = spec_div_trunc(secs, 60);
    let hours = spec_div_trunc(secs, 3600);
    let days = spec_div_trunc(secs, 86400);
    let weeks = spec_div_trunc(secs, 604800);
    if days == 0 {
        if hours == 0 {
            if minutes == 0 {
                "Just now"@
            } else {
                spec_i64_string(minutes) + " min ago"@
            }
        } else {
            spec_i64_string(hours) + " hours ago"@
        }
    } else if days == 1 {
        "1 day ago"@
    } else if days < 7 {
        spec_i64_string(days) + " days ago"@
    } else if weeks == 1 {
        "1 week ago"@
    } else if weeks < 4 {
        spec_i64_string(weeks) + " weeks ago"@
    } else {
        match format_utc(then as i64, "%Y-%m-%d"@) {
            Some(x) => x,
            None => Seq::empty(),
        }
    }
}

/// Renders how long ago `then` was, as seen from `now`.
pub fn format_relative_time_from(now: i64, then: i64) -> (r: String)
    ensures
        r@ == spec_relative_time(now as int, then as int),
{
    let minutes = units_between(now, then, 60);
    let hours = units_between(now, then, 3600);
    let days = units_between(now, then, 86400);
    let weeks = units_between(now, then, 604800);
    if days == 0 {
        if hours == 0 {
            if minutes == 0 {
                "Just now".to_owned()
            } else {
                let mut s = i64_to_string(minutes);
                s.append(" min ago");
                s
            }
        } else {
            let mut s = i64_to_string(hours);
            s.append(" hours ago");
            s
        }
    } else if days == 1 {
        "1 day ago".to_owned()
    } else if days < 7 {
        let mut s = i64_to_string(days);
        s.append(" days ago");
        s
    } else if weeks == 1 {
        "1 week ago".to_owned()
    } else if weeks < 4 {
        let mut s = i64_to_string(weeks);
        s.append(" weeks ago");
        s
    } else {
        match crate::ext::format_timestamp(then, "%Y-%m-%d") {
            Some(x) => x,
            None => String::new(),
        }
    }
}

/// Renders how long ago `then` was, measured against the clock now.
pub fn format_relative_time(then: i64) -> (r: String)
    ensures
        exists|now: int| r@ == spec_relative_time(now, then as int),
{
    let now = now_seconds();
    format_relative_time_from(now, then)
}

/// The timestamp a date string parses to: each accepted format is tried
/// in order, as a datetime first and as a bare date at midnight second,
/// with RFC 3339 as the final fallback.
pub open spec fn spec_parse_date(s: Seq<char>) -> Option<i64> {
    if parse_datetime_utc(s, "%Y-%m-%d"@) is Some {
        parse_datetime_utc(s, "%Y-%m-%d"@)
    } else if parse_date_utc(s, "%Y-%m-%d"@) is Some {
        parse_date_utc(s, "%Y-%m-%d"@)
    } else if parse_datetime_utc(s, "%Y-%m-%d %H:%M:%S"@) is Some {
        parse_datetime_utc(s, "%Y-%m-%d %H:%M:%S"@)
    } else if parse_date_utc(s, "%Y-%m-%d %H:%M:%S"@) is Some {
        parse_date_utc(s, "%Y-%m-%d %H:%M:%S"@)
    } else if parse_datetime_utc(s, "%Y-%m-%dT%H:%M:%S"@) is Some {
        parse_datetime_utc(s, "%Y-%m-%dT%H:%M:%S"@)
    } else if parse_date_utc(s, "%Y-%m-%dT%H:%M:%S"@) is Some {
        parse_date_utc(s, "%Y-%m-%dT%H:%M:%S"@)
    } else if parse_datetime_utc(s, "%Y-%m-%dT%H:%M:%SZ"@) is Some {
        parse_datetime_utc(s, "%Y-%m-%dT%H:%M:%SZ"@)
    } else if parse_date_utc(s, "%Y-%m-%dT%H:%M:%SZ"@) is Some {
        parse_date_utc(s, "%Y-%m-%dT%H:%M:%SZ"@)
    } else if parse_datetime_utc(s, "%Y-%m-%dT%H:%M:%S%.fZ"@) is Some {
        parse_datetime_utc(s, "%Y-%m-%dT%H:%M:%S%.fZ"@)
    } else if parse_date_utc(s, "%Y-%m-%dT%H:%M:%S%.fZ"@) is Some {
        parse_date_utc(s, "%Y-%m-%dT%H:%M:%S%.fZ"@)
    } else {
        parse_rfc3339_utc(s)
    }
}

/// Parses a date string against the accepted formats, yielding Unix
/// seconds; a bare date counts from midnight UTC.
pub fn parse_date_string(date_str: &str) -> (r: Option<i64>)
    ensures
        r == spec_parse_date(date_str@),
{
    if let Some(t) = parse_datetime_str(date_str, "%Y-%m-%d") {
        return Some(t);
    }
    if let Some(t) = parse_date_str(date_str, "%Y-%m-%d") {
        return Some(t);
    }
    if let Some(t) = parse_datetime_str(date_str, "%Y-%m-%d %H:%M:%S") {
        return Some(t);
    }
    if let Some(t) = parse_date_str(date_str, "%Y-%m-%d %H:%M:%S") {
        return Some(t);
    }
    if let Some(t) = parse_datetime_str(date_str, "%Y-%m-%dT%H:%M:%S") {
        return Some(t);
    }
    if let Some(t) = parse_date_str(date_str, "%Y-%m-%dT%H:%M:%S") {
        return Some(t);
    }
    if let Some(t) = parse_datetime_str(date_str, "%Y-%m-%dT%H:%M:%SZ") {
        return Some(t);
    }
    if let Some(t) = parse_date_str(date_str, "%Y-%m-%dT%H:%M:%SZ") {
        return Some(t);
    }
    if let Some(t) = parse_datetime_str(date_str, "%Y-%m-%dT%H:%M:%S%.fZ") {
        return Some(t);
    }
    if let Some(t) = parse_date_str(date_str, "%Y-%m-%dT%H:%M:%S%.fZ") {
        return Some(t);
    }
    parse_rfc3339_str(date_str)
}

} // verus!
