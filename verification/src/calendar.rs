//! Writing points in time as text.

use vstd::prelude::*;

verus! {

/// The time format of listing rows: date, hour and minute.
pub const MINUTES_FORMAT: &'static str = "%Y-%m-%d %H:%M";

/// The time format of file details: date and time to the second.
pub const SECONDS_FORMAT: &'static str = "%Y-%m-%d %H:%M:%S";

/// The time format of key files: date and time to the second, marked as
/// UTC.
pub const STAMP_FORMAT: &'static str = "%Y-%m-%d %H:%M:%S UTC";

/// Whether `format` is one of the formats of this module.
pub open spec fn is_known_format(format: Seq<char>) -> bool {
    format == MINUTES_FORMAT@ || format == SECONDS_FORMAT@ || format == STAMP_FORMAT@
}

/// What chrono writes for the moment `secs` seconds after the start of
/// 1970 UTC under the format `format`; `None` where the moment lies outside
/// the years that chrono can hold.
pub uninterp spec fn utc_text(secs: i64, format: Seq<char>) -> Option<Seq<char>>;

/// Calls `chrono::DateTime::from_timestamp` with `secs` and no nanoseconds,
/// and writes what it gives with `DateTime::format`. The result depends on
/// the two arguments alone. Writing fails on a format string that chrono
/// cannot parse, so only the formats of this module are let in.
#[verifier::external_body]
pub(crate) fn format_utc(secs: i64, format: &str) -> (text: Option<String>)
    requires
        is_known_format(format@),
    ensures
        match text {
            Some(written) => utc_text(secs, format@) == Some(written@),
            None => utc_text(secs, format@) is None,
        },
{
    match chrono::DateTime::from_timestamp(secs, 0) {
        Some(moment) => Some(moment.format(format).to_string()),
        None => None,
    }
}

/// The moment `secs` seconds after the start of 1970 UTC, written as date
/// and time with the mark `UTC`; `unknown` where the calendar cannot hold
/// it.
pub fn timestamp_text(secs: i64) -> (text: String)
    ensures
        text@ == match utc_text(secs, STAMP_FORMAT@) {
            Some(written) => written,
            None => "unknown"@,
        },
{
    match format_utc(secs, STAMP_FORMAT) {
        Some(written) => written,
        None => "unknown".to_string(),
    }
}

} // verus!
