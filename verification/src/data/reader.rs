//! One row of the input CSV and the reading of its timestamp.
use vstd::prelude::*;
use chrono::{DateTime, NaiveDate, NaiveDateTime};
use crate::indicators::fin::is_white_space;

verus! {

/// `chrono::NaiveDateTime`, carried through as an opaque value.
#[verifier::external_type_specification]
#[verifier::external_body]
pub struct ExNaiveDateTime(NaiveDateTime);

/// `chrono::NaiveDate`, carried through as an opaque value.
#[verifier::external_type_specification]
#[verifier::external_body]
pub struct ExNaiveDate(NaiveDate);

/// One input row: the timestamp text, then prices and volume as binary64 bit patterns.
pub struct CsvRow {
    pub timestamp: String,
    pub open: u64,
    pub high: u64,
    pub low: u64,
    pub close: u64,
    pub volume: u64,
}

/// `s` without its leading white space.
pub open spec fn strip_leading(s: Seq<char>) -> Seq<char>
    decreases s.len(),
{
    if s.len() > 0 && is_white_space(s[0]) {
        strip_leading(s.drop_first())
    } else {
        s
    }
}

/// `s` without its trailing white space.
pub open spec fn strip_trailing(s: Seq<char>) -> Seq<char>
    decreases s.len(),
{
    if s.len() > 0 && is_white_space(s.last()) {
        strip_trailing(s.drop_last())
    } else {
        s
    }
}

/// `str::trim`: `s` without leading and trailing white space.
pub open spec fn trimmed(s: Seq<char>) -> Seq<char> {
    strip_trailing(strip_leading(s))
}

/// `str::trim`: drops the leading and trailing characters with the Unicode
/// `White_Space` property.
#[verifier::external_body]
fn str_trim(s: &str) -> (r: &str)
    ensures
        r@ == trimmed(s@),
{
    s.trim()
}

/// What `NaiveDateTime::parse_from_str` reads from `s` with format `fmt`.
pub uninterp spec fn spec_parse_datetime(s: Seq<char>, fmt: Seq<char>) -> Option<NaiveDateTime>;

/// `NaiveDateTime::parse_from_str`, its error dropped.
#[verifier::external_body]
fn parse_datetime(s: &str, fmt: &str) -> (r: Option<NaiveDateTime>)
    ensures
        r == spec_parse_datetime(s@, fmt@),
{
    NaiveDateTime::parse_from_str(s, fmt).ok()
}

/// What `NaiveDate::parse_from_str` reads from `s` with format `fmt`.
pub uninterp spec fn spec_parse_date(s: Seq<char>, fmt: Seq<char>) -> Option<NaiveDate>;

/// `NaiveDate::parse_from_str`, its error dropped.
#[verifier::external_body]
fn parse_date(s: &str, fmt: &str) -> (r: Option<NaiveDate>)
    ensures
        r == spec_parse_date(s@, fmt@),
{
    NaiveDate::parse_from_str(s, fmt).ok()
}

/// What `NaiveDate::and_hms_opt` makes of a date and a time of day.
pub uninterp spec fn spec_and_hms(d: NaiveDate, hour: u32, min: u32, sec: u32) -> Option<NaiveDateTime>;

/// `NaiveDate::and_hms_opt`.
#[verifier::external_body]
fn date_and_hms(d: &NaiveDate, hour: u32, min: u32, sec: u32) -> (r: Option<NaiveDateTime>)
    ensures
        r == spec_and_hms(*d, hour, min, sec),
{
    d.and_hms_opt(hour, min, sec)
}

/// What `str::parse::<i64>` reads from `s`.
pub uninterp spec fn spec_parse_i64(s: Seq<char>) -> Option<i64>;

/// `str::parse::<i64>`, its error dropped.
#[verifier::external_body]
fn parse_i64(s: &str) -> (r: Option<i64>)
    ensures
        r == spec_parse_i64(s@),
{
    s.parse::<i64>().ok()
}

/// The naive UTC date-time that `DateTime::from_timestamp` gives for
/// seconds and nanoseconds since the epoch, when they are in range.
pub uninterp spec fn spec_from_unix(secs: i64, nsecs: u32) -> Option<NaiveDateTime>;

/// `DateTime::<Utc>::from_timestamp`, read through `naive_utc` (which
/// returns the date-time field of the UTC value).
#[verifier::external_body]
fn datetime_from_timestamp(secs: i64, nsecs: u32) -> (r: Option<NaiveDateTime>)
    ensures
        r == spec_from_unix(secs, nsecs),
{
    DateTime::from_timestamp(secs, nsecs).map(|dt| dt.naive_utc())
}

/// What `DateTime::timestamp_nanos_opt` gives for a naive date-time taken
/// as UTC: the nanoseconds since the epoch, when they fit in an `i64`.
pub uninterp spec fn spec_timestamp_nanos(dt: NaiveDateTime) -> Option<i64>;

/// `DateTime::<Utc>::timestamp_nanos_opt` of `dt.and_utc()` (which wraps the
/// date-time, unchanged, as a UTC value).
#[verifier::external_body]
fn timestamp_nanos_opt(dt: &NaiveDateTime) -> (r: Option<i64>)
    ensures
        r == spec_timestamp_nanos(*dt),
{
    dt.and_utc().timestamp_nanos_opt()
}

/// The date-time a timestamp text denotes: the first of these readings of
/// the trimmed text that succeeds — `%Y-%m-%d %H:%M:%S%.3f`,
/// `%Y-%m-%d %H:%M:%S`, `%Y-%m-%dT%H:%M:%S`, a `%Y-%m-%d` date at midnight,
/// a whole number of seconds since the epoch.
pub open spec fn spec_parse_timestamp(text: Seq<char>) -> Option<NaiveDateTime> {
    let s = trimmed(text);
    if spec_parse_datetime(s, "%Y-%m-%d %H:%M:%S%.3f"@) is Some {
        spec_parse_datetime(s, "%Y-%m-%d %H:%M:%S%.3f"@)
    } else if spec_parse_datetime(s, "%Y-%m-%d %H:%M:%S"@) is Some {
        spec_parse_datetime(s, "%Y-%m-%d %H:%M:%S"@)
    } else if spec_parse_datetime(s, "%Y-%m-%dT%H:%M:%S"@) is Some {
        spec_parse_datetime(s, "%Y-%m-%dT%H:%M:%S"@)
    } else if spec_parse_date(s, "%Y-%m-%d"@) is Some {
        spec_and_hms(spec_parse_date(s, "%Y-%m-%d"@)->0, 0, 0, 0)
    } else if spec_parse_i64(s) is Some {
        spec_from_unix(spec_parse_i64(s)->0, 0)
    } else {
        None
    }
}

/// The nanoseconds since the epoch of a parsed timestamp, 0 when there is
/// none or it does not fit in an `i64`.
pub open spec fn spec_timestamp_nanos_or_zero(dt: Option<NaiveDateTime>) -> i64 {
    match dt {
        Some(d) => match spec_timestamp_nanos(d) {
            Some(n) => n,
            None => 0,
        },
        None => 0,
    }
}

impl CsvRow {
    /// Reads the row's timestamp (see `spec_parse_timestamp`).
    pub fn parse_timestamp(&self) -> (r: Option<NaiveDateTime>)
        ensures
            r == spec_parse_timestamp(self.timestamp@),
    {
        let s = str_trim(self.timestamp.as_str());
        if let Some(v) = parse_datetime(s, "%Y-%m-%d %H:%M:%S%.3f") {
            return Some(v);
        }
        if let Some(v) = parse_datetime(s, "%Y-%m-%d %H:%M:%S") {
            return Some(v);
        }
        if let Some(v) = parse_datetime(s, "%Y-%m-%dT%H:%M:%S") {
            return Some(v);
        }
        if let Some(d) = parse_date(s, "%Y-%m-%d") {
            return date_and_hms(&d, 0, 0, 0);
        }
        if let Some(secs) = parse_i64(s) {
            return datetime_from_timestamp(secs, 0);
        }
        None
    }
}

/// The nanoseconds since the epoch the indicator engine is given for a
/// row's timestamp: 0 when it could not be read or does not fit.
pub fn timestamp_nanos_or_zero(dt: &Option<NaiveDateTime>) -> (r: i64)
    ensures
        r == spec_timestamp_nanos_or_zero(*dt),
{
    match dt {
        Some(d) => match timestamp_nanos_opt(d) {
            Some(n) => n,
            None => 0,
        },
        None => 0,
    }
}

} // verus!
