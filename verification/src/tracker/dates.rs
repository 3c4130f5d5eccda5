//! Dates and times of the log: the client's local timestamps, the collector's RFC 3339
//! timestamps, and how the tracker shows them.

use vstd::prelude::*;
use chrono::{Datelike, Timelike};
use chrono::format::ParseErrorKind;

verus! {

/// A date and time without time zone, as the fields of `chrono::NaiveDateTime` give it.
#[derive(Debug, Clone, Copy, PartialEq, Eq, Structural)]
pub struct NaiveDateTimeValue {
    pub year: i32,
    pub month: u32,
    pub day: u32,
    pub hour: u32,
    pub minute: u32,
    pub second: u32,
    pub nanosecond: u32,
}

/// What `chrono::NaiveDateTime::parse_from_str(s, fmt)` gives, field by field: chrono's
/// format grammar and calendar rules take pages to state, and the result depends on the two
/// texts alone.
pub uninterp spec fn chrono_naive_parse(s: Seq<char>, fmt: Seq<char>) -> Option<NaiveDateTimeValue>;

/// `chrono::NaiveDateTime::parse_from_str`: parses `s` with the strftime-like format `fmt`;
/// `None` when chrono reports a parse error. Only that the result is the one named by
/// `chrono_naive_parse` is claimed.
#[verifier::external_body]
pub(crate) fn parse_naive_date_time(s: &str, fmt: &str) -> (r: Option<NaiveDateTimeValue>)
    ensures
        r == chrono_naive_parse(s@, fmt@),
{
    match chrono::NaiveDateTime::parse_from_str(s, fmt) {
        Ok(d) => Some(
            NaiveDateTimeValue {
                year: d.year(),
                month: d.month(),
                day: d.day(),
                hour: d.hour(),
                minute: d.minute(),
                second: d.second(),
                nanosecond: d.nanosecond(),
            },
        ),
        Err(_) => None,
    }
}

/// The kinds of `chrono::format::ParseError`.
#[derive(Debug, Clone, Copy, PartialEq, Eq, Structural)]
pub enum DateParseErrorKind {
    OutOfRange,
    Impossible,
    NotEnough,
    Invalid,
    TooShort,
    TooLong,
    BadFormat,
}

/// The text chrono's `ParseError` displays for each kind.
pub open spec fn date_error_text(kind: DateParseErrorKind) -> Seq<char> {
    match kind {
        DateParseErrorKind::OutOfRange => "input is out of range"@,
        DateParseErrorKind::Impossible => "no possible date and time matching input"@,
        DateParseErrorKind::NotEnough => "input is not enough for unique date and time"@,
        DateParseErrorKind::Invalid => "input contains invalid characters"@,
        DateParseErrorKind::TooShort => "premature end of input"@,
        DateParseErrorKind::TooLong => "trailing input"@,
        DateParseErrorKind::BadFormat => "bad or unsupported format string"@,
    }
}

/// The text of a date parse error.
pub fn date_error_message(kind: DateParseErrorKind) -> (r: &'static str)
    ensures
        r@ == date_error_text(kind),
{
    match kind {
        DateParseErrorKind::OutOfRange => "input is out of range",
        DateParseErrorKind::Impossible => "no possible date and time matching input",
        DateParseErrorKind::NotEnough => "input is not enough for unique date and time",
        DateParseErrorKind::Invalid => "input contains invalid characters",
        DateParseErrorKind::TooShort => "premature end of input",
        DateParseErrorKind::TooLong => "trailing input",
        DateParseErrorKind::BadFormat => "bad or unsupported format string",
    }
}

/// What parsing `s` as an RFC 3339 timestamp with `chrono::DateTime::parse_from_rfc3339`, then
/// writing it with the format `%Y-%m-%d %H:%M:%S` in its own offset, gives: the text, or the
/// kind of the parse error. It depends on `s` alone.
pub uninterp spec fn chrono_rfc3339_friendly(s: Seq<char>) -> Result<Seq<char>, DateParseErrorKind>;

/// `chrono::DateTime::parse_from_rfc3339` followed by `format("%Y-%m-%d %H:%M:%S")`. Only that
/// the result is the one named by `chrono_rfc3339_friendly` is claimed.
#[verifier::external_body]
fn rfc3339_friendly(s: &str) -> (r: Result<String, DateParseErrorKind>)
    ensures
        match r {
            Ok(t) => chrono_rfc3339_friendly(s@) == Ok::<Seq<char>, DateParseErrorKind>(t@),
            Err(k) => chrono_rfc3339_friendly(s@) == Err::<Seq<char>, DateParseErrorKind>(k),
        },
{
    match chrono::DateTime::parse_from_rfc3339(s) {
        Ok(time) => Ok(time.format("%Y-%m-%d %H:%M:%S").to_string()),
        Err(e) => Err(
            match e.kind() {
                ParseErrorKind::OutOfRange => DateParseErrorKind::OutOfRange,
                ParseErrorKind::Impossible => DateParseErrorKind::Impossible,
                ParseErrorKind::NotEnough => DateParseErrorKind::NotEnough,
                ParseErrorKind::Invalid => DateParseErrorKind::Invalid,
                ParseErrorKind::TooShort => DateParseErrorKind::TooShort,
                ParseErrorKind::TooLong => DateParseErrorKind::TooLong,
                _ => DateParseErrorKind::BadFormat,
            },
        ),
    }
}

/// The timestamp shown to the user: `YYYY-MM-DD hh:mm:ss`, or `time conversion err: <reason>`
/// when the timestamp is not RFC 3339.
pub open spec fn friendly_time_text(timestamp: Seq<char>) -> Seq<char> {
    match chrono_rfc3339_friendly(timestamp) {
        Ok(t) => t,
        Err(k) => "time conversion err: "@ + date_error_text(k),
    }
}

/// The timestamp shown to the user.
pub fn friendly_time(timestamp: &str) -> (r: String)
    ensures
        r@ == friendly_time_text(timestamp@),
{
    match rfc3339_friendly(timestamp) {
        Ok(t) => t,
        Err(k) => {
            let mut m = String::from_str("time conversion err: ");
            m.append(date_error_message(k));
            m
        },
    }
}

/// The format of the client's local timestamps in the log.
pub const LOG_DATE_FORMAT: &'static str = "%Y. %m. %d. %H:%M:%S";

/// The format chrono reads as RFC 3339 (`%+`), which the collector's timestamps use.
pub const COLLECTOR_DATE_FORMAT: &'static str = "%+";

/// The date of a collector event, from its RFC 3339 timestamp: `None` when it is not one.
pub fn collector_event_date(timestamp: &str) -> (r: Option<NaiveDateTimeValue>)
    ensures
        r == chrono_naive_parse(timestamp@, COLLECTOR_DATE_FORMAT@),
{
    parse_naive_date_time(timestamp, COLLECTOR_DATE_FORMAT)
}

} // verus!
