//! Reading the dates and date times of the API's replies, in the formats its endpoints use.
use vstd::prelude::*;

use chrono::{Datelike, Timelike};

use crate::date::{valid_date, NaiveDate, NaiveDateTime};
use crate::decode::{FieldError, FieldErrorView};

verus! {

/// A year, month, day, hour, minute, second and nanosecond.
pub type DateTimeParts = (i32, u32, u32, u32, u32, u32, u32);

/// The parts of a date time as integers.
pub open spec fn parts_view(p: DateTimeParts) -> (int, int, int, int, int, int, int) {
    (p.0 as int, p.1 as int, p.2 as int, p.3 as int, p.4 as int, p.5 as int, p.6 as int)
}

/// Whether parts name a date of the supported years and a time of day with a second from 0 to
/// 59 and a nanosecond below 2,000,000,000 (a leap second being second 59 with a nanosecond of
/// 1,000,000,000 or more).
pub open spec fn valid_parts(p: DateTimeParts) -> bool {
    &&& valid_date(p.0 as int, p.1 as int, p.2 as int)
    &&& p.3 < 24
    &&& p.4 < 60
    &&& p.5 < 60
    &&& p.6 < 2_000_000_000
}

/// What `chrono::NaiveDateTime::parse_from_str` gives for a text and a format: the parts of
/// the date time it reads, or `None` where it refuses the text.
pub uninterp spec fn chrono_naive_parse(s: Seq<char>, format: Seq<char>) -> Option<(int, int, int, int, int, int, int)>;

/// What `chrono::DateTime::parse_from_str` gives for a text and a format, taken in UTC: the
/// parts of the date time it reads, or `None` where it refuses the text.
pub uninterp spec fn chrono_zoned_parse(s: Seq<char>, format: Seq<char>) -> Option<(int, int, int, int, int, int, int)>;

/// What `chrono::NaiveDate::parse_from_str` gives for a text and a format: the year, month and
/// day of the date it reads, or `None` where it refuses the text.
pub uninterp spec fn chrono_date_parse(s: Seq<char>, format: Seq<char>) -> Option<(int, int, int)>;

/// What chrono's `FromStr` for `DateTime<Utc>` gives for a text, a relaxed RFC 3339 date time
/// taken in UTC: the parts of the instant it reads, or `None` where it refuses the text.
pub uninterp spec fn chrono_rfc3339_utc_parse(s: Seq<char>) -> Option<(int, int, int, int, int, int, int)>;

/// Parses a date with `chrono::NaiveDate::parse_from_str`.
///
/// Claims that the year, month and day are those chrono read, and name a date of chrono's
/// supported years. The text of chrono's error is returned as chrono displays it; nothing is
/// claimed of it.
#[verifier::external_body]
fn date_parse(s: &str, format: &str) -> (r: Result<(i32, u32, u32), String>)
    ensures
        match chrono_date_parse(s@, format@) {
            Some(t) => r matches Ok(p) && (p.0 as int, p.1 as int, p.2 as int) == t && valid_date(
                p.0 as int,
                p.1 as int,
                p.2 as int,
            ),
            None => r is Err,
        },
{
    match chrono::NaiveDate::parse_from_str(s, format) {
        Ok(d) => Ok((d.year(), d.month(), d.day())),
        Err(e) => Err(format!("{}", e)),
    }
}

/// Parses a date time without a zone with `chrono::NaiveDateTime::parse_from_str`.
///
/// Claims that the parts are those chrono read, whose date lies in chrono's supported years
/// and whose hour, minute, second and nanosecond are in range (`Timelike::second` is 0 to 59,
/// and `Timelike::nanosecond` below 2,000,000,000, a leap second being kept in the
/// nanoseconds). The text of chrono's error is returned as chrono displays it; nothing is
/// claimed of it.
#[verifier::external_body]
fn naive_parse(s: &str, format: &str) -> (r: Result<DateTimeParts, String>)
    ensures
        match chrono_naive_parse(s@, format@) {
            Some(t) => r matches Ok(p) && parts_view(p) == t && valid_parts(p),
            None => r is Err,
        },
{
    match chrono::NaiveDateTime::parse_from_str(s, format) {
        Ok(d) => Ok((d.year(), d.month(), d.day(), d.hour(), d.minute(), d.second(), d.nanosecond())),
        Err(e) => Err(format!("{}", e)),
    }
}

/// Parses a date time with a zone with `chrono::DateTime::parse_from_str`, and takes it in
/// UTC.
///
/// Claims that the parts are those of the instant chrono read, in UTC, within chrono's
/// supported years and with the hour, minute, second and nanosecond in range. The text of
/// chrono's error is returned as chrono displays it; nothing is claimed of it.
#[verifier::external_body]
fn zoned_parse(s: &str, format: &str) -> (r: Result<DateTimeParts, String>)
    ensures
        match chrono_zoned_parse(s@, format@) {
            Some(t) => r matches Ok(p) && parts_view(p) == t && valid_parts(p),
            None => r is Err,
        },
{
    match chrono::DateTime::parse_from_str(s, format) {
        Ok(z) => {
            let d = z.naive_utc();
            Ok((d.year(), d.month(), d.day(), d.hour(), d.minute(), d.second(), d.nanosecond()))
        },
        Err(e) => Err(format!("{}", e)),
    }
}

/// Whether a date time has these parts.
pub open spec fn has_parts(d: NaiveDateTime, t: (int, int, int, int, int, int, int)) -> bool {
    &&& d.date_of().year_of() == t.0
    &&& d.date_of().month_of() == t.1
    &&& d.date_of().day_of() == t.2
    &&& d.hour_of() == t.3
    &&& d.minute_of() == t.4
    &&& d.second_of() == t.5
    &&& d.nanosecond_of() == t.6
}

/// The date time of parts that are in range; never `None`.
fn from_parts(p: DateTimeParts) -> (r: Option<NaiveDateTime>)
    requires
        valid_parts(p),
    ensures
        r matches Some(d) && has_parts(d, parts_view(p)),
{
    match NaiveDate::from_ymd_opt(p.0, p.1, p.2) {
        Some(date) => date.and_hms_nano_opt(p.3, p.4, p.5, p.6),
        None => None,
    }
}

/// The result of reading a date time with one of chrono's parsers and formats.
pub open spec fn date_time_outcome(
    parsed: Option<(int, int, int, int, int, int, int)>,
    r: Result<NaiveDateTime, FieldError>,
) -> bool {
    match parsed {
        Some(t) => r matches Ok(d) && has_parts(d, t),
        None => r matches Err(e) && e@ is Custom,
    }
}

/// Parses a date time in chrono's relaxed RFC 3339 form with `FromStr` for
/// `chrono::DateTime<chrono::Utc>`, which takes it in UTC.
///
/// Claims that the parts are those of the instant chrono read, in UTC, within chrono's
/// supported years and with the hour, minute, second and nanosecond in range. The text of
/// chrono's error is returned as chrono displays it; nothing is claimed of it.
#[verifier::external_body]
fn rfc3339_utc_parse(s: &str) -> (r: Result<DateTimeParts, String>)
    ensures
        match chrono_rfc3339_utc_parse(s@) {
            Some(t) => r matches Ok(p) && parts_view(p) == t && valid_parts(p),
            None => r is Err,
        },
{
    match s.parse::<chrono::DateTime<chrono::Utc>>() {
        Ok(z) => {
            let d = z.naive_utc();
            Ok((d.year(), d.month(), d.day(), d.hour(), d.minute(), d.second(), d.nanosecond()))
        },
        Err(e) => Err(format!("{}", e)),
    }
}

/// Reads a date time in RFC 3339 form, such as `2024-07-22T16:33:30-05:00` or
/// `2024-07-22T21:33:30Z`, and takes it in UTC: the format of thread post and edit dates.
pub fn parse_date_time_rfc3339(s: &str) -> (r: Result<NaiveDateTime, FieldError>)
    ensures
        date_time_outcome(chrono_rfc3339_utc_parse(s@), r),
{
    match rfc3339_utc_parse(s) {
        Ok(p) => match from_parts(p) {
            Some(d) => Ok(d),
            // Never taken: parts that chrono gives are always in range.
            None => Err(FieldError::Custom(String::new())),
        },
        Err(m) => Err(FieldError::Custom(m)),
    }
}

/// Reads a date time as `2024-04-13 18:29:01`, the format of collection statuses.
pub fn parse_date_time(s: &str) -> (r: Result<NaiveDateTime, FieldError>)
    ensures
        date_time_outcome(chrono_naive_parse(s@, "%Y-%m-%d %H:%M:%S"@), r),
{
    match naive_parse(s, "%Y-%m-%d %H:%M:%S") {
        Ok(p) => match from_parts(p) {
            Some(d) => Ok(d),
            // Never taken: parts that chrono gives are always in range.
            None => Err(FieldError::Custom(String::new())),
        },
        Err(m) => Err(FieldError::Custom(m)),
    }
}

/// Reads a date time with a zone as `2024-07-22T16:33:30-05:00`, the format of video post
/// dates, and takes it in UTC.
pub fn parse_date_time_with_zone(s: &str) -> (r: Result<NaiveDateTime, FieldError>)
    ensures
        date_time_outcome(chrono_zoned_parse(s@, "%Y-%m-%dT%H:%M:%S%:z"@), r),
{
    match zoned_parse(s, "%Y-%m-%dT%H:%M:%S%:z") {
        Ok(p) => match from_parts(p) {
            Some(d) => Ok(d),
            // Never taken: parts that chrono gives are always in range.
            None => Err(FieldError::Custom(String::new())),
        },
        Err(m) => Err(FieldError::Custom(m)),
    }
}

/// Reads a date time with a zone as `Thu, 14 Jun 2007 01:06:46 +0000`, the format of listing
/// and guild dates, and takes it in UTC.
pub fn parse_date_time_long(s: &str) -> (r: Result<NaiveDateTime, FieldError>)
    ensures
        date_time_outcome(chrono_zoned_parse(s@, "%a, %d %B %Y %H:%M:%S %z"@), r),
{
    match zoned_parse(s, "%a, %d %B %Y %H:%M:%S %z") {
        Ok(p) => match from_parts(p) {
            Some(d) => Ok(d),
            // Never taken: parts that chrono gives are always in range.
            None => Err(FieldError::Custom(String::new())),
        },
        Err(m) => Err(FieldError::Custom(m)),
    }
}

/// Reads an optional date time with a zone as `Thu, 14 Jun 2007 01:06:46 +0000`, taken in UTC:
/// an empty text is none, the format of a forum's last post date.
pub fn parse_maybe_date_time_long(s: &str) -> (r: Result<Option<NaiveDateTime>, FieldError>)
    ensures
        s@.len() == 0 ==> r == Ok::<Option<NaiveDateTime>, FieldError>(None),
        s@.len() > 0 ==> match chrono_zoned_parse(s@, "%a, %d %B %Y %H:%M:%S %z"@) {
            Some(t) => r matches Ok(Some(d)) && has_parts(d, t),
            None => r matches Err(e) && e@ is Custom,
        },
{
    if s.unicode_len() == 0 {
        return Ok(None);
    }
    match parse_date_time_long(s) {
        Ok(d) => Ok(Some(d)),
        Err(e) => Err(e),
    }
}

/// Reads a date time as `Thu, 14 Jun 2007 01:06:46 +0000` as it is written, the zone read and
/// set aside, the format of guild dates.
pub fn parse_date_time_long_local(s: &str) -> (r: Result<NaiveDateTime, FieldError>)
    ensures
        date_time_outcome(chrono_naive_parse(s@, "%a, %d %B %Y %H:%M:%S %z"@), r),
{
    match naive_parse(s, "%a, %d %B %Y %H:%M:%S %z") {
        Ok(p) => match from_parts(p) {
            Some(d) => Ok(d),
            // Never taken: parts that chrono gives are always in range.
            None => Err(FieldError::Custom(String::new())),
        },
        Err(m) => Err(FieldError::Custom(m)),
    }
}

/// Reads a date as `2024-04-13`, the format of a user's last login and of plays.
pub fn parse_date(s: &str) -> (r: Result<NaiveDate, FieldError>)
    ensures
        match chrono_date_parse(s@, "%Y-%m-%d"@) {
            Some(t) => r matches Ok(d) && d.year_of() == t.0 && d.month_of() == t.1 && d.day_of() == t.2,
            None => r matches Err(e) && e@ is Custom,
        },
{
    match date_parse(s, "%Y-%m-%d") {
        Ok(p) => match NaiveDate::from_ymd_opt(p.0, p.1, p.2) {
            Some(d) => Ok(d),
            // Never taken: the dates that chrono gives are always valid.
            None => Err(FieldError::Custom(String::new())),
        },
        Err(m) => Err(FieldError::Custom(m)),
    }
}

} // verus!
