//! Calendar dates and instants, held as plain numbers.
//!
//! The clock and the text forms come from `chrono`; the library keeps a date
//! as year, month and day, and an instant as seconds and nanoseconds since
//! the Unix epoch (UTC).

use vstd::prelude::*;
use chrono::Datelike;

verus! {

/// Earliest year a date can hold.
pub const MIN_YEAR: i32 = -262143;

/// Latest year a date can hold.
pub const MAX_YEAR: i32 = 262142;

/// Leap years of the proleptic Gregorian calendar.
pub open spec fn is_leap_year(y: int) -> bool {
    (y % 4 == 0 && y % 100 != 0) || y % 400 == 0
}

pub open spec fn days_in_month(y: int, m: int) -> int {
    if m == 2 {
        if is_leap_year(y) {
            29
        } else {
            28
        }
    } else if m == 4 || m == 6 || m == 9 || m == 11 {
        30
    } else {
        31
    }
}

/// A calendar date (no time zone).
#[derive(Clone, Copy, Debug, PartialEq, Eq, Structural)]
pub struct Date {
    pub year: i32,
    pub month: u32,
    pub day: u32,
}

impl Date {
    /// A real day of the calendar, within the supported years.
    pub open spec fn wf(self) -> bool {
        &&& MIN_YEAR <= self.year <= MAX_YEAR
        &&& 1 <= self.month <= 12
        &&& 1 <= self.day <= days_in_month(self.year as int, self.month as int)
    }

    /// The date with the given parts, where they name a real day.
    pub fn from_ymd(year: i32, month: u32, day: u32) -> (r: Option<Date>)
        ensures
            r is Some <==> (Date { year, month, day }).wf(),
            r matches Some(d) ==> d == (Date { year, month, day }),
    {
        if year < MIN_YEAR || year > MAX_YEAR || month < 1 || month > 12 || day < 1 {
            return None;
        }
        let leap = (year % 4 == 0 && year % 100 != 0) || year % 400 == 0;
        let last: u32 = if month == 2 {
            if leap {
                29
            } else {
                28
            }
        } else if month == 4 || month == 6 || month == 9 || month == 11 {
            30
        } else {
            31
        };
        if day > last {
            None
        } else {
            Some(Date { year, month, day })
        }
    }
}

/// An instant: seconds and nanoseconds since 1970-01-01T00:00:00Z.
#[derive(Clone, Copy, Debug, PartialEq, Eq, Structural)]
pub struct Timestamp {
    pub secs: i64,
    pub nanos: u32,
}

/// The `YYYY-MM-DD` text `chrono` writes for a date.
pub uninterp spec fn iso_date_text(d: Date) -> Seq<char>;

/// The date `chrono` reads from `YYYY-MM-DD` text, where it reads one.
pub uninterp spec fn parsed_iso_date(s: Seq<char>) -> Option<Date>;

/// The RFC 3339 text `chrono` writes for an instant.
pub uninterp spec fn rfc3339_text(t: Timestamp) -> Seq<char>;

/// The instant `chrono` reads from RFC 3339 text, where it reads one.
pub uninterp spec fn parsed_rfc3339(s: Seq<char>) -> Option<Timestamp>;

/// The UTC calendar date `chrono` gives for an instant, where it is in range.
pub uninterp spec fn utc_date_of(t: Timestamp) -> Option<Date>;

/// Relies on chrono's `Utc::now`: the current instant. chrono builds it with
/// `DateTime::from_timestamp`, and its seconds and nanoseconds convert back
/// the same way, so it always has a UTC date.
#[verifier::external_body]
pub fn now() -> (r: Timestamp)
    ensures
        utc_date_of(r) is Some,
{
    let t = chrono::Utc::now();
    Timestamp { secs: t.timestamp(), nanos: t.timestamp_subsec_nanos() }
}

/// Relies on chrono's `DateTime::from_timestamp` and `date_naive`: the UTC
/// date of an instant, `None` out of chrono's range; a date chrono gives is
/// always a real calendar day in its range.
#[verifier::external_body]
pub(crate) fn utc_date(t: &Timestamp) -> (r: Option<Date>)
    ensures
        r == utc_date_of(*t),
        r matches Some(d) ==> d.wf(),
{
    match chrono::DateTime::from_timestamp(t.secs, t.nanos) {
        Some(dt) => {
            let d = dt.date_naive();
            Some(Date { year: d.year(), month: d.month(), day: d.day() })
        },
        None => None,
    }
}

/// The current instant with its UTC date, from one reading of the clock.
pub fn now_with_date() -> (r: (Timestamp, Date))
    ensures
        utc_date_of(r.0) == Some(r.1),
        r.1.wf(),
{
    let t = now();
    match utc_date(&t) {
        Some(d) => (t, d),
        None => (t, Date { year: 1970, month: 1, day: 1 }),
    }
}

/// Today's date in UTC.
pub fn today() -> (r: Date)
    ensures
        r.wf(),
        exists|t: Timestamp| utc_date_of(t) == Some(r),
{
    let (_, d) = now_with_date();
    d
}

/// Relies on chrono's `NaiveDate::parse_from_str` with `%Y-%m-%d`.
#[verifier::external_body]
pub fn parse_date(date_str: &str) -> (r: Result<Date, String>)
    ensures
        r is Ok <==> parsed_iso_date(date_str@) is Some,
        r matches Ok(d) ==> parsed_iso_date(date_str@) == Some(d) && d.wf(),
{
    match chrono::NaiveDate::parse_from_str(date_str, "%Y-%m-%d") {
        Ok(d) => Ok(Date { year: d.year(), month: d.month(), day: d.day() }),
        Err(e) => Err(format!("Invalid date format: {}", e)),
    }
}

/// Relies on chrono's `NaiveDate::format` with `%Y-%m-%d`.
#[verifier::external_body]
pub fn format_date(date: &Date) -> (r: String)
    requires
        date.wf(),
    ensures
        r@ == iso_date_text(*date),
{
    match chrono::NaiveDate::from_ymd_opt(date.year, date.month, date.day) {
        Some(d) => d.format("%Y-%m-%d").to_string(),
        None => String::new(),
    }
}

/// Relies on chrono's `DateTime::<Utc>::to_rfc3339`.
#[verifier::external_body]
pub fn format_timestamp(timestamp: &Timestamp) -> (r: String)
    ensures
        r@ == rfc3339_text(*timestamp),
{
    match chrono::DateTime::from_timestamp(timestamp.secs, timestamp.nanos) {
        Some(t) => t.to_rfc3339(),
        None => String::new(),
    }
}

/// Relies on chrono's `DateTime::parse_from_rfc3339`, read as UTC.
#[verifier::external_body]
pub(crate) fn parse_timestamp(text: &str) -> (r: Result<Timestamp, String>)
    ensures
        r is Ok <==> parsed_rfc3339(text@) is Some,
        r matches Ok(t) ==> parsed_rfc3339(text@) == Some(t),
{
    match chrono::DateTime::parse_from_rfc3339(text) {
        Ok(t) => Ok(Timestamp { secs: t.timestamp(), nanos: t.timestamp_subsec_nanos() }),
        Err(e) => Err(format!("Invalid timestamp format: {}", e)),
    }
}

} // verus!
