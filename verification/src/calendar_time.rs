use vstd::prelude::*;

use chrono::{Datelike, Timelike};

verus! {

/// A calendar date of the proleptic Gregorian calendar, as GTFS files write
/// them (`YYYYMMDD`).
#[derive(Debug, Clone, Copy, PartialEq, Eq, Structural)]
pub struct GtfsDate {
    pub year: i32,
    pub month: u32,
    pub day: u32,
}

/// A time of day, as GTFS files write them (`HH:MM:SS`). A leap second is
/// held as second 59 with a nanosecond part of at least one second.
#[derive(Debug, Clone, Copy, PartialEq, Eq, Structural)]
pub struct GtfsTime {
    pub hour: u32,
    pub minute: u32,
    pub second: u32,
    pub nanosecond: u32,
}

/// A point in time in UTC: whole seconds since the Unix epoch and the
/// nanoseconds past that second.
#[derive(Debug, Clone, Copy, PartialEq, Eq, Structural)]
pub struct UtcTimestamp {
    pub seconds: i64,
    pub subsec_nanos: u32,
}

pub open spec fn is_leap_year(year: int) -> bool {
    (year % 4 == 0 && year % 100 != 0) || year % 400 == 0
}

pub open spec fn days_in_month(year: int, month: int) -> int {
    if month == 2 {
        if is_leap_year(year) { 29 } else { 28 }
    } else if month == 4 || month == 6 || month == 9 || month == 11 {
        30
    } else {
        31
    }
}

impl GtfsDate {
    /// The date exists in the calendar.
    pub open spec fn is_valid(self) -> bool {
        &&& 1 <= self.month <= 12
        &&& 1 <= self.day <= days_in_month(self.year as int, self.month as int)
    }
}

impl GtfsTime {
    /// The fields describe a time of day (a leap second only at second 59).
    pub open spec fn is_valid(self) -> bool {
        &&& self.hour < 24
        &&& self.minute < 60
        &&& self.second < 60
        &&& self.nanosecond < 2_000_000_000
        &&& (self.nanosecond >= 1_000_000_000 ==> self.second == 59)
    }
}

pub open spec fn is_digit(c: char) -> bool {
    '0' <= c <= '9'
}

pub open spec fn digit_value(c: char) -> int {
    c as int - '0' as int
}

/// The number that two decimal digits starting at `at` spell.
pub open spec fn two_digits(s: Seq<char>, at: int) -> int {
    10 * digit_value(s[at]) + digit_value(s[at + 1])
}

/// The text is eight decimal digits, the compact form `YYYYMMDD`.
pub open spec fn is_compact_date_text(s: Seq<char>) -> bool {
    s.len() == 8 && forall|i: int| 0 <= i < 8 ==> is_digit(#[trigger] s[i])
}

/// The fields that a compact `YYYYMMDD` text spells, whether or not they
/// form a date.
pub open spec fn compact_date_fields(s: Seq<char>) -> GtfsDate {
    GtfsDate {
        year: (100 * two_digits(s, 0) + two_digits(s, 2)) as i32,
        month: two_digits(s, 4) as u32,
        day: two_digits(s, 6) as u32,
    }
}

/// The text starts with four decimal digits followed by a printable ASCII
/// character that is not a digit, such as the `-` of `YYYY-MM-DD`: the month
/// of a compact date cannot start there.
pub open spec fn breaks_after_year(s: Seq<char>) -> bool {
    &&& s.len() >= 5
    &&& forall|i: int| 0 <= i < 4 ==> is_digit(#[trigger] s[i])
    &&& '!' <= s[4] <= '~'
    &&& !is_digit(s[4])
}

/// What a compact `YYYYMMDD` text denotes: its date where the date exists.
pub open spec fn compact_date_meaning(s: Seq<char>) -> Option<GtfsDate> {
    let d = compact_date_fields(s);
    if d.is_valid() { Some(d) } else { None }
}

/// The text has the form `HH:MM:SS`, two decimal digits each.
pub open spec fn is_clock_text(s: Seq<char>) -> bool {
    &&& s.len() == 8
    &&& is_digit(s[0]) && is_digit(s[1])
    &&& s[2] == ':'
    &&& is_digit(s[3]) && is_digit(s[4])
    &&& s[5] == ':'
    &&& is_digit(s[6]) && is_digit(s[7])
}

/// The text has the form `H:MM:SS`: a one-digit hour, then two decimal
/// digits each for minutes and seconds.
pub open spec fn is_short_clock_text(s: Seq<char>) -> bool {
    &&& s.len() == 7
    &&& is_digit(s[0])
    &&& s[1] == ':'
    &&& is_digit(s[2]) && is_digit(s[3])
    &&& s[4] == ':'
    &&& is_digit(s[5]) && is_digit(s[6])
}

/// The time of day that hour `h`, minute `m` and second `sec` give: hours
/// up to 23, minutes up to 59 and seconds up to 60, the last being a leap
/// second.
pub open spec fn clock_fields_meaning(h: int, m: int, sec: int) -> Option<GtfsTime> {
    if h <= 23 && m <= 59 && sec <= 60 {
        Some(
            GtfsTime {
                hour: h as u32,
                minute: m as u32,
                second: if sec == 60 { 59 } else { sec as u32 },
                nanosecond: if sec == 60 { 1_000_000_000 } else { 0 },
            },
        )
    } else {
        None
    }
}

/// What an `HH:MM:SS` text denotes.
pub open spec fn clock_text_meaning(s: Seq<char>) -> Option<GtfsTime> {
    clock_fields_meaning(two_digits(s, 0), two_digits(s, 3), two_digits(s, 6))
}

/// What an `H:MM:SS` text denotes.
pub open spec fn short_clock_text_meaning(s: Seq<char>) -> Option<GtfsTime> {
    clock_fields_meaning(digit_value(s[0]), two_digits(s, 2), two_digits(s, 5))
}

/// A reading of the system clock: at or after the Unix epoch, with the
/// nanoseconds below one second.
pub open spec fn is_clock_reading(t: UtcTimestamp) -> bool {
    t.seconds >= 0 && t.subsec_nanos < 1_000_000_000
}

/// The date that `chrono::NaiveDate::parse_from_str(s, "%Y%m%d")` reads from
/// a text, by year, month and day; `None` where chrono refuses the text.
pub uninterp spec fn chrono_compact_date(s: Seq<char>) -> Option<GtfsDate>;

/// The time that `chrono::NaiveTime::parse_from_str(s, "%H:%M:%S")` reads
/// from a text, by hour, minute, second and nanosecond; `None` where chrono
/// refuses the text.
pub uninterp spec fn chrono_clock_time(s: Seq<char>) -> Option<GtfsTime>;

/// Calls `chrono::NaiveDate::parse_from_str(s, "%Y%m%d")` and keeps year,
/// month and day of the date it returns. Trusted: that the result is named
/// by `chrono_compact_date`; that a `NaiveDate` is a date of the calendar;
/// and, from chrono's scanner (at most four digits of year and two of month
/// and day, then no text may be left) and its date check, that on eight
/// decimal digits the result is the date they spell where it exists, else
/// `None`; and that four digits followed by a printable ASCII non-digit
/// (which the month scanner neither skips as space nor reads as a digit)
/// give `None`. On other texts (spaces, signs, shorter fields) nothing is
/// stated beyond the name and validity.
#[verifier::external_body]
pub(crate) fn parse_compact_date(s: &str) -> (date: Option<GtfsDate>)
    ensures
        date == chrono_compact_date(s@),
        date matches Some(d) ==> d.is_valid(),
        is_compact_date_text(s@) ==> date == compact_date_meaning(s@),
        breaks_after_year(s@) ==> date is None,
{
    match chrono::NaiveDate::parse_from_str(s, "%Y%m%d") {
        Ok(d) => Some(GtfsDate { year: d.year(), month: d.month(), day: d.day() }),
        Err(_) => None,
    }
}

/// Calls `chrono::NaiveTime::parse_from_str(s, "%H:%M:%S")` and keeps hour,
/// minute, second and nanosecond of the time it returns. Trusted: that the
/// result is named by `chrono_clock_time`; that a `NaiveTime` is a valid
/// time of day; and, from chrono's scanner and `Parsed::to_naive_time`, that
/// on an `HH:MM:SS` text the result is the time it spells where hours are at
/// most 23, minutes at most 59 and seconds at most 60 (60 read as a leap
/// second), else `None`; and the same of an `H:MM:SS` text, whose hour
/// field ends at the colon after one digit. On other texts nothing is
/// stated beyond the name and validity.
#[verifier::external_body]
pub(crate) fn parse_clock_time(s: &str) -> (time: Option<GtfsTime>)
    ensures
        time == chrono_clock_time(s@),
        time matches Some(t) ==> t.is_valid(),
        is_clock_text(s@) ==> time == clock_text_meaning(s@),
        is_short_clock_text(s@) ==> time == short_clock_text_meaning(s@),
{
    match chrono::NaiveTime::parse_from_str(s, "%H:%M:%S") {
        Ok(t) => Some(GtfsTime {
            hour: t.hour(),
            minute: t.minute(),
            second: t.second(),
            nanosecond: t.nanosecond(),
        }),
        Err(_) => None,
    }
}

/// Calls `chrono::Utc::now()` and keeps its seconds since the epoch and its
/// nanoseconds past the second. The clock decides the value; what holds of
/// every reading, from `Utc::now`'s source (a `Duration` since the epoch,
/// its whole seconds and its `subsec_nanos`), is that the seconds are not
/// negative and the nanoseconds are below one second.
#[verifier::external_body]
pub(crate) fn now() -> (t: UtcTimestamp)
    ensures
        is_clock_reading(t),
{
    let n = chrono::Utc::now();
    UtcTimestamp { seconds: n.timestamp(), subsec_nanos: n.timestamp_subsec_nanos() }
}

/// Reads an optional compact `YYYYMMDD` cell: a missing cell gives `None`,
/// a present one what chrono reads from it.
pub fn date_from_cell(cell: &Option<String>) -> (date: Option<GtfsDate>)
    ensures
        date == (match cell {
            Some(s) => chrono_compact_date(s@),
            None => None,
        }),
        date matches Some(d) ==> d.is_valid(),
        cell matches Some(s) ==> (is_compact_date_text(s@) ==> date == compact_date_meaning(s@)),
        cell matches Some(s) ==> (breaks_after_year(s@) ==> date is None),
        cell is None ==> date is None,
{
    match cell {
        Some(s) => parse_compact_date(s.as_str()),
        None => None,
    }
}

/// Reads an optional `HH:MM:SS` cell: a missing cell gives `None`, a
/// present one what chrono reads from it.
pub fn time_from_cell(cell: &Option<String>) -> (time: Option<GtfsTime>)
    ensures
        time == (match cell {
            Some(s) => chrono_clock_time(s@),
            None => None,
        }),
        time matches Some(t) ==> t.is_valid(),
        cell matches Some(s) ==> (is_clock_text(s@) ==> time == clock_text_meaning(s@)),
        cell matches Some(s) ==> (is_short_clock_text(s@) ==> time == short_clock_text_meaning(s@)),
        cell is None ==> time is None,
{
    match cell {
        Some(s) => parse_clock_time(s.as_str()),
        None => None,
    }
}

} // verus!
