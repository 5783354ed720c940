//! Calendar dates as plain year, month and day, with the calendar work done
//! by `chrono`.

use vstd::prelude::*;
use chrono::Datelike;

verus! {

/// Day-first pattern used for dates typed by the user and shown to them.
pub const DAY_FIRST: &'static str = "%d.%m.%Y";

/// Year-first pattern used by forecast entries.
pub const YEAR_FIRST: &'static str = "%Y-%m-%d";

#[verifier::external_type_specification]
#[verifier::external_body]
pub struct ExParseError(chrono::ParseError);

/// A day of the proleptic Gregorian calendar.
#[derive(Clone, Copy, Debug, PartialEq, Eq, Structural)]
pub struct Date {
    pub year: i32,
    pub month: u32,
    pub day: u32,
}

/// Whether `year` has a 29th of February.
pub open spec fn is_leap_year(year: int) -> bool {
    year % 4 == 0 && (year % 100 != 0 || year % 400 == 0)
}

/// Number of days of `month` in `year`; 0 where `month` is no month.
pub open spec fn days_in_month(year: int, month: int) -> int {
    if month == 2 {
        if is_leap_year(year) { 29 } else { 28 }
    } else if month == 4 || month == 6 || month == 9 || month == 11 {
        30
    } else if 1 <= month <= 12 {
        31
    } else {
        0
    }
}

/// Number of whole days from `earlier` to `later`, negative where `later`
/// comes first: what `chrono` computes for the two days.
pub uninterp spec fn day_span(later: Date, earlier: Date) -> int;

/// Text of `date` under a `strftime` pattern, as `chrono` renders it.
pub uninterp spec fn date_text(date: Date, pattern: Seq<char>) -> Seq<char>;

/// The day that `chrono` reads out of `text` under `pattern`, if it reads one.
pub uninterp spec fn parsed_date(text: Seq<char>, pattern: Seq<char>) -> Option<Date>;

/// The UTC day that holds the instant `millis` milliseconds after the Unix
/// epoch, where `chrono` can represent it.
pub uninterp spec fn date_at_millis(millis: int) -> Option<Date>;

impl Date {
    /// The days that exist and that `chrono` can represent.
    pub open spec fn is_valid(self) -> bool {
        &&& -262143 <= self.year <= 262142
        &&& 1 <= self.month <= 12
        &&& 1 <= self.day <= days_in_month(self.year as int, self.month as int)
    }

    /// Calendar order: by year, then month, then day.
    pub open spec fn precedes(self, other: Date) -> bool {
        self.year < other.year || (self.year == other.year && (self.month < other.month || (
        self.month == other.month && self.day < other.day)))
    }

    /// The day `year`-`month`-`day`, where there is such a day.
    pub fn new(year: i32, month: u32, day: u32) -> (result: Option<Date>)
        ensures
            result == (if (Date { year, month, day }).is_valid() {
                Some(Date { year, month, day })
            } else {
                None::<Date>
            }),
    {
        if year < -262143 || year > 262142 || month < 1 || month > 12 || day < 1 {
            return None;
        }
        let leap: bool = year % 4 == 0 && (year % 100 != 0 || year % 400 == 0);
        let length: u32 = if month == 2 {
            if leap { 29 } else { 28 }
        } else if month == 4 || month == 6 || month == 9 || month == 11 {
            30
        } else {
            31
        };
        if day > length {
            return None;
        }
        Some(Date { year, month, day })
    }

    /// Whether this day comes strictly before `other`.
    pub fn is_before(&self, other: &Date) -> (result: bool)
        ensures
            result == self.precedes(*other),
    {
        self.year < other.year || (self.year == other.year && (self.month < other.month || (
        self.month == other.month && self.day < other.day)))
    }
}

/// `NaiveDate::signed_duration_since` followed by `TimeDelta::num_days`: the
/// result is the number of days between the two calendar days, which this
/// library calls `day_span`.
#[verifier::external_body]
pub(crate) fn days_between(later: &Date, earlier: &Date) -> (days: i64)
    requires
        later.is_valid(),
        earlier.is_valid(),
    ensures
        days == day_span(*later, *earlier),
{
    let a = chrono::NaiveDate::from_ymd_opt(later.year, later.month, later.day).unwrap_or_default();
    let b = chrono::NaiveDate::from_ymd_opt(earlier.year, earlier.month, earlier.day)
        .unwrap_or_default();
    a.signed_duration_since(b).num_days()
}

/// `NaiveDate::format` rendered to a string, for the two patterns that this
/// library uses: the result is the text that it calls `date_text`.
#[verifier::external_body]
pub(crate) fn format_date(date: &Date, pattern: &str) -> (text: String)
    requires
        date.is_valid(),
        pattern@ == DAY_FIRST@ || pattern@ == YEAR_FIRST@,
    ensures
        text@ == date_text(*date, pattern@),
{
    let day = chrono::NaiveDate::from_ymd_opt(date.year, date.month, date.day).unwrap_or_default();
    day.format(pattern).to_string()
}

/// `NaiveDate::parse_from_str`: on success the result is an existing day, the
/// one that this library calls `parsed_date`; on failure there is none.
#[verifier::external_body]
pub(crate) fn parse_date(text: &str, pattern: &str) -> (result: Result<Date, chrono::ParseError>)
    ensures
        match result {
            Ok(date) => parsed_date(text@, pattern@) == Some(date) && date.is_valid(),
            Err(_) => parsed_date(text@, pattern@).is_none(),
        },
{
    match chrono::NaiveDate::parse_from_str(text, pattern) {
        Ok(day) => Ok(Date { year: day.year(), month: day.month(), day: day.day() }),
        Err(error) => Err(error),
    }
}

/// `DateTime::from_timestamp_millis` followed by `DateTime::naive_utc` and
/// `NaiveDateTime::date`: the UTC day of an instant given in milliseconds
/// since the Unix epoch, an existing day, or nothing where the instant is
/// out of range.
#[verifier::external_body]
pub(crate) fn date_of_millis(millis: i64) -> (result: Option<Date>)
    ensures
        result == date_at_millis(millis as int),
        result matches Some(date) ==> date.is_valid(),
{
    match chrono::DateTime::from_timestamp_millis(millis) {
        Some(instant) => {
            let day = instant.naive_utc().date();
            Some(Date { year: day.year(), month: day.month(), day: day.day() })
        },
        None => None,
    }
}

} // verus!
