//! Date-times without a time zone: the raw reading [`Civil`] and the checked
//! value [`DateTime`], with the order in which they follow each other.

use crate::error::CalendarError;
use chrono::{Datelike, NaiveDate, NaiveDateTime, Timelike};
use vstd::prelude::*;

verus! {

/// What chrono's parser of date-times without a zone makes of `text`: the
/// seven numbers of the date-time that it reads, or `None` where it rejects
/// the text.
pub uninterp spec fn parsed(text: Seq<char>) -> Option<Civil>;

/// The text that chrono writes for the date-time `moment` where it is shown
/// to a reader.
pub uninterp spec fn display_text(moment: Civil) -> Seq<char>;

/// The text that chrono writes for the date-time `moment` in the form that
/// its parser reads.
pub uninterp spec fn iso_text(moment: Civil) -> Seq<char>;

/// The earliest year a date-time may lie in.
pub const MIN_YEAR: i32 = -262_143;

/// The latest year a date-time may lie in.
pub const MAX_YEAR: i32 = 262_142;

/// Whether `year` of the proleptic Gregorian calendar has a 29th of February.
pub open spec fn is_leap_year(year: int) -> bool {
    year % 4 == 0 && (year % 100 != 0 || year % 400 == 0)
}

/// The number of days of `month` (1 to 12) in `year`.
pub open spec fn days_in_month(year: int, month: int) -> int {
    if month == 2 {
        if is_leap_year(year) {
            29
        } else {
            28
        }
    } else if month == 4 || month == 6 || month == 9 || month == 11 {
        30
    } else {
        31
    }
}

/// A date and a time of day written as seven numbers. Any seven numbers can
/// be written down; [`Civil::valid`] says which of them name a date-time.
///
/// A leap second is written as second 59 with a nanosecond part of
/// 1,000,000,000 or more.
#[derive(Debug, Clone, Copy, PartialEq, Eq)]
pub struct Civil {
    pub year: i32,
    pub month: u32,
    pub day: u32,
    pub hour: u32,
    pub minute: u32,
    pub second: u32,
    pub nanosecond: u32,
}

impl Civil {
    /// The seven numbers name a day that exists and a time of that day.
    pub open spec fn valid(self) -> bool {
        &&& MIN_YEAR <= self.year <= MAX_YEAR
        &&& 1 <= self.month <= 12
        &&& 1 <= self.day <= days_in_month(self.year as int, self.month as int)
        &&& self.hour < 24
        &&& self.minute < 60
        &&& self.second < 60
        &&& self.nanosecond < 2_000_000_000
        &&& (self.nanosecond >= 1_000_000_000 ==> self.second == 59)
    }

    /// `self` is earlier than `other`: the first of the seven numbers in which
    /// they differ, read from the year down, is smaller in `self`.
    pub open spec fn precedes(self, other: Civil) -> bool {
        if self.year != other.year {
            self.year < other.year
        } else if self.month != other.month {
            self.month < other.month
        } else if self.day != other.day {
            self.day < other.day
        } else if self.hour != other.hour {
            self.hour < other.hour
        } else if self.minute != other.minute {
            self.minute < other.minute
        } else if self.second != other.second {
            self.second < other.second
        } else {
            self.nanosecond < other.nanosecond
        }
    }

    /// `self` is `other` or earlier.
    pub open spec fn not_after(self, other: Civil) -> bool {
        self == other || self.precedes(other)
    }

    /// Both lie on the same day.
    pub open spec fn same_day(self, other: Civil) -> bool {
        self.year == other.year && self.month == other.month && self.day == other.day
    }

    /// Decides [`Civil::valid`].
    pub fn is_valid(&self) -> (r: bool)
        ensures
            r == self.valid(),
    {
        if self.year < MIN_YEAR || self.year > MAX_YEAR {
            return false;
        }
        if self.month < 1 || self.month > 12 || self.day < 1 {
            return false;
        }
        // 262,400 is a multiple of 400, so the shifted year is leap exactly
        // when the year is, and it is never negative.
        let shifted: i32 = self.year + 262_400;
        let leap: bool = shifted % 4 == 0 && (shifted % 100 != 0 || shifted % 400 == 0);
        let days: u32 = if self.month == 2 {
            if leap {
                29
            } else {
                28
            }
        } else if self.month == 4 || self.month == 6 || self.month == 9 || self.month == 11 {
            30
        } else {
            31
        };
        self.day <= days && self.hour < 24 && self.minute < 60 && self.second < 60
            && self.nanosecond < 2_000_000_000 && (self.nanosecond < 1_000_000_000 || self.second
            == 59)
    }
}

/// Whether a reading names a date-time: there is one, and it is valid.
pub open spec fn names_a_datetime(reading: Option<Civil>) -> bool {
    reading matches Some(civil) && civil.valid()
}

/// Hands `text` to chrono's `FromStr` for `NaiveDateTime` and takes the seven
/// numbers out of what it returns. Claimed of chrono: what comes back depends
/// on the text alone.
#[verifier::external_body]
fn read_with_chrono(text: &str) -> (reading: Option<Civil>)
    ensures
        reading == parsed(text@),
{
    match text.parse::<NaiveDateTime>() {
        Ok(t) => Some(
            Civil {
                year: t.year(),
                month: t.month(),
                day: t.day(),
                hour: t.hour(),
                minute: t.minute(),
                second: t.second(),
                nanosecond: t.nanosecond(),
            },
        ),
        Err(_) => None,
    }
}

/// Builds chrono's `NaiveDateTime` from the seven numbers, with
/// `NaiveDate::from_ymd_opt` and `and_hms_nano_opt`, and writes it with its
/// `Display`. Claimed of chrono: it takes every valid `Civil`, and the text
/// depends on the seven numbers alone.
#[verifier::external_body]
fn write_with_chrono(moment: Civil) -> (text: String)
    requires
        moment.valid(),
    ensures
        text@ == display_text(moment),
{
    let date = NaiveDate::from_ymd_opt(moment.year, moment.month, moment.day).unwrap();
    let time = date.and_hms_nano_opt(moment.hour, moment.minute, moment.second, moment.nanosecond);
    time.unwrap().to_string()
}

/// Builds chrono's `NaiveDateTime` from the seven numbers, as
/// `write_with_chrono` does, and writes it with its `Debug`, which is the form
/// with a `T` between date and time. Claimed of chrono: it takes every valid
/// `Civil`, and the text depends on the seven numbers alone.
#[verifier::external_body]
fn write_iso_with_chrono(moment: Civil) -> (text: String)
    requires
        moment.valid(),
    ensures
        text@ == iso_text(moment),
{
    let date = NaiveDate::from_ymd_opt(moment.year, moment.month, moment.day).unwrap();
    let time = date.and_hms_nano_opt(moment.hour, moment.minute, moment.second, moment.nanosecond);
    format!("{:?}", time.unwrap())
}

/// A date-time that exists: a [`Civil`] that is valid.
#[derive(Debug, Clone, Copy, PartialEq, Eq)]
pub struct DateTime {
    civil: Civil,
}

impl View for DateTime {
    type V = Civil;

    closed spec fn view(&self) -> Civil {
        self.civil
    }
}

impl DateTime {
    #[verifier::type_invariant]
    spec fn exists_on_the_calendar(self) -> bool {
        self.civil.valid()
    }

    /// The date-time that `civil` names, if it names one.
    pub fn from_civil(civil: Civil) -> (r: Option<DateTime>)
        ensures
            match r {
                Some(moment) => civil.valid() && moment@ == civil,
                None => !civil.valid(),
            },
    {
        if civil.is_valid() {
            Some(DateTime { civil })
        } else {
            None
        }
    }

    /// The seven numbers of this date-time.
    pub fn civil(&self) -> (c: Civil)
        ensures
            c == self@,
            c.valid(),
    {
        proof {
            use_type_invariant(self);
        }
        self.civil
    }

    /// The date-time that a reading names. A missing reading, and one that
    /// names no date-time, are malformed input.
    pub fn from_reading(reading: Option<Civil>) -> (r: Result<DateTime, CalendarError>)
        ensures
            match r {
                Ok(moment) => reading == Some(moment@) && moment@.valid(),
                Err(e) => e == CalendarError::MalformedInput && !names_a_datetime(reading),
            },
    {
        match reading {
            Some(civil) => match DateTime::from_civil(civil) {
                Some(moment) => Ok(moment),
                None => Err(CalendarError::MalformedInput),
            },
            None => Err(CalendarError::MalformedInput),
        }
    }

    /// Reads a date-time from a text such as `2024-01-01T09:00:00`. A text
    /// that chrono does not read as a date-time is malformed input.
    pub fn parse(text: &str) -> (r: Result<DateTime, CalendarError>)
        ensures
            match r {
                Ok(moment) => parsed(text@) == Some(moment@) && moment@.valid(),
                Err(e) => e == CalendarError::MalformedInput && !names_a_datetime(parsed(text@)),
            },
    {
        DateTime::from_reading(read_with_chrono(text))
    }

    /// This date-time as chrono writes it, such as `2024-01-01 09:00:00`.
    pub fn to_text(&self) -> (text: String)
        ensures
            text@ == display_text(self@),
    {
        proof {
            use_type_invariant(self);
        }
        write_with_chrono(self.civil)
    }

    /// This date-time in the form that [`DateTime::parse`] reads, such as
    /// `2024-01-01T09:00:00`.
    pub fn to_iso_text(&self) -> (text: String)
        ensures
            text@ == iso_text(self@),
    {
        proof {
            use_type_invariant(self);
        }
        write_iso_with_chrono(self.civil)
    }

    /// Whether this date-time is earlier than `other`.
    pub fn is_before(&self, other: &DateTime) -> (r: bool)
        ensures
            r == self@.precedes(other@),
    {
        let a: Civil = self.civil;
        let b: Civil = other.civil;
        if a.year != b.year {
            a.year < b.year
        } else if a.month != b.month {
            a.month < b.month
        } else if a.day != b.day {
            a.day < b.day
        } else if a.hour != b.hour {
            a.hour < b.hour
        } else if a.minute != b.minute {
            a.minute < b.minute
        } else if a.second != b.second {
            a.second < b.second
        } else {
            a.nanosecond < b.nanosecond
        }
    }
}

/// Date-times are in a strict total order by [`Civil::precedes`]: none is
/// earlier than itself, of two different ones exactly one is the earlier, and
/// what is earlier than an earlier one is earlier.
pub proof fn lemma_precedes_is_a_strict_total_order(a: Civil, b: Civil, c: Civil)
    ensures
        !a.precedes(a),
        a.precedes(b) ==> !b.precedes(a),
        a.precedes(b) && b.precedes(c) ==> a.precedes(c),
        a.precedes(b) || a == b || b.precedes(a),
{
}

} // verus!
