//! Calendar dates, and the one place where text is handed to `chrono`.

use chrono::Datelike;
use vstd::prelude::*;

use crate::text::digit_char;

verus! {

/// A day of the proleptic Gregorian calendar.
#[derive(Clone, Copy, Debug, PartialEq, Eq, Structural)]
pub struct Date {
    pub year: i32,
    pub month: u32,
    pub day: u32,
}

/// Whether `year` has a 29th of February.
pub open spec fn is_leap_year(year: int) -> bool {
    year % 4 == 0 && (year % 100 != 0 || year % 400 == 0)
}

/// The number of days of month `month` in `year`; 0 where there is no such month.
pub open spec fn days_in_month(year: int, month: int) -> int {
    if month == 2 {
        if is_leap_year(year) {
            29
        } else {
            28
        }
    } else if month == 4 || month == 6 || month == 9 || month == 11 {
        30
    } else if 1 <= month <= 12 {
        31
    } else {
        0
    }
}

/// Whether the calendar has a day `day` of month `month` in `year`.
pub open spec fn is_calendar_date(year: int, month: int, day: int) -> bool {
    1 <= month <= 12 && 1 <= day <= days_in_month(year, month)
}

/// `n` written with two digits.
pub open spec fn two_digits(n: int) -> Seq<char> {
    seq![digit_char((n / 10) as nat), digit_char((n % 10) as nat)]
}

/// `n` written with four digits.
pub open spec fn four_digits(n: int) -> Seq<char> {
    two_digits(n / 100) + two_digits(n % 100)
}

/// A year and a month in the notation `2023.05`.
pub open spec fn dotted_month(year: int, month: int) -> Seq<char> {
    four_digits(year) + seq!['.'] + two_digits(month)
}

/// A date in the notation `2023.05.17`.
pub open spec fn dotted_date(year: int, month: int, day: int) -> Seq<char> {
    dotted_month(year, month) + seq!['.'] + two_digits(day)
}

/// A date in the portal's wording, `2023년 05월 17일`.
pub open spec fn worded_date(year: int, month: int, day: int) -> Seq<char> {
    worded_month(year, month) + seq![' '] + two_digits(day) + seq!['일']
}

/// A year and a month in the portal's wording, `2023년 05월`.
pub open spec fn worded_month(year: int, month: int) -> Seq<char> {
    four_digits(year) + seq!['년', ' '] + two_digits(month) + seq!['월']
}

/// What `chrono::NaiveDate::parse_from_str` makes of `text` under `format`:
/// the year, month and day of the date it returns, or `None` where it returns
/// an error.
pub uninterp spec fn chrono_parsed(text: Seq<char>, format: Seq<char>) -> Option<(i32, u32, u32)>;

/// Calls `chrono::NaiveDate::parse_from_str` and takes the date apart with
/// `Datelike::year`, `month` and `day`.
///
/// Believed of it: the outcome depends on the two texts alone, and a date
/// that comes back is one the calendar has. Under the format `%Y.%m.%d` a
/// year of four digits, a month of two and a day of two, joined by dots, are
/// read as that very date where the calendar has it, and refused where it
/// has not. Under the format `%Y년 %m월 %d일` the same digits in the
/// portal's wording are read as that very date where the calendar has it.
#[verifier::external_body]
pub(crate) fn chrono_parse(text: &str, format: &str) -> (r: Option<(i32, u32, u32)>)
    ensures
        r == chrono_parsed(text@, format@),
        r matches Some((y, m, d)) ==> is_calendar_date(y as int, m as int, d as int),
        format@ == "%Y.%m.%d"@ ==> forall|y: int, m: int, d: int|
            0 <= y <= 9999 && is_calendar_date(y, m, d) && text@ == #[trigger] dotted_date(y, m, d)
                ==> r == Some((y as i32, m as u32, d as u32)),
        format@ == "%Y.%m.%d"@ ==> forall|y: int, m: int, d: int|
            0 <= y <= 9999 && 0 <= m <= 99 && 0 <= d <= 99 && !is_calendar_date(y, m, d) && text@
                == #[trigger] dotted_date(y, m, d) ==> r is None,
        format@ == "%Y년 %m월 %d일"@ ==> forall|y: int, m: int, d: int|
            0 <= y <= 9999 && is_calendar_date(y, m, d) && text@ == #[trigger] worded_date(y, m, d)
                ==> r == Some((y as i32, m as u32, d as u32)),
{
    match chrono::NaiveDate::parse_from_str(text, format) {
        Ok(date) => Some((date.year(), date.month(), date.day())),
        Err(_) => None,
    }
}

impl Date {
    /// Whether the calendar has this day.
    pub open spec fn is_valid(self) -> bool {
        is_calendar_date(self.year as int, self.month as int, self.day as int)
    }

    /// Whether `self` comes before `other` in time, for days the calendar has.
    /// Years count first, then months, then days.
    pub open spec fn is_before(self, other: Date) -> bool {
        self.year < other.year || (self.year == other.year && (self.month < other.month || (
        self.month == other.month && self.day < other.day)))
    }

    /// The date of the given year, month and day, where the calendar has it.
    pub fn from_ymd(year: i32, month: u32, day: u32) -> (r: Option<Date>)
        ensures
            r == if is_calendar_date(year as int, month as int, day as int) {
                Some(Date { year, month, day })
            } else {
                None::<Date>
            },
    {
        if month < 1 || month > 12 || day < 1 {
            return None;
        }
        let leap = year % 4 == 0 && (year % 100 != 0 || year % 400 == 0);
        let last: u32 = if month == 2 {
            if leap {
                29
            } else {
                28
            }
        } else if month == 4 || month == 6 || month == 9 || month == 11 {
            30
        } else {
            31
        };
        if day <= last {
            Some(Date { year, month, day })
        } else {
            None
        }
    }

    /// Whether `self` comes before `other`.
    pub fn precedes(&self, other: &Date) -> (b: bool)
        ensures
            b == self.is_before(*other),
    {
        self.year < other.year || (self.year == other.year && (self.month < other.month || (
        self.month == other.month && self.day < other.day)))
    }
}

} // verus!
