//! The calendar date of a transaction, written `YYYY-MM-DD`.

use crate::errors::DomainError;
use crate::text::{decimal_digits, fixed_decimal};
use vstd::prelude::*;

verus! {

/// A leap year of the proleptic Gregorian calendar.
pub open spec fn is_leap_year(year: int) -> bool {
    year % 4 == 0 && (year % 100 != 0 || year % 400 == 0)
}

/// The number of days of a month.
pub open spec fn days_in_month(year: int, month: int) -> int {
    if month == 2 {
        if is_leap_year(year) {
            29
        } else {
            28
        }
    } else if month == 4 || month == 6 || month == 9 || month == 11 {
        30
    } else {
        31
    }
}

/// A day that exists in the proleptic Gregorian calendar, in a year that
/// `chrono::NaiveDate` can hold.
pub open spec fn is_calendar_date(year: int, month: int, day: int) -> bool {
    &&& -262143 <= year <= 262142
    &&& 1 <= month <= 12
    &&& 1 <= day <= days_in_month(year, month)
}

/// The text of a year: four digits, zero-padded, for the years 0 to 9999;
/// any other year with its sign and at least four digits.
pub open spec fn year_text(year: int) -> Seq<char> {
    if 0 <= year <= 9999 {
        fixed_decimal(year as nat, 4)
    } else if year > 9999 {
        seq!['+'] + decimal_digits(year as nat)
    } else if year >= -9999 {
        seq!['-'] + fixed_decimal((-year) as nat, 4)
    } else {
        seq!['-'] + decimal_digits((-year) as nat)
    }
}

/// The canonical text of a date: the year, two digits of month and two of
/// day, zero-padded and joined by dashes.
pub open spec fn date_text(year: int, month: int, day: int) -> Seq<char> {
    year_text(year) + seq!['-'] + fixed_decimal(month as nat, 2) + seq!['-'] + fixed_decimal(
        day as nat,
        2,
    )
}

/// The pattern of the canonical text, in the notation of `chrono`.
pub open spec fn date_pattern() -> Seq<char> {
    "%Y-%m-%d"@
}

/// The date that `chrono::NaiveDate::parse_from_str` reads from `text` under
/// `pattern`, as year, month and day; `None` where it refuses the text.
pub uninterp spec fn naive_date_parsed(text: Seq<char>, pattern: Seq<char>) -> Option<
    (int, int, int),
>;

/// Calls `chrono::NaiveDate::parse_from_str` and reads the year, month and
/// day of the date that it gives. The contract claims that the outcome is a
/// function of the text and the pattern, and that a date which `chrono` gives
/// is a calendar date: a `NaiveDate` holds no other.
#[verifier::external_body]
fn parse_naive_date(text: &str, pattern: &str) -> (r: Option<(i32, u32, u32)>)
    ensures
        match r {
            Some(date) => naive_date_parsed(text@, pattern@) == Some(
                (date.0 as int, date.1 as int, date.2 as int),
            ) && is_calendar_date(date.0 as int, date.1 as int, date.2 as int),
            None => naive_date_parsed(text@, pattern@) is None,
        },
{
    match chrono::NaiveDate::parse_from_str(text, pattern) {
        Ok(date) => Some(
            (
                chrono::Datelike::year(&date),
                chrono::Datelike::month(&date),
                chrono::Datelike::day(&date),
            ),
        ),
        Err(_) => None,
    }
}

/// Calls `chrono::NaiveDate::from_ymd_opt` and, where that gives a date,
/// `format` on it. The contract claims that `chrono` has a date for every
/// calendar date, and that the text is what `chrono` documents for `%Y`,
/// `%m` and `%d`: the year in four digits, zero-padded, with a sign before
/// the years below 0 and above 9999, and the month and the day in two
/// digits. The pattern is fixed, because `chrono` panics on a pattern that
/// it does not know.
#[verifier::external_body]
fn format_naive_date(year: i32, month: u32, day: u32, pattern: &str) -> (r: Option<String>)
    requires
        pattern@ == date_pattern(),
    ensures
        is_calendar_date(year as int, month as int, day as int) ==> r is Some,
        r matches Some(text) ==> text@ == date_text(year as int, month as int, day as int),
{
    match chrono::NaiveDate::from_ymd_opt(year, month, day) {
        Some(date) => Some(date.format(pattern).to_string()),
        None => None,
    }
}

/// Why three numbers are no calendar date.
pub open spec fn calendar_rejection() -> Seq<char> {
    "no such day in the calendar"@
}

/// Why a text is no date.
pub open spec fn parse_rejection(text: Seq<char>) -> Seq<char> {
    "expected YYYY-MM-DD format, got '"@ + text + "'"@
}

fn leap_year(year: i32) -> (r: bool)
    requires
        -262143 <= year <= 262142,
    ensures
        r == is_leap_year(year as int),
{
    // 262400 is a multiple of 400: the shifted year is positive and leaps in
    // the same way.
    let shifted: u32 = (year + 262400) as u32;
    shifted % 4 == 0 && (shifted % 100 != 0 || shifted % 400 == 0)
}

fn month_length(year: i32, month: u32) -> (r: u32)
    requires
        -262143 <= year <= 262142,
    ensures
        r == days_in_month(year as int, month as int),
{
    if month == 2 {
        if leap_year(year) {
            29
        } else {
            28
        }
    } else if month == 4 || month == 6 || month == 9 || month == 11 {
        30
    } else {
        31
    }
}

/// A calendar date.
#[derive(Clone, Copy, Debug, PartialEq, Eq, PartialOrd, Ord, Structural)]
pub struct TransactionDate {
    year: i32,
    month: u32,
    day: u32,
}

impl View for TransactionDate {
    type V = (int, int, int);

    /// Year, month and day.
    closed spec fn view(&self) -> (int, int, int) {
        (self.year as int, self.month as int, self.day as int)
    }
}

impl TransactionDate {
    #[verifier::type_invariant]
    spec fn in_calendar(self) -> bool {
        is_calendar_date(self.year as int, self.month as int, self.day as int)
    }

    /// Accepts exactly the calendar dates.
    pub fn new(year: i32, month: u32, day: u32) -> (r: Result<Self, DomainError>)
        ensures
            is_calendar_date(year as int, month as int, day as int) ==> r is Ok && r->Ok_0@ == (
                year as int,
                month as int,
                day as int,
            ),
            !is_calendar_date(year as int, month as int, day as int) ==> (r matches Err(
                DomainError::InvalidTransactionDate { reason },
            ) && reason@ == calendar_rejection()),
    {
        if year < -262143 || year > 262142 || month < 1 || month > 12 || day < 1 || day
            > month_length(year, month) {
            return Err(
                DomainError::InvalidTransactionDate {
                    reason: "no such day in the calendar".to_owned(),
                },
            );
        }
        Ok(TransactionDate { year, month, day })
    }

    /// Year, month and day.
    pub fn value(&self) -> (v: (i32, u32, u32))
        ensures
            (v.0 as int, v.1 as int, v.2 as int) == self@,
            is_calendar_date(v.0 as int, v.1 as int, v.2 as int),
    {
        proof {
            use_type_invariant(self);
        }
        (self.year, self.month, self.day)
    }

    pub fn year(&self) -> (y: i32)
        ensures
            y == self@.0,
    {
        self.year
    }

    pub fn month(&self) -> (m: u32)
        ensures
            m == self@.1,
            1 <= m <= 12,
    {
        proof {
            use_type_invariant(self);
        }
        self.month
    }

    pub fn day(&self) -> (d: u32)
        ensures
            d == self@.2,
            1 <= d <= 31,
    {
        proof {
            use_type_invariant(self);
        }
        self.day
    }

    /// The canonical text, such as `2026-02-05`.
    pub fn to_string(&self) -> (s: String)
        ensures
            s@ == date_text(self@.0, self@.1, self@.2),
    {
        proof {
            use_type_invariant(self);
        }
        match format_naive_date(self.year, self.month, self.day, "%Y-%m-%d") {
            Some(text) => text,
            None => String::new(),
        }
    }

    /// The date that a reading of `text` gave, or the reason why there is
    /// none.
    pub fn from_parsed(parsed: Option<(i32, u32, u32)>, text: &str) -> (r: Result<
        Self,
        DomainError,
    >)
        ensures
            match parsed {
                Some(date) => if is_calendar_date(date.0 as int, date.1 as int, date.2 as int) {
                    r is Ok && r->Ok_0@ == (date.0 as int, date.1 as int, date.2 as int)
                } else {
                    r matches Err(DomainError::InvalidTransactionDate { reason }) && reason@
                        == calendar_rejection()
                },
                None => r matches Err(DomainError::InvalidTransactionDate { reason }) && reason@
                    == parse_rejection(text@),
            },
    {
        match parsed {
            Some((year, month, day)) => TransactionDate::new(year, month, day),
            None => Err(
                DomainError::InvalidTransactionDate {
                    reason: "expected YYYY-MM-DD format, got '".to_owned().concat(text).concat(
                        "'",
                    ),
                },
            ),
        }
    }

    /// Reads a date from its text.
    pub fn parse(text: &str) -> (r: Result<Self, DomainError>)
        ensures
            match naive_date_parsed(text@, date_pattern()) {
                Some(date) => r is Ok && r->Ok_0@ == date,
                None => r matches Err(DomainError::InvalidTransactionDate { reason }) && reason@
                    == parse_rejection(text@),
            },
    {
        TransactionDate::from_parsed(parse_naive_date(text, "%Y-%m-%d"), text)
    }
}

impl core::str::FromStr for TransactionDate {
    type Err = DomainError;

    /// Reads a date from its text, as `parse` does.
    fn from_str(text: &str) -> (r: Result<Self, DomainError>)
        ensures
            match naive_date_parsed(text@, date_pattern()) {
                Some(date) => r is Ok && r->Ok_0@ == date,
                None => r matches Err(DomainError::InvalidTransactionDate { reason }) && reason@
                    == parse_rejection(text@),
            },
    {
        TransactionDate::parse(text)
    }
}

} // verus!
