//! Calendar dates as plain year/month/day numbers, with a strict
//! `YYYY-MM-DD` parser and printer and the day-ordering facts the task
//! transitions are built on.

use vstd::prelude::*;
use vstd::string::{StrSliceExecFns, StringExecFns};
use crate::text::{digit_char, digit_str};

verus! {

/// A date of the proleptic Gregorian calendar.  Dates are written and read
/// in the fixed `YYYY-MM-DD` form, so valid years run from 0 to 9999.
#[derive(Clone, Copy, Debug, PartialEq, Eq, Structural)]
pub struct Date {
    pub year: u32,
    pub month: u32,
    pub day: u32,
}

pub open spec fn is_leap_year(y: int) -> bool {
    y % 4 == 0 && (y % 100 != 0 || y % 400 == 0)
}

pub open spec fn days_in_month(y: int, m: int) -> int {
    if m == 2 {
        if is_leap_year(y) {
            29
        } else {
            28
        }
    } else if m == 4 || m == 6 || m == 9 || m == 11 {
        30
    } else {
        31
    }
}

/// A well-formed calendar date that the fixed four-digit-year form can hold.
pub open spec fn valid_date(d: Date) -> bool {
    &&& d.year <= 9999
    &&& 1 <= d.month <= 12
    &&& 1 <= d.day <= days_in_month(d.year as int, d.month as int)
}

/// Strict ordering of dates: by year, then month, then day.
pub open spec fn date_lt(a: Date, b: Date) -> bool {
    ||| a.year < b.year
    ||| (a.year == b.year && a.month < b.month)
    ||| (a.year == b.year && a.month == b.month && a.day < b.day)
}

/// The calendar day after `d`.
pub open spec fn next_day(d: Date) -> Date {
    if d.day < days_in_month(d.year as int, d.month as int) {
        Date { year: d.year, month: d.month, day: (d.day + 1) as u32 }
    } else if d.month < 12 {
        Date { year: d.year, month: (d.month + 1) as u32, day: 1 }
    } else {
        Date { year: (d.year + 1) as u32, month: 1, day: 1 }
    }
}

/// Every valid date comes strictly before the day after it.
pub proof fn lemma_next_day_gt(d: Date)
    requires
        valid_date(d),
    ensures
        date_lt(d, next_day(d)),
        next_day(d) != d,
{
}

/// The number of days in the given month, `1 <= month <= 12`.
pub fn month_len(year: u32, month: u32) -> (r: u32)
    requires
        1 <= month <= 12,
    ensures
        r as int == days_in_month(year as int, month as int),
{
    if month == 2 {
        if year % 4 == 0 && (year % 100 != 0 || year % 400 == 0) {
            29
        } else {
            28
        }
    } else if month == 4 || month == 6 || month == 9 || month == 11 {
        30
    } else {
        31
    }
}

/// Whether `a` comes strictly before `b`.
pub fn date_before(a: &Date, b: &Date) -> (r: bool)
    ensures
        r == date_lt(*a, *b),
{
    a.year < b.year || (a.year == b.year && (a.month < b.month || (a.month == b.month
        && a.day < b.day)))
}

/// The calendar day after `d`.
pub fn next_day_of(d: &Date) -> (r: Date)
    requires
        valid_date(*d),
    ensures
        r == next_day(*d),
{
    if d.day < month_len(d.year, d.month) {
        Date { year: d.year, month: d.month, day: d.day + 1 }
    } else if d.month < 12 {
        Date { year: d.year, month: d.month + 1, day: 1 }
    } else {
        Date { year: d.year + 1, month: 1, day: 1 }
    }
}

pub open spec fn is_digit_char(c: char) -> bool {
    '0' as u32 <= c as u32 <= '9' as u32
}

pub open spec fn digit_val(c: char) -> int {
    c as u32 - '0' as u32
}

/// The text `s` has the exact shape `YYYY-MM-DD`: four digits, a dash,
/// two digits, a dash, two digits, and nothing else.
pub open spec fn date_format_ok(s: Seq<char>) -> bool {
    &&& s.len() == 10
    &&& is_digit_char(s[0]) && is_digit_char(s[1]) && is_digit_char(s[2]) && is_digit_char(s[3])
    &&& s[4] == '-'
    &&& is_digit_char(s[5]) && is_digit_char(s[6])
    &&& s[7] == '-'
    &&& is_digit_char(s[8]) && is_digit_char(s[9])
}

/// The date named by a text of shape `YYYY-MM-DD`.
pub open spec fn date_of_digits(s: Seq<char>) -> Date {
    Date {
        year: (1000 * digit_val(s[0]) + 100 * digit_val(s[1]) + 10 * digit_val(s[2]) + digit_val(
            s[3],
        )) as u32,
        month: (10 * digit_val(s[5]) + digit_val(s[6])) as u32,
        day: (10 * digit_val(s[8]) + digit_val(s[9])) as u32,
    }
}

/// What parsing yields: the named date, if the text has the exact
/// `YYYY-MM-DD` shape and names a real calendar day; nothing otherwise.
pub open spec fn spec_parse_date(s: Seq<char>) -> Option<Date> {
    if date_format_ok(s) && valid_date(date_of_digits(s)) {
        Some(date_of_digits(s))
    } else {
        None
    }
}

/// The decimal value of a digit character, or `None` for any other character.
fn digit_of(c: char) -> (r: Option<u32>)
    ensures
        match r {
            Some(v) => is_digit_char(c) && v as int == digit_val(c),
            None => !is_digit_char(c),
        },
{
    let u: u32 = c as u32;
    if '0' as u32 <= u && u <= '9' as u32 {
        Some(u - '0' as u32)
    } else {
        None
    }
}

/// Parses a date in the fixed `YYYY-MM-DD` form.  Returns the date exactly
/// when the text has that shape and names a real calendar day.
pub fn parse_date(s: &str) -> (r: Option<Date>)
    ensures
        r == spec_parse_date(s@),
{
    if s.unicode_len() != 10 {
        return None;
    }
    if s.get_char(4) != '-' || s.get_char(7) != '-' {
        return None;
    }
    let v0 = digit_of(s.get_char(0));
    let v1 = digit_of(s.get_char(1));
    let v2 = digit_of(s.get_char(2));
    let v3 = digit_of(s.get_char(3));
    let v5 = digit_of(s.get_char(5));
    let v6 = digit_of(s.get_char(6));
    let v8 = digit_of(s.get_char(8));
    let v9 = digit_of(s.get_char(9));
    match (v0, v1, v2, v3, v5, v6, v8, v9) {
        (
            Some(y0),
            Some(y1),
            Some(y2),
            Some(y3),
            Some(m0),
            Some(m1),
            Some(d0),
            Some(d1),
        ) => {
            let year: u32 = 1000 * y0 + 100 * y1 + 10 * y2 + y3;
            let month: u32 = 10 * m0 + m1;
            let day: u32 = 10 * d0 + d1;
            if 1 <= month && month <= 12 && 1 <= day && day <= month_len(year, month) {
                Some(Date { year, month, day })
            } else {
                None
            }
        },
        _ => None,
    }
}

/// The fixed `YYYY-MM-DD` text of a date, zero-padded.
pub open spec fn date_text_spec(d: Date) -> Seq<char> {
    seq![
        digit_char(d.year as int / 1000),
        digit_char((d.year as int / 100) % 10),
        digit_char((d.year as int / 10) % 10),
        digit_char(d.year as int % 10),
        '-',
        digit_char(d.month as int / 10),
        digit_char(d.month as int % 10),
        '-',
        digit_char(d.day as int / 10),
        digit_char(d.day as int % 10),
    ]
}

/// Writes a date in the fixed `YYYY-MM-DD` form, zero-padded.
pub fn date_text(d: &Date) -> (r: String)
    requires
        valid_date(*d),
    ensures
        r@ == date_text_spec(*d),
{
    proof {
        reveal_strlit("-");
    }
    let mut out = String::new();
    out.append(digit_str((d.year / 1000) as usize));
    out.append(digit_str(((d.year / 100) % 10) as usize));
    out.append(digit_str(((d.year / 10) % 10) as usize));
    out.append(digit_str((d.year % 10) as usize));
    out.append("-");
    out.append(digit_str((d.month / 10) as usize));
    out.append(digit_str((d.month % 10) as usize));
    out.append("-");
    out.append(digit_str((d.day / 10) as usize));
    out.append(digit_str((d.day % 10) as usize));
    assert(out@ =~= date_text_spec(*d));
    out
}

/// Relies on `chrono::Local::now().date_naive()` and chrono's `Datelike`
/// accessors for the current local calendar date: `month()` is documented
/// to lie in 1..=12 and `day()` in 1..=31, and a `NaiveDate` is a valid
/// proleptic Gregorian calendar date, so the day never exceeds the length
/// of its month.  The call aborts when the system clock lies before the
/// Unix epoch; the contract speaks only of calls that return.
#[verifier::external_body]
fn clock_date_parts() -> (r: (i32, u32, u32))
    ensures
        1 <= r.1 <= 12,
        1 <= r.2 <= 31,
        r.2 as int <= days_in_month(r.0 as int, r.1 as int),
{
    let d = chrono::Local::now().date_naive();
    (chrono::Datelike::year(&d), chrono::Datelike::month(&d), chrono::Datelike::day(&d))
}

/// Builds a date from plain year, month and day numbers: exactly the valid
/// calendar dates that the fixed four-digit-year form can hold, and
/// nothing else.
pub fn date_from_parts(y: i32, m: u32, d: u32) -> (r: Option<Date>)
    ensures
        r == (if 0 <= y <= 9999 && 1 <= m <= 12 && 1 <= d && d as int <= days_in_month(
            y as int,
            m as int,
        ) {
            Some(Date { year: y as u32, month: m, day: d })
        } else {
            None::<Date>
        }),
        r matches Some(date) ==> valid_date(date),
{
    if 0 <= y && y <= 9999 && 1 <= m && m <= 12 && 1 <= d {
        if d <= month_len(y as u32, m) {
            Some(Date { year: y as u32, month: m, day: d })
        } else {
            None
        }
    } else {
        None
    }
}

/// The current local calendar date, when it falls in the years the fixed
/// four-digit form can hold.
pub fn today_from_clock() -> (r: Option<Date>)
    ensures
        r matches Some(d) ==> valid_date(d),
{
    let (y, m, d): (i32, u32, u32) = clock_date_parts();
    date_from_parts(y, m, d)
}

} // verus!
