//! Calendar months: reading "YYYY-MM" and giving back the half-open range of
//! timestamps from the first day of that month to the first day of the next.
use vstd::prelude::*;
use chrono::{Datelike, NaiveDate};
use crate::errors::CommandError;
use crate::numtext::{nat_text, pad2_text};
use crate::text::concat_str;

verus! {

/// A day of the proleptic Gregorian calendar.
#[derive(Debug, Clone, Copy, PartialEq)]
pub struct CalendarDate {
    pub year: i32,
    pub month: u32,
    pub day: u32,
}

pub open spec fn is_leap_year(y: int) -> bool {
    (y % 4 == 0 && y % 100 != 0) || y % 400 == 0
}

pub open spec fn days_in_month(y: int, m: int) -> int {
    if m == 2 {
        if is_leap_year(y) {
            29
        } else {
            28
        }
    } else if m == 4 || m == 6 || m == 9 || m == 11 {
        30
    } else {
        31
    }
}

/// The earliest year that `chrono::NaiveDate` holds.
pub open spec fn min_year() -> int {
    -262143
}

/// The latest year that `chrono::NaiveDate` holds.
pub open spec fn max_year() -> int {
    262142
}

/// A calendar day that exists and that `chrono::NaiveDate` can hold.
pub open spec fn is_valid_date(y: int, m: int, d: int) -> bool {
    &&& min_year() <= y <= max_year()
    &&& 1 <= m <= 12
    &&& 1 <= d <= days_in_month(y, m)
}

pub open spec fn date_is_valid(d: CalendarDate) -> bool {
    is_valid_date(d.year as int, d.month as int, d.day as int)
}

pub open spec fn zero_padded(t: Seq<char>, width: nat) -> Seq<char> {
    if t.len() >= width {
        t
    } else {
        Seq::new((width - t.len()) as nat, |i: int| '0') + t
    }
}

/// chrono's `%Y`: four digits, zero-padded, for years 0 to 9999; a sign and at
/// least four digits for the others.
pub open spec fn year_text(y: int) -> Seq<char> {
    if 0 <= y && y <= 9999 {
        zero_padded(nat_text(y as nat), 4)
    } else if y < 0 {
        seq!['-'] + zero_padded(nat_text((-y) as nat), 4)
    } else {
        seq!['+'] + zero_padded(nat_text(y as nat), 4)
    }
}

/// chrono's `%Y-%m-%d` of a date.
pub open spec fn date_text(d: CalendarDate) -> Seq<char> {
    year_text(d.year as int) + "-"@ + pad2_text(d.month as nat) + "-"@ + pad2_text(d.day as nat)
}

/// What `NaiveDate::parse_from_str` with the format `%Y-%m-%d` reads from a
/// text: year, month and day, or nothing where it refuses the text.
pub uninterp spec fn parsed_ymd(text: Seq<char>) -> Option<(int, int, int)>;

/// `NaiveDate::parse_from_str(text, "%Y-%m-%d")` from `chrono`. Trusted: the
/// result is the date named `parsed_ymd`, and every `NaiveDate` is a valid
/// date within chrono's range.
#[verifier::external_body]
fn parse_ymd(text: &str) -> (r: Option<CalendarDate>)
    ensures
        match r {
            Some(d) => parsed_ymd(text@) == Some((d.year as int, d.month as int, d.day as int))
                && date_is_valid(d),
            None => parsed_ymd(text@) is None,
        },
{
    match NaiveDate::parse_from_str(text, "%Y-%m-%d") {
        Ok(d) => Some(CalendarDate { year: d.year(), month: d.month(), day: d.day() }),
        Err(_) => None,
    }
}

/// `NaiveDate::from_ymd_opt` from `chrono`. Trusted: a date comes back exactly
/// when the day exists and its year lies within chrono's range, and it is the
/// day asked for.
#[verifier::external_body]
fn date_from_ymd(year: i32, month: u32, day: u32) -> (r: Option<CalendarDate>)
    ensures
        r is Some <==> is_valid_date(year as int, month as int, day as int),
        r matches Some(d) ==> d.year == year && d.month == month && d.day == day,
{
    match NaiveDate::from_ymd_opt(year, month, day) {
        Some(d) => Some(CalendarDate { year: d.year(), month: d.month(), day: d.day() }),
        None => None,
    }
}

/// `NaiveDate::format("%Y-%m-%d")` from `chrono`. Trusted: the text is the
/// year as `%Y` writes it, then the month and the day in two digits each.
#[verifier::external_body]
fn format_date(date: CalendarDate) -> (r: String)
    requires
        date_is_valid(date),
    ensures
        r@ == date_text(date),
{
    NaiveDate::from_ymd_opt(date.year, date.month, date.day).unwrap().format("%Y-%m-%d").to_string()
}

/// The first day of the month after the one `d` lies in.
pub open spec fn next_month_start(d: CalendarDate) -> (int, int, int) {
    if d.month == 12 {
        (d.year + 1, 1, 1)
    } else {
        (d.year as int, d.month + 1, 1)
    }
}

/// The range of a month: midnight of its first day and midnight of the first
/// day of the next month, or nothing where the next month lies beyond
/// chrono's range.
pub open spec fn month_bounds(start: CalendarDate) -> Option<(Seq<char>, Seq<char>)> {
    let (ny, nm, nd) = next_month_start(start);
    if is_valid_date(ny, nm, nd) {
        Some(
            (
                date_text(start) + " 00:00:00"@,
                date_text(CalendarDate { year: ny as i32, month: nm as u32, day: nd as u32 })
                    + " 00:00:00"@,
            ),
        )
    } else {
        None
    }
}

/// The timestamps that bound the month that `start` lies in: `start` itself
/// and the first day of the next month.
pub fn month_range_from_start(start: CalendarDate) -> (r: Result<(String, String), CommandError>)
    requires
        date_is_valid(start),
    ensures
        match month_bounds(start) {
            Some((a, b)) => r matches Ok((x, y)) && x@ == a && y@ == b,
            None => r == Err::<(String, String), CommandError>(CommandError::NextMonthUnavailable),
        },
{
    let next = if start.month == 12 {
        date_from_ymd(start.year + 1, 1, 1)
    } else {
        date_from_ymd(start.year, start.month + 1, 1)
    };
    match next {
        None => Err(CommandError::NextMonthUnavailable),
        Some(n) => {
            let a = format_date(start);
            let b = format_date(n);
            Ok((concat_str(a.as_str(), " 00:00:00"), concat_str(b.as_str(), " 00:00:00")))
        },
    }
}

/// The timestamps bounding a month given as "YYYY-MM": midnight of its first
/// day and midnight of the first day of the following month.
pub fn month_range(month: &str) -> (r: Result<(String, String), CommandError>)
    ensures
        match parsed_ymd(month@ + "-01"@) {
            None => r matches Err(CommandError::InvalidMonth { month: m }) && m@ == month@,
            Some((y, mo, d)) => {
                let start = CalendarDate { year: y as i32, month: mo as u32, day: d as u32 };
                match month_bounds(start) {
                    Some((a, b)) => r matches Ok((x, z)) && x@ == a && z@ == b,
                    None => r == Err::<(String, String), CommandError>(
                        CommandError::NextMonthUnavailable,
                    ),
                }
            },
        },
{
    let text = concat_str(month, "-01");
    match parse_ymd(text.as_str()) {
        None => Err(CommandError::InvalidMonth { month: String::from_str(month) }),
        Some(start) => month_range_from_start(start),
    }
}

} // verus!
