//! Calendar dates, parsed and stepped with chrono.
use vstd::prelude::*;

use chrono::Datelike;

use crate::text::owned;

verus! {

/// A day of the proleptic Gregorian calendar.
#[derive(Debug, Clone, Copy, PartialEq, Eq, Structural)]
pub struct CalendarDate {
    pub year: i32,
    pub month: u32,
    pub day: u32,
}

/// The earliest year chrono's `NaiveDate` represents.
pub open spec fn min_year() -> int {
    -262143
}

/// The latest year chrono's `NaiveDate` represents.
pub open spec fn max_year() -> int {
    262142
}

pub open spec fn is_leap_year(y: int) -> bool {
    (y % 4 == 0 && y % 100 != 0) || y % 400 == 0
}

pub open spec fn days_in_month(y: int, m: int) -> int {
    if m == 2 {
        if is_leap_year(y) {
            29
        } else {
            28
        }
    } else if m == 4 || m == 6 || m == 9 || m == 11 {
        30
    } else {
        31
    }
}

/// A date that exists and that chrono's `NaiveDate` can hold.
pub open spec fn valid_date(y: int, m: int, d: int) -> bool {
    min_year() <= y <= max_year() && 1 <= m <= 12 && 1 <= d <= days_in_month(y, m)
}

/// The day before, across month and year boundaries.
pub open spec fn day_before(y: int, m: int, d: int) -> (int, int, int) {
    if d > 1 {
        (y, m, d - 1)
    } else if m > 1 {
        (y, m - 1, days_in_month(y, m - 1))
    } else {
        (y - 1, 12, 31)
    }
}

/// The day before, or `None` for chrono's first representable date.
pub open spec fn pred_of(y: i32, m: u32, d: u32) -> Option<(i32, u32, u32)> {
    if y as int == min_year() && m == 1 && d == 1 {
        None
    } else {
        let p = day_before(y as int, m as int, d as int);
        Some((p.0 as i32, p.1 as u32, p.2 as u32))
    }
}

/// What chrono's `NaiveDate::parse_from_str` returns for this input and
/// format: the year, month and day of the date, or the text of the error.
pub uninterp spec fn chrono_parse_date(s: Seq<char>, fmt: Seq<char>) -> Result<
    (i32, u32, u32),
    Seq<char>,
>;

/// Calls chrono's `NaiveDate::parse_from_str(s, fmt)`. The contract names
/// the result (`chrono_parse_date`) and states that a parsed date is a valid
/// `NaiveDate`, as chrono's type guarantees; the parsing rules of the format
/// are not restated.
#[verifier::external_body]
fn parse_date_with_format(s: &str, fmt: &str) -> (r: Result<(i32, u32, u32), String>)
    ensures
        match r {
            Ok(t) => chrono_parse_date(s@, fmt@) == Ok::<(i32, u32, u32), Seq<char>>(t)
                && valid_date(t.0 as int, t.1 as int, t.2 as int),
            Err(e) => chrono_parse_date(s@, fmt@) == Err::<(i32, u32, u32), Seq<char>>(e@),
        },
{
    match chrono::NaiveDate::parse_from_str(s, fmt) {
        Ok(d) => Ok((d.year(), d.month(), d.day())),
        Err(e) => Err(e.to_string()),
    }
}

/// Calls chrono's `NaiveDate::from_ymd_opt` and then `pred_opt`: the day
/// before a valid date, or `None` for chrono's first representable date.
#[verifier::external_body]
fn chrono_pred(y: i32, m: u32, d: u32) -> (r: Option<(i32, u32, u32)>)
    requires
        valid_date(y as int, m as int, d as int),
    ensures
        r == pred_of(y, m, d),
{
    match chrono::NaiveDate::from_ymd_opt(y, m, d) {
        Some(date) => match date.pred_opt() {
            Some(p) => Some((p.year(), p.month(), p.day())),
            None => None,
        },
        None => None,
    }
}

impl CalendarDate {
    /// The date as a valid chrono date.
    pub open spec fn wf(self) -> bool {
        valid_date(self.year as int, self.month as int, self.day as int)
    }

    /// The previous day (what `date - Duration::days(1)` gives), for any
    /// date after chrono's first representable one.
    pub fn previous_day(self) -> (r: CalendarDate)
        requires
            self.wf(),
            !(self.year as int == min_year() && self.month == 1 && self.day == 1),
        ensures
            (r.year as int, r.month as int, r.day as int) == day_before(
                self.year as int,
                self.month as int,
                self.day as int,
            ),
    {
        match chrono_pred(self.year, self.month, self.day) {
            Some((y, m, d)) => CalendarDate { year: y, month: m, day: d },
            None => self,
        }
    }
}

/// The message for a date that does not parse.
pub open spec fn bad_date_message(err: Seq<char>) -> Seq<char> {
    "invalid date format (use YYYY-MM-DD): "@ + err
}

/// Parse a YYYY-MM-DD date string, or default to `today`.
pub fn parse_date_or_today(date: Option<&str>, today: CalendarDate) -> (r: Result<
    CalendarDate,
    String,
>)
    ensures
        match date {
            None => r == Ok::<CalendarDate, String>(today),
            Some(s) => match chrono_parse_date(s@, "%Y-%m-%d"@) {
                Ok(t) => r matches Ok(d) && d.year == t.0 && d.month == t.1 && d.day == t.2
                    && d.wf(),
                Err(e) => r matches Err(m) && m@ == bad_date_message(e),
            },
        },
{
    match date {
        None => Ok(today),
        Some(s) => match parse_date_with_format(s, "%Y-%m-%d") {
            Ok((y, m, d)) => Ok(CalendarDate { year: y, month: m, day: d }),
            Err(e) => {
                let mut msg = owned("invalid date format (use YYYY-MM-DD): ");
                msg.append(e.as_str());
                Err(msg)
            },
        },
    }
}

/// The day before a date (after chrono's first one) is a valid date, and it
/// comes earlier: in an earlier year, or an earlier month of the same year,
/// or an earlier day of the same month.
pub proof fn law_day_before_is_earlier_and_valid(y: int, m: int, d: int)
    requires
        valid_date(y, m, d),
        !(y == min_year() && m == 1 && d == 1),
    ensures
        valid_date(day_before(y, m, d).0, day_before(y, m, d).1, day_before(y, m, d).2),
        day_before(y, m, d).0 < y || (day_before(y, m, d).0 == y && (day_before(y, m, d).1 < m || (
        day_before(y, m, d).1 == m && day_before(y, m, d).2 < d))),
{
}

} // verus!
