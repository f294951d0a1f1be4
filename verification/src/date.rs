//! Calendar dates in the proleptic Gregorian calendar, with verified
//! day arithmetic.
//!
//! A [`Date`] holds a year, month and day as plain integers; [`Date::valid`]
//! is the calendar well-formedness condition. The mathematical model is
//! [`Date::day_index`], the rank of a date when all valid dates are counted
//! in order starting from the first of year 1; every arithmetic claim in the
//! crate (gap lengths, stepping backwards a day at a time) is stated over it.

use vstd::prelude::*;

verus! {

/// True for leap years of the Gregorian calendar.
pub open spec fn is_leap_year(y: int) -> bool {
    y % 4 == 0 && (y % 100 != 0 || y % 400 == 0)
}

/// Number of days in month `m` (1-based) of year `y`.
pub open spec fn days_in_month(y: int, m: int) -> int {
    if m == 2 {
        if is_leap_year(y) {
            29
        } else {
            28
        }
    } else if m == 4 || m == 6 || m == 9 || m == 11 {
        30
    } else {
        31
    }
}

/// Number of days in year `y`.
pub open spec fn days_in_year(y: int) -> int {
    if is_leap_year(y) {
        366
    } else {
        365
    }
}

/// Days in all years from year 1 up to, but not including, year `y`.
pub open spec fn days_before_year(y: int) -> int
    decreases y,
{
    if y <= 1 {
        0
    } else {
        days_before_year(y - 1) + days_in_year(y - 1)
    }
}

/// Days in all months of year `y` before month `m`.
pub open spec fn days_before_month(y: int, m: int) -> int
    decreases m,
{
    if m <= 1 {
        0
    } else {
        days_before_month(y, m - 1) + days_in_month(y, m - 1)
    }
}

/// A calendar date. The gap detector and the date parser only ever hand out
/// values satisfying [`Date::valid`].
#[derive(Debug, Clone, Copy, PartialEq, Eq, Structural)]
pub struct Date {
    pub year: u32,
    pub month: u32,
    pub day: u32,
}

impl Date {
    /// Calendar well-formedness: a real date between year 1 and year 9999.
    pub open spec fn valid(self) -> bool {
        &&& 1 <= self.year <= 9999
        &&& 1 <= self.month <= 12
        &&& 1 <= self.day <= days_in_month(self.year as int, self.month as int)
    }

    /// The rank of this date among all dates counted in calendar order,
    /// with the first of January of year 1 at rank 1.
    pub open spec fn day_index(self) -> int {
        days_before_year(self.year as int) + days_before_month(
            self.year as int,
            self.month as int,
        ) + self.day
    }
}

proof fn lemma_days_before_year_bounds(y: int)
    requires
        y >= 1,
    ensures
        0 <= days_before_year(y) <= 366 * (y - 1),
    decreases y,
{
    if y > 1 {
        lemma_days_before_year_bounds(y - 1);
    }
}

proof fn lemma_days_before_month_bounds(y: int, m: int)
    requires
        m >= 1,
    ensures
        0 <= days_before_month(y, m) <= 31 * (m - 1),
    decreases m,
{
    if m > 1 {
        lemma_days_before_month_bounds(y, m - 1);
    }
}

/// Every valid date has a positive day index.
pub proof fn lemma_day_index_pos(d: Date)
    requires
        d.valid(),
    ensures
        d.day_index() >= 1,
{
    lemma_days_before_year_bounds(d.year as int);
    lemma_days_before_month_bounds(d.year as int, d.month as int);
}

fn days_in_month_exec(year: u32, month: u32) -> (r: u32)
    requires
        1 <= month <= 12,
    ensures
        r == days_in_month(year as int, month as int),
{
    if month == 2 {
        if (year % 4 == 0) && (year % 100 != 0 || year % 400 == 0) {
            29
        } else {
            28
        }
    } else if month == 4 || month == 6 || month == 9 || month == 11 {
        30
    } else {
        31
    }
}

fn days_in_year_exec(year: u32) -> (r: u32)
    ensures
        r == days_in_year(year as int),
{
    if (year % 4 == 0) && (year % 100 != 0 || year % 400 == 0) {
        366
    } else {
        365
    }
}

impl Date {
    /// Build a date from plain year, month and day values, checking calendar
    /// validity; returns `None` exactly on values that name no real date in
    /// the supported range.
    pub fn from_ymd(year: u32, month: u32, day: u32) -> (r: Option<Date>)
        ensures
            r is Some <==> (Date { year, month, day }).valid(),
            r is Some ==> r->0 == (Date { year, month, day }),
    {
        if 1 <= year && year <= 9999 && 1 <= month && month <= 12 && 1 <= day && day
            <= days_in_month_exec(year, month) {
            Some(Date { year, month, day })
        } else {
            None
        }
    }

    /// Compute the day index of this date.
    pub fn day_number(&self) -> (r: u32)
        requires
            self.valid(),
        ensures
            r == self.day_index(),
    {
        let mut acc: u32 = 0;
        let mut y: u32 = 1;
        while y < self.year
            invariant
                1 <= y <= self.year <= 9999,
                acc == days_before_year(y as int),
                acc <= 366 * (y - 1),
            decreases self.year - y,
        {
            acc = acc + days_in_year_exec(y);
            y = y + 1;
        }
        let mut m: u32 = 1;
        let mut macc: u32 = 0;
        while m < self.month
            invariant
                1 <= m <= self.month <= 12,
                macc == days_before_month(self.year as int, m as int),
                macc <= 31 * (m - 1),
            decreases self.month - m,
        {
            macc = macc + days_in_month_exec(self.year, m);
            m = m + 1;
        }
        proof {
            lemma_days_before_year_bounds(self.year as int);
            lemma_days_before_month_bounds(self.year as int, self.month as int);
        }
        acc + macc + self.day
    }

    /// The date one calendar day earlier, or `None` on the first supported
    /// date, where stepping back would leave the representable range.
    pub fn prev_day(&self) -> (r: Option<Date>)
        requires
            self.valid(),
        ensures
            r is Some <==> !(self.year == 1 && self.month == 1 && self.day == 1),
            r is Some ==> r->0.valid() && r->0.day_index() == self.day_index() - 1,
    {
        if self.day > 1 {
            Some(Date { year: self.year, month: self.month, day: self.day - 1 })
        } else if self.month > 1 {
            let pm = self.month - 1;
            Some(Date { year: self.year, month: pm, day: days_in_month_exec(self.year, pm) })
        } else if self.year > 1 {
            let py = self.year - 1;
            proof {
                lemma_year_end_index(py as int);
            }
            Some(Date { year: py, month: 12, day: 31 })
        } else {
            None
        }
    }
}

proof fn lemma_days_before_year_mono(y1: int, y2: int)
    requires
        y1 <= y2,
    ensures
        days_before_year(y1) <= days_before_year(y2),
    decreases y2 - y1,
{
    if y1 < y2 {
        lemma_days_before_year_mono(y1, y2 - 1);
    }
}

proof fn lemma_days_before_month_mono(y: int, m1: int, m2: int)
    requires
        m1 <= m2,
    ensures
        days_before_month(y, m1) <= days_before_month(y, m2),
    decreases m2 - m1,
{
    if m1 < m2 {
        lemma_days_before_month_mono(y, m1, m2 - 1);
    }
}

proof fn lemma_day_in_year_bound(d: Date)
    requires
        d.valid(),
    ensures
        days_before_month(d.year as int, d.month as int) + d.day <= days_in_year(d.year as int),
{
    let y = d.year as int;
    let m = d.month as int;
    assert(days_before_month(y, m) + d.day <= days_before_month(y, m + 1));
    lemma_days_before_month_mono(y, m + 1, 13);
    lemma_year_end_index(y);
    assert(days_before_month(y, 13) == days_before_month(y, 12) + 31);
}

/// No two valid dates share a day index: the contract language of the
/// gap detector, which speaks of dates through their day indices, names
/// each date uniquely.
pub proof fn lemma_day_index_injective(d1: Date, d2: Date)
    requires
        d1.valid(),
        d2.valid(),
        d1.day_index() == d2.day_index(),
    ensures
        d1 == d2,
{
    let y1 = d1.year as int;
    let y2 = d2.year as int;
    if y1 < y2 {
        lemma_day_in_year_bound(d1);
        lemma_days_before_year_mono(y1 + 1, y2);
        lemma_days_before_month_bounds(y2, d2.month as int);
        assert(false);
    }
    if y2 < y1 {
        lemma_day_in_year_bound(d2);
        lemma_days_before_year_mono(y2 + 1, y1);
        lemma_days_before_month_bounds(y1, d1.month as int);
        assert(false);
    }
    let m1 = d1.month as int;
    let m2 = d2.month as int;
    if m1 < m2 {
        assert(days_before_month(y1, m1) + d1.day <= days_before_month(y1, m1 + 1));
        lemma_days_before_month_mono(y1, m1 + 1, m2);
        assert(false);
    }
    if m2 < m1 {
        assert(days_before_month(y1, m2) + d2.day <= days_before_month(y1, m2 + 1));
        lemma_days_before_month_mono(y1, m2 + 1, m1);
        assert(false);
    }
}

/// A decimal digit character.
pub open spec fn is_digit(c: char) -> bool {
    48 <= c as u32 <= 57
}

/// The value of a decimal digit character.
pub open spec fn digit_val(c: char) -> int {
    c as u32 - 48
}

/// A ten-character date in the textual form year, month, day, four, two
/// and two digits joined by hyphens.
pub open spec fn date_chars_wf(s: Seq<char>) -> bool {
    &&& s.len() == 10
    &&& is_digit(s[0]) && is_digit(s[1]) && is_digit(s[2]) && is_digit(s[3])
    &&& s[4] == '-'
    &&& is_digit(s[5]) && is_digit(s[6])
    &&& s[7] == '-'
    &&& is_digit(s[8]) && is_digit(s[9])
}

/// The date a well-formed ten-character date string names.
pub open spec fn date_of_chars(s: Seq<char>) -> Date {
    Date {
        year: (digit_val(s[0]) * 1000 + digit_val(s[1]) * 100 + digit_val(s[2]) * 10 + digit_val(
            s[3],
        )) as u32,
        month: (digit_val(s[5]) * 10 + digit_val(s[6])) as u32,
        day: (digit_val(s[8]) * 10 + digit_val(s[9])) as u32,
    }
}

/// The meaning of a date string: `Some` exactly on well-formed strings
/// naming a valid calendar date.
pub open spec fn spec_parse_date(s: Seq<char>) -> Option<Date> {
    if date_chars_wf(s) && date_of_chars(s).valid() {
        Some(date_of_chars(s))
    } else {
        None
    }
}

fn read_digit(s: &str, i: usize) -> (r: Option<u32>)
    requires
        i < s@.len(),
    ensures
        r is Some <==> is_digit(s@[i as int]),
        r is Some ==> r->0 == digit_val(s@[i as int]),
{
    let c = s.get_char(i);
    let u = c as u32;
    if 48 <= u && u <= 57 {
        Some(u - 48)
    } else {
        None
    }
}

/// Parse a date string in the ten-character form year-month-day; `None`
/// exactly on strings of another shape or naming no valid calendar date.
pub fn parse_date(s: &str) -> (r: Option<Date>)
    ensures
        r == spec_parse_date(s@),
{
    if s.unicode_len() != 10 {
        return None;
    }
    if s.get_char(4) != '-' || s.get_char(7) != '-' {
        return None;
    }
    let d0 = read_digit(s, 0);
    let d1 = read_digit(s, 1);
    let d2 = read_digit(s, 2);
    let d3 = read_digit(s, 3);
    let d5 = read_digit(s, 5);
    let d6 = read_digit(s, 6);
    let d8 = read_digit(s, 8);
    let d9 = read_digit(s, 9);
    match (d0, d1, d2, d3, d5, d6, d8, d9) {
        (
            Some(d0),
            Some(d1),
            Some(d2),
            Some(d3),
            Some(d5),
            Some(d6),
            Some(d8),
            Some(d9),
        ) => {
            let year = d0 * 1000 + d1 * 100 + d2 * 10 + d3;
            let month = d5 * 10 + d6;
            let day = d8 * 10 + d9;
            Date::from_ymd(year, month, day)
        },
        _ => None,
    }
}

proof fn lemma_year_end_index(y: int)
    ensures
        days_before_month(y, 12) + 31 == days_in_year(y),
{
    reveal_with_fuel(days_before_month, 13);
}

} // verus!
