//! Calendar timestamps and their textual forms.
//!
//! A [`DateTime`] is an instant in the local time zone, held as plain
//! year/month/day/time-of-day components. Two derived views are used
//! throughout the library: the calendar-day identity (year/month/day,
//! ignoring time-of-day) and the formatted strings `"Month Day, Year"`
//! and `"HH:MM"`.

use vstd::prelude::*;
use vstd::string::*;

verus! {

/// An instant in the local time zone, split into calendar components.
///
/// `month` is one-based (1 = January). A value is meaningful only when
/// [`DateTime::wf`] holds.
#[derive(Clone, Copy, PartialEq, Eq, Structural, Debug)]
pub struct DateTime {
    pub year: i32,
    pub month: u8,
    pub day: u8,
    pub hour: u8,
    pub minute: u8,
    pub second: u8,
}

/// Whether `year` is a leap year in the Gregorian calendar.
pub open spec fn spec_is_leap_year(year: int) -> bool {
    (year % 4 == 0 && year % 100 != 0) || year % 400 == 0
}

/// Number of days in the given one-based month of the given year.
pub open spec fn spec_days_in_month(year: int, month: int) -> int {
    if month == 2 {
        if spec_is_leap_year(year) {
            29
        } else {
            28
        }
    } else if month == 4 || month == 6 || month == 9 || month == 11 {
        30
    } else {
        31
    }
}

/// Whether `year` is a leap year in the Gregorian calendar.
pub fn is_leap_year(year: i32) -> (r: bool)
    requires
        1 <= year,
    ensures
        r == spec_is_leap_year(year as int),
{
    (year % 4 == 0 && year % 100 != 0) || year % 400 == 0
}

/// Number of days in the given one-based month of the given year.
pub fn days_in_month(year: i32, month: u8) -> (r: u8)
    requires
        1 <= year,
        1 <= month <= 12,
    ensures
        r == spec_days_in_month(year as int, month as int),
{
    if month == 2 {
        if is_leap_year(year) {
            29
        } else {
            28
        }
    } else if month == 4 || month == 6 || month == 9 || month == 11 {
        30
    } else {
        31
    }
}

/// Two timestamps share a calendar-day identity: equal year, month and
/// day, whatever their time-of-day.
pub open spec fn same_day(a: DateTime, b: DateTime) -> bool {
    a.year == b.year && a.month == b.month && a.day == b.day
}

/// The fixed "cleared" timestamp: local midnight of the time-zero epoch
/// day, standing for "no date selected".
pub open spec fn spec_cleared() -> DateTime {
    DateTime { year: 1970, month: 1, day: 1, hour: 0, minute: 0, second: 0 }
}

impl DateTime {
    /// The components describe a real calendar instant: the year is in
    /// the range a calendar control accepts, the month exists, the day
    /// exists in that month, and the time-of-day is in range.
    pub open spec fn wf(&self) -> bool {
        &&& 1 <= self.year <= 9999
        &&& 1 <= self.month <= 12
        &&& 1 <= self.day <= spec_days_in_month(self.year as int, self.month as int)
        &&& self.hour < 24
        &&& self.minute < 60
        &&& self.second < 60
    }

    /// Runtime check of [`DateTime::wf`].
    pub fn valid(&self) -> (r: bool)
        ensures
            r == self.wf(),
    {
        1 <= self.year && self.year <= 9999 && 1 <= self.month && self.month <= 12 && 1
            <= self.day && self.day <= days_in_month(self.year, self.month) && self.hour < 24
            && self.minute < 60 && self.second < 60
    }

    /// The calendar-day identity as a year/month/day triple.
    pub fn ymd(&self) -> (r: (i32, u8, u8))
        ensures
            r == (self.year, self.month, self.day),
    {
        (self.year, self.month, self.day)
    }

    /// Whether the two timestamps fall on the same calendar day.
    pub fn is_same_day(&self, other: &DateTime) -> (r: bool)
        ensures
            r == same_day(*self, *other),
    {
        self.year == other.year && self.month == other.month && self.day == other.day
    }

    /// The sentinel "cleared" timestamp.
    pub fn cleared() -> (r: DateTime)
        ensures
            r == spec_cleared(),
    {
        DateTime { year: 1970, month: 1, day: 1, hour: 0, minute: 0, second: 0 }
    }

    /// Whether this is the sentinel "cleared" timestamp.
    pub fn is_cleared(&self) -> (r: bool)
        ensures
            r == (*self == spec_cleared()),
    {
        *self == DateTime::cleared()
    }
}

/// The single decimal digit `d` as text.
pub open spec fn spec_digit(d: int) -> Seq<char> {
    if d == 0 {
        "0"@
    } else if d == 1 {
        "1"@
    } else if d == 2 {
        "2"@
    } else if d == 3 {
        "3"@
    } else if d == 4 {
        "4"@
    } else if d == 5 {
        "5"@
    } else if d == 6 {
        "6"@
    } else if d == 7 {
        "7"@
    } else if d == 8 {
        "8"@
    } else {
        "9"@
    }
}

/// The non-negative number `n` in decimal, without leading zeros
/// (except that 0 itself is "0").
pub open spec fn spec_decimal(n: int) -> Seq<char>
    recommends
        n >= 0,
    decreases n,
{
    if n < 10 {
        spec_digit(n)
    } else {
        spec_decimal(n / 10) + spec_digit(n % 10)
    }
}

/// The number `n` in decimal, zero-padded to two digits, as a clock
/// field is written.
pub open spec fn spec_two_decimal(n: int) -> Seq<char> {
    spec_digit(n / 10) + spec_digit(n % 10)
}

/// The English name of the one-based month `m`.
pub open spec fn spec_month_name(m: int) -> Seq<char> {
    if m == 1 {
        "January"@
    } else if m == 2 {
        "February"@
    } else if m == 3 {
        "March"@
    } else if m == 4 {
        "April"@
    } else if m == 5 {
        "May"@
    } else if m == 6 {
        "June"@
    } else if m == 7 {
        "July"@
    } else if m == 8 {
        "August"@
    } else if m == 9 {
        "September"@
    } else if m == 10 {
        "October"@
    } else if m == 11 {
        "November"@
    } else {
        "December"@
    }
}

/// The "Month Day, Year" form of a timestamp, e.g. "March 4, 2024".
pub open spec fn date_text(t: DateTime) -> Seq<char> {
    spec_month_name(t.month as int) + " "@ + spec_decimal(t.day as int) + ", "@ + spec_decimal(
        t.year as int,
    )
}

/// The "HH:MM" form of a timestamp's time-of-day, e.g. "09:05".
pub open spec fn time_text(t: DateTime) -> Seq<char> {
    spec_two_decimal(t.hour as int) + ":"@ + spec_two_decimal(t.minute as int)
}

/// The single decimal digit `d` as a string slice.
fn digit_str(d: u32) -> (r: &'static str)
    requires
        d < 10,
    ensures
        r@ == spec_digit(d as int),
{
    if d == 0 {
        "0"
    } else if d == 1 {
        "1"
    } else if d == 2 {
        "2"
    } else if d == 3 {
        "3"
    } else if d == 4 {
        "4"
    } else if d == 5 {
        "5"
    } else if d == 6 {
        "6"
    } else if d == 7 {
        "7"
    } else if d == 8 {
        "8"
    } else {
        "9"
    }
}

/// Appends `n` in decimal to `s`.
fn push_decimal(s: &mut String, n: u32)
    ensures
        final(s)@ == old(s)@ + spec_decimal(n as int),
    decreases n,
{
    if n < 10 {
        s.append(digit_str(n));
    } else {
        push_decimal(s, n / 10);
        s.append(digit_str(n % 10));
        assert(old(s)@ + spec_decimal(n as int / 10) + spec_digit(n as int % 10) =~= old(s)@
            + spec_decimal(n as int));
    }
}

/// Appends `n` in decimal to `s`, zero-padded to two digits.
fn push_two_decimal(s: &mut String, n: u32)
    requires
        n < 100,
    ensures
        final(s)@ == old(s)@ + spec_two_decimal(n as int),
{
    s.append(digit_str(n / 10));
    s.append(digit_str(n % 10));
    assert(old(s)@ + spec_digit(n as int / 10) + spec_digit(n as int % 10) =~= old(s)@
        + spec_two_decimal(n as int));
}

/// The English name of the one-based month `m`.
pub fn month_name(m: u8) -> (r: &'static str)
    requires
        1 <= m <= 12,
    ensures
        r@ == spec_month_name(m as int),
{
    if m == 1 {
        "January"
    } else if m == 2 {
        "February"
    } else if m == 3 {
        "March"
    } else if m == 4 {
        "April"
    } else if m == 5 {
        "May"
    } else if m == 6 {
        "June"
    } else if m == 7 {
        "July"
    } else if m == 8 {
        "August"
    } else if m == 9 {
        "September"
    } else if m == 10 {
        "October"
    } else if m == 11 {
        "November"
    } else {
        "December"
    }
}

/// Formats a timestamp's calendar day as "Month Day, Year",
/// e.g. "March 4, 2024".
pub fn format_date(t: &DateTime) -> (r: String)
    requires
        t.wf(),
    ensures
        r@ == date_text(*t),
{
    let mut s = String::new();
    s.append(month_name(t.month));
    s.append(" ");
    push_decimal(&mut s, t.day as u32);
    s.append(", ");
    push_decimal(&mut s, t.year as u32);
    assert(s@ =~= date_text(*t));
    s
}

/// Formats a timestamp's time-of-day as "HH:MM", e.g. "09:05".
pub fn format_time(t: &DateTime) -> (r: String)
    requires
        t.wf(),
    ensures
        r@ == time_text(*t),
{
    let mut s = String::new();
    push_two_decimal(&mut s, t.hour as u32);
    s.append(":");
    push_two_decimal(&mut s, t.minute as u32);
    assert(s@ =~= time_text(*t));
    s
}

} // verus!
