//! Calendar dates and date times as query parameters take them.
use vstd::prelude::*;

use crate::text::{decimal, digit_char, push_char, write_decimal};

verus! {

/// The earliest year that a date can have.
pub const MIN_YEAR: i32 = -262143;

/// The latest year that a date can have.
pub const MAX_YEAR: i32 = 262142;

/// Whether a year of the proleptic Gregorian calendar is a leap year.
pub open spec fn is_leap_year(year: int) -> bool {
    year % 4 == 0 && (year % 100 != 0 || year % 400 == 0)
}

/// The number of days in a month of a year.
pub open spec fn days_in_month(year: int, month: int) -> int {
    if month == 2 {
        if is_leap_year(year) {
            29
        } else {
            28
        }
    } else if month == 4 || month == 6 || month == 9 || month == 11 {
        30
    } else {
        31
    }
}

/// Whether a year, month and day name a date of the calendar within the supported years.
pub open spec fn valid_date(year: int, month: int, day: int) -> bool {
    &&& MIN_YEAR <= year <= MAX_YEAR
    &&& 1 <= month <= 12
    &&& 1 <= day <= days_in_month(year, month)
}

/// A number with at least two digits, zero padded.
pub open spec fn pad2(n: nat) -> Seq<char> {
    if n < 10 {
        seq!['0'] + decimal(n)
    } else {
        decimal(n)
    }
}

/// A number with at least four digits, zero padded.
pub open spec fn pad4(n: nat) -> Seq<char> {
    if n < 10 {
        seq!['0', '0', '0'] + decimal(n)
    } else if n < 100 {
        seq!['0', '0'] + decimal(n)
    } else if n < 1000 {
        seq!['0'] + decimal(n)
    } else {
        decimal(n)
    }
}

/// A year as `%Y` writes it: four digits at least, and a sign before years outside 0 to 9999.
pub open spec fn year_text(year: int) -> Seq<char> {
    if 0 <= year <= 9999 {
        pad4(year as nat)
    } else if year < 0 {
        seq!['-'] + pad4((-year) as nat)
    } else {
        seq!['+'] + pad4(year as nat)
    }
}

/// A date as `%Y-%m-%d` writes it, e.g. `2025-05-10`.
pub open spec fn date_text(year: int, month: int, day: int) -> Seq<char> {
    year_text(year) + seq!['-'] + pad2(month as nat) + seq!['-'] + pad2(day as nat)
}

/// A date as `%y-%m-%d` writes it: the year modulo 100 in two digits, e.g. `25-05-10`.
pub open spec fn short_date_text(year: int, month: int, day: int) -> Seq<char> {
    pad2((year % 100) as nat) + seq!['-'] + pad2(month as nat) + seq!['-'] + pad2(day as nat)
}

/// A date and time as `%Y-%m-%d %H:%M:%S` writes it, e.g. `2024-12-01 10:59:45`.
pub open spec fn date_time_text(d: NaiveDate, hour: int, minute: int, second: int) -> Seq<char> {
    date_text(d.year_of(), d.month_of(), d.day_of()) + seq![' '] + pad2(hour as nat) + seq![':']
        + pad2(minute as nat) + seq![':'] + pad2(second as nat)
}

/// A date of the proleptic Gregorian calendar, without a time zone.
#[derive(Clone, Copy, Debug, PartialEq, Eq, Structural)]
pub struct NaiveDate {
    year: i32,
    month: u32,
    day: u32,
}

/// A date and a time of day, without a time zone.
#[derive(Clone, Copy, Debug, PartialEq, Eq, Structural)]
pub struct NaiveDateTime {
    date: NaiveDate,
    hour: u32,
    minute: u32,
    second: u32,
    nanosecond: u32,
}

/// Appends a number zero padded to two digits.
fn write_pad2(s: &mut String, n: u32)
    ensures
        final(s)@ == old(s)@ + pad2(n as nat),
{
    if n < 10 {
        push_char(s, '0');
    }
    write_decimal(s, n as u64);
    assert(final(s)@ =~= old(s)@ + pad2(n as nat));
}

/// Appends a number zero padded to four digits.
fn write_pad4(s: &mut String, n: u32)
    ensures
        final(s)@ == old(s)@ + pad4(n as nat),
{
    if n < 10 {
        push_char(s, '0');
        push_char(s, '0');
        push_char(s, '0');
    } else if n < 100 {
        push_char(s, '0');
        push_char(s, '0');
    } else if n < 1000 {
        push_char(s, '0');
    }
    write_decimal(s, n as u64);
    assert(final(s)@ =~= old(s)@ + pad4(n as nat));
}

impl NaiveDate {
    /// A date always names a day of the calendar in the supported years.
    #[verifier::type_invariant]
    spec fn valid(self) -> bool {
        valid_date(self.year as int, self.month as int, self.day as int)
    }

    /// The year of the date.
    pub closed spec fn year_of(&self) -> int {
        self.year as int
    }

    /// The month of the date, 1 to 12.
    pub closed spec fn month_of(&self) -> int {
        self.month as int
    }

    /// The day of the month, from 1.
    pub closed spec fn day_of(&self) -> int {
        self.day as int
    }

    /// The year of the date.
    pub fn year(&self) -> (y: i32)
        ensures
            y == self.year_of(),
            valid_date(self.year_of(), self.month_of(), self.day_of()),
    {
        proof {
            use_type_invariant(self);
        }
        self.year
    }

    /// The month of the date, 1 to 12.
    pub fn month(&self) -> (m: u32)
        ensures
            m == self.month_of(),
    {
        self.month
    }

    /// The day of the month, from 1.
    pub fn day(&self) -> (d: u32)
        ensures
            d == self.day_of(),
    {
        self.day
    }

    /// The date of a year, month and day, or `None` where no such date exists in the supported
    /// range of years.
    pub fn from_ymd_opt(year: i32, month: u32, day: u32) -> (r: Option<NaiveDate>)
        ensures
            r is Some <==> valid_date(year as int, month as int, day as int),
            r matches Some(d) ==> d.year_of() == year && d.month_of() == month && d.day_of() == day,
    {
        if year < MIN_YEAR || year > MAX_YEAR || month < 1 || month > 12 || day < 1 {
            return None;
        }
        let leap = year % 4 == 0 && (year % 100 != 0 || year % 400 == 0);
        proof {
            assert(leap == is_leap_year(year as int)) by {
                lemma_rust_rem_matches(year);
            }
        }
        let days: u32 = if month == 2 {
            if leap {
                29
            } else {
                28
            }
        } else if month == 4 || month == 6 || month == 9 || month == 11 {
            30
        } else {
            31
        };
        if day > days {
            None
        } else {
            Some(NaiveDate { year, month, day })
        }
    }

    /// The date as `%Y-%m-%d` writes it, e.g. `2025-05-10`.
    pub fn to_text(&self) -> (s: String)
        ensures
            s@ == date_text(self.year_of(), self.month_of(), self.day_of()),
    {
        let mut s = String::new();
        self.write_text(&mut s);
        s
    }

    /// The date as `%y-%m-%d` writes it, with the year modulo 100, e.g. `24-05-17`.
    pub fn to_short_text(&self) -> (s: String)
        ensures
            s@ == short_date_text(self.year_of(), self.month_of(), self.day_of()),
    {
        proof {
            use_type_invariant(self);
        }
        // Shifting by a multiple of 100 keeps the remainder and makes the year non-negative.
        let shifted: u64 = (self.year as i64 + 262200) as u64;
        let y: u32 = (shifted % 100) as u32;
        proof {
            let yr = self.year as int;
            assert((yr + 262200) % 100 == yr % 100) by (nonlinear_arith)
                requires yr >= -262143;
        }
        let mut s = String::new();
        write_pad2(&mut s, y);
        push_char(&mut s, '-');
        write_pad2(&mut s, self.month);
        push_char(&mut s, '-');
        write_pad2(&mut s, self.day);
        assert(s@ =~= short_date_text(self.year_of(), self.month_of(), self.day_of()));
        s
    }

    /// Appends the date as `%Y-%m-%d` writes it.
    pub fn write_text(&self, s: &mut String)
        ensures
            final(s)@ == old(s)@ + date_text(self.year_of(), self.month_of(), self.day_of()),
    {
        let y = self.year;
        if 0 <= y && y <= 9999 {
            write_pad4(s, y as u32);
        } else if y < 0 {
            push_char(s, '-');
            write_pad4(s, (0 - (y as i64)) as u32);
        } else {
            push_char(s, '+');
            write_pad4(s, y as u32);
        }
        push_char(s, '-');
        write_pad2(s, self.month);
        push_char(s, '-');
        write_pad2(s, self.day);
        assert(final(s)@ =~= old(s)@ + date_text(self.year_of(), self.month_of(), self.day_of()));
    }

    /// The date and time of day on this date, at the start of the second, or `None` where the
    /// hour, minute or second is out of range.
    pub fn and_hms_opt(&self, hour: u32, minute: u32, second: u32) -> (r: Option<NaiveDateTime>)
        ensures
            r is Some <==> (hour < 24 && minute < 60 && second < 60),
            r matches Some(t) ==> t.date_of() == *self && t.hour_of() == hour && t.minute_of()
                == minute && t.second_of() == second && t.nanosecond_of() == 0,
    {
        self.and_hms_nano_opt(hour, minute, second, 0)
    }

    /// The date and time of day on this date, with the nanoseconds into the second, or `None`
    /// where the hour, minute, second or nanosecond is out of range. A leap second is second 59
    /// with a nanosecond of 1,000,000,000 or more.
    pub fn and_hms_nano_opt(&self, hour: u32, minute: u32, second: u32, nanosecond: u32) -> (r:
        Option<NaiveDateTime>)
        ensures
            r is Some <==> (hour < 24 && minute < 60 && second < 60 && nanosecond < 2_000_000_000),
            r matches Some(t) ==> t.date_of() == *self && t.hour_of() == hour && t.minute_of()
                == minute && t.second_of() == second && t.nanosecond_of() == nanosecond,
    {
        if hour < 24 && minute < 60 && second < 60 && nanosecond < 2_000_000_000 {
            Some(NaiveDateTime { date: *self, hour, minute, second, nanosecond })
        } else {
            None
        }
    }
}

impl NaiveDateTime {
    /// A date time always has an hour, minute and second in range.
    #[verifier::type_invariant]
    spec fn valid(self) -> bool {
        self.hour < 24 && self.minute < 60 && self.second < 60 && self.nanosecond < 2_000_000_000
    }

    /// The date part.
    pub closed spec fn date_of(&self) -> NaiveDate {
        self.date
    }

    /// The hour of the day, 0 to 23.
    pub closed spec fn hour_of(&self) -> int {
        self.hour as int
    }

    /// The minute of the hour, 0 to 59.
    pub closed spec fn minute_of(&self) -> int {
        self.minute as int
    }

    /// The second of the minute, 0 to 59.
    pub closed spec fn second_of(&self) -> int {
        self.second as int
    }

    /// The nanoseconds into the second, 0 to 999,999,999, or up to 1,999,999,999 in a leap
    /// second.
    pub closed spec fn nanosecond_of(&self) -> int {
        self.nanosecond as int
    }

    /// The second as a text shows it: 60 in a leap second, else the second itself.
    pub open spec fn shown_second_of(&self) -> int {
        if self.nanosecond_of() >= 1_000_000_000 {
            self.second_of() + 1
        } else {
            self.second_of()
        }
    }

    /// The date part.
    pub fn date(&self) -> (d: NaiveDate)
        ensures
            d == self.date_of(),
    {
        self.date
    }

    /// The hour of the day, 0 to 23.
    pub fn hour(&self) -> (h: u32)
        ensures
            h == self.hour_of(),
            self.hour_of() < 24 && self.minute_of() < 60 && self.second_of() < 60
                && 0 <= self.nanosecond_of() < 2_000_000_000,
    {
        proof {
            use_type_invariant(self);
        }
        self.hour
    }

    /// The minute of the hour, 0 to 59.
    pub fn minute(&self) -> (m: u32)
        ensures
            m == self.minute_of(),
    {
        self.minute
    }

    /// The second of the minute, 0 to 59.
    pub fn second(&self) -> (s: u32)
        ensures
            s == self.second_of(),
    {
        self.second
    }

    /// The nanoseconds into the second, 0 to 999,999,999, or up to 1,999,999,999 in a leap
    /// second.
    pub fn nanosecond(&self) -> (n: u32)
        ensures
            n == self.nanosecond_of(),
    {
        self.nanosecond
    }

    /// The date and time as `%Y-%m-%d %H:%M:%S` writes it, e.g. `2024-12-01 10:59:45`; a leap
    /// second shows as second 60.
    pub fn to_text(&self) -> (s: String)
        ensures
            s@ == date_time_text(self.date_of(), self.hour_of(), self.minute_of(), self.shown_second_of()),
    {
        proof {
            use_type_invariant(self);
        }
        let shown: u32 = if self.nanosecond >= 1_000_000_000 {
            self.second + 1
        } else {
            self.second
        };
        let mut s = String::new();
        self.date.write_text(&mut s);
        push_char(&mut s, ' ');
        write_pad2(&mut s, self.hour);
        push_char(&mut s, ':');
        write_pad2(&mut s, self.minute);
        push_char(&mut s, ':');
        write_pad2(&mut s, shown);
        assert(s@ =~= date_time_text(self.date_of(), self.hour_of(), self.minute_of(), self.shown_second_of()));
        s
    }
}

/// Rust's remainder agrees with the Euclidean one on the divisibility tests of the leap rule.
proof fn lemma_rust_rem_matches(y: i32)
    ensures
        (y % 4 == 0) == ((y as int) % 4 == 0),
        (y % 100 == 0) == ((y as int) % 100 == 0),
        (y % 400 == 0) == ((y as int) % 400 == 0),
{
}

/// A number below 100, zero padded to two digits, is its tens digit then its units digit.
proof fn lemma_pad2_digits(n: nat)
    requires
        n < 100,
    ensures
        pad2(n) == seq![digit_char((n / 10) as int), digit_char((n % 10) as int)],
{
    if n < 10 {
        assert(decimal(n) == seq![digit_char(n as int)]);
        assert(digit_char(0) == '0');
        assert(pad2(n) =~= seq![digit_char((n / 10) as int), digit_char((n % 10) as int)]);
    } else {
        assert(n / 10 < 10);
        assert(decimal(n / 10) == seq![digit_char((n / 10) as int)]);
        assert(decimal(n) == decimal(n / 10).push(digit_char((n % 10) as int)));
        assert(pad2(n) =~= seq![digit_char((n / 10) as int), digit_char((n % 10) as int)]);
    }
}

/// A number below 10000, zero padded to four digits, is its thousands, hundreds, tens and
/// units digits.
proof fn lemma_pad4_digits(n: nat)
    requires
        n < 10000,
    ensures
        pad4(n) == seq![
            digit_char((n / 1000) as int),
            digit_char((n / 100 % 10) as int),
            digit_char((n / 10 % 10) as int),
            digit_char((n % 10) as int),
        ],
{
    let want = seq![
        digit_char((n / 1000) as int),
        digit_char((n / 100 % 10) as int),
        digit_char((n / 10 % 10) as int),
        digit_char((n % 10) as int),
    ];
    assert(digit_char(0) == '0');
    assert(n / 10 / 10 == n / 100 && n / 100 / 10 == n / 1000) by (nonlinear_arith);
    if n < 10 {
        assert(n / 1000 == 0 && n / 100 % 10 == 0 && n / 10 % 10 == 0 && n % 10 == n);
        assert(decimal(n) == seq![digit_char(n as int)]);
        assert(pad4(n) =~= want);
    } else if n < 100 {
        assert(n / 1000 == 0 && n / 100 % 10 == 0 && n / 10 % 10 == n / 10);
        lemma_pad2_digits(n);
        assert(pad2(n) == decimal(n));
        assert(pad4(n) =~= want);
    } else if n < 1000 {
        assert(n / 1000 == 0 && n / 100 % 10 == n / 100);
        assert(decimal(n / 100) == seq![digit_char((n / 100) as int)]);
        assert(decimal(n / 10) == decimal(n / 10 / 10).push(digit_char((n / 10 % 10) as int)));
        assert(decimal(n) == decimal(n / 10).push(digit_char((n % 10) as int)));
        assert(pad4(n) =~= want);
    } else {
        assert(decimal(n / 1000) == seq![digit_char((n / 1000) as int)]);
        assert(decimal(n / 100) == decimal(n / 100 / 10).push(digit_char((n / 100 % 10) as int)));
        assert(decimal(n / 10) == decimal(n / 10 / 10).push(digit_char((n / 10 % 10) as int)));
        assert(decimal(n) == decimal(n / 10).push(digit_char((n % 10) as int)));
        assert(pad4(n) =~= want);
    }
}

/// Law: a date of the years 0 to 9999 is written as `%Y-%m-%d` with the four digits of its
/// year, a dash, the two digits of its month, a dash and the two digits of its day; and as
/// `%y-%m-%d` with the last two digits of its year in place of the four.
pub proof fn law_date_texts_digits(year: int, month: int, day: int)
    requires
        0 <= year <= 9999,
        1 <= month <= 12,
        1 <= day <= 31,
    ensures
        date_text(year, month, day) == seq![
            digit_char(year / 1000),
            digit_char(year / 100 % 10),
            digit_char(year / 10 % 10),
            digit_char(year % 10),
            '-',
            digit_char(month / 10),
            digit_char(month % 10),
            '-',
            digit_char(day / 10),
            digit_char(day % 10),
        ],
        short_date_text(year, month, day) == seq![
            digit_char(year / 10 % 10),
            digit_char(year % 10),
            '-',
            digit_char(month / 10),
            digit_char(month % 10),
            '-',
            digit_char(day / 10),
            digit_char(day % 10),
        ],
{
    lemma_pad4_digits(year as nat);
    lemma_pad2_digits(month as nat);
    lemma_pad2_digits(day as nat);
    lemma_pad2_digits((year % 100) as nat);
    assert(year % 100 / 10 == year / 10 % 10 && year % 100 % 10 == year % 10) by (nonlinear_arith)
        requires
            0 <= year;
}

} // verus!
