//! Calendar dates and the text by which a note is named after one.

use chrono::Datelike;
use vstd::pervasive::unreached;
use vstd::prelude::*;

verus! {

/// First year of the calendar that the library can name.
pub const MIN_YEAR: i32 = -262143;

/// Last year of the calendar that the library can name.
pub const MAX_YEAR: i32 = 262142;

/// Whether `year` has a 29th of February in the proleptic Gregorian calendar.
pub open spec fn is_leap_year(year: int) -> bool {
    year % 4 == 0 && (year % 100 != 0 || year % 400 == 0)
}

/// Number of days of `month` in `year`; 0 where `month` is no month.
pub open spec fn days_in_month(year: int, month: int) -> int {
    if month == 2 {
        if is_leap_year(year) {
            29
        } else {
            28
        }
    } else if month == 4 || month == 6 || month == 9 || month == 11 {
        30
    } else if 1 <= month <= 12 {
        31
    } else {
        0
    }
}

/// Whether year, month and day name a day of the calendar.
pub open spec fn is_calendar_date(year: int, month: int, day: int) -> bool {
    &&& MIN_YEAR <= year <= MAX_YEAR
    &&& 1 <= month <= 12
    &&& 1 <= day <= days_in_month(year, month)
}

/// The character that writes the decimal digit `d`.
pub open spec fn digit_char(d: int) -> char {
    if d == 0 {
        '0'
    } else if d == 1 {
        '1'
    } else if d == 2 {
        '2'
    } else if d == 3 {
        '3'
    } else if d == 4 {
        '4'
    } else if d == 5 {
        '5'
    } else if d == 6 {
        '6'
    } else if d == 7 {
        '7'
    } else if d == 8 {
        '8'
    } else {
        '9'
    }
}

/// `n` in decimal, most significant digit first, with zeros in front until
/// there are at least `width` digits.
pub open spec fn padded_decimal(n: nat, width: nat) -> Seq<char>
    decreases n, width,
{
    if n < 10 && width <= 1 {
        seq![digit_char(n as int)]
    } else {
        let narrower = if width > 0 {
            (width - 1) as nat
        } else {
            0
        };
        padded_decimal(n / 10, narrower).push(digit_char((n % 10) as int))
    }
}

/// A year as text: four digits for the years 0 to 9999; beyond them a sign,
/// then the digits of the year's magnitude, four at the least.
pub open spec fn year_text(year: int) -> Seq<char> {
    if year < 0 {
        seq!['-'] + padded_decimal((-year) as nat, 4)
    } else if year > 9999 {
        seq!['+'] + padded_decimal(year as nat, 4)
    } else {
        padded_decimal(year as nat, 4)
    }
}

/// A date as text: the year, a hyphen, two digits of month, a hyphen, two
/// digits of day.
pub open spec fn date_text(year: int, month: int, day: int) -> Seq<char> {
    year_text(year) + seq!['-'] + padded_decimal(month as nat, 2) + seq!['-'] + padded_decimal(
        day as nat,
        2,
    )
}

/// Whether `c` is one of the ten decimal digits.
pub open spec fn is_digit(c: char) -> bool {
    '0' <= c <= '9'
}

/// What a [`LocalDate`] stands for.
pub struct DateView {
    pub year: int,
    pub month: int,
    pub day: int,
}

/// A day of the calendar, as the local clock counts it.
#[derive(Clone, Copy, Debug, PartialEq, Eq)]
pub struct LocalDate {
    year: i32,
    month: u32,
    day: u32,
}

impl View for LocalDate {
    type V = DateView;

    closed spec fn view(&self) -> DateView {
        DateView { year: self.year as int, month: self.month as int, day: self.day as int }
    }
}

impl LocalDate {
    #[verifier::type_invariant]
    spec fn on_calendar(self) -> bool {
        is_calendar_date(self.year as int, self.month as int, self.day as int)
    }

    /// The date with these numbers, where the calendar has such a day.
    pub fn new(year: i32, month: u32, day: u32) -> (made: Option<LocalDate>)
        ensures
            made is Some <==> is_calendar_date(year as int, month as int, day as int),
            made matches Some(date) ==> date@ == (DateView {
                year: year as int,
                month: month as int,
                day: day as int,
            }),
    {
        if MIN_YEAR <= year && year <= MAX_YEAR && 1 <= month && month <= 12 && 1 <= day && day
            <= month_length(year, month) {
            Some(LocalDate { year, month, day })
        } else {
            None
        }
    }

    /// Today, by the local clock.
    pub fn today() -> (date: LocalDate)
        ensures
            is_calendar_date(date@.year, date@.month, date@.day),
    {
        let (year, month, day) = local_today();
        LocalDate { year, month, day }
    }

    /// The date written out, as [`date_text`] gives it.
    pub fn text(&self) -> (text: String)
        ensures
            text@ == date_text(self@.year, self@.month, self@.day),
    {
        proof {
            use_type_invariant(self);
        }
        match format_ymd(self.year, self.month, self.day) {
            Some(text) => text,
            None => unreached(),
        }
    }

    /// The year, between [`MIN_YEAR`] and [`MAX_YEAR`].
    pub fn year(&self) -> (year: i32)
        ensures
            year == self@.year,
            MIN_YEAR <= year <= MAX_YEAR,
    {
        proof {
            use_type_invariant(self);
        }
        self.year
    }

    /// The month, from 1 for January to 12 for December.
    pub fn month(&self) -> (month: u32)
        ensures
            month == self@.month,
            1 <= month <= 12,
    {
        proof {
            use_type_invariant(self);
        }
        self.month
    }

    /// The day of the month, from 1 to the month's last.
    pub fn day(&self) -> (day: u32)
        ensures
            day == self@.day,
            1 <= day <= days_in_month(self@.year, self@.month),
    {
        proof {
            use_type_invariant(self);
        }
        self.day
    }
}

/// Whether `year` has a 29th of February.
pub fn leap_year(year: i32) -> (leap: bool)
    ensures
        leap == is_leap_year(year as int),
{
    year % 4 == 0 && (year % 100 != 0 || year % 400 == 0)
}

/// Number of days of `month` in `year`; 0 where `month` is no month.
pub fn month_length(year: i32, month: u32) -> (days: u32)
    ensures
        days == days_in_month(year as int, month as int),
{
    if month == 2 {
        if leap_year(year) {
            29
        } else {
            28
        }
    } else if month == 4 || month == 6 || month == 9 || month == 11 {
        30
    } else if 1 <= month && month <= 12 {
        31
    } else {
        0
    }
}

/// Calls `chrono::Local::now` and keeps the calendar date of the moment it
/// returns, in the machine's time zone.
///
/// Not proved: trusted of chrono is that the `NaiveDate` it hands out is a day
/// that exists, in a year chrono can count. Which day it is depends on the
/// clock and the time zone, so nothing more is said. chrono itself stops the
/// process where the clock reads before 1970 or past the calendar's end, or
/// where it cannot tell the zone's offset.
#[verifier::external_body]
fn local_today() -> (ymd: (i32, u32, u32))
    ensures
        is_calendar_date(ymd.0 as int, ymd.1 as int, ymd.2 as int),
{
    let today = chrono::Local::now().date_naive();
    (today.year(), today.month(), today.day())
}

/// Calls `chrono::NaiveDate::from_ymd_opt` on the three numbers and, where it
/// makes a date of them, `chrono::NaiveDate::format` with the pattern
/// `%Y-%m-%d`.
///
/// Not proved: trusted of chrono is that `from_ymd_opt` makes a date of
/// exactly the days of the calendar; that `%Y` writes the year as
/// [`year_text`] says, and `%m` and `%d` two digits each; and that the hyphens
/// are copied.
#[verifier::external_body]
fn format_ymd(year: i32, month: u32, day: u32) -> (text: Option<String>)
    ensures
        text is Some <==> is_calendar_date(year as int, month as int, day as int),
        text matches Some(written) ==> written@ == date_text(
            year as int,
            month as int,
            day as int,
        ),
{
    match chrono::NaiveDate::from_ymd_opt(year, month, day) {
        Some(date) => Some(date.format("%Y-%m-%d").to_string()),
        None => None,
    }
}

/// A number below ten thousand is written with exactly four digits, and one
/// below a hundred, two digits wide, with exactly two.
proof fn lemma_fixed_width(n: nat)
    ensures
        n <= 9999 ==> padded_decimal(n, 4) == seq![
            digit_char(n as int / 1000),
            digit_char(n as int / 100 % 10),
            digit_char(n as int / 10 % 10),
            digit_char(n as int % 10),
        ],
        n <= 99 ==> padded_decimal(n, 2) == seq![
            digit_char(n as int / 10),
            digit_char(n as int % 10),
        ],
{
    reveal_with_fuel(padded_decimal, 5);
    if n <= 9999 {
        assert(padded_decimal(n, 4) =~= seq![
            digit_char(n as int / 1000),
            digit_char(n as int / 100 % 10),
            digit_char(n as int / 10 % 10),
            digit_char(n as int % 10),
        ]);
    }
    if n <= 99 {
        assert(padded_decimal(n, 2) =~= seq![digit_char(n as int / 10), digit_char(n as int % 10)]);
    }
}

/// For the years 0 to 9999 a date is written in ten characters: four digits
/// of year, a hyphen, two digits of month, a hyphen, two digits of day.
pub proof fn lemma_date_text_format(year: int, month: int, day: int)
    requires
        is_calendar_date(year, month, day),
        0 <= year <= 9999,
    ensures
        date_text(year, month, day) == seq![
            digit_char(year / 1000),
            digit_char(year / 100 % 10),
            digit_char(year / 10 % 10),
            digit_char(year % 10),
            '-',
            digit_char(month / 10),
            digit_char(month % 10),
            '-',
            digit_char(day / 10),
            digit_char(day % 10),
        ],
        date_text(year, month, day).len() == 10,
        forall|i: int|
            0 <= i < 10 && i != 4 && i != 7 ==> is_digit(#[trigger] date_text(year, month, day)[i]),
{
    lemma_fixed_width(year as nat);
    lemma_fixed_width(month as nat);
    lemma_fixed_width(day as nat);
    assert(date_text(year, month, day) =~= seq![
        digit_char(year / 1000),
        digit_char(year / 100 % 10),
        digit_char(year / 10 % 10),
        digit_char(year % 10),
        '-',
        digit_char(month / 10),
        digit_char(month % 10),
        '-',
        digit_char(day / 10),
        digit_char(day % 10),
    ]);
}

/// The number that the digit `c` writes.
spec fn digit_value(c: char) -> int {
    if c == '0' {
        0
    } else if c == '1' {
        1
    } else if c == '2' {
        2
    } else if c == '3' {
        3
    } else if c == '4' {
        4
    } else if c == '5' {
        5
    } else if c == '6' {
        6
    } else if c == '7' {
        7
    } else if c == '8' {
        8
    } else {
        9
    }
}

/// The number that a row of digits writes in decimal.
spec fn decimal_value(digits: Seq<char>) -> int
    decreases digits.len(),
{
    if digits.len() == 0 {
        0
    } else {
        decimal_value(digits.drop_last()) * 10 + digit_value(digits.last())
    }
}

/// What [`padded_decimal`] writes is at least `width` digits, never none, and
/// reads back as the number written.
proof fn lemma_decimal_reads_back(n: nat, width: nat)
    ensures
        padded_decimal(n, width).len() >= 1,
        padded_decimal(n, width).len() >= width,
        forall|i: int|
            0 <= i < padded_decimal(n, width).len() ==> is_digit(
                #[trigger] padded_decimal(n, width)[i],
            ),
        decimal_value(padded_decimal(n, width)) == n,
    decreases n, width,
{
    let written = padded_decimal(n, width);
    if n < 10 && width <= 1 {
        assert(written.drop_last() =~= Seq::<char>::empty());
        assert(decimal_value(written.drop_last()) == 0);
    } else {
        let narrower = if width > 0 {
            (width - 1) as nat
        } else {
            0
        };
        let front = padded_decimal(n / 10, narrower);
        lemma_decimal_reads_back(n / 10, narrower);
        assert(written.drop_last() =~= front);
        assert(written.last() == digit_char((n % 10) as int));
    }
}

/// Two years that are written alike are the same year.
proof fn lemma_year_text_tells_year(a: int, b: int)
    requires
        year_text(a) == year_text(b),
    ensures
        a == b,
{
    let (ta, tb) = (year_text(a), year_text(b));
    let (ma, mb) = (if a < 0 { -a } else { a }, if b < 0 { -b } else { b });
    let (da, db) = (padded_decimal(ma as nat, 4), padded_decimal(mb as nat, 4));
    lemma_decimal_reads_back(ma as nat, 4);
    lemma_decimal_reads_back(mb as nat, 4);
    assert(is_digit(da[0]) && is_digit(db[0]));
    let signed_a = a < 0 || a > 9999;
    let signed_b = b < 0 || b > 9999;
    assert(ta[0] == if a < 0 { '-' } else if a > 9999 { '+' } else { da[0] });
    assert(tb[0] == if b < 0 { '-' } else if b > 9999 { '+' } else { db[0] });
    assert(signed_a == signed_b && (a < 0) == (b < 0));
    if signed_a {
        assert(da =~= ta.subrange(1, ta.len() as int));
        assert(db =~= tb.subrange(1, tb.len() as int));
    }
    assert(da == db);
}

/// Two days of the calendar that are written alike are the same day.
pub proof fn lemma_date_text_tells_date(a: DateView, b: DateView)
    requires
        is_calendar_date(a.year, a.month, a.day),
        is_calendar_date(b.year, b.month, b.day),
        date_text(a.year, a.month, a.day) == date_text(b.year, b.month, b.day),
    ensures
        a == b,
{
    let text = date_text(a.year, a.month, a.day);
    let len = text.len() as int;
    lemma_fixed_width(a.month as nat);
    lemma_fixed_width(a.day as nat);
    lemma_fixed_width(b.month as nat);
    lemma_fixed_width(b.day as nat);
    assert(year_text(a.year) =~= text.subrange(0, len - 6));
    assert(year_text(b.year) =~= text.subrange(0, len - 6));
    lemma_year_text_tells_year(a.year, b.year);
    assert(padded_decimal(a.month as nat, 2) =~= text.subrange(len - 5, len - 3));
    assert(padded_decimal(b.month as nat, 2) =~= text.subrange(len - 5, len - 3));
    assert(padded_decimal(a.day as nat, 2) =~= text.subrange(len - 2, len));
    assert(padded_decimal(b.day as nat, 2) =~= text.subrange(len - 2, len));
    lemma_decimal_reads_back(a.month as nat, 2);
    lemma_decimal_reads_back(b.month as nat, 2);
    lemma_decimal_reads_back(a.day as nat, 2);
    lemma_decimal_reads_back(b.day as nat, 2);
}

} // verus!
