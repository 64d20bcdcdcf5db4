//! Calendar dates (a user's date of birth), backed by `chrono::NaiveDate`.

use chrono::Datelike;
use vstd::prelude::*;

verus! {

/// Smallest year `chrono::NaiveDate` accepts.
pub open spec fn min_year() -> int {
    -262143
}

/// Largest year `chrono::NaiveDate` accepts.
pub open spec fn max_year() -> int {
    262142
}

/// Proleptic Gregorian leap years.
pub open spec fn is_leap_year(y: int) -> bool {
    y % 4 == 0 && (y % 100 != 0 || y % 400 == 0)
}

/// Number of days of month `m` (1 to 12) in year `y`.
pub open spec fn days_in_month(y: int, m: int) -> int {
    if m == 2 {
        if is_leap_year(y) {
            29
        } else {
            28
        }
    } else if m == 4 || m == 6 || m == 9 || m == 11 {
        30
    } else {
        31
    }
}

/// The calendar dates that `chrono::NaiveDate::from_ymd_opt` accepts.
pub open spec fn valid_ymd(y: int, m: int, d: int) -> bool {
    &&& min_year() <= y <= max_year()
    &&& 1 <= m <= 12
    &&& 1 <= d <= days_in_month(y, m)
}

/// The decimal digit character of `n` (`0 <= n < 10`).
pub open spec fn digit_char(n: int) -> char {
    (n + 48) as char
}

/// Two decimal digits of `n` (`0 <= n < 100`), zero padded.
pub open spec fn two_digits(n: int) -> Seq<char> {
    seq![digit_char(n / 10), digit_char(n % 10)]
}

/// The decimal digits of `n`, without leading zeros.
pub open spec fn decimal(n: nat) -> Seq<char>
    decreases n,
{
    if n < 10 {
        seq![digit_char(n as int)]
    } else {
        decimal(n / 10).push(digit_char((n % 10) as int))
    }
}

/// `s` padded on the left with `'0'` to at least `w` characters.
pub open spec fn zero_pad(s: Seq<char>, w: nat) -> Seq<char> {
    if s.len() >= w {
        s
    } else {
        Seq::new((w - s.len()) as nat, |i: int| '0') + s
    }
}

/// The year as `NaiveDate` writes it: four digits for years 0 to 9999,
/// otherwise an explicit sign followed by at least four digits.
pub open spec fn year_text(y: int) -> Seq<char> {
    if 0 <= y <= 9999 {
        two_digits(y / 100) + two_digits(y % 100)
    } else {
        seq![if y < 0 { '-' } else { '+' }] + zero_pad(decimal((if y < 0 { -y } else { y }) as nat), 4)
    }
}

/// The `%Y-%m-%d` text of a date, as `NaiveDate`'s `Display` writes it.
pub open spec fn iso_date_text(y: int, m: int, d: int) -> Seq<char> {
    year_text(y) + seq!['-'] + two_digits(m) + seq!['-'] + two_digits(d)
}

/// What `chrono::NaiveDate::parse_from_str(s, "%Y-%m-%d")` yields, as year,
/// month and day.
pub uninterp spec fn chrono_parse_ymd(s: Seq<char>) -> Option<(i32, u32, u32)>;

/// Whether `chrono::NaiveDate::from_ymd_opt(y, m, d)` gives a date; its
/// documentation lists the cases (month or day out of range, a day the month
/// lacks, a year out of range), which `valid_ymd` states.
#[verifier::external_body]
fn ymd_is_valid(y: i32, m: u32, d: u32) -> (ok: bool)
    ensures
        ok == valid_ymd(y as int, m as int, d as int),
{
    chrono::NaiveDate::from_ymd_opt(y, m, d).is_some()
}

/// Writes a valid date with `NaiveDate`'s `Display` impl (its `Debug` impl:
/// the year, then zero-padded month and day, separated by `-`). The text is
/// read back by `parse_from_str` with `%Y-%m-%d`: there `%Y` takes four
/// digits, or all the digits after an explicit sign, and month and day take
/// two digits each.
#[verifier::external_body]
fn ymd_text(y: i32, m: u32, d: u32) -> (s: String)
    requires
        valid_ymd(y as int, m as int, d as int),
    ensures
        s@ == iso_date_text(y as int, m as int, d as int),
        chrono_parse_ymd(s@) == Some((y, m, d)),
{
    chrono::NaiveDate::from_ymd_opt(y, m, d).unwrap().to_string()
}

/// Parses `s` with `chrono::NaiveDate::parse_from_str(s, "%Y-%m-%d")`; a
/// parsed value is a date that `NaiveDate` holds, so it is valid.
#[verifier::external_body]
fn parse_ymd(s: &str) -> (r: Option<(i32, u32, u32)>)
    ensures
        r == chrono_parse_ymd(s@),
        r matches Some(t) ==> valid_ymd(t.0 as int, t.1 as int, t.2 as int),
{
    chrono::NaiveDate::parse_from_str(s, "%Y-%m-%d").ok().map(|d| (d.year(), d.month(), d.day()))
}

/// A valid calendar date.
#[derive(Clone, Copy, Debug, PartialEq, Eq)]
pub struct Date {
    year: i32,
    month: u32,
    day: u32,
}

impl View for Date {
    type V = (i32, u32, u32);

    closed spec fn view(&self) -> (i32, u32, u32) {
        (self.year, self.month, self.day)
    }
}

impl Date {
    #[verifier::type_invariant]
    spec fn inv(self) -> bool {
        valid_ymd(self.year as int, self.month as int, self.day as int)
    }

    /// The date `y-m-d`, or `None` where the calendar has no such day.
    pub fn from_ymd_opt(y: i32, m: u32, d: u32) -> (r: Option<Date>)
        ensures
            r is Some <==> valid_ymd(y as int, m as int, d as int),
            r matches Some(date) ==> date@ == (y, m, d),
    {
        if ymd_is_valid(y, m, d) {
            Some(Date { year: y, month: m, day: d })
        } else {
            None
        }
    }

    /// The first of January 1970, used where a stored date cannot be read.
    pub fn epoch() -> (r: Date)
        ensures
            r@ == (1970i32, 1u32, 1u32),
    {
        Date { year: 1970, month: 1, day: 1 }
    }

    pub fn year(&self) -> (r: i32)
        ensures
            r == self@.0,
    {
        self.year
    }

    pub fn month(&self) -> (r: u32)
        ensures
            r == self@.1,
    {
        self.month
    }

    pub fn day(&self) -> (r: u32)
        ensures
            r == self@.2,
    {
        self.day
    }

    /// The `%Y-%m-%d` text of the date.
    pub fn to_iso_string(&self) -> (s: String)
        ensures
            s@ == iso_date_text(self@.0 as int, self@.1 as int, self@.2 as int),
            chrono_parse_ymd(s@) == Some(self@),
    {
        proof {
            use_type_invariant(self);
        }
        ymd_text(self.year, self.month, self.day)
    }

    /// Reads a `%Y-%m-%d` date.
    pub fn parse_iso(s: &str) -> (r: Option<Date>)
        ensures
            match chrono_parse_ymd(s@) {
                Some(t) => r matches Some(d) && d@ == t,
                None => r is None,
            },
    {
        match parse_ymd(s) {
            Some((y, m, d)) => Some(Date { year: y, month: m, day: d }),
            None => None,
        }
    }
}

} // verus!
