//! Calendar dates: which (year, month, day) triples exist in the proleptic
//! Gregorian calendar that `chrono` uses, their order, and the few date
//! computations the report periods need.
use vstd::prelude::*;

use chrono::Datelike;

use crate::decimal::padded_digits;
use crate::text::nat_text;
use crate::transactions::TradeDate;

verus! {

/// The first year `chrono::NaiveDate` can hold.
pub const MIN_YEAR: i32 = -262143;

/// The last year `chrono::NaiveDate` can hold.
pub const MAX_YEAR: i32 = 262142;

pub open spec fn is_leap_year(y: int) -> bool {
    y % 4 == 0 && (y % 100 != 0 || y % 400 == 0)
}

pub open spec fn days_in_month(y: int, m: int) -> int {
    if m == 2 {
        if is_leap_year(y) {
            29
        } else {
            28
        }
    } else if m == 4 || m == 6 || m == 9 || m == 11 {
        30
    } else {
        31
    }
}

/// Whether the triple names a day that `chrono::NaiveDate` can hold.
pub open spec fn is_calendar_date(y: int, m: int, d: int) -> bool {
    &&& MIN_YEAR <= y <= MAX_YEAR
    &&& 1 <= m <= 12
    &&& 1 <= d <= days_in_month(y, m)
}

pub open spec fn valid_date(t: TradeDate) -> bool {
    is_calendar_date(t.year as int, t.month as int, t.day as int)
}

/// Chronological order: `a` is strictly earlier than `b`.
pub open spec fn date_lt(a: TradeDate, b: TradeDate) -> bool {
    ||| a.year < b.year
    ||| a.year == b.year && a.month < b.month
    ||| a.year == b.year && a.month == b.month && a.day < b.day
}

/// Whether `a` falls after `b`.
pub fn date_after(a: TradeDate, b: TradeDate) -> (r: bool)
    ensures
        r == date_lt(b, a),
{
    if a.year != b.year {
        a.year > b.year
    } else if a.month != b.month {
        a.month > b.month
    } else {
        a.day > b.day
    }
}

/// `chrono::NaiveDate::from_ymd_opt`: the date with the given year, month
/// and day, or `None` when no such day exists or the year is out of range.
#[verifier::external_body]
pub(crate) fn calendar_date(year: i32, month: u32, day: u32) -> (r: Option<TradeDate>)
    ensures
        is_calendar_date(year as int, month as int, day as int) ==> r == Some(
            TradeDate { year, month, day },
        ),
        !is_calendar_date(year as int, month as int, day as int) ==> r is None,
{
    match chrono::NaiveDate::from_ymd_opt(year, month, day) {
        Some(date) => Some(TradeDate { year: date.year(), month: date.month(), day: date.day() }),
        None => None,
    }
}

/// `chrono::Datelike::with_year` on a date: the same month and day in
/// another year, or `None` when that day does not exist there.
#[verifier::external_body]
pub(crate) fn with_year(date: TradeDate, year: i32) -> (r: Option<TradeDate>)
    requires
        valid_date(date),
    ensures
        is_calendar_date(year as int, date.month as int, date.day as int) ==> r == Some(
            TradeDate { year, month: date.month, day: date.day },
        ),
        !is_calendar_date(year as int, date.month as int, date.day as int) ==> r is None,
{
    let current = chrono::NaiveDate::from_ymd_opt(date.year, date.month, date.day).unwrap();
    match current.with_year(year) {
        Some(d) => Some(TradeDate { year: d.year(), month: d.month(), day: d.day() }),
        None => None,
    }
}

/// Days in year `y`.
pub open spec fn days_in_year(y: int) -> int {
    if is_leap_year(y) {
        366
    } else {
        365
    }
}

/// Days in year `y` before the first of month `m`.
pub open spec fn days_before_month(y: int, m: int) -> int
    decreases m,
{
    if m <= 1 {
        0
    } else {
        days_before_month(y, m - 1) + days_in_month(y, m - 1)
    }
}

/// Days from 1 January of year 1 to 1 January of year `y`.
pub open spec fn year_start(y: int) -> int {
    365 * (y - 1) + (y - 1) / 4 - (y - 1) / 100 + (y - 1) / 400
}

/// The number of a day, counting 1 January of year 1 as day zero.
pub open spec fn day_number(t: TradeDate) -> int {
    year_start(t.year as int) + days_before_month(t.year as int, t.month as int) + t.day - 1
}

#[verifier::spinoff_prover]
proof fn lemma_year_start_step(y: int)
    ensures
        year_start(y + 1) == year_start(y) + days_in_year(y),
{
    let x = y - 1;
    assert((x + 1) / 4 - x / 4 == (if y % 4 == 0 {
        1int
    } else {
        0int
    }));
    assert((x + 1) / 100 - x / 100 == (if y % 100 == 0 {
        1int
    } else {
        0int
    }));
    assert((x + 1) / 400 - x / 400 == (if y % 400 == 0 {
        1int
    } else {
        0int
    }));
}

proof fn lemma_year_start_monotone(a: int, b: int)
    requires
        a <= b,
    ensures
        year_start(a) <= year_start(b),
    decreases b - a,
{
    if a < b {
        lemma_year_start_step(a);
        lemma_year_start_monotone(a + 1, b);
    }
}

proof fn lemma_days_before_month_monotone(y: int, a: int, b: int)
    requires
        1 <= a <= b,
    ensures
        days_before_month(y, a) <= days_before_month(y, b),
    decreases b - a,
{
    if a < b {
        lemma_days_before_month_monotone(y, a, b - 1);
    }
}

proof fn lemma_day_within_year(t: TradeDate)
    requires
        valid_date(t),
    ensures
        year_start(t.year as int) <= day_number(t) < year_start(t.year + 1),
{
    let y = t.year as int;
    let m = t.month as int;
    lemma_year_start_step(y);
    lemma_days_before_month_monotone(y, m + 1, 13);
    reveal_with_fuel(days_before_month, 13);
    assert(days_before_month(y, 13) == days_in_year(y));
}

/// Later days have larger numbers.
pub proof fn lemma_day_number_increases(a: TradeDate, b: TradeDate)
    requires
        valid_date(a),
        valid_date(b),
        date_lt(a, b),
    ensures
        day_number(a) < day_number(b),
{
    lemma_day_within_year(a);
    lemma_day_within_year(b);
    if a.year < b.year {
        lemma_year_start_monotone(a.year + 1, b.year as int);
    } else if a.month < b.month {
        lemma_days_before_month_monotone(a.year as int, a.month + 1, b.month as int);
    }
}

/// A valid day is determined by its number.
pub proof fn lemma_day_number_determines_date(a: TradeDate, b: TradeDate)
    requires
        valid_date(a),
        valid_date(b),
        day_number(a) == day_number(b),
    ensures
        a == b,
{
    if date_lt(a, b) {
        lemma_day_number_increases(a, b);
    } else if date_lt(b, a) {
        lemma_day_number_increases(b, a);
    }
}

/// `date - chrono::Duration::days(days)`: the contract claims the result is
/// the valid day whose number is `days` less. The bounds keep the result
/// inside chrono's range, where the subtraction does not panic.
#[verifier::external_body]
pub(crate) fn days_before(date: TradeDate, days: i64) -> (r: TradeDate)
    requires
        valid_date(date),
        date.year > MIN_YEAR,
        0 <= days <= 365,
    ensures
        valid_date(r),
        day_number(r) == day_number(date) - days,
{
    let d = chrono::NaiveDate::from_ymd_opt(date.year, date.month, date.day).unwrap()
        - chrono::Duration::days(days);
    TradeDate { year: d.year(), month: d.month(), day: d.day() }
}

/// The year as `%Y` writes it: four digits, zero-padded, for years 0 to
/// 9999; otherwise a sign and at least four digits.
pub open spec fn year_text(y: int) -> Seq<char> {
    let a: nat = if y < 0 {
        (-y) as nat
    } else {
        y as nat
    };
    let digits = if a < 10000 {
        padded_digits(a, 4)
    } else {
        nat_text(a)
    };
    if 0 <= y <= 9999 {
        digits
    } else if y < 0 {
        seq!['-'] + digits
    } else {
        seq!['+'] + digits
    }
}

/// The text of a date in `%Y-%m-%d`: the year, then month and day as two
/// digits each.
pub open spec fn ymd_text(y: int, m: int, d: int) -> Seq<char> {
    year_text(y) + seq!['-'] + padded_digits(m as nat, 2) + seq!['-'] + padded_digits(d as nat, 2)
}

/// `NaiveDate::format("%Y-%m-%d")`, the form dates take in responses: the
/// contract claims chrono's padding, a four-digit year for years 0 to 9999
/// (signed otherwise) and two-digit month and day.
#[verifier::external_body]
pub(crate) fn format_ymd(date: TradeDate) -> (s: String)
    requires
        valid_date(date),
    ensures
        s@ == ymd_text(date.year as int, date.month as int, date.day as int),
{
    let d = chrono::NaiveDate::from_ymd_opt(date.year, date.month, date.day).unwrap();
    d.format("%Y-%m-%d").to_string()
}

/// Whether every character is an ASCII digit.
pub open spec fn all_digits(s: Seq<char>) -> bool {
    forall|i: int| 0 <= i < s.len() ==> '0' <= #[trigger] s[i] && s[i] <= '9'
}

/// The fraction of a second chrono writes: nothing, or a dot and three, six
/// or nine digits.
pub open spec fn second_fraction(f: Seq<char>) -> bool {
    f.len() == 0 || (f[0] == '.' && (f.len() == 4 || f.len() == 7 || f.len() == 10) && all_digits(
        f.skip(1),
    ))
}

/// An RFC 3339 UTC timestamp as chrono's `to_rfc3339` writes it: a calendar
/// date, `T`, hours, minutes and seconds (a leap second may read 60), an
/// optional fraction, and the `+00:00` offset.
pub open spec fn rfc3339_utc_text(s: Seq<char>) -> bool {
    exists|y: int, mo: int, d: int, h: nat, mi: nat, sec: nat, frac: Seq<char>|
        #![trigger ymd_text(y, mo, d), padded_digits(h, 2), padded_digits(mi, 2), padded_digits(sec, 2), second_fraction(frac)]
        is_calendar_date(y, mo, d) && h < 24 && mi < 60 && sec <= 60 && second_fraction(frac) && s
            == ymd_text(y, mo, d) + seq!['T'] + padded_digits(h, 2) + seq![':'] + padded_digits(mi, 2)
            + seq![':'] + padded_digits(sec, 2) + frac + "+00:00"@
}

/// `chrono::Utc::now().to_rfc3339()`: the current instant, the form stored in
/// timestamp columns and refresh run records. Which instant depends on the
/// clock; the contract claims only the form chrono writes it in (RFC 3339,
/// UTC offset `+00:00`, fraction by `SecondsFormat::AutoSi`).
#[verifier::external_body]
pub fn now_iso8601() -> (s: String)
    ensures
        rfc3339_utc_text(s@),
{
    chrono::Utc::now().to_rfc3339()
}

} // verus!
