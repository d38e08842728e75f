use vstd::prelude::*;

use chrono::Datelike;

use crate::text::{trim, trimmed};

verus! {

/// Smallest calendar year that the underlying date library can represent.
pub const MIN_YEAR: i32 = -262143;

/// Largest calendar year that the underlying date library can represent.
pub const MAX_YEAR: i32 = 262142;

/// Proleptic Gregorian leap-year rule.
pub open spec fn is_leap_year(year: int) -> bool {
    (year % 4 == 0 && year % 100 != 0) || year % 400 == 0
}

/// Number of days in `month` (1..=12) of `year`.
pub open spec fn days_in_month(year: int, month: int) -> int {
    if month == 2 {
        if is_leap_year(year) { 29 } else { 28 }
    } else if month == 4 || month == 6 || month == 9 || month == 11 {
        30
    } else {
        31
    }
}

/// A year the date library can hold.
pub open spec fn year_in_range(year: int) -> bool {
    MIN_YEAR <= year <= MAX_YEAR
}

/// `(year, month, day)` names an existing day that the date library can hold.
pub open spec fn is_valid_ymd(year: int, month: int, day: int) -> bool {
    &&& year_in_range(year)
    &&& 1 <= month <= 12
    &&& 1 <= day <= days_in_month(year, month)
}

/// A calendar day (proleptic Gregorian), as year, month (1..=12) and day of month.
#[derive(Clone, Copy, Debug, PartialEq, Eq, Structural)]
pub struct Date {
    pub year: i32,
    pub month: u32,
    pub day: u32,
}

impl Date {
    /// The fields name an existing day within the supported year range.
    pub open spec fn valid(self) -> bool {
        is_valid_ymd(self.year as int, self.month as int, self.day as int)
    }

    /// A number that orders valid dates chronologically.
    pub open spec fn key(self) -> int {
        self.year * 416 + self.month * 32 + self.day
    }

    /// Months elapsed since January of year 0 (negative before it).
    pub open spec fn month_index(self) -> int {
        self.year * 12 + self.month - 1
    }

    /// Builds a date, or `None` where `(year, month, day)` is not a day the date
    /// library can represent.
    pub fn from_ymd(year: i32, month: u32, day: u32) -> (r: Option<Date>)
        ensures
            r is Some <==> is_valid_ymd(year as int, month as int, day as int),
            r matches Some(d) ==> d == (Date { year, month, day }),
    {
        if chrono_accepts_ymd(year, month, day) {
            Some(Date { year, month, day })
        } else {
            None
        }
    }

    /// `self` falls strictly before `other`.
    pub fn is_before(&self, other: &Date) -> (r: bool)
        requires
            self.valid(),
            other.valid(),
        ensures
            r == (self.key() < other.key()),
    {
        if self.year != other.year {
            self.year < other.year
        } else if self.month != other.month {
            self.month < other.month
        } else {
            self.day < other.day
        }
    }
}

/// Asks the date library whether `(year, month, day)` is a date it can build.
///
/// Calls `chrono::NaiveDate::from_ymd_opt`, which returns `Some` exactly for an
/// existing proleptic Gregorian day whose year lies within the library's range
/// (`MIN_YEAR..=MAX_YEAR`); the contract claims precisely that.
#[verifier::external_body]
fn chrono_accepts_ymd(year: i32, month: u32, day: u32) -> (r: bool)
    ensures
        r == is_valid_ymd(year as int, month as int, day as int),
{
    chrono::NaiveDate::from_ymd_opt(year, month, day).is_some()
}

/// Last day of `month` in `year` (28, 29, 30 or 31).
pub fn last_day_of_month(year: i32, month: u32) -> (r: u32)
    requires
        year_in_range(year as int),
        1 <= month <= 12,
    ensures
        r == days_in_month(year as int, month as int),
{
    if chrono_accepts_ymd(year, month, 31) {
        31
    } else if chrono_accepts_ymd(year, month, 30) {
        30
    } else if chrono_accepts_ymd(year, month, 29) {
        29
    } else {
        28
    }
}

/// Valid dates ordered by month index are ordered by key.
pub proof fn lemma_month_index_orders_key(a: Date, b: Date)
    requires
        a.valid(),
        b.valid(),
        a.month_index() < b.month_index(),
    ensures
        a.key() < b.key(),
{
    if a.year < b.year {
        assert(a.key() <= a.year * 416 + 415);
        assert(a.year * 416 + 416 <= b.year * 416);
    }
}

/// `value` restricted to `lo..=hi`.
pub open spec fn clamp(value: int, lo: int, hi: int) -> int {
    if value < lo { lo } else if value > hi { hi } else { value }
}

/// Smaller of two integers.
pub open spec fn min_int(a: int, b: int) -> int {
    if a <= b { a } else { b }
}

/// Month indices whose year the date library can hold.
pub open spec fn month_index_in_range(m: int) -> bool {
    MIN_YEAR * 12 <= m <= MAX_YEAR * 12 + 11
}

/// The day `due_day` (clamped to 1..=31, then to the month's length) of the
/// month with index `m`.
pub open spec fn date_at_month_index(m: int, due_day: int) -> Date {
    let year = m / 12;
    let month = m % 12 + 1;
    Date {
        year: year as i32,
        month: month as u32,
        day: min_int(clamp(due_day, 1, 31), days_in_month(year, month)) as u32,
    }
}

/// Euclidean quotient and remainder of a month index by 12.
fn split_month_index(m: i32) -> (r: (i32, u32))
    ensures
        r.0 == m as int / 12,
        r.1 == m as int % 12,
        0 <= r.1 < 12,
{
    if m >= 0 {
        let q: i32 = m / 12;
        let rem: i32 = m % 12;
        (q, rem as u32)
    } else {
        let n: i32 = -(m + 1);
        let q: i32 = -(n / 12) - 1;
        let rem: i32 = 11 - n % 12;
        (q, rem as u32)
    }
}

/// Month index of `date` (`year * 12 + month - 1`).
pub fn month_index(date: Date) -> (r: i32)
    requires
        date.valid(),
    ensures
        r == date.month_index(),
{
    date.year * 12 + date.month as i32 - 1
}

/// The date in month `m` on `due_day`, clamped first to 1..=31 and then to the
/// length of that month.
pub fn date_at_month(m: i32, due_day: i32) -> (r: Date)
    requires
        month_index_in_range(m as int),
    ensures
        r == date_at_month_index(m as int, due_day as int),
        r.valid(),
        r.month_index() == m,
{
    let (year, month0) = split_month_index(m);
    let month: u32 = month0 + 1;
    let last: u32 = last_day_of_month(year, month);
    let day: u32 = if due_day < 1 {
        1
    } else if due_day > 31 {
        31
    } else {
        due_day as u32
    };
    let day: u32 = if day < last { day } else { last };
    Date { year, month, day }
}

/// What `chrono::NaiveDate::parse_from_str(text, "%Y-%m-%d")` makes of `text`:
/// the parsed `(year, month, day)`, or `None` where it refuses the text.
pub uninterp spec fn chrono_parse_ymd(text: Seq<char>) -> Option<(i32, u32, u32)>;

/// Calendar day (UTC) of the Unix timestamp `secs`, as
/// `chrono::DateTime::from_timestamp(secs, 0)` followed by `date_naive` gives it,
/// or `None` where the timestamp is out of the library's range.
pub uninterp spec fn chrono_timestamp_ymd(secs: i64) -> Option<(i32, u32, u32)>;

/// `YYYY-MM-DD` text of a date as `chrono::NaiveDate::format("%Y-%m-%d")` writes it.
pub uninterp spec fn chrono_iso_text(year: i32, month: u32, day: u32) -> Seq<char>;

/// The date for a `(year, month, day)` triple.
pub open spec fn ymd_date(t: Option<(i32, u32, u32)>) -> Option<Date> {
    match t {
        Some(v) => Some(Date { year: v.0, month: v.1, day: v.2 }),
        None => None,
    }
}

/// Parses `text` with the format `%Y-%m-%d`.
///
/// Calls `chrono::NaiveDate::parse_from_str` and reads back year, month and day
/// of a successful parse. Which texts chrono accepts is left to the name
/// `chrono_parse_ymd`; the one fact stated beside it is that a parsed date is a
/// valid date of the library's range, as every `NaiveDate` is.
#[verifier::external_body]
fn chrono_parse_iso(text: &str) -> (r: Option<(i32, u32, u32)>)
    ensures
        r == chrono_parse_ymd(text@),
        r matches Some(t) ==> is_valid_ymd(t.0 as int, t.1 as int, t.2 as int),
{
    chrono::NaiveDate::parse_from_str(text, "%Y-%m-%d").ok().map(|d| (d.year(), d.month(), d.day()))
}

/// UTC calendar day of a Unix timestamp.
///
/// Calls `chrono::DateTime::from_timestamp(secs, 0)` and `date_naive`; the
/// result is left to the name `chrono_timestamp_ymd`, with the fact that a
/// produced date is a valid date of the library's range.
#[verifier::external_body]
fn chrono_timestamp_date(secs: i64) -> (r: Option<(i32, u32, u32)>)
    ensures
        r == chrono_timestamp_ymd(secs),
        r matches Some(t) ==> is_valid_ymd(t.0 as int, t.1 as int, t.2 as int),
{
    chrono::DateTime::from_timestamp(secs, 0).map(|dt| {
        let d = dt.date_naive();
        (d.year(), d.month(), d.day())
    })
}

/// `YYYY-MM-DD` text of a valid date.
///
/// Builds the `chrono::NaiveDate` and calls `format("%Y-%m-%d").to_string()`;
/// the text is left to the name `chrono_iso_text`.
#[verifier::external_body]
fn chrono_format_iso(year: i32, month: u32, day: u32) -> (r: String)
    requires
        is_valid_ymd(year as int, month as int, day as int),
    ensures
        r@ == chrono_iso_text(year, month, day),
{
    chrono::NaiveDate::from_ymd_opt(year, month, day).unwrap().format("%Y-%m-%d").to_string()
}

/// Parses a `YYYY-MM-DD` date after trimming surrounding whitespace.
pub fn parse_date(value: &str) -> (r: Option<Date>)
    ensures
        r == ymd_date(chrono_parse_ymd(trimmed(value@))),
        r matches Some(d) ==> d.valid(),
{
    let t = trim(value);
    match chrono_parse_iso(t) {
        Some((year, month, day)) => Some(Date { year, month, day }),
        None => None,
    }
}

/// UTC calendar day of a Unix timestamp, `None` out of range.
pub fn date_of_timestamp(secs: i64) -> (r: Option<Date>)
    ensures
        r == ymd_date(chrono_timestamp_ymd(secs)),
        r matches Some(d) ==> d.valid(),
{
    match chrono_timestamp_date(secs) {
        Some((year, month, day)) => Some(Date { year, month, day }),
        None => None,
    }
}

/// `YYYY-MM-DD` text of a date.
pub fn format_date(d: Date) -> (r: String)
    requires
        d.valid(),
    ensures
        r@ == chrono_iso_text(d.year, d.month, d.day),
{
    chrono_format_iso(d.year, d.month, d.day)
}

/// `preferred`, else the UTC day of the Unix timestamp `updated_at`, else `today`.
pub fn date_or_timestamp(preferred: Option<Date>, updated_at: i64, today: Date) -> (r: Date)
    ensures
        preferred matches Some(p) ==> r == p,
        preferred is None ==> (ymd_date(chrono_timestamp_ymd(updated_at)) matches Some(t) ==> r == t),
        preferred is None && chrono_timestamp_ymd(updated_at) is None ==> r == today,
{
    match preferred {
        Some(p) => p,
        None => match date_of_timestamp(updated_at) {
            Some(d) => d,
            None => today,
        },
    }
}

} // verus!
