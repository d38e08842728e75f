use vstd::prelude::*;

use crate::dates::{
    Date, date_at_month, days_in_month, is_valid_ymd, last_day_of_month, min_int,
    month_index, month_index_in_range, MAX_YEAR, MIN_YEAR,
};
use crate::error::ApiError;

verus! {

// Commission releases follow a biweekly cadence: every calendar month has a
// 1–15 period (released on the 16th) and a 16–end period (released on the 1st of
// the next month).

/// Start (the 1st or the 16th) of the biweekly period that contains `d`.
pub open spec fn spec_period_start_containing(d: Date) -> Date {
    Date { year: d.year, month: d.month, day: if d.day <= 15 { 1 } else { 16 } }
}

/// Start of the biweekly period just before the one starting at `d`: the 1st of
/// the same month for a 16th, else the 16th of the previous month.
pub open spec fn spec_previous_period_start(d: Date) -> Date {
    if d.day == 16 {
        Date { year: d.year, month: d.month, day: 1 }
    } else if d.month == 1 {
        Date { year: (d.year - 1) as i32, month: 12, day: 16 }
    } else {
        Date { year: d.year, month: (d.month - 1) as u32, day: 16 }
    }
}

/// `d` is the first day of a biweekly period.
pub open spec fn is_period_start(d: Date) -> bool {
    d.day == 1 || d.day == 16
}

/// Last day of the biweekly period starting at `start` (a period start).
pub open spec fn spec_period_end(start: Date) -> Date {
    Date {
        year: start.year,
        month: start.month,
        day: if start.day == 1 { 15 } else { days_in_month(start.year as int, start.month as int) as u32 },
    }
}

/// Same date-building rule as the date library's `from_ymd_opt(..).unwrap_or(fallback)`.
fn date_or(year: i32, month: u32, day: u32, fallback: Date) -> (r: Date)
    ensures
        is_valid_ymd(year as int, month as int, day as int) ==> r == (Date { year, month, day }),
        !is_valid_ymd(year as int, month as int, day as int) ==> r == fallback,
{
    match Date::from_ymd(year, month, day) {
        Some(d) => d,
        None => fallback,
    }
}

/// Start of the biweekly period containing `date`: the 1st when the day is at
/// most 15, the 16th otherwise.
pub fn period_start_containing(date: Date) -> (r: Date)
    requires
        date.valid(),
    ensures
        r == spec_period_start_containing(date),
        r.valid(),
{
    let day: u32 = if date.day <= 15 { 1 } else { 16 };
    date_or(date.year, date.month, day, date)
}

/// The period a split change saved on `today` takes effect from: the period
/// that contains `today`, whose own release has not happened yet.
pub fn effective_period_start_for(today: Date) -> (r: Date)
    requires
        today.valid(),
    ensures
        r == spec_period_start_containing(today),
        r.valid(),
{
    let day: u32 = if today.day <= 15 { 1 } else { 16 };
    date_or(today.year, today.month, day, today)
}

/// Earliest period a bulk split change may target when saved on `today`: the
/// first of `today`'s month.
pub fn earliest_selectable_period_start(today: Date) -> (r: Date)
    requires
        today.valid(),
    ensures
        r == (Date { year: today.year, month: today.month, day: 1 }),
        r.valid(),
{
    date_or(today.year, today.month, 1, today)
}

/// The biweekly period boundary just before `date`; where that boundary is not
/// a representable date, `date` itself.
pub fn previous_biweek_period_start(date: Date) -> (r: Date)
    requires
        date.valid(),
    ensures
        is_valid_ymd(
            spec_previous_period_start(date).year as int,
            spec_previous_period_start(date).month as int,
            16,
        ) || date.day == 16 ==> r == spec_previous_period_start(date),
        !(is_valid_ymd(
            spec_previous_period_start(date).year as int,
            spec_previous_period_start(date).month as int,
            16,
        ) || date.day == 16) ==> r == date,
        r.valid(),
{
    if date.day == 16 {
        date_or(date.year, date.month, 1, date)
    } else {
        let (year, month) = if date.month == 1 {
            (date.year - 1, 12u32)
        } else {
            (date.year, date.month - 1)
        };
        date_or(year, month, 16, date)
    }
}

/// Checks that `[period_start, period_end]` is exactly one biweekly release
/// period: the 1st through the 15th, or the 16th through the month's last day.
pub fn validate_period_boundary(period_start: Date, period_end: Date) -> (r: Result<(), ApiError>)
    requires
        period_start.valid(),
    ensures
        !is_period_start(period_start) ==> r == Err::<(), ApiError>(ApiError::PeriodStartNotBoundary),
        is_period_start(period_start) && period_end != spec_period_end(period_start)
            ==> r == Err::<(), ApiError>(ApiError::PeriodEndNotBoundary),
        is_period_start(period_start) && period_end == spec_period_end(period_start) ==> r is Ok,
{
    let expected_end_day: u32 = if period_start.day == 1 {
        15
    } else if period_start.day == 16 {
        last_day_of_month(period_start.year, period_start.month)
    } else {
        return Err(ApiError::PeriodStartNotBoundary);
    };
    let expected_end = date_or(period_start.year, period_start.month, expected_end_day, period_start);
    if period_end != expected_end {
        return Err(ApiError::PeriodEndNotBoundary);
    }
    Ok(())
}

/// `date` moved by `months` calendar months, its day clamped to the length of
/// the target month.
pub open spec fn spec_add_months(date: Date, months: int) -> Date {
    let m = date.month_index() + months;
    let year = m / 12;
    let month = m % 12 + 1;
    Date {
        year: year as i32,
        month: month as u32,
        day: min_int(date.day as int, days_in_month(year, month)) as u32,
    }
}

/// Whether moving `date` by `months` months stays within the years the date
/// library can represent.
pub fn shift_fits(date: Date, months: i32) -> (r: bool)
    requires
        date.valid(),
    ensures
        r == month_index_in_range(date.month_index() + months),
{
    let m: i64 = (date.year as i64) * 12 + (date.month as i64) - 1 + (months as i64);
    (MIN_YEAR as i64) * 12 <= m && m <= (MAX_YEAR as i64) * 12 + 11
}

/// Adds `months` to `date`, clamping the day to the target month's length.
pub fn add_months(date: Date, months: i32) -> (r: Date)
    requires
        date.valid(),
        month_index_in_range(date.month_index() + months),
    ensures
        r == spec_add_months(date, months as int),
        r.valid(),
        r.month_index() == date.month_index() + months,
{
    let total: i32 = month_index(date) + months;
    let shifted = date_at_month(total, date.day as i32);
    shifted
}

/// The period containing a date starts on the 1st or the 16th of the same month,
/// no later than the date and within 15 days of it.
pub proof fn lemma_period_start_containing(d: Date)
    requires
        d.valid(),
    ensures
        spec_period_start_containing(d).valid(),
        is_period_start(spec_period_start_containing(d)),
        spec_period_start_containing(d).year == d.year,
        spec_period_start_containing(d).month == d.month,
        spec_period_start_containing(d).day <= d.day < spec_period_start_containing(d).day + 16,
        spec_period_start_containing(spec_period_start_containing(d)) == spec_period_start_containing(d),
{
}

/// The previous period boundary of a period start is a period start strictly
/// earlier than it, so two rows keyed on the two boundaries never collide.
pub proof fn lemma_previous_period_start(d: Date)
    requires
        d.valid(),
        is_period_start(d),
    ensures
        is_period_start(spec_previous_period_start(d)),
        spec_previous_period_start(d).key() < d.key(),
        spec_previous_period_start(d) != d,
{
}

} // verus!
