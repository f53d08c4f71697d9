//! Calendar rules of the service: which days exist, how days are ordered,
//! which study period a day falls in, and when a loan is due back.

use vstd::prelude::*;
use crate::models::Date;

verus! {

/// Gregorian leap year (proleptic, also for years before the common era).
pub open spec fn is_leap_year(year: int) -> bool {
    year % 4 == 0 && (year % 100 != 0 || year % 400 == 0)
}

/// Number of days of `month` (1 to 12) in `year`.
pub open spec fn days_in_month(year: int, month: int) -> int {
    if month == 2 {
        if is_leap_year(year) { 29 } else { 28 }
    } else if month == 4 || month == 6 || month == 9 || month == 11 {
        30
    } else {
        31
    }
}

/// The days that `chrono::NaiveDate` can hold: an existing calendar day in
/// the years -262143 to 262142.
pub open spec fn is_calendar_date(year: int, month: int, day: int) -> bool {
    &&& -262143 <= year <= 262142
    &&& 1 <= month <= 12
    &&& 1 <= day <= days_in_month(year, month)
}

/// The day with the given numbers.
pub open spec fn ymd(year: i32, month: u32, day: u32) -> Date {
    Date { year, month, day }
}

/// Chronological order of two days: by year, then month, then day.
pub open spec fn date_le(a: Date, b: Date) -> bool {
    ||| a.year < b.year
    ||| a.year == b.year && a.month < b.month
    ||| a.year == b.year && a.month == b.month && a.day <= b.day
}

/// `day` lies in the closed range from `first` to `last`.
pub open spec fn date_within(day: Date, first: Date, last: Date) -> bool {
    date_le(first, day) && date_le(day, last)
}

/// Calls `chrono::NaiveDate::from_ymd_opt`. Its documentation and source
/// give `None` exactly for a month or day out of range, a day that the month
/// does not have, or a year outside -262143..=262142 (one year inside the
/// internal range at each end); for the other inputs the date's `year()`,
/// `month()` and `day()` give back the numbers it was made of.
#[verifier::external_body]
fn naive_date_from_ymd(year: i32, month: u32, day: u32) -> (res: Option<Date>)
    ensures
        res is Some <==> is_calendar_date(year as int, month as int, day as int),
        res matches Some(d) ==> d == ymd(year, month, day),
{
    match chrono::NaiveDate::from_ymd_opt(year, month, day) {
        Some(d) => Some(Date {
            year: chrono::Datelike::year(&d),
            month: chrono::Datelike::month(&d),
            day: chrono::Datelike::day(&d),
        }),
        None => None,
    }
}

/// Whether `a` is on or before `b`.
pub fn date_at_most(a: Date, b: Date) -> (res: bool)
    ensures
        res == date_le(a, b),
{
    if a.year != b.year {
        a.year < b.year
    } else if a.month != b.month {
        a.month < b.month
    } else {
        a.day <= b.day
    }
}

/// The study period that holds `today`, by the academic calendar of
/// 2023/24: period 4 from 2023-03-27 to 2023-06-04, period 1 from
/// 2023-08-28 to 2023-11-05, period 2 from 2023-11-06 to 2024-01-14 and
/// period 3 from 2024-01-15 to 2024-03-24; no period for other days.
pub open spec fn study_period_of(today: Date) -> Option<i32> {
    if date_within(today, ymd(2023, 3, 27), ymd(2023, 6, 4)) {
        Some(4)
    } else if date_within(today, ymd(2023, 8, 28), ymd(2023, 11, 5)) {
        Some(1)
    } else if date_within(today, ymd(2023, 11, 6), ymd(2024, 1, 14)) {
        Some(2)
    } else if date_within(today, ymd(2024, 1, 15), ymd(2024, 3, 24)) {
        Some(3)
    } else {
        None
    }
}

/// The study period that holds `today`, if any.
pub fn study_period(today: Date) -> (period: Option<i32>)
    ensures
        period == study_period_of(today),
{
    let p4_first = naive_date_from_ymd(2023, 3, 27).unwrap();
    let p4_last = naive_date_from_ymd(2023, 6, 4).unwrap();
    let p1_first = naive_date_from_ymd(2023, 8, 28).unwrap();
    let p1_last = naive_date_from_ymd(2023, 11, 5).unwrap();
    let p2_first = naive_date_from_ymd(2023, 11, 6).unwrap();
    let p2_last = naive_date_from_ymd(2024, 1, 14).unwrap();
    let p3_first = naive_date_from_ymd(2024, 1, 15).unwrap();
    let p3_last = naive_date_from_ymd(2024, 3, 24).unwrap();
    if date_at_most(p4_first, today) && date_at_most(today, p4_last) {
        Some(4)
    } else if date_at_most(p1_first, today) && date_at_most(today, p1_last) {
        Some(1)
    } else if date_at_most(p2_first, today) && date_at_most(today, p2_last) {
        Some(2)
    } else if date_at_most(p3_first, today) && date_at_most(today, p3_last) {
        Some(3)
    } else {
        None
    }
}

/// The day a loan is due back, by the last period of the course it is for:
/// 2023-11-30, 2023-01-30, 2024-03-30 and 2023-06-30 for periods 1 to 4 and
/// 2023-12-31 for any other number but 5. For period 5 the calendar names
/// 2023-09-31, a day that does not exist, so there is no due day.
pub open spec fn due_date_for_period(period_end: i32) -> Option<Date> {
    if period_end == 1 {
        Some(ymd(2023, 11, 30))
    } else if period_end == 2 {
        Some(ymd(2023, 1, 30))
    } else if period_end == 3 {
        Some(ymd(2024, 3, 30))
    } else if period_end == 4 {
        Some(ymd(2023, 6, 30))
    } else if period_end == 5 {
        None
    } else {
        Some(ymd(2023, 12, 31))
    }
}

/// The day a loan for a course ending in period `period_end` is due back.
pub fn return_date_for_period(period_end: i32) -> (due: Option<Date>)
    ensures
        due == due_date_for_period(period_end),
{
    match period_end {
        1 => naive_date_from_ymd(2023, 11, 30),
        2 => naive_date_from_ymd(2023, 1, 30),
        3 => naive_date_from_ymd(2024, 3, 30),
        4 => naive_date_from_ymd(2023, 6, 30),
        5 => naive_date_from_ymd(2023, 9, 31),
        _ => naive_date_from_ymd(2023, 12, 31),
    }
}

/// The order of days is total and transitive, and two days each on or
/// before the other are the same day.
pub proof fn lemma_date_order(a: Date, b: Date, c: Date)
    ensures
        date_le(a, b) || date_le(b, a),
        date_le(a, b) && date_le(b, c) ==> date_le(a, c),
        date_le(a, b) && date_le(b, a) ==> a == b,
{
}

/// The four study periods do not overlap: a day lies in at most one of them.
pub proof fn lemma_study_periods_disjoint(today: Date)
    ensures
        date_within(today, ymd(2023, 3, 27), ymd(2023, 6, 4)) ==> !date_within(today, ymd(2023, 8, 28), ymd(2023, 11, 5))
            && !date_within(today, ymd(2023, 11, 6), ymd(2024, 1, 14))
            && !date_within(today, ymd(2024, 1, 15), ymd(2024, 3, 24)),
        date_within(today, ymd(2023, 8, 28), ymd(2023, 11, 5)) ==> !date_within(today, ymd(2023, 11, 6), ymd(2024, 1, 14))
            && !date_within(today, ymd(2024, 1, 15), ymd(2024, 3, 24)),
        date_within(today, ymd(2023, 11, 6), ymd(2024, 1, 14)) ==> !date_within(today, ymd(2024, 1, 15), ymd(2024, 3, 24)),
{
}

} // verus!
