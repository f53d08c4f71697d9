use courselend::calendar::{date_at_most, return_date_for_period, study_period};
use courselend::models::Date;

fn day(year: i32, month: u32, day: u32) -> Date {
    Date { year, month, day }
}

#[test]
fn study_period_boundaries() {
    assert_eq!(study_period(day(2023, 3, 27)), Some(4));
    assert_eq!(study_period(day(2023, 6, 4)), Some(4));
    assert_eq!(study_period(day(2023, 6, 5)), None);
    assert_eq!(study_period(day(2023, 8, 27)), None);
    assert_eq!(study_period(day(2023, 8, 28)), Some(1));
    assert_eq!(study_period(day(2023, 11, 5)), Some(1));
    assert_eq!(study_period(day(2023, 11, 6)), Some(2));
    assert_eq!(study_period(day(2024, 1, 14)), Some(2));
    assert_eq!(study_period(day(2024, 1, 15)), Some(3));
    assert_eq!(study_period(day(2024, 3, 24)), Some(3));
    assert_eq!(study_period(day(2024, 3, 25)), None);
    assert_eq!(study_period(day(2022, 12, 1)), None);
}

#[test]
fn return_dates_by_last_period() {
    assert_eq!(return_date_for_period(1), Some(day(2023, 11, 30)));
    assert_eq!(return_date_for_period(2), Some(day(2023, 1, 30)));
    assert_eq!(return_date_for_period(3), Some(day(2024, 3, 30)));
    assert_eq!(return_date_for_period(4), Some(day(2023, 6, 30)));
    assert_eq!(return_date_for_period(5), None);
    assert_eq!(return_date_for_period(0), Some(day(2023, 12, 31)));
    assert_eq!(return_date_for_period(-3), Some(day(2023, 12, 31)));
    assert_eq!(return_date_for_period(6), Some(day(2023, 12, 31)));
}

#[test]
fn days_are_ordered_by_year_month_day() {
    assert!(date_at_most(day(2023, 12, 31), day(2024, 1, 1)));
    assert!(!date_at_most(day(2024, 1, 1), day(2023, 12, 31)));
    assert!(date_at_most(day(2023, 2, 28), day(2023, 3, 1)));
    assert!(date_at_most(day(2023, 3, 1), day(2023, 3, 1)));
    assert!(!date_at_most(day(2023, 3, 2), day(2023, 3, 1)));
}
