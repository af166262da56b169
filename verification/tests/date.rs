use bamboo::date::{Date, MAX_YEAR, MIN_YEAR};

fn date(year: i32, month: u32, day: u32) -> Date {
    Date::from_ymd_opt(year, month, day).unwrap()
}

#[test]
fn days_of_the_calendar_are_found() {
    let found = date(2015, 3, 14);
    assert_eq!(found.year(), 2015);
    assert_eq!(found.month(), 3);
    assert_eq!(found.day(), 14);
    assert!(Date::from_ymd_opt(2024, 2, 29).is_some());
    assert!(Date::from_ymd_opt(-4, 2, 29).is_some());
}

#[test]
fn days_the_calendar_lacks_are_not_found() {
    assert_eq!(Date::from_ymd_opt(2015, 0, 14), None);
    assert_eq!(Date::from_ymd_opt(2015, 2, 29), None);
    assert_eq!(Date::from_ymd_opt(2023, 4, 31), None);
    assert_eq!(Date::from_ymd_opt(2023, 13, 1), None);
    assert_eq!(Date::from_ymd_opt(2023, 1, 0), None);
    assert_eq!(Date::from_ymd_opt(400000, 1, 1), None);
    assert_eq!(Date::from_ymd_opt(-400000, 1, 1), None);
}

#[test]
fn later_days_come_after_earlier_ones() {
    assert!(date(2024, 1, 1).after(&date(2023, 12, 31)));
    assert!(date(2024, 3, 1).after(&date(2024, 2, 29)));
    assert!(date(2024, 3, 2).after(&date(2024, 3, 1)));
    assert!(!date(2024, 3, 1).after(&date(2024, 3, 1)));
    assert!(!date(2023, 12, 31).after(&date(2024, 1, 1)));
    assert!(!date(2024, 2, 29).after(&date(2024, 3, 1)));
}

#[test]
fn weekday_is_counted_from_monday() {
    assert_eq!(date(2024, 1, 1).weekday_offset(), 0);
    assert_eq!(date(2024, 2, 29).weekday_offset(), 3);
    assert_eq!(date(2000, 1, 1).weekday_offset(), 5);
    assert_eq!(date(2023, 10, 1).weekday_offset(), 6);
}

#[test]
fn range_must_not_end_before_it_starts() {
    assert!(date(2024, 1, 1).opens_range_to(&date(2024, 1, 1)));
    assert!(date(2024, 1, 1).opens_range_to(&date(2024, 1, 2)));
    assert!(!date(2024, 1, 2).opens_range_to(&date(2024, 1, 1)));
    assert!(!date(2024, 1, 1).opens_range_to(&date(2023, 12, 31)));
}

#[test]
fn every_fourth_year_has_a_leap_day_but_not_every_century() {
    assert!(Date::from_ymd_opt(2000, 2, 29).is_some());
    assert!(Date::from_ymd_opt(1900, 2, 29).is_none());
    assert!(Date::from_ymd_opt(2100, 2, 29).is_none());
    assert!(Date::from_ymd_opt(2023, 2, 28).is_some());
    assert!(Date::from_ymd_opt(0, 2, 29).is_some());
    assert!(Date::from_ymd_opt(-1, 2, 29).is_none());
    assert!(Date::from_ymd_opt(-100, 2, 29).is_none());
    assert!(Date::from_ymd_opt(-400, 2, 29).is_some());
}

#[test]
fn months_have_thirty_or_thirty_one_days() {
    for month in [1, 3, 5, 7, 8, 10, 12] {
        assert!(Date::from_ymd_opt(2023, month, 31).is_some());
        assert!(Date::from_ymd_opt(2023, month, 32).is_none());
    }
    for month in [4, 6, 9, 11] {
        assert!(Date::from_ymd_opt(2023, month, 30).is_some());
        assert!(Date::from_ymd_opt(2023, month, 31).is_none());
    }
}

#[test]
fn the_calendar_has_a_first_and_a_last_year() {
    assert_eq!(MIN_YEAR, -262143);
    assert_eq!(MAX_YEAR, 262142);
    assert!(Date::from_ymd_opt(MIN_YEAR, 1, 1).is_some());
    assert!(Date::from_ymd_opt(MIN_YEAR - 1, 12, 31).is_none());
    assert!(Date::from_ymd_opt(MAX_YEAR, 12, 31).is_some());
    assert!(Date::from_ymd_opt(MAX_YEAR + 1, 1, 1).is_none());
    assert!(Date::from_ymd_opt(i32::MAX, 1, 1).is_none());
    assert!(Date::from_ymd_opt(i32::MIN, 1, 1).is_none());
    assert!(Date::from_ymd_opt(2023, u32::MAX, 1).is_none());
    assert!(Date::from_ymd_opt(2023, 1, u32::MAX).is_none());
}

fn is_leap_year(year: i64) -> bool {
    year.rem_euclid(4) == 0 && (year.rem_euclid(100) != 0 || year.rem_euclid(400) == 0)
}

fn days_in_month(year: i64, month: i64) -> i64 {
    match month {
        2 => {
            if is_leap_year(year) {
                29
            } else {
                28
            }
        }
        4 | 6 | 9 | 11 => 30,
        _ => 31,
    }
}

fn day_number(year: i64, month: i64, day: i64) -> i64 {
    let leap_years_before =
        (year - 1).div_euclid(4) - (year - 1).div_euclid(100) + (year - 1).div_euclid(400);
    let days_before_month: i64 = (1..month).map(|earlier| days_in_month(year, earlier)).sum();
    365 * (year - 1) + leap_years_before + days_before_month + day
}

#[test]
fn weekday_follows_from_the_number_of_the_day() {
    let years = (-820..=2420).chain([-262143, -262142, -100000, 99999, 262141, 262142]);
    for year in years {
        for month in 1..=12u32 {
            for day in [1, 2, 15, 28, 29, 30, 31] {
                if let Some(date) = Date::from_ymd_opt(year, month, day) {
                    let expected = (day_number(year as i64, month as i64, day as i64) - 1).rem_euclid(7);
                    assert_eq!(date.weekday_offset() as i64, expected);
                }
            }
        }
    }
}

#[test]
fn the_first_day_of_the_year_one_is_a_monday() {
    assert_eq!(date(1, 1, 1).weekday_offset(), 0);
    assert_eq!(date(0, 12, 31).weekday_offset(), 6);
    assert_eq!(date(0, 1, 1).weekday_offset(), 5);
    assert_eq!(date(1970, 1, 1).weekday_offset(), 3);
    assert_eq!(date(1900, 1, 1).weekday_offset(), 0);
}
