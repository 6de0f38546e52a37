use pluto::time::{days_in_month, days_in_year, epoch_ms_of, is_leap_year, weekday_of, DateTime, Month, Weekday};

#[test]
fn time_epoch() {
    let t = DateTime::from_epoch_ms(0);
    assert_eq!((t.year, t.month, t.day), (1970, Month::January, 1));
    assert_eq!((t.hour, t.minute, t.second), (0, 0, 0));
    assert_eq!(t.weekday, Weekday::Thursday);
}

#[test]
fn time_recent() {
    // 2024-02-29 12:34:56 UTC (leap day)
    let ms = 1_709_210_096_000;
    let t = DateTime::from_epoch_ms(ms);
    assert_eq!((t.year, t.month, t.day), (2024, Month::February, 29));
    assert_eq!((t.hour, t.minute, t.second), (12, 34, 56));
    assert_eq!(t.weekday, Weekday::Thursday);
}

#[test]
fn leap_years() {
    assert!(!is_leap_year(2023));
    assert!(is_leap_year(2024));
    assert!(is_leap_year(2000)); // divisible by 400
    assert!(!is_leap_year(2100)); // divisible by 100, not 400
}

#[test]
fn days_in_month_values() {
    assert_eq!(days_in_month(2023, 2), 28);
    assert_eq!(days_in_month(2024, 2), 29);
    assert_eq!(days_in_month(2000, 2), 29);
    assert_eq!(days_in_month(2100, 2), 28);
    assert_eq!(days_in_month(2024, 4), 30);
    assert_eq!(days_in_month(2024, 6), 30);
    assert_eq!(days_in_month(2024, 9), 30);
    assert_eq!(days_in_month(2024, 11), 30);
    assert_eq!(days_in_month(2024, 12), 31);
}

#[test]
fn days_in_year_values() {
    assert_eq!(days_in_year(2023), 365);
    assert_eq!(days_in_year(2024), 366);
}

#[test]
fn weekday_of_known_dates() {
    // 1970-01-01 was a Thursday, 2024-02-29 a Thursday (leap day).
    assert_eq!(weekday_of(1970, 1, 1), Weekday::Thursday);
    assert_eq!(weekday_of(2024, 2, 29), Weekday::Thursday);
    // 2026-08-10 is a Monday, 2026-08-07 a Friday, 2001-02-28 a Wednesday.
    assert_eq!(weekday_of(2026, 8, 10), Weekday::Monday);
    assert_eq!(weekday_of(2026, 8, 7), Weekday::Friday);
    assert_eq!(weekday_of(2001, 2, 28), Weekday::Wednesday);
}

fn civil_days_naive(y: i64, m: i64, d: i64) -> i64 {
    let mut days = (y - 1970) * 365 + (y - 1969) / 4 - (y - 1901) / 100 + (y - 1601) / 400;
    let mdays = [0, 31, 28, 31, 30, 31, 30, 31, 31, 30, 31, 30, 31];
    for i in 1..m {
        days += mdays[i as usize];
    }
    if is_leap_year(y as u16) && m > 2 {
        days += 1;
    }
    days + d - 1
}

#[test]
fn weekday_of_matches_naive() {
    // Cross-check weekday_of against a naive day counter for the calendar
    // face's whole 2000..=2099 range, a few dates per year.
    for year in 2000..=2099u16 {
        for (month, day) in [(1u8, 1u8), (2, 28), (3, 1), (12, 31)] {
            let day = day.min(days_in_month(year, month));
            assert_eq!(
                weekday_of(year, month, day),
                Weekday::from_index((civil_days_naive(year as i64, month as i64, day as i64) + 4).rem_euclid(7) as u8),
                "{year}-{month}-{day}"
            );
        }
    }
}

#[test]
fn epoch_ms_of_round_trips() {
    // 2024-02-29 12:34:56 UTC (matches the `recent` test).
    let ms = epoch_ms_of(2024, 2, 29, 12, 34, 56);
    assert_eq!(ms, 1_709_210_096_000);
    let t = DateTime::from_epoch_ms(ms);
    assert_eq!(
        (t.year, t.month, t.day, t.hour, t.minute, t.second),
        (2024, Month::February, 29, 12, 34, 56)
    );
    // The epoch itself.
    assert_eq!(epoch_ms_of(1970, 1, 1, 0, 0, 0), 0);
    // A date/time from the calendar's 2000..=2099 range.
    let t = DateTime::from_epoch_ms(epoch_ms_of(2001, 2, 28, 23, 59, 59));
    assert_eq!(
        (t.year, t.month, t.day, t.hour, t.minute, t.second),
        (2001, Month::February, 28, 23, 59, 59)
    );
}

#[test]
fn next_day_counts_one() {
    // Day numbers count days across month and year ends and leap days.
    let feb28 = epoch_ms_of(2024, 2, 28, 0, 0, 0);
    let feb29 = epoch_ms_of(2024, 2, 29, 0, 0, 0);
    let mar1 = epoch_ms_of(2024, 3, 1, 0, 0, 0);
    assert_eq!(feb29 - feb28, 86_400_000);
    assert_eq!(mar1 - feb29, 86_400_000);
    let dec31 = epoch_ms_of(2023, 12, 31, 0, 0, 0);
    let jan1 = epoch_ms_of(2024, 1, 1, 0, 0, 0);
    assert_eq!(jan1 - dec31, 86_400_000);
}

#[test]
fn year_lengths_in_days() {
    let y2023 = epoch_ms_of(2023, 1, 1, 0, 0, 0);
    let y2024 = epoch_ms_of(2024, 1, 1, 0, 0, 0);
    let y2025 = epoch_ms_of(2025, 1, 1, 0, 0, 0);
    assert_eq!((y2024 - y2023) / 86_400_000, 365);
    assert_eq!((y2025 - y2024) / 86_400_000, 366);
    let y2100 = epoch_ms_of(2100, 1, 1, 0, 0, 0);
    let y2101 = epoch_ms_of(2101, 1, 1, 0, 0, 0);
    assert_eq!((y2101 - y2100) / 86_400_000, 365);
}

#[test]
fn from_epoch_ms_keeps_millis_and_seconds() {
    let t = DateTime::from_epoch_ms(1_709_210_096_789);
    assert_eq!(t.ms, 789);
    assert_eq!(t.secs, 1_709_210_096);
}

#[test]
fn month_and_weekday_numbers() {
    assert_eq!(Month::from_u8(2), Month::February);
    assert_eq!(Month::February.number(), 2);
    assert_eq!(Month::December.number(), 12);
    assert_eq!(Weekday::from_index(0), Weekday::Sunday);
    assert_eq!(Weekday::Saturday.index(), 6);
}
