use tu::{parse_date_string, parse_duration, DateError, Dialect, Instant, Interval, TimeUnit};

fn at(year: i32, month: u32, day: u32, hour: u32, minute: u32, second: u32) -> Instant {
    Instant { year, month, day, hour, minute, second, nanosecond: 0 }
}

fn day(year: i32, month: u32, day: u32) -> Instant {
    at(year, month, day, 0, 0, 0)
}

fn us(text: &str, now: Instant) -> Result<Instant, DateError> {
    parse_date_string(text, now, Dialect::Us)
}

#[test]
fn two_days_from_new_year() {
    assert_eq!(us("2 days", day(2024, 1, 1)), Ok(day(2024, 1, 3)));
}

#[test]
fn one_week_from_new_year() {
    assert_eq!(us("1 week", day(2024, 1, 1)), Ok(day(2024, 1, 8)));
}

#[test]
fn day_month_and_time() {
    assert_eq!(us("14 december 11:20", day(2025, 1, 1)), Ok(at(2025, 12, 14, 11, 20, 0)));
}

#[test]
fn trailing_words_after_a_time_are_passed_over() {
    assert_eq!(us("14 december 11:20 at home", day(2025, 1, 1)), Ok(at(2025, 12, 14, 11, 20, 0)));
}

#[test]
fn month_add_clamps_the_day() {
    assert_eq!(us("1 month", day(2024, 1, 31)), Ok(day(2024, 2, 29)));
    assert_eq!(us("1 month", day(2024, 4, 30)), Ok(day(2024, 5, 30)));
    assert_eq!(us("1 month", day(2023, 1, 31)), Ok(day(2023, 2, 28)));
    assert_eq!(us("1 month", day(2024, 1, 1)), Ok(day(2024, 2, 1)));
}

#[test]
fn offsets_in_three_forms_agree() {
    let now = day(2024, 1, 1);
    let want = Ok(at(2024, 4, 10, 9, 31, 46));
    assert_eq!(us("2024-04-10T13:31:46+04:00", now), want);
    assert_eq!(us("2024-04-10T13:31:46+04", now), want);
    assert_eq!(us("2024-04-10T13:31:46+4", now), want);
}

#[test]
fn dialect_orders_day_and_month() {
    let now = day(2020, 6, 15);
    assert_eq!(parse_date_string("03/04/2024", now, Dialect::Us), Ok(day(2024, 3, 4)));
    assert_eq!(parse_date_string("03/04/2024", now, Dialect::Uk), Ok(day(2024, 4, 3)));
}

#[test]
fn duration_refuses_dates_and_times() {
    assert_eq!(parse_duration("14 december 11:20"), Err(DateError::UnexpectedTime));
    assert_eq!(parse_duration("2024-04-10"), Err(DateError::UnexpectedAbsolute));
    assert_eq!(parse_duration("friday"), Err(DateError::UnexpectedDateComponent));
    assert_eq!(
        parse_duration("2 days"),
        Ok(Interval { unit: TimeUnit::Day, billionths: 2_000_000_000 })
    );
}

#[test]
fn dotted_dates() {
    assert_eq!(us("15. Jun 2025 at 14:19:13", day(2024, 1, 1)), Ok(at(2025, 6, 15, 14, 19, 13)));
    assert_eq!(us("7. dec 1922 at 23:41:55", day(2024, 1, 1)), Ok(at(1922, 12, 7, 23, 41, 55)));
}

#[test]
fn today_is_now() {
    let now = at(2024, 3, 9, 17, 45, 12);
    assert_eq!(us("today", now), Ok(now));
    assert_eq!(us("now", now), Ok(now));
    assert_eq!(us("today", day(2024, 3, 9)), Ok(day(2024, 3, 9)));
}

#[test]
fn tomorrow_less_a_day_is_today() {
    let now = at(2024, 2, 28, 23, 59, 59);
    let tomorrow = us("tomorrow", now).unwrap();
    assert_eq!(tomorrow, at(2024, 2, 29, 23, 59, 59));
    assert_eq!(us("1 day ago", tomorrow), us("today", now));
    assert_eq!(us("yesterday", tomorrow), us("today", now));
}

#[test]
fn an_hour_from_now() {
    assert_eq!(us("1 hour", at(2024, 1, 1, 8, 34, 52)), Ok(at(2024, 1, 1, 9, 34, 52)));
    assert_eq!(us("1 hour", at(2024, 12, 31, 23, 30, 0)), Ok(at(2025, 1, 1, 0, 30, 0)));
}

#[test]
fn spans_of_fixed_length() {
    let now = at(2024, 1, 1, 12, 0, 0);
    assert_eq!(us("90 seconds", now), Ok(at(2024, 1, 1, 12, 1, 30)));
    assert_eq!(us("90 minutes", now), Ok(at(2024, 1, 1, 13, 30, 0)));
    assert_eq!(us("1.5 hours", now), Ok(at(2024, 1, 1, 13, 30, 0)));
    assert_eq!(us("36 hours ago", now), Ok(at(2023, 12, 31, 0, 0, 0)));
    assert_eq!(us("-2 weeks", now), Ok(at(2023, 12, 18, 12, 0, 0)));
    assert_eq!(
        us("0.5 seconds", now),
        Ok(Instant { nanosecond: 500_000_000, ..at(2024, 1, 1, 12, 0, 0) })
    );
    assert_eq!(
        us("0.5 seconds ago", now),
        Ok(Instant { nanosecond: 500_000_000, ..at(2024, 1, 1, 11, 59, 59) })
    );
}

#[test]
fn spans_of_months_and_years() {
    assert_eq!(us("12 months", day(2024, 1, 15)), Ok(day(2025, 1, 15)));
    assert_eq!(us("1 year", day(2024, 2, 29)), Ok(day(2025, 2, 28)));
    assert_eq!(us("4 years", day(2024, 2, 29)), Ok(day(2028, 2, 29)));
    assert_eq!(us("1 month ago", day(2024, 3, 31)), Ok(day(2024, 2, 29)));
    assert_eq!(us("-2 months", day(2024, 1, 31)), Ok(day(2023, 11, 30)));
    assert_eq!(us("13 months ago", day(2024, 1, 31)), Ok(day(2022, 12, 31)));
    assert_eq!(us("1.5 years", day(2024, 1, 31)), Ok(day(2025, 7, 31)));
    assert_eq!(us("1.5 months", day(2024, 1, 31)), Ok(day(2024, 2, 29)));
    assert_eq!(us("0.9 months", day(2024, 1, 31)), Ok(day(2024, 1, 31)));
    assert_eq!(us("1 month", at(2024, 1, 31, 9, 34, 52)), Ok(at(2024, 2, 29, 9, 34, 52)));
}

#[test]
fn a_time_overrides_the_time_of_day() {
    let now = at(2024, 1, 1, 8, 34, 52);
    assert_eq!(us("2 days 11:20", now), Ok(at(2024, 1, 3, 11, 20, 0)));
    assert_eq!(us("7pm tomorrow", now), Ok(at(2024, 1, 2, 19, 0, 0)));
    assert_eq!(us("1 month 11:20", now), Ok(at(2024, 2, 1, 11, 20, 0)));
}

#[test]
fn a_time_alone_is_today() {
    let now = at(2024, 1, 1, 8, 34, 52);
    assert_eq!(us("11:20", now), Ok(at(2024, 1, 1, 11, 20, 0)));
    assert_eq!(us("7 pm", now), Ok(at(2024, 1, 1, 19, 0, 0)));
    assert_eq!(us("12am", now), Ok(at(2024, 1, 1, 0, 0, 0)));
    assert_eq!(us("11.20", now), Ok(at(2024, 1, 1, 11, 20, 0)));
    assert_eq!(
        us("13:31:46.25", now),
        Ok(Instant { nanosecond: 250_000_000, ..at(2024, 1, 1, 13, 31, 46) })
    );
}

#[test]
fn dates_without_a_time_start_their_day() {
    let now = at(2024, 1, 1, 8, 34, 52);
    assert_eq!(us("2024-04-10", now), Ok(day(2024, 4, 10)));
    assert_eq!(us("friday", now), Ok(day(2024, 1, 5)));
    assert_eq!(us("14 december", now), Ok(day(2024, 12, 14)));
    assert_eq!(us("1999", now), Ok(day(1999, 1, 1)));
}

#[test]
fn days_of_the_week() {
    // 1 January 2024 was a Monday.
    let now = at(2024, 1, 1, 8, 0, 0);
    assert_eq!(us("tuesday", now), Ok(day(2024, 1, 2)));
    assert_eq!(us("sunday", now), Ok(day(2024, 1, 7)));
    assert_eq!(us("monday", now), Ok(day(2024, 1, 8)));
    assert_eq!(us("next monday", now), Ok(day(2024, 1, 8)));
    assert_eq!(us("next wednesday", now), Ok(day(2024, 1, 3)));
    assert_eq!(us("last monday", now), Ok(day(2023, 12, 25)));
    assert_eq!(us("last friday", now), Ok(day(2023, 12, 29)));
    assert_eq!(us("last tuesday", now), Ok(day(2023, 12, 26)));
    assert_eq!(us("friday 17:30", now), Ok(at(2024, 1, 5, 17, 30, 0)));
}

#[test]
fn names_of_months() {
    assert_eq!(us("jul", day(2024, 1, 1)), Ok(day(2024, 7, 1)));
    assert_eq!(us("jan", day(2024, 1, 1)), Ok(day(2024, 1, 1)));
    assert_eq!(us("jan", day(2024, 1, 2)), Ok(day(2025, 1, 1)));
    assert_eq!(us("next jan", day(2024, 1, 2)), Ok(day(2025, 1, 1)));
    assert_eq!(us("last jul", day(2024, 1, 1)), Ok(day(2023, 7, 1)));
    assert_eq!(us("last jan", day(2024, 1, 2)), Ok(day(2024, 1, 1)));
}

#[test]
fn day_and_month_without_a_year() {
    let now = day(2024, 6, 1);
    assert_eq!(parse_date_string("5/3", now, Dialect::Uk), Ok(day(2024, 3, 5)));
    assert_eq!(parse_date_string("next 5/3", now, Dialect::Uk), Ok(day(2025, 3, 5)));
    assert_eq!(parse_date_string("next 5/9", now, Dialect::Uk), Ok(day(2024, 9, 5)));
    assert_eq!(parse_date_string("last 5/9", now, Dialect::Uk), Ok(day(2023, 9, 5)));
    assert_eq!(parse_date_string("last 5/3", now, Dialect::Uk), Ok(day(2024, 3, 5)));
    assert_eq!(parse_date_string("5/3", now, Dialect::Us), Ok(day(2024, 5, 3)));
    assert_eq!(parse_date_string("29/2", day(2023, 6, 1), Dialect::Uk), Err(DateError::BadDate));
    assert_eq!(parse_date_string("next 29/2", day(2024, 6, 1), Dialect::Uk), Err(DateError::BadDate));
}

#[test]
fn an_offset_brings_the_time_to_utc() {
    let now = day(2024, 1, 1);
    assert_eq!(us("2024-04-10T13:31:46Z", now), Ok(at(2024, 4, 10, 13, 31, 46)));
    assert_eq!(us("2024-04-10T13:31:46-02:30", now), Ok(at(2024, 4, 10, 16, 1, 46)));
    assert_eq!(us("2024-01-01T01:00:00+04:00", now), Ok(at(2023, 12, 31, 21, 0, 0)));
    assert_eq!(us("01:00:00+04:00", now), Ok(at(2023, 12, 31, 21, 0, 0)));
}

#[test]
fn dates_and_times_that_do_not_exist() {
    let now = day(2024, 1, 1);
    assert_eq!(us("2024-04-31", now), Err(DateError::BadDate));
    assert_eq!(us("2023-02-29", now), Err(DateError::BadDate));
    assert_eq!(us("2024-02-29", now), Ok(day(2024, 2, 29)));
    assert_eq!(us("31 april", now), Err(DateError::BadDate));
    assert_eq!(us("2024-04-10 25:00", now), Err(DateError::BadDate));
    assert_eq!(us("25:00", now), Err(DateError::BadTime));
    assert_eq!(us("10:60", now), Err(DateError::BadTime));
    assert_eq!(us("13 pm", now), Ok(at(2024, 1, 1, 13, 0, 0)));
    assert_eq!(us("300000 years", now), Err(DateError::BadDate));
    assert_eq!(us("4000000000 weeks", now), Err(DateError::BadDate));
    assert_eq!(us("999999", now), Err(DateError::BadDate));
}

#[test]
fn a_now_that_is_no_instant_is_refused() {
    let now = Instant { year: 2024, month: 2, day: 30, hour: 0, minute: 0, second: 0, nanosecond: 0 };
    assert_eq!(us("today", now), Err(DateError::BadDate));
}

#[test]
fn the_ends_of_the_calendar() {
    let last = Instant {
        year: 262_142, month: 12, day: 31, hour: 23, minute: 59, second: 59, nanosecond: 999_999_999,
    };
    assert_eq!(us("today", last), Ok(last));
    assert_eq!(us("1 second", last), Err(DateError::BadDate));
    assert_eq!(us("1 month", last), Err(DateError::BadDate));
    let first = day(-262_143, 1, 1);
    assert_eq!(us("1 second ago", first), Err(DateError::BadDate));
    assert_eq!(us("1 second", first), Ok(at(-262_143, 1, 1, 0, 0, 1)));
}
