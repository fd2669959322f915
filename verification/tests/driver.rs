use tu::driver::{strip_connector, timestamp, try_parse_print};
use tu::resolve::resolve;
use tu::{
    append_min_if_only_hour, duration_of, parse_date_args, parse_print, to_iso, DateError,
    DateSpec, DateTimeSpec, Instant, Interval, TimeSpec, TimeUnit,
};

fn at(year: i32, month: u32, day: u32, hour: u32, minute: u32, second: u32) -> Instant {
    Instant { year, month, day, hour, minute, second, nanosecond: 0 }
}

fn words(text: &[&str]) -> Vec<String> {
    text.iter().map(|w| w.to_string()).collect()
}

#[test]
fn hours_of_an_offset_get_their_minutes() {
    assert_eq!(append_min_if_only_hour("13:31:46+04"), "13:31:46+04:00");
    assert_eq!(append_min_if_only_hour("13:31:46+4"), "13:31:46+04:00");
    assert_eq!(append_min_if_only_hour("13:31:46+04:00"), "13:31:46+04:00");
    assert_eq!(append_min_if_only_hour("13:31:46-04"), "13:31:46-04");
    assert_eq!(append_min_if_only_hour("+1"), "+01:00");
    assert_eq!(append_min_if_only_hour("+12"), "+12:00");
    assert_eq!(append_min_if_only_hour("1"), "1");
    assert_eq!(append_min_if_only_hour(""), "");
    assert_eq!(append_min_if_only_hour("2 days"), "2 days");
    assert_eq!(append_min_if_only_hour("caf\u{e9}+1"), "caf\u{e9}+01:00");
}

#[test]
fn connectors_are_stripped() {
    assert_eq!(strip_connector("in 2 days"), "2 days");
    assert_eq!(strip_connector("in a week"), "1 week");
    assert_eq!(strip_connector("in an hour"), "1 hour");
    assert_eq!(strip_connector("at 11:20"), "11:20");
    assert_eq!(strip_connector("2 days"), "2 days");
    assert_eq!(strip_connector("in"), "in");
    assert_eq!(strip_connector("inside"), "inside");
}

#[test]
fn words_are_joined_and_trimmed() {
    let now = at(2024, 1, 1, 8, 34, 52);
    assert_eq!(parse_date_args(&words(&["in", "an", "hour"]), now), Ok(at(2024, 1, 1, 9, 34, 52)));
    assert_eq!(parse_date_args(&words(&["  2 days  "]), now), Ok(at(2024, 1, 3, 8, 34, 52)));
    assert_eq!(parse_date_args(&words(&["in", "2", "days", ""]), now), Ok(at(2024, 1, 3, 8, 34, 52)));
    assert_eq!(parse_date_args(&words(&[]), now), Err(DateError::EmptyInput));
}

#[test]
fn american_usage_is_the_default() {
    let now = at(2024, 1, 1, 0, 0, 0);
    assert_eq!(parse_date_args(&words(&["03/04/2024"]), now), Ok(at(2024, 3, 4, 0, 0, 0)));
}

#[test]
fn counts_of_seconds_and_milliseconds() {
    assert_eq!(timestamp("0"), Some(at(1970, 1, 1, 0, 0, 0)));
    assert_eq!(timestamp("1740599117"), Some(at(2025, 2, 26, 19, 45, 17)));
    assert_eq!(
        timestamp("1740599117123"),
        Some(Instant { nanosecond: 123_000_000, ..at(2025, 2, 26, 19, 45, 17) })
    );
    // Thirteen digits that do not reach a billion seconds count seconds.
    assert_eq!(timestamp("0000000000042"), Some(at(1970, 1, 1, 0, 0, 42)));
    assert_eq!(timestamp("999999999999"), Some(at(33658, 9, 27, 1, 46, 39)));
    assert_eq!(timestamp(""), None);
    assert_eq!(timestamp("12a"), None);
    assert_eq!(timestamp("-5"), None);
    assert_eq!(timestamp("9223372036854775807"), None);
    assert_eq!(timestamp("9223372036854775808"), None);
    assert_eq!(timestamp("99999999999999999999999"), None);
}

#[test]
fn standard_timestamps() {
    let now = at(2024, 1, 1, 0, 0, 0);
    assert_eq!(
        parse_date_args(&words(&["Wed,", "14", "Feb", "2024", "23:16:09", "GMT"]), now),
        Ok(at(2024, 2, 14, 23, 16, 9))
    );
    assert_eq!(
        parse_date_args(&words(&["Wed,", "14", "Feb", "2024", "23:16:09", "+0100"]), now),
        Ok(at(2024, 2, 14, 22, 16, 9))
    );
    assert_eq!(
        parse_date_args(&words(&["2024-04-10T13:31:46.5-02:00"]), now),
        Ok(Instant { nanosecond: 500_000_000, ..at(2024, 4, 10, 15, 31, 46) })
    );
}

#[test]
fn instants_in_iso_form() {
    assert_eq!(to_iso(at(2024, 1, 3, 0, 0, 0)), "2024-01-03T00:00:00Z");
    assert_eq!(to_iso(at(2024, 4, 10, 9, 31, 46)), "2024-04-10T09:31:46Z");
    assert_eq!(
        to_iso(Instant { nanosecond: 500_000_000, ..at(2024, 4, 10, 9, 31, 46) }),
        "2024-04-10T09:31:46.500Z"
    );
}

#[test]
fn parse_and_print() {
    let now = at(2024, 1, 1, 0, 0, 0);
    assert_eq!(parse_print(now, "2 days"), "2024-01-03T00:00:00Z");
    assert_eq!(parse_print(now, "9 weeks"), "2024-03-04T00:00:00Z");
    assert_eq!(try_parse_print(now, "tomorrow"), Some("2024-01-02T00:00:00Z".to_string()));
    assert_eq!(try_parse_print(now, "no date"), None);
}

#[test]
fn durations() {
    let span = Interval { unit: TimeUnit::Week, billionths: 2_000_000_000 };
    let time = TimeSpec::new(11, 20, 0, 0);
    assert_eq!(duration_of(&DateTimeSpec { date: Some(DateSpec::Relative(span)), time: None }), Ok(span));
    assert_eq!(
        duration_of(&DateTimeSpec { date: Some(DateSpec::Relative(span)), time: Some(time) }),
        Err(DateError::UnexpectedTime)
    );
    assert_eq!(duration_of(&DateTimeSpec { date: None, time: None }), Err(DateError::NoDate));
}

#[test]
fn nothing_to_resolve() {
    let now = at(2024, 1, 1, 0, 0, 0);
    assert_eq!(resolve(&DateTimeSpec { date: None, time: None }, &now), Err(DateError::NoDate));
}

#[test]
fn white_space_at_the_ends_is_cut_off() {
    let now = at(2024, 1, 1, 0, 0, 0);
    assert_eq!(parse_date_args(&words(&[" 1740599117 "]), now), Ok(at(2025, 2, 26, 19, 45, 17)));
    assert_eq!(parse_date_args(&words(&["1740599117", ""]), now), Ok(at(2025, 2, 26, 19, 45, 17)));
}
