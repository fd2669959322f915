use tu::{
    ByName, DateError, DateParser, DateSpec, DateTimeSpec, Direction, Interval, TimeSpec, TimeUnit,
};

fn uk(text: &str) -> Result<DateTimeSpec, DateError> {
    DateParser::new(text).parse()
}

fn us(text: &str) -> Result<DateTimeSpec, DateError> {
    DateParser::new(text).american_date().parse()
}

fn span(unit: TimeUnit, billionths: i64) -> Option<DateSpec> {
    Some(DateSpec::Relative(Interval { unit, billionths }))
}

fn time(hour: u32, min: u32, sec: u32) -> Option<TimeSpec> {
    Some(TimeSpec { hour, min, sec, microsec: 0, offset: None })
}

fn absolute(year: u32, month: u32, day: u32) -> Option<DateSpec> {
    Some(DateSpec::Absolute { year, month, day })
}

fn day_month(day: u32, month: u32, direct: Direction) -> Option<DateSpec> {
    Some(DateSpec::FromName(ByName::DayMonth { day, month, direct }))
}

fn both(date: Option<DateSpec>, time: Option<TimeSpec>) -> Result<DateTimeSpec, DateError> {
    Ok(DateTimeSpec { date, time })
}

#[test]
fn words_for_a_day() {
    for word in ["now", "today", "tdy"] {
        assert_eq!(uk(word), both(span(TimeUnit::Day, 0), None));
    }
    for word in ["yesterday", "yday", "ytd"] {
        assert_eq!(uk(word), both(span(TimeUnit::Day, -1_000_000_000), None));
    }
    for word in ["tomorrow", "tmr", "tmrw"] {
        assert_eq!(uk(word), both(span(TimeUnit::Day, 1_000_000_000), None));
    }
}

#[test]
fn words_for_a_day_are_matched_as_written() {
    assert_eq!(uk("Today"), Err(DateError::ExpectedName));
}

#[test]
fn names_with_a_direction() {
    assert_eq!(
        uk("friday"),
        both(Some(DateSpec::FromName(ByName::WeekDay { day: 4, direct: Direction::Here })), None)
    );
    assert_eq!(
        uk("next friday"),
        both(Some(DateSpec::FromName(ByName::WeekDay { day: 4, direct: Direction::Next })), None)
    );
    assert_eq!(
        uk("NEXT Friday"),
        both(Some(DateSpec::FromName(ByName::WeekDay { day: 4, direct: Direction::Next })), None)
    );
    assert_eq!(
        uk("last jul"),
        both(Some(DateSpec::FromName(ByName::MonthName { month: 7, direct: Direction::Last })), None)
    );
    assert_eq!(
        uk("Sunday"),
        both(Some(DateSpec::FromName(ByName::WeekDay { day: 6, direct: Direction::Here })), None)
    );
}

#[test]
fn month_day_and_year() {
    assert_eq!(uk("April 10, 2024"), both(absolute(2024, 4, 10), None));
    assert_eq!(uk("April 10, 2024, 7:12 PM"), both(absolute(2024, 4, 10), time(19, 12, 0)));
    assert_eq!(uk("Apr 10 2024 7:12 PM UTC"), both(absolute(2024, 4, 10), time(19, 12, 0)));
    assert_eq!(uk("april 10"), both(day_month(10, 4, Direction::Here), None));
    assert_eq!(uk("december 14 11:20"), both(day_month(14, 12, Direction::Here), time(11, 20, 0)));
    assert_eq!(uk("december 14 at 11:20"), both(day_month(14, 12, Direction::Here), time(11, 20, 0)));
}

#[test]
fn a_number_alone_is_a_year() {
    assert_eq!(uk("2024"), both(absolute(2024, 1, 1), None));
}

#[test]
fn day_before_month() {
    assert_eq!(uk("14 december"), both(day_month(14, 12, Direction::Here), None));
    assert_eq!(uk("14 December 11:20"), both(day_month(14, 12, Direction::Here), time(11, 20, 0)));
    assert_eq!(uk("next 14 dec"), both(day_month(14, 12, Direction::Next), None));
}

#[test]
fn spans() {
    assert_eq!(uk("2 days"), both(span(TimeUnit::Day, 2_000_000_000), None));
    assert_eq!(uk("2 d"), both(span(TimeUnit::Day, 2_000_000_000), None));
    assert_eq!(uk("3 days ago"), both(span(TimeUnit::Day, -3_000_000_000), None));
    assert_eq!(uk("-3 days"), both(span(TimeUnit::Day, -3_000_000_000), None));
    assert_eq!(uk("1 sec"), both(span(TimeUnit::Second, 1_000_000_000), None));
    assert_eq!(uk("5 minutes"), both(span(TimeUnit::Minute, 5_000_000_000), None));
    assert_eq!(uk("5 m"), both(span(TimeUnit::Minute, 5_000_000_000), None));
    assert_eq!(uk("1 hour"), both(span(TimeUnit::Hour, 1_000_000_000), None));
    assert_eq!(uk("9 weeks"), both(span(TimeUnit::Week, 9_000_000_000), None));
    assert_eq!(uk("1 month"), both(span(TimeUnit::Month, 1_000_000_000), None));
    assert_eq!(uk("10 years"), both(span(TimeUnit::Year, 10_000_000_000), None));
    assert_eq!(uk("4294967295 s"), both(span(TimeUnit::Second, 4_294_967_295_000_000_000), None));
}

#[test]
fn decimal_spans() {
    assert_eq!(uk("1.5 hours"), both(span(TimeUnit::Hour, 1_500_000_000), None));
    assert_eq!(uk("0.25 days"), both(span(TimeUnit::Day, 250_000_000), None));
    assert_eq!(uk("2.0 weeks"), both(span(TimeUnit::Week, 2_000_000_000), None));
    assert_eq!(uk("1.5 hours ago"), both(span(TimeUnit::Hour, -1_500_000_000), None));
    assert_eq!(uk("-1.5 hours"), both(span(TimeUnit::Hour, -1_500_000_000), None));
    assert_eq!(uk("1.123456789 s"), both(span(TimeUnit::Second, 1_123_456_789), None));
    assert_eq!(uk("1.1234567891 s"), both(span(TimeUnit::Second, 1_123_456_789), None));
    assert_eq!(uk("1.05 hours"), both(span(TimeUnit::Hour, 1_050_000_000), None));
    assert_eq!(uk("0.000000001 s"), both(span(TimeUnit::Second, 1), None));
}

#[test]
fn a_span_and_a_time() {
    assert_eq!(uk("2 days 11:20"), both(span(TimeUnit::Day, 2_000_000_000), time(11, 20, 0)));
    assert_eq!(uk("2 days 11.20"), both(span(TimeUnit::Day, 2_000_000_000), time(11, 20, 0)));
}

#[test]
fn iso_dates() {
    assert_eq!(uk("2024-04-10"), both(absolute(2024, 4, 10), None));
    assert_eq!(uk("2024-04-10 7:12 PM"), both(absolute(2024, 4, 10), time(19, 12, 0)));
    assert_eq!(uk("2024-04-10T13:31:46"), both(absolute(2024, 4, 10), time(13, 31, 46)));
    assert_eq!(uk("2024-04-31"), both(absolute(2024, 4, 31), None));
}

#[test]
fn slash_dates() {
    assert_eq!(uk("03/04"), both(day_month(3, 4, Direction::Here), None));
    assert_eq!(us("03/04"), both(day_month(4, 3, Direction::Here), None));
    assert_eq!(uk("03/04/2024"), both(absolute(2024, 4, 3), None));
    assert_eq!(us("03/04/2024"), both(absolute(2024, 3, 4), None));
    assert_eq!(uk("next 03/04"), both(day_month(3, 4, Direction::Next), None));
}

#[test]
fn two_digit_years_are_pivoted() {
    assert_eq!(uk("03/04/24"), both(absolute(2024, 4, 3), None));
    assert_eq!(uk("03/04/41"), both(absolute(1941, 4, 3), None));
    assert_eq!(uk("03/04/40"), both(absolute(2040, 4, 3), None));
    assert_eq!(uk("03/04/0"), both(absolute(2000, 4, 3), None));
    assert_eq!(uk("03/04/99"), both(absolute(1999, 4, 3), None));
    assert_eq!(uk("03/04/100"), both(absolute(100, 4, 3), None));
}

#[test]
fn dotted_days() {
    assert_eq!(uk("15. Jun 2025"), both(absolute(2025, 6, 15), None));
    assert_eq!(uk("15. Jun"), both(day_month(15, 6, Direction::Here), None));
}

#[test]
fn times_alone() {
    assert_eq!(uk("11:20"), both(None, time(11, 20, 0)));
    assert_eq!(uk("11:20:30"), both(None, time(11, 20, 30)));
    assert_eq!(uk("11.20"), both(None, time(11, 20, 0)));
    assert_eq!(uk("11.20 pm"), both(None, time(23, 20, 0)));
    assert_eq!(uk("11.05"), both(None, time(11, 5, 0)));
    assert_eq!(uk("12.05 am"), both(None, time(0, 5, 0)));
    assert_eq!(uk("7pm"), both(None, time(19, 0, 0)));
    assert_eq!(uk("7 pm"), both(None, time(19, 0, 0)));
    assert_eq!(uk("7 PM"), both(None, time(19, 0, 0)));
    assert_eq!(uk("11:20 pm"), both(None, time(23, 20, 0)));
    assert_eq!(uk("11:20 at home"), both(None, time(11, 20, 0)));
}

#[test]
fn twelve_hour_clock() {
    assert_eq!(uk("12am"), both(None, time(0, 0, 0)));
    assert_eq!(uk("12pm"), both(None, time(12, 0, 0)));
    assert_eq!(uk("9pm"), both(None, time(21, 0, 0)));
    assert_eq!(uk("9am"), both(None, time(9, 0, 0)));
    assert_eq!(DateParser::am_pm("am", 12), Ok(0));
    assert_eq!(DateParser::am_pm("pm", 12), Ok(12));
    assert_eq!(DateParser::am_pm("pm", 9), Ok(21));
    assert_eq!(DateParser::am_pm("noon", 9), Err(DateError::ExpectedAmPm));
    assert_eq!(DateParser::hour_time("pm", 3), Ok(TimeSpec::new(15, 0, 0, 0)));
}

#[test]
fn a_time_before_its_day() {
    assert_eq!(uk("7pm tomorrow"), both(span(TimeUnit::Day, 1_000_000_000), time(19, 0, 0)));
    assert_eq!(
        uk("7pm friday"),
        both(
            Some(DateSpec::FromName(ByName::WeekDay { day: 4, direct: Direction::Here })),
            time(19, 0, 0)
        )
    );
    assert_eq!(uk("7pm sharp"), both(None, time(19, 0, 0)));
}

#[test]
fn a_time_after_its_day() {
    assert_eq!(uk("tomorrow 5 pm"), both(span(TimeUnit::Day, 1_000_000_000), time(17, 0, 0)));
    assert_eq!(uk("tomorrow at 5:30"), both(span(TimeUnit::Day, 1_000_000_000), time(5, 30, 0)));
    assert_eq!(uk("tomorrow at"), both(span(TimeUnit::Day, 1_000_000_000), None));
}

#[test]
fn fractions_of_a_second() {
    let with = |microsec| Some(TimeSpec { hour: 13, min: 31, sec: 46, microsec, offset: None });
    assert_eq!(uk("13:31:46.25"), both(None, with(250_000)));
    assert_eq!(uk("13:31:46.000001"), both(None, with(1)));
    assert_eq!(uk("13:31:46.1234567"), both(None, with(123_456)));
    assert_eq!(uk("13:31:46.05"), both(None, with(50_000)));
}

#[test]
fn offsets() {
    let with = |offset| Some(TimeSpec { hour: 13, min: 31, sec: 46, microsec: 0, offset: Some(offset) });
    assert_eq!(uk("13:31:46+04:00"), both(None, with(14_400)));
    assert_eq!(uk("13:31:46+04"), both(None, with(14_400)));
    assert_eq!(uk("13:31:46+4"), both(None, with(14_400)));
    assert_eq!(uk("13:31:46+0430"), both(None, with(16_200)));
    assert_eq!(uk("13:31:46-02:30"), both(None, with(-9_000)));
    assert_eq!(uk("13:31:46-0230"), both(None, with(-9_000)));
    assert_eq!(uk("13:31:46Z"), both(None, with(0)));
    assert_eq!(uk("13:31:46 Z"), both(None, with(0)));
    assert_eq!(
        uk("13:31:46.5+01:00"),
        both(None, Some(TimeSpec { hour: 13, min: 31, sec: 46, microsec: 500_000, offset: Some(3_600) }))
    );
    assert_eq!(
        uk("13:31+01:00"),
        both(None, Some(TimeSpec { hour: 13, min: 31, sec: 0, microsec: 0, offset: Some(3_600) }))
    );
}

#[test]
fn errors_of_the_date_stage() {
    assert_eq!(uk(""), Err(DateError::EmptyInput));
    assert_eq!(uk("   "), Err(DateError::EmptyInput));
    assert_eq!(uk("-"), Err(DateError::NothingAfterSign));
    assert_eq!(uk("next"), Err(DateError::NothingAfterDirection));
    assert_eq!(uk("last "), Err(DateError::NothingAfterDirection));
    assert_eq!(uk("foo"), Err(DateError::ExpectedName));
    assert_eq!(uk("5 foo"), Err(DateError::ExpectedMonthOrUnit));
    assert_eq!(uk("5 days later"), Err(DateError::OnlyExpectedAgo));
    assert_eq!(uk("5. foo"), Err(DateError::ExpectedMonthAfterDot));
    assert_eq!(uk("5.,"), Err(DateError::UnexpectedAfterDot));
    assert_eq!(uk("11. 20"), Err(DateError::UnexpectedAfterDot));
    assert_eq!(uk("11.99999999999"), Err(DateError::IntegerOutOfRange));
    assert_eq!(uk("5 ?"), Err(DateError::UnexpectedChar('?')));
    assert_eq!(uk("5 'x'"), Err(DateError::UnexpectedToken));
    assert_eq!(uk("?"), Err(DateError::UnexpectedToken));
    assert_eq!(uk("2024-x"), Err(DateError::ExpectedInteger));
    assert_eq!(uk("99999999999 days"), Err(DateError::IntegerOutOfRange));
    assert_eq!(uk("99999999999999999999 days"), Err(DateError::UnexpectedToken));
    assert_eq!(uk("2024-04 10"), Err(DateError::ExpectedChar));
    assert_eq!(uk("2024-04/10"), Err(DateError::ExpectedDash('/')));
    assert_eq!(uk("2024-13-01"), Err(DateError::MonthOutOfRange));
    assert_eq!(us("13/04/2024"), Err(DateError::MonthOutOfRange));
    assert_eq!(uk("11.20 7"), Err(DateError::ExpectedIdentifier));
    assert_eq!(uk("11.20 xm"), Err(DateError::ExpectedAmPm));
}

#[test]
fn errors_of_the_time_stage() {
    assert_eq!(uk("10:30:15."), Err(DateError::ExpectedFraction));
    assert_eq!(uk("10:30:15.x"), Err(DateError::ExpectedFraction));
    assert_eq!(uk("10:30:15 ?"), Err(DateError::ExpectedSign));
    assert_eq!(uk("2 days 5 ?"), Err(DateError::ExpectedColonOrDot('?')));
    assert_eq!(uk("2 days 5 pm"), Err(DateError::ExpectedChar));
    assert_eq!(uk("tomorrow 5 xm"), Err(DateError::ExpectedAmPm));
    assert_eq!(uk("tomorrow 5 ?"), Err(DateError::UnexpectedChar('?')));
    assert_eq!(uk("tomorrow 5 6"), Err(DateError::UnexpectedToken));
    assert_eq!(uk("tomorrow noon"), Err(DateError::ExpectedInteger));
    assert_eq!(uk("11.20.30"), Err(DateError::ExpectedIdentifier));
}

#[test]
fn messages() {
    assert_eq!(DateError::ExpectedName.message(), "expected week day or month name");
    assert_eq!(DateError::ExpectedColonOrDot('?').message(), "expected : or .");
    assert_eq!(DateError::UnexpectedToken.message(), "unexpected token");
    assert_eq!(DateError::NothingAfterSign.message(), "nothing after '-'");
    assert_eq!(DateError::NothingAfterDirection.message(), "nothing after last/next");
    assert_eq!(DateError::BadDate.message(), "bad date");
}

#[test]
fn stages_one_by_one() {
    let mut p = DateParser::new("14 december 11:20");
    assert_eq!(p.parse_date(), Ok(day_month(14, 12, Direction::Here)));
    assert_eq!(p.parse_time(), Ok(time(11, 20, 0)));
    assert_eq!(p.parse_time(), Ok(None));
}

#[test]
fn odd_texts_are_refused() {
    assert_eq!(uk("'unfinished"), Err(DateError::UnexpectedToken));
    assert_eq!(uk("\0"), Err(DateError::EmptyInput));
    assert_eq!(uk("\u{e9}t\u{e9}"), Err(DateError::ExpectedName));
    assert_eq!(uk("\u{2603}"), Err(DateError::UnexpectedToken));
    assert_eq!(uk("5 \u{e9}"), Err(DateError::ExpectedMonthOrUnit));
    assert_eq!(uk("10:30:15.\u{661}"), Err(DateError::ExpectedFraction));
    assert_eq!(uk("10:30:15. 5"), Err(DateError::ExpectedFraction));
    assert_eq!(uk("0x10 days"), Err(DateError::ExpectedMonthOrUnit));
    assert_eq!(uk("--5 days"), Err(DateError::UnexpectedToken));
    assert_eq!(uk("_"), Err(DateError::ExpectedName));
    assert_eq!(uk("ja"), Err(DateError::ExpectedName));
    assert_eq!(uk("5 \u{212a}"), Err(DateError::ExpectedMonthOrUnit));
}

#[test]
fn names_are_known_by_three_letters() {
    assert_eq!(
        uk("decembrrr"),
        both(Some(DateSpec::FromName(ByName::MonthName { month: 12, direct: Direction::Here })), None)
    );
    assert_eq!(
        uk("MONDAY"),
        both(Some(DateSpec::FromName(ByName::WeekDay { day: 0, direct: Direction::Here })), None)
    );
    assert_eq!(uk("3 mon"), both(span(TimeUnit::Month, 3_000_000_000), None));
    assert_eq!(uk("3 Yrs"), Err(DateError::ExpectedMonthOrUnit));
    assert_eq!(uk("3 y"), both(span(TimeUnit::Year, 3_000_000_000), None));
    assert_eq!(uk("3 Hours"), both(span(TimeUnit::Hour, 3_000_000_000), None));
}
