//! The grammar of dates and times as a function of the characters that are
//! left to read. Each function takes the state of a parse and gives what was
//! recognised together with the state after it.

use vstd::prelude::*;
use crate::errors::DateError;
use crate::lexer::{after_grab, grabbed, int_of, is_digit, lex, rest_of, Lexeme};
use crate::names::{by_name_of, direction_of, meridiem_of, month_of, shortcut_of, unit_of};
use crate::rules::{billionths_of, day_month, hour_of_day, micros_of, offset_of, pivot_year};
use crate::text::number_of;
use crate::types::{
    ByName, DateSpec, DateTimeSpec, Direction, Interval, TimeSpec, TimeUnit, BILLION,
};

verus! {

/// How much of a time the date stage has read beyond the hour.
#[derive(Clone, Copy, Debug, PartialEq, Eq, Structural)]
pub enum TimeKind {
    /// The `:` after the hour.
    Formal,
    /// Nothing: whether a `:` or a `.` follows is still to be read.
    Unknown,
    /// All of it: the minute is known, and the hour is an hour of the day.
    Done(u32),
}

/// The state of a parse.
pub struct ParserState {
    /// The characters that are left to read, as the scanner holds them.
    pub pending: Seq<char>,
    /// The direction that `next` or `last` has set.
    pub direct: Direction,
    /// The hour that the date stage has read for the time stage.
    pub maybe_time: Option<(u32, TimeKind)>,
    /// Whether a date with a slash has its month first.
    pub american: bool,
}

impl ParserState {
    /// The state with `pending` in place of the characters left to read.
    pub open spec fn at(self, pending: Seq<char>) -> ParserState {
        ParserState { pending, ..self }
    }

    /// The state once the character in front is consumed.
    pub open spec fn skip_char(self) -> ParserState {
        self.at(rest_of(self.pending))
    }

    /// The state with an hour kept for the time stage.
    pub open spec fn keep(self, hour: u32, kind: TimeKind) -> ParserState {
        ParserState { maybe_time: Some((hour, kind)), ..self }
    }
}

/// Reads one token.
pub open spec fn token(st: ParserState) -> (Lexeme, ParserState) {
    (lex(st.pending).0, st.at(lex(st.pending).1))
}

/// Reads one token, which must be a number.
pub open spec fn number(st: ParserState) -> (Result<u32, DateError>, ParserState) {
    (int_of(token(st).0), token(st).1)
}

/// `Ok` of `Some` of what was recognised.
pub open spec fn some_of<T>(r: (Result<T, DateError>, ParserState)) -> (
    Result<Option<T>, DateError>,
    ParserState,
) {
    match r.0 {
        Ok(v) => (Ok(Some(v)), r.1),
        Err(e) => (Err(e), r.1),
    }
}

/// The `-` that must stand between the month and the day.
pub open spec fn dash_of(t: Lexeme) -> Result<(), DateError> {
    match t {
        Lexeme::Char(c) => if c == '-' {
            Ok(())
        } else {
            Err(DateError::ExpectedDash(c))
        },
        _ => Err(DateError::ExpectedChar),
    }
}

/// After a year and its `-`: a month, a `-` and a day.
pub open spec fn iso_date_spec(st: ParserState, year: u32) -> (
    Result<DateSpec, DateError>,
    ParserState,
) {
    let (month, s1) = number(st);
    match month {
        Err(e) => (Err(e), s1),
        Ok(month) => {
            let (t, s2) = token(s1);
            match dash_of(t) {
                Err(e) => (Err(e), s2),
                Ok(_) => {
                    let (day, s3) = number(s2);
                    match day {
                        Err(e) => (Err(e), s3),
                        Ok(day) => (DateSpec::absolute_spec(year, month, day), s3),
                    }
                },
            }
        },
    }
}

/// After a number and its `/`: a second number, which is the month or the
/// day as the dialect has it, and then, after a second `/`, a year.
pub open spec fn informal_date_spec(st: ParserState, first: u32) -> (
    Result<DateSpec, DateError>,
    ParserState,
) {
    let (second, s1) = number(st);
    match second {
        Err(e) => (Err(e), s1),
        Ok(second) => {
            let (day, month) = day_month(first, second, st.american);
            if s1.pending[0] == '/' {
                let (y, s3) = number(s1.skip_char());
                match y {
                    Err(e) => (Err(e), s3),
                    Ok(y) => (DateSpec::absolute_spec(pivot_year(y), month, day), s3),
                }
            } else {
                (Ok(DateSpec::FromName(ByName::DayMonth { day, month, direct: st.direct })), s1)
            }
        },
    }
}

/// The span of `magnitude` billionths of `unit`, counted backwards where
/// `negative` is set.
pub open spec fn span(unit: TimeUnit, magnitude: int, negative: bool) -> DateSpec {
    DateSpec::Relative(
        Interval { unit, billionths: (if negative { -magnitude } else { magnitude }) as i64 },
    )
}

/// After an amount and its unit. With a leading `-` the span is negative and
/// nothing more is read. Else one more token is read: `ago` makes the span
/// negative, any other word is refused, a number is kept as the hour of a
/// time, and anything else is passed over.
pub open spec fn relative_spec(st: ParserState, sign: bool, unit: TimeUnit, magnitude: int) -> (
    Result<DateSpec, DateError>,
    ParserState,
) {
    if sign {
        (Ok(span(unit, magnitude, true)), st)
    } else {
        let (t, s1) = token(st);
        match t {
            Lexeme::Iden(w) => if w == "ago"@ {
                (Ok(span(unit, magnitude, true)), s1)
            } else {
                (Err(DateError::OnlyExpectedAgo), s1)
            },
            Lexeme::Int(_) => match int_of(t) {
                Ok(h) => (Ok(span(unit, magnitude, false)), s1.keep(h, TimeKind::Unknown)),
                Err(e) => (Err(e), s1),
            },
            _ => (Ok(span(unit, magnitude, false)), s1),
        }
    }
}

/// After an hour and `am` or `pm`: one more token is read, and where it is a
/// word for a day, or the name of a weekday or month, it is the date.
pub open spec fn trailing_date_spec(st: ParserState) -> (Option<DateSpec>, ParserState) {
    let (t, s1) = token(st);
    match t {
        Lexeme::Iden(w) => match shortcut_of(w) {
            Some(k) => (Some(span(TimeUnit::Day, k * BILLION, false)), s1),
            None => match by_name_of(w, st.direct) {
                Some(name) => (Some(DateSpec::FromName(name)), s1),
                None => (None, s1),
            },
        },
        _ => (None, s1),
    }
}

/// The minute that the digits `s` write, where it fits 32 bits.
pub open spec fn minute_of(s: Seq<char>) -> Result<u32, DateError> {
    match number_of(s) {
        Some(m) => if m <= 0xffff_ffff {
            Ok(m as u32)
        } else {
            Err(DateError::IntegerOutOfRange)
        },
        None => Err(DateError::IntegerOutOfRange),
    }
}

/// After a number, its `.` and the digits that follow the `.` at once. With
/// a unit behind them the digits are the decimal places of an amount. Else
/// they are the minute of a time whose hour the number is, and `am` or `pm`
/// may follow.
pub open spec fn decimal_spec(st: ParserState, sign: bool, n: u32) -> (
    Result<Option<DateSpec>, DateError>,
    ParserState,
) {
    let digits = grabbed(st.pending);
    let (t, s1) = token(st.at(after_grab(st.pending)));
    match t {
        Lexeme::End => match minute_of(digits) {
            Ok(min) => (Ok(None), s1.keep(n, TimeKind::Done(min))),
            Err(e) => (Err(e), s1),
        },
        Lexeme::Iden(w) => match unit_of(w) {
            Some(unit) => match billionths_of(digits) {
                Some(part) => some_of(relative_spec(s1, sign, unit, n * BILLION + part)),
                None => (Err(DateError::ExpectedFraction), s1),
            },
            None => match meridiem_of(w) {
                Some(pm) => match minute_of(digits) {
                    Ok(min) => (Ok(None), s1.keep(hour_of_day(pm, n), TimeKind::Done(min))),
                    Err(e) => (Err(e), s1),
                },
                None => (Err(DateError::ExpectedAmPm), s1),
            },
        },
        _ => (Err(DateError::ExpectedIdentifier), s1),
    }
}

/// After a number and its `.`. Digits that follow at once are read as
/// [`decimal_spec`] says. Else the name of a month must follow: the number
/// is a day, and a number after the month is the year.
pub open spec fn dotted_spec(st: ParserState, sign: bool, n: u32) -> (
    Result<Option<DateSpec>, DateError>,
    ParserState,
) {
    if is_digit(st.pending[0]) {
        decimal_spec(st, sign, n)
    } else {
        let (t, s1) = token(st);
        match t {
            Lexeme::Iden(w) => match month_of(w) {
                Some(month) => {
                    let (t2, s2) = token(s1);
                    match t2 {
                        Lexeme::Int(_) => match int_of(t2) {
                            Ok(year) => some_of((DateSpec::absolute_spec(year, month, n), s2)),
                            Err(e) => (Err(e), s2),
                        },
                        _ => (
                            Ok(
                                Some(
                                    DateSpec::FromName(
                                        ByName::DayMonth { day: n, month, direct: st.direct },
                                    ),
                                ),
                            ),
                            s2,
                        ),
                    }
                },
                None => (Err(DateError::ExpectedMonthAfterDot), s1),
            },
            _ => (Err(DateError::UnexpectedAfterDot), s1),
        }
    }
}

/// After the name of a month. A number is the day; then a comma brings the
/// year, and a comma after the year is passed over. Without a comma a
/// second number is the year, unless a `:` or a `.` follows it at once: then
/// it is kept as the hour of a time. Anything but a number after the month
/// is passed over, and the month stands alone.
pub open spec fn after_month_spec(st: ParserState, month: u32, name: ByName) -> (
    Result<DateSpec, DateError>,
    ParserState,
) {
    let (t, s1) = token(st);
    match t {
        Lexeme::Int(_) => match int_of(t) {
            Err(e) => (Err(e), s1),
            Ok(day) => {
                let day_month = DateSpec::FromName(
                    ByName::DayMonth { day, month, direct: st.direct },
                );
                if s1.pending[0] == ',' {
                    let (y, s3) = number(s1.skip_char());
                    match y {
                        Err(e) => (Err(e), s3),
                        Ok(year) => (
                            DateSpec::absolute_spec(year, month, day),
                            if s3.pending[0] == ',' {
                                s3.skip_char()
                            } else {
                                s3
                            },
                        ),
                    }
                } else {
                    let (t2, s2) = token(s1);
                    match t2 {
                        Lexeme::Int(_) => match int_of(t2) {
                            Err(e) => (Err(e), s2),
                            Ok(v) => if s2.pending[0] == ':' || s2.pending[0] == '.' {
                                (Ok(day_month), s2.keep(v, TimeKind::Unknown))
                            } else {
                                (DateSpec::absolute_spec(v, month, day), s2)
                            },
                        },
                        _ => (Ok(day_month), s2),
                    }
                }
            },
        },
        _ => (Ok(DateSpec::FromName(name)), s1),
    }
}

/// After a number at the front of the date. Alone it is a year. A word
/// after it makes it the day of a month, the amount of a unit, or an hour
/// before `am` or `pm`; a `-` makes it the year of a date, a `/` the day or
/// month of one, a `:` an hour, and a `.` one of the things that
/// [`dotted_spec`] tells apart.
pub open spec fn number_spec(st: ParserState, sign: bool, n: u32) -> (
    Result<Option<DateSpec>, DateError>,
    ParserState,
) {
    let (t, s1) = token(st);
    match t {
        Lexeme::End => (Ok(Some(DateSpec::Absolute { year: n, month: 1, day: 1 })), s1),
        Lexeme::Iden(w) => match month_of(w) {
            Some(month) => (
                Ok(Some(DateSpec::FromName(ByName::DayMonth { day: n, month, direct: st.direct }))),
                s1,
            ),
            None => match unit_of(w) {
                Some(unit) => some_of(relative_spec(s1, sign, unit, n * BILLION)),
                None => match meridiem_of(w) {
                    Some(pm) => {
                        let (date, s2) = trailing_date_spec(
                            s1.keep(hour_of_day(pm, n), TimeKind::Done(0)),
                        );
                        (Ok(date), s2)
                    },
                    None => (Err(DateError::ExpectedMonthOrUnit), s1),
                },
            },
        },
        Lexeme::Char(c) => if c == '-' {
            some_of(iso_date_spec(s1, n))
        } else if c == '/' {
            some_of(informal_date_spec(s1, n))
        } else if c == ':' {
            (Ok(None), s1.keep(n, TimeKind::Formal))
        } else if c == '.' {
            dotted_spec(s1, sign, n)
        } else {
            (Err(DateError::UnexpectedChar(c)), s1)
        },
        _ => (Err(DateError::UnexpectedToken), s1),
    }
}

/// The subject of the date, the token `t`, which is already read: a name or
/// a number.
pub open spec fn subject_spec(st: ParserState, sign: bool, t: Lexeme) -> (
    Result<Option<DateSpec>, DateError>,
    ParserState,
) {
    match t {
        Lexeme::Iden(w) => match by_name_of(w, st.direct) {
            None => (Err(DateError::ExpectedName), st),
            Some(name) => match name {
                ByName::MonthName { month, .. } => some_of(after_month_spec(st, month, name)),
                _ => (Ok(Some(DateSpec::FromName(name))), st),
            },
        },
        Lexeme::Int(_) => match int_of(t) {
            Err(e) => (Err(e), st),
            Ok(n) => number_spec(st, sign, n),
        },
        _ => (Err(DateError::UnexpectedToken), st),
    }
}

/// The word for a day that a token is, if it is one.
pub open spec fn shortcut_token(t: Lexeme) -> Option<i64> {
    match t {
        Lexeme::Iden(w) => shortcut_of(w),
        _ => None,
    }
}

/// The direction that a token sets, if it sets one.
pub open spec fn direction_token(t: Lexeme) -> Option<Direction> {
    match t {
        Lexeme::Iden(w) => direction_of(w),
        _ => None,
    }
}

/// The date stage: an optional `-`, then a word for a day, or an optional
/// `next` or `last` and the subject of the date.
pub open spec fn parse_date_spec(st: ParserState) -> (
    Result<Option<DateSpec>, DateError>,
    ParserState,
) {
    let (t0, s0) = token(st);
    if t0 is End {
        (Err(DateError::EmptyInput), s0)
    } else {
        let sign = t0 == Lexeme::Char('-');
        let (t1, s1) = if sign {
            token(s0)
        } else {
            (t0, s0)
        };
        if sign && t1 is End {
            (Err(DateError::NothingAfterSign), s1)
        } else {
            match shortcut_token(t1) {
                Some(k) => (Ok(Some(span(TimeUnit::Day, k * BILLION, false))), s1),
                None => {
                    let s2 = match direction_token(t1) {
                        Some(d) => ParserState { direct: d, ..s1 },
                        None => s1,
                    };
                    if s2.direct != Direction::Here {
                        let (t2, s3) = token(s2);
                        if t2 is End {
                            (Err(DateError::NothingAfterDirection), s3)
                        } else {
                            subject_spec(s3, sign, t2)
                        }
                    } else {
                        subject_spec(s2, sign, t1)
                    }
                },
            }
        }
    }
}

/// The time of day with the hour of `word` (`am` or `pm`) and nothing else.
pub open spec fn hour_time_spec(word: Seq<char>, hour: u32) -> Result<TimeSpec, DateError> {
    match meridiem_of(word) {
        Some(pm) => Ok(
            TimeSpec { hour: hour_of_day(pm, hour), min: 0, sec: 0, microsec: 0, offset: None },
        ),
        None => Err(DateError::ExpectedAmPm),
    }
}

/// The end of a time written with colons, of which `t` is the first token
/// after the seconds: nothing; a `+` or `-` and an offset from UTC; `Z` for
/// UTC itself; `am` or `pm`; or something else, which is passed over unless
/// it is a single character.
pub open spec fn time_end_spec(
    st: ParserState,
    hour: u32,
    min: u32,
    sec: u32,
    microsec: u32,
    t: Lexeme,
) -> (Result<TimeSpec, DateError>, ParserState) {
    let plain = TimeSpec { hour, min, sec, microsec, offset: None };
    match t {
        Lexeme::Char(c) => if c == '+' || c == '-' {
            let (v, s1) = number(st);
            match v {
                Err(e) => (Err(e), s1),
                Ok(v) => if s1.pending[0] == ':' {
                    let (m, s3) = number(s1.skip_char());
                    match m {
                        Err(e) => (Err(e), s3),
                        Ok(m) => (
                            Ok(
                                TimeSpec {
                                    offset: Some(offset_of(c == '-', v, Some(m)) as i64),
                                    ..plain
                                },
                            ),
                            s3,
                        ),
                    }
                } else {
                    (
                        Ok(TimeSpec { offset: Some(offset_of(c == '-', v, None) as i64), ..plain }),
                        s1,
                    )
                },
            }
        } else {
            (Err(DateError::ExpectedSign), st)
        },
        Lexeme::Iden(w) => if w == "Z"@ {
            (Ok(TimeSpec { offset: Some(0i64), ..plain }), st)
        } else {
            match meridiem_of(w) {
                Some(pm) => (Ok(TimeSpec { hour: hour_of_day(pm, hour), ..plain }), st),
                None => (Ok(plain), st),
            }
        },
        _ => (Ok(plain), st),
    }
}

/// After an hour and its `:`: the minute; then perhaps a `:` and the second;
/// then perhaps a `.` and the digits of a fraction of the second; then the
/// end as [`time_end_spec`] reads it.
pub open spec fn formal_time_spec(st: ParserState, hour: u32) -> (
    Result<TimeSpec, DateError>,
    ParserState,
) {
    let (min, s1) = number(st);
    match min {
        Err(e) => (Err(e), s1),
        Ok(min) => {
            let (t, s2) = token(s1);
            if t == Lexeme::Char(':') {
                let (sec, s3) = number(s2);
                match sec {
                    Err(e) => (Err(e), s3),
                    Ok(sec) => {
                        let (t2, s4) = token(s3);
                        fraction_spec(s4, hour, min, sec, t2)
                    },
                }
            } else {
                fraction_spec(s2, hour, min, 0, t)
            }
        },
    }
}

/// The fraction of the second, if the token `t` is its `.`, and the end of
/// the time.
pub open spec fn fraction_spec(st: ParserState, hour: u32, min: u32, sec: u32, t: Lexeme) -> (
    Result<TimeSpec, DateError>,
    ParserState,
) {
    if t == Lexeme::Char('.') {
        let s1 = st.at(after_grab(st.pending));
        match micros_of(grabbed(st.pending)) {
            None => (Err(DateError::ExpectedFraction), s1),
            Some(microsec) => {
                let (t2, s2) = token(s1);
                time_end_spec(s2, hour, min, sec, microsec, t2)
            },
        }
    } else {
        time_end_spec(st, hour, min, sec, 0, t)
    }
}

/// After an hour and its `.`: the minute, and then nothing, `am` or `pm`.
pub open spec fn informal_time_spec(st: ParserState, hour: u32) -> (
    Result<TimeSpec, DateError>,
    ParserState,
) {
    let (min, s1) = number(st);
    match min {
        Err(e) => (Err(e), s1),
        Ok(min) => {
            let (t, s2) = token(s1);
            match t {
                Lexeme::End => (Ok(TimeSpec { hour, min, sec: 0, microsec: 0, offset: None }), s2),
                Lexeme::Iden(w) => match meridiem_of(w) {
                    Some(pm) => (
                        Ok(
                            TimeSpec {
                                hour: hour_of_day(pm, hour),
                                min,
                                sec: 0,
                                microsec: 0,
                                offset: None,
                            },
                        ),
                        s2,
                    ),
                    None => (Err(DateError::ExpectedAmPm), s2),
                },
                _ => (Err(DateError::ExpectedIdentifier), s2),
            }
        },
    }
}

/// After an hour, the token `t`, which is already read: a `:` or a `.` and
/// the rest of the time, or `am` or `pm`.
pub open spec fn after_hour_spec(st: ParserState, hour: u32, t: Lexeme) -> (
    Result<TimeSpec, DateError>,
    ParserState,
) {
    match t {
        Lexeme::Char(c) => if c == ':' {
            formal_time_spec(st, hour)
        } else if c == '.' {
            informal_time_spec(st, hour)
        } else {
            (Err(DateError::UnexpectedChar(c)), st)
        },
        Lexeme::Iden(w) => (hour_time_spec(w, hour), st),
        _ => (Err(DateError::UnexpectedToken), st),
    }
}

/// The time stage. Where the date stage has kept an hour, the time is
/// finished from there. Else a `T` and the word `at` are passed over, and a
/// time is read if anything is left.
pub open spec fn parse_time_spec(st: ParserState) -> (
    Result<Option<TimeSpec>, DateError>,
    ParserState,
) {
    let s = ParserState { maybe_time: None, ..st };
    match st.maybe_time {
        Some((hour, kind)) => match kind {
            TimeKind::Unknown => {
                let (t, s1) = token(s);
                match t {
                    Lexeme::Char(c) => if c == ':' {
                        some_of(formal_time_spec(s1, hour))
                    } else if c == '.' {
                        some_of(informal_time_spec(s1, hour))
                    } else {
                        (Err(DateError::ExpectedColonOrDot(c)), s1)
                    },
                    _ => (Err(DateError::ExpectedChar), s1),
                }
            },
            TimeKind::Formal => some_of(formal_time_spec(s, hour)),
            TimeKind::Done(min) => (
                Ok(Some(TimeSpec { hour, min, sec: 0, microsec: 0, offset: None })),
                s,
            ),
        },
        None => {
            let s0 = if s.pending[0] == 'T' {
                s.skip_char()
            } else {
                s
            };
            let (t0, s1) = token(s0);
            if t0 is End {
                (Ok(None), s1)
            } else {
                let at = t0 == Lexeme::Iden("at"@);
                let (t1, s2) = if at {
                    token(s1)
                } else {
                    (t0, s1)
                };
                if at && t1 is End {
                    (Ok(None), s2)
                } else {
                    match int_of(t1) {
                        Err(e) => (Err(e), s2),
                        Ok(hour) => {
                            let (t2, s3) = token(s2);
                            some_of(after_hour_spec(s3, hour, t2))
                        },
                    }
                }
            }
        },
    }
}

/// The whole grammar: the date stage, then the time stage.
pub open spec fn parse_spec(st: ParserState) -> (Result<DateTimeSpec, DateError>, ParserState) {
    let (date, s1) = parse_date_spec(st);
    match date {
        Err(e) => (Err(e), s1),
        Ok(date) => {
            let (time, s2) = parse_time_spec(s1);
            match time {
                Err(e) => (Err(e), s2),
                Ok(time) => (Ok(DateTimeSpec { date, time }), s2),
            }
        },
    }
}

/// The state in which the parse of `text` begins.
pub open spec fn initial_state(text: Seq<char>, american: bool) -> ParserState {
    ParserState {
        pending: crate::lexer::start_of(text),
        direct: Direction::Here,
        maybe_time: None,
        american,
    }
}

/// What `text` says, read in the given dialect.
pub open spec fn parsed(text: Seq<char>, american: bool) -> Result<DateTimeSpec, DateError> {
    parse_spec(initial_state(text, american)).0
}

} // verus!
