//! The parser: it reads a text token by token and recognises what the
//! grammar describes.

use vstd::prelude::*;
use crate::errors::DateError;
use crate::grammar::{
    after_hour_spec, after_month_spec, decimal_spec, dotted_spec, formal_time_spec, fraction_spec,
    hour_time_spec, informal_date_spec, informal_time_spec, initial_state, iso_date_spec,
    minute_of, number,
    number_spec, parse_date_spec, parse_spec, parse_time_spec, relative_spec, span, subject_spec,
    time_end_spec, token, trailing_date_spec, ParserState, TimeKind,
};
use crate::lexer::{
    digit, pending, scan_digits, scan_get, scan_nextch, scan_peek, scanner_of, Token,
};
use crate::names::{meridiem, month_name, same_text, shortcut, time_unit};
use crate::rules::{
    fraction_billionths, fraction_micros, hour_of_day, offset_seconds, order_day_month, pivot,
    twelve_hour,
};
use crate::text::parse_number;
use crate::types::{
    ByName, DateSpec, DateTimeSpec, Direction, Interval, TimeSpec, TimeUnit, BILLION,
};

verus! {

/// A parse in progress.
pub struct DateParser<'a> {
    scanner: scanlex::Scanner<'a>,
    direct: Direction,
    maybe_time: Option<(u32, TimeKind)>,
    /// Whether a date with a slash has its month first.
    pub american: bool,
}

impl<'a> View for DateParser<'a> {
    type V = ParserState;

    closed spec fn view(&self) -> ParserState {
        ParserState {
            pending: pending(&self.scanner),
            direct: self.direct,
            maybe_time: self.maybe_time,
            american: self.american,
        }
    }
}

/// The span of `magnitude` billionths of `unit`, counted backwards where
/// `negative` is set.
fn make_span(unit: TimeUnit, magnitude: i64, negative: bool) -> (r: DateSpec)
    requires
        magnitude >= 0,
    ensures
        r == span(unit, magnitude as int, negative),
{
    DateSpec::Relative(Interval { unit, billionths: if negative { -magnitude } else { magnitude } })
}

/// Computes [`minute_of`].
fn minute(digits: &str) -> (r: Result<u32, DateError>)
    ensures
        r == minute_of(digits@),
{
    match parse_number(digits) {
        Some(m) => if m <= 0xffff_ffff {
            Ok(m as u32)
        } else {
            Err(DateError::IntegerOutOfRange)
        },
        None => Err(DateError::IntegerOutOfRange),
    }
}

/// The span of `k` days.
fn days(k: i64) -> (r: DateSpec)
    requires
        -1 <= k <= 1,
    ensures
        r == span(TimeUnit::Day, k * BILLION, false),
{
    DateSpec::Relative(Interval { unit: TimeUnit::Day, billionths: k * BILLION })
}

impl<'a> DateParser<'a> {
    /// A parse of `text` that reads a date with a slash day first.
    pub fn new(text: &'a str) -> (p: DateParser<'a>)
        ensures
            p@ == initial_state(text@, false),
    {
        DateParser {
            scanner: scanner_of(text),
            direct: Direction::Here,
            maybe_time: None,
            american: false,
        }
    }

    /// The same parse, reading a date with a slash month first.
    pub fn american_date(self) -> (p: DateParser<'a>)
        ensures
            p@ == (ParserState { american: true, ..self@ }),
    {
        let mut p = self;
        p.american = true;
        p
    }

    /// Reads one token.
    fn token(&mut self) -> (t: Token)
        ensures
            (t@, final(self)@) == token(old(self)@),
            final(self)@.pending.len() >= 1,
    {
        scan_get(&mut self.scanner)
    }

    /// Reads one token, which must be a number.
    fn number(&mut self) -> (r: Result<u32, DateError>)
        ensures
            (r, final(self)@) == number(old(self)@),
            final(self)@.pending.len() >= 1,
    {
        let t = self.token();
        t.to_u32()
    }

    /// The character in front, which stays where it is.
    fn peek(&self) -> (c: char)
        ensures
            c == self@.pending[0],
    {
        scan_peek(&self.scanner)
    }

    /// Consumes the character in front.
    fn skip_char(&mut self)
        ensures
            final(self)@ == old(self)@.skip_char(),
    {
        let _ = scan_nextch(&mut self.scanner);
    }

    /// Keeps an hour for the time stage.
    fn keep(&mut self, hour: u32, kind: TimeKind)
        ensures
            final(self)@ == old(self)@.keep(hour, kind),
    {
        self.maybe_time = Some((hour, kind));
    }

    /// After a year and its `-`: a month, a `-` and a day.
    fn iso_date(&mut self, year: u32) -> (r: Result<DateSpec, DateError>)
        ensures
            (r, final(self)@) == iso_date_spec(old(self)@, year),
    {
        let month = match self.number() {
            Ok(v) => v,
            Err(e) => return Err(e),
        };
        match self.token() {
            Token::Char(c) => {
                if c != '-' {
                    return Err(DateError::ExpectedDash(c));
                }
            },
            _ => return Err(DateError::ExpectedChar),
        }
        let day = match self.number() {
            Ok(v) => v,
            Err(e) => return Err(e),
        };
        DateSpec::absolute(year, month, day)
    }

    /// After a number and its `/`: the rest of a date with slashes.
    fn informal_date(&mut self, first: u32) -> (r: Result<DateSpec, DateError>)
        ensures
            (r, final(self)@) == informal_date_spec(old(self)@, first),
    {
        let second = match self.number() {
            Ok(v) => v,
            Err(e) => return Err(e),
        };
        let (day, month) = order_day_month(first, second, self.american);
        if self.peek() == '/' {
            self.skip_char();
            let y = match self.number() {
                Ok(v) => v,
                Err(e) => return Err(e),
            };
            DateSpec::absolute(pivot(y), month, day)
        } else {
            Ok(DateSpec::from_day_month(day, month, self.direct))
        }
    }

    /// After an amount and its unit: the span, and what may follow it.
    fn relative(&mut self, sign: bool, unit: TimeUnit, magnitude: i64) -> (r: Result<
        DateSpec,
        DateError,
    >)
        requires
            magnitude >= 0,
        ensures
            (r, final(self)@) == relative_spec(old(self)@, sign, unit, magnitude as int),
    {
        if sign {
            return Ok(make_span(unit, magnitude, true));
        }
        let t = self.token();
        match &t {
            Token::Iden(w) => {
                if same_text(w.as_str(), "ago") {
                    Ok(make_span(unit, magnitude, true))
                } else {
                    Err(DateError::OnlyExpectedAgo)
                }
            },
            Token::Int(_) => match t.to_u32() {
                Ok(h) => {
                    self.keep(h, TimeKind::Unknown);
                    Ok(make_span(unit, magnitude, false))
                },
                Err(e) => Err(e),
            },
            _ => Ok(make_span(unit, magnitude, false)),
        }
    }

    /// After an hour and `am` or `pm`: the day, where one is named.
    fn trailing_date(&mut self) -> (r: Option<DateSpec>)
        ensures
            (r, final(self)@) == trailing_date_spec(old(self)@),
    {
        let t = self.token();
        match &t {
            Token::Iden(w) => match shortcut(w.as_str()) {
                Some(k) => Some(days(k)),
                None => match ByName::from_name(w.as_str(), self.direct) {
                    Some(name) => Some(DateSpec::FromName(name)),
                    None => None,
                },
            },
            _ => None,
        }
    }

    /// After a number, its `.` and digits: a decimal amount or a time.
    fn decimal(&mut self, sign: bool, n: u32) -> (r: Result<Option<DateSpec>, DateError>)
        requires
            old(self)@.pending.len() >= 1,
        ensures
            (r, final(self)@) == decimal_spec(old(self)@, sign, n),
    {
        let digits = scan_digits(&mut self.scanner);
        let t = self.token();
        match &t {
            Token::End => match minute(digits.as_str()) {
                Ok(min) => {
                    self.keep(n, TimeKind::Done(min));
                    Ok(None)
                },
                Err(e) => Err(e),
            },
            Token::Iden(w) => match time_unit(w.as_str()) {
                Some(unit) => match fraction_billionths(digits.as_str()) {
                    Some(part) => match self.relative(sign, unit, (n as i64) * BILLION + part) {
                        Ok(d) => Ok(Some(d)),
                        Err(e) => Err(e),
                    },
                    None => Err(DateError::ExpectedFraction),
                },
                None => match meridiem(w.as_str()) {
                    Some(pm) => match minute(digits.as_str()) {
                        Ok(min) => {
                            self.keep(twelve_hour(pm, n), TimeKind::Done(min));
                            Ok(None)
                        },
                        Err(e) => Err(e),
                    },
                    None => Err(DateError::ExpectedAmPm),
                },
            },
            _ => Err(DateError::ExpectedIdentifier),
        }
    }

    /// After a number and its `.`: a decimal amount, a time, or a day and its month.
    fn dotted(&mut self, sign: bool, n: u32) -> (r: Result<Option<DateSpec>, DateError>)
        requires
            old(self)@.pending.len() >= 1,
        ensures
            (r, final(self)@) == dotted_spec(old(self)@, sign, n),
    {
        if digit(self.peek()) {
            return self.decimal(sign, n);
        }
        let t = self.token();
        match &t {
            Token::Iden(w) => match month_name(w.as_str()) {
                Some(month) => {
                    let t2 = self.token();
                    match &t2 {
                        Token::Int(_) => match t2.to_u32() {
                            Ok(year) => match DateSpec::absolute(year, month, n) {
                                Ok(d) => Ok(Some(d)),
                                Err(e) => Err(e),
                            },
                            Err(e) => Err(e),
                        },
                        _ => Ok(Some(DateSpec::from_day_month(n, month, self.direct))),
                    }
                },
                None => Err(DateError::ExpectedMonthAfterDot),
            },
            _ => Err(DateError::UnexpectedAfterDot),
        }
    }

    /// After the name of a month: a day and perhaps a year.
    fn after_month(&mut self, month: u32, name: ByName) -> (r: Result<DateSpec, DateError>)
        ensures
            (r, final(self)@) == after_month_spec(old(self)@, month, name),
    {
        let t = self.token();
        match &t {
            Token::Int(_) => match t.to_u32() {
                Err(e) => Err(e),
                Ok(day) => {
                    if self.peek() == ',' {
                        self.skip_char();
                        let year = match self.number() {
                            Ok(v) => v,
                            Err(e) => return Err(e),
                        };
                        if self.peek() == ',' {
                            self.skip_char();
                        }
                        DateSpec::absolute(year, month, day)
                    } else {
                        let t2 = self.token();
                        match &t2 {
                            Token::Int(_) => match t2.to_u32() {
                                Err(e) => Err(e),
                                Ok(v) => {
                                    let c = self.peek();
                                    if c == ':' || c == '.' {
                                        let d = DateSpec::from_day_month(day, month, self.direct);
                                        self.keep(v, TimeKind::Unknown);
                                        Ok(d)
                                    } else {
                                        DateSpec::absolute(v, month, day)
                                    }
                                },
                            },
                            _ => Ok(DateSpec::from_day_month(day, month, self.direct)),
                        }
                    }
                },
            },
            _ => Ok(DateSpec::FromName(name)),
        }
    }

    /// After a number at the front of the date.
    fn number_date(&mut self, sign: bool, n: u32) -> (r: Result<Option<DateSpec>, DateError>)
        ensures
            (r, final(self)@) == number_spec(old(self)@, sign, n),
    {
        let t = self.token();
        match &t {
            Token::End => Ok(Some(DateSpec::Absolute { year: n, month: 1, day: 1 })),
            Token::Iden(w) => match month_name(w.as_str()) {
                Some(month) => Ok(Some(DateSpec::from_day_month(n, month, self.direct))),
                None => match time_unit(w.as_str()) {
                    Some(unit) => match self.relative(sign, unit, (n as i64) * BILLION) {
                        Ok(d) => Ok(Some(d)),
                        Err(e) => Err(e),
                    },
                    None => match meridiem(w.as_str()) {
                        Some(pm) => {
                            self.keep(twelve_hour(pm, n), TimeKind::Done(0));
                            Ok(self.trailing_date())
                        },
                        None => Err(DateError::ExpectedMonthOrUnit),
                    },
                },
            },
            Token::Char(c) => {
                if *c == '-' {
                    match self.iso_date(n) {
                        Ok(d) => Ok(Some(d)),
                        Err(e) => Err(e),
                    }
                } else if *c == '/' {
                    match self.informal_date(n) {
                        Ok(d) => Ok(Some(d)),
                        Err(e) => Err(e),
                    }
                } else if *c == ':' {
                    self.keep(n, TimeKind::Formal);
                    Ok(None)
                } else if *c == '.' {
                    self.dotted(sign, n)
                } else {
                    Err(DateError::UnexpectedChar(*c))
                }
            },
            _ => Err(DateError::UnexpectedToken),
        }
    }

    /// The subject of the date: a name or a number.
    fn subject(&mut self, sign: bool, t: &Token) -> (r: Result<Option<DateSpec>, DateError>)
        ensures
            (r, final(self)@) == subject_spec(old(self)@, sign, t@),
    {
        match t {
            Token::Iden(w) => match ByName::from_name(w.as_str(), self.direct) {
                None => Err(DateError::ExpectedName),
                Some(name) => match name {
                    ByName::MonthName { month, .. } => match self.after_month(month, name) {
                        Ok(d) => Ok(Some(d)),
                        Err(e) => Err(e),
                    },
                    _ => Ok(Some(DateSpec::FromName(name))),
                },
            },
            Token::Int(_) => match t.to_u32() {
                Err(e) => Err(e),
                Ok(n) => self.number_date(sign, n),
            },
            _ => Err(DateError::UnexpectedToken),
        }
    }

    /// The date stage of the grammar. It returns the date part of the text,
    /// or `None` where the text begins with a time, and leaves in the parser
    /// what the time stage needs to go on.
    pub fn parse_date(&mut self) -> (r: Result<Option<DateSpec>, DateError>)
        ensures
            (r, final(self)@) == parse_date_spec(old(self)@),
    {
        let t0 = self.token();
        if let Token::End = t0 {
            return Err(DateError::EmptyInput);
        }
        let sign = match &t0 {
            Token::Char(c) => *c == '-',
            _ => false,
        };
        let t1 = if sign {
            self.token()
        } else {
            t0
        };
        if sign {
            if let Token::End = t1 {
                return Err(DateError::NothingAfterSign);
            }
        }
        if let Token::Iden(w) = &t1 {
            match shortcut(w.as_str()) {
                Some(k) => return Ok(Some(days(k))),
                None => match Direction::from_name(w.as_str()) {
                    Some(d) => {
                        self.direct = d;
                    },
                    None => {},
                },
            }
        }
        if self.direct != Direction::Here {
            let t2 = self.token();
            if let Token::End = t2 {
                return Err(DateError::NothingAfterDirection);
            }
            self.subject(sign, &t2)
        } else {
            self.subject(sign, &t1)
        }
    }

    /// The hour of the day for `hour` on the twelve-hour clock and the word
    /// `name`, which must be `am` or `pm`.
    pub fn am_pm(name: &str, hour: u32) -> (r: Result<u32, DateError>)
        ensures
            r == match crate::names::meridiem_of(name@) {
                Some(pm) => Ok(hour_of_day(pm, hour)),
                None => Err(DateError::ExpectedAmPm),
            },
    {
        match meridiem(name) {
            Some(pm) => Ok(twelve_hour(pm, hour)),
            None => Err(DateError::ExpectedAmPm),
        }
    }

    /// The time of day that is `hour` with `am` or `pm`, at the full hour.
    pub fn hour_time(name: &str, hour: u32) -> (r: Result<TimeSpec, DateError>)
        ensures
            r == hour_time_spec(name@, hour),
    {
        match DateParser::am_pm(name, hour) {
            Ok(h) => Ok(TimeSpec::new(h, 0, 0, 0)),
            Err(e) => Err(e),
        }
    }

    /// The end of a time written with colons: an offset, `Z`, `am` or `pm`.
    fn time_end(&mut self, hour: u32, min: u32, sec: u32, microsec: u32, t: &Token) -> (r: Result<
        TimeSpec,
        DateError,
    >)
        ensures
            (r, final(self)@) == time_end_spec(old(self)@, hour, min, sec, microsec, t@),
    {
        match t {
            Token::Char(c) => {
                if *c == '+' || *c == '-' {
                    let v = match self.number() {
                        Ok(v) => v,
                        Err(e) => return Err(e),
                    };
                    if self.peek() == ':' {
                        self.skip_char();
                        let m = match self.number() {
                            Ok(v) => v,
                            Err(e) => return Err(e),
                        };
                        Ok(
                            TimeSpec::new_with_offset(
                                hour,
                                min,
                                sec,
                                offset_seconds(*c == '-', v, Some(m)),
                                microsec,
                            ),
                        )
                    } else {
                        Ok(
                            TimeSpec::new_with_offset(
                                hour,
                                min,
                                sec,
                                offset_seconds(*c == '-', v, None),
                                microsec,
                            ),
                        )
                    }
                } else {
                    Err(DateError::ExpectedSign)
                }
            },
            Token::Iden(w) => {
                if same_text(w.as_str(), "Z") {
                    Ok(TimeSpec::new_with_offset(hour, min, sec, 0, microsec))
                } else {
                    match meridiem(w.as_str()) {
                        Some(pm) => Ok(TimeSpec::new(twelve_hour(pm, hour), min, sec, microsec)),
                        None => Ok(TimeSpec::new(hour, min, sec, microsec)),
                    }
                }
            },
            _ => Ok(TimeSpec::new(hour, min, sec, microsec)),
        }
    }

    /// The fraction of the second, where one is written, and the end of the time.
    fn fraction(&mut self, hour: u32, min: u32, sec: u32, t: &Token) -> (r: Result<
        TimeSpec,
        DateError,
    >)
        requires
            old(self)@.pending.len() >= 1,
        ensures
            (r, final(self)@) == fraction_spec(old(self)@, hour, min, sec, t@),
    {
        let dot = match t {
            Token::Char(c) => *c == '.',
            _ => false,
        };
        if dot {
            let digits = scan_digits(&mut self.scanner);
            match fraction_micros(digits.as_str()) {
                None => Err(DateError::ExpectedFraction),
                Some(microsec) => {
                    let t2 = self.token();
                    self.time_end(hour, min, sec, microsec, &t2)
                },
            }
        } else {
            self.time_end(hour, min, sec, 0, t)
        }
    }

    /// After an hour and its `:`: the rest of the time.
    fn formal_time(&mut self, hour: u32) -> (r: Result<TimeSpec, DateError>)
        ensures
            (r, final(self)@) == formal_time_spec(old(self)@, hour),
    {
        let min = match self.number() {
            Ok(v) => v,
            Err(e) => return Err(e),
        };
        let t = self.token();
        let colon = match &t {
            Token::Char(c) => *c == ':',
            _ => false,
        };
        if colon {
            let sec = match self.number() {
                Ok(v) => v,
                Err(e) => return Err(e),
            };
            let t2 = self.token();
            self.fraction(hour, min, sec, &t2)
        } else {
            self.fraction(hour, min, 0, &t)
        }
    }

    /// After an hour and its `.`: the minute, and `am` or `pm`.
    fn informal_time(&mut self, hour: u32) -> (r: Result<TimeSpec, DateError>)
        ensures
            (r, final(self)@) == informal_time_spec(old(self)@, hour),
    {
        let min = match self.number() {
            Ok(v) => v,
            Err(e) => return Err(e),
        };
        let t = self.token();
        match &t {
            Token::End => Ok(TimeSpec::new(hour, min, 0, 0)),
            Token::Iden(w) => match meridiem(w.as_str()) {
                Some(pm) => Ok(TimeSpec::new(twelve_hour(pm, hour), min, 0, 0)),
                None => Err(DateError::ExpectedAmPm),
            },
            _ => Err(DateError::ExpectedIdentifier),
        }
    }

    /// After an hour: the rest of the time.
    fn after_hour(&mut self, hour: u32, t: &Token) -> (r: Result<TimeSpec, DateError>)
        ensures
            (r, final(self)@) == after_hour_spec(old(self)@, hour, t@),
    {
        match t {
            Token::Char(c) => {
                if *c == ':' {
                    self.formal_time(hour)
                } else if *c == '.' {
                    self.informal_time(hour)
                } else {
                    Err(DateError::UnexpectedChar(*c))
                }
            },
            Token::Iden(w) => DateParser::hour_time(w.as_str(), hour),
            _ => Err(DateError::UnexpectedToken),
        }
    }

    /// The time stage of the grammar. It returns the time part of the text,
    /// or `None` where nothing is left to read after the date.
    pub fn parse_time(&mut self) -> (r: Result<Option<TimeSpec>, DateError>)
        ensures
            (r, final(self)@) == parse_time_spec(old(self)@),
    {
        let kept = self.maybe_time;
        self.maybe_time = None;
        match kept {
            Some((hour, kind)) => match kind {
                TimeKind::Unknown => {
                    let r = match self.token() {
                        Token::Char(c) => {
                            if c == ':' {
                                self.formal_time(hour)
                            } else if c == '.' {
                                self.informal_time(hour)
                            } else {
                                return Err(DateError::ExpectedColonOrDot(c));
                            }
                        },
                        _ => return Err(DateError::ExpectedChar),
                    };
                    match r {
                        Ok(t) => Ok(Some(t)),
                        Err(e) => Err(e),
                    }
                },
                TimeKind::Formal => match self.formal_time(hour) {
                    Ok(t) => Ok(Some(t)),
                    Err(e) => Err(e),
                },
                TimeKind::Done(min) => Ok(Some(TimeSpec::new(hour, min, 0, 0))),
            },
            None => {
                if self.peek() == 'T' {
                    self.skip_char();
                }
                let t0 = self.token();
                if let Token::End = t0 {
                    return Ok(None);
                }
                let at = match &t0 {
                    Token::Iden(w) => same_text(w.as_str(), "at"),
                    _ => false,
                };
                let t1 = if at {
                    self.token()
                } else {
                    t0
                };
                if at {
                    if let Token::End = t1 {
                        return Ok(None);
                    }
                }
                let hour = match t1.to_u32() {
                    Ok(v) => v,
                    Err(e) => return Err(e),
                };
                let t2 = self.token();
                match self.after_hour(hour, &t2) {
                    Ok(t) => Ok(Some(t)),
                    Err(e) => Err(e),
                }
            },
        }
    }

    /// Reads the whole text: the date stage, then the time stage.
    pub fn parse(&mut self) -> (r: Result<DateTimeSpec, DateError>)
        ensures
            (r, final(self)@) == parse_spec(old(self)@),
    {
        let date = match self.parse_date() {
            Ok(v) => v,
            Err(e) => return Err(e),
        };
        let time = match self.parse_time() {
            Ok(v) => v,
            Err(e) => return Err(e),
        };
        Ok(DateTimeSpec { date, time })
    }
}

} // verus!
