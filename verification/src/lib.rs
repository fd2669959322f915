//! Turns English descriptions of dates and times ("tomorrow", "2 weeks",
//! "14 december 11:20") into points in time, and descriptions of spans
//! ("2 days", "1 month") into intervals.

use vstd::prelude::*;

pub mod calendar;
pub mod clock;
pub mod driver;
pub mod errors;
pub mod grammar;
pub mod laws;
pub mod lexer;
pub mod names;
pub mod parser;
pub mod resolve;
pub mod rules;
pub mod text;
pub mod types;

pub use crate::calendar::Instant;
pub use crate::driver::{append_min_if_only_hour, parse_date_args, parse_print, to_iso};
pub use crate::errors::DateError;
pub use crate::parser::DateParser;
pub use crate::types::{
    ByName, DateSpec, DateTimeSpec, Dialect, Direction, Interval, TimeSpec, TimeUnit,
};

verus! {

/// The span that `spec` is, where it is a span and nothing else: a text
/// with a time of day, a calendar date or a name is no duration.
pub open spec fn duration_spec(spec: DateTimeSpec) -> Result<Interval, DateError> {
    if spec.time is Some {
        Err(DateError::UnexpectedTime)
    } else {
        match spec.date {
            None => Err(DateError::NoDate),
            Some(DateSpec::Absolute { .. }) => Err(DateError::UnexpectedAbsolute),
            Some(DateSpec::FromName(_)) => Err(DateError::UnexpectedDateComponent),
            Some(DateSpec::Relative(span)) => Ok(span),
        }
    }
}

/// Computes [`duration_spec`].
pub fn duration_of(spec: &DateTimeSpec) -> (r: Result<Interval, DateError>)
    ensures
        r == duration_spec(*spec),
{
    if spec.time.is_some() {
        return Err(DateError::UnexpectedTime);
    }
    match &spec.date {
        None => Err(DateError::NoDate),
        Some(DateSpec::Absolute { .. }) => Err(DateError::UnexpectedAbsolute),
        Some(DateSpec::FromName(_)) => Err(DateError::UnexpectedDateComponent),
        Some(DateSpec::Relative(span)) => Ok(*span),
    }
}

/// The instant that the text `s` means at the time `now`, read in the
/// dialect `dialect`.
pub open spec fn date_string_spec(s: Seq<char>, now: Instant, dialect: Dialect) -> Result<
    Instant,
    DateError,
> {
    match crate::grammar::parsed(s, dialect == Dialect::Us) {
        Err(e) => Err(e),
        Ok(spec) => crate::resolve::resolve_spec(spec, now),
    }
}

/// Reads `s` as a date, a time or both, and finds the instant that it means
/// at the time `now`.
pub fn parse_date_string(s: &str, now: Instant, dialect: Dialect) -> (r: Result<
    Instant,
    DateError,
>)
    ensures
        r == date_string_spec(s@, now, dialect),
        r is Ok ==> r->Ok_0.wf(),
{
    let mut dp = DateParser::new(s);
    if let Dialect::Us = dialect {
        dp = dp.american_date();
    }
    match dp.parse() {
        Err(e) => Err(e),
        Ok(spec) => crate::resolve::resolve(&spec, &now),
    }
}

/// Reads `s` as a span of time. Dates with a slash, which are no spans, are
/// read day first.
pub fn parse_duration(s: &str) -> (r: Result<Interval, DateError>)
    ensures
        r == match crate::grammar::parsed(s@, false) {
            Err(e) => Err(e),
            Ok(spec) => duration_spec(spec),
        },
{
    let mut dp = DateParser::new(s);
    match dp.parse() {
        Err(e) => Err(e),
        Ok(spec) => duration_of(&spec),
    }
}

} // verus!
