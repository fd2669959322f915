//! What a text says before it is held against a point in time: a date part
//! and a time part, each of which may be missing.

use vstd::prelude::*;

verus! {

/// The regional convention for a date written as two numbers and a slash.
#[derive(Clone, Copy, Debug, Hash, PartialEq, Eq, PartialOrd, Ord, Structural)]
pub enum Dialect {
    /// Day first: `20/03`.
    Uk,
    /// Month first: `9/11`.
    Us,
}

/// Which occurrence of a named day or month is meant.
#[derive(Clone, Copy, Debug, PartialEq, Eq, Structural)]
pub enum Direction {
    /// The word `next` came before the name.
    Next,
    /// The word `last` came before the name.
    Last,
    /// Neither came.
    Here,
}

/// A date given by a name, or by a day and a month without a year.
#[derive(Clone, Copy, Debug, PartialEq, Eq, Structural)]
pub enum ByName {
    /// A day of the week, counted from Monday as 0.
    WeekDay { day: u32, direct: Direction },
    /// A month, counted from January as 1.
    MonthName { month: u32, direct: Direction },
    /// A day of a month.
    DayMonth { day: u32, month: u32, direct: Direction },
}

impl ByName {
    /// What every name that the parser hands out satisfies: a day of the
    /// week is one of the seven, and a named month one of the twelve. The
    /// numbers of a day and a month are as written.
    pub open spec fn wf(self) -> bool {
        match self {
            ByName::WeekDay { day, .. } => day <= 6,
            ByName::MonthName { month, .. } => 1 <= month <= 12,
            ByName::DayMonth { .. } => true,
        }
    }

    /// A day and a month without a year.
    pub fn from_day_month(day: u32, month: u32, direct: Direction) -> (r: ByName)
        ensures
            r == (ByName::DayMonth { day, month, direct }),
    {
        ByName::DayMonth { day, month, direct }
    }

    /// The month, where this is the name of one.
    pub fn as_month(&self) -> (r: Option<u32>)
        ensures
            r == match *self {
                ByName::MonthName { month, .. } => Some(month),
                _ => None,
            },
    {
        match *self {
            ByName::MonthName { month, .. } => Some(month),
            _ => None,
        }
    }
}

/// A unit in which a span of time is counted.
#[derive(Clone, Copy, Debug, Hash, PartialEq, Eq, Structural)]
pub enum TimeUnit {
    Second,
    Minute,
    Hour,
    Day,
    Week,
    Month,
    Year,
}

impl TimeUnit {
    /// The length of the unit in seconds, for the units of fixed length;
    /// 0 for months and years.
    pub open spec fn seconds(self) -> int {
        match self {
            TimeUnit::Second => 1,
            TimeUnit::Minute => 60,
            TimeUnit::Hour => 3600,
            TimeUnit::Day => 86400,
            TimeUnit::Week => 604800,
            TimeUnit::Month => 0,
            TimeUnit::Year => 0,
        }
    }

    /// The length of the unit in months, for months and years; 0 for the
    /// units of fixed length.
    pub open spec fn months(self) -> int {
        match self {
            TimeUnit::Month => 1,
            TimeUnit::Year => 12,
            _ => 0,
        }
    }

    /// Computes [`TimeUnit::seconds`].
    pub fn length_in_seconds(&self) -> (n: i64)
        ensures
            n == self.seconds(),
    {
        match self {
            TimeUnit::Second => 1,
            TimeUnit::Minute => 60,
            TimeUnit::Hour => 3600,
            TimeUnit::Day => 86400,
            TimeUnit::Week => 604800,
            TimeUnit::Month => 0,
            TimeUnit::Year => 0,
        }
    }

    /// Computes [`TimeUnit::months`].
    pub fn length_in_months(&self) -> (n: i64)
        ensures
            n == self.months(),
    {
        match self {
            TimeUnit::Month => 1,
            TimeUnit::Year => 12,
            _ => 0,
        }
    }
}

/// The number of parts into which an [`Interval`] divides its unit.
pub const BILLION: i64 = 1_000_000_000;

/// A signed amount of one unit of time. The amount is a decimal number, held
/// as a count of billionths of the unit: `2 days` is 2,000,000,000
/// billionths of a day, `1.5 hours` is 1,500,000,000 billionths of an hour.
#[derive(Clone, Copy, Debug, Hash, PartialEq, Eq, Structural)]
pub struct Interval {
    pub unit: TimeUnit,
    pub billionths: i64,
}

/// The date part of a text.
#[derive(Clone, Copy, Debug, PartialEq, Eq, Structural)]
pub enum DateSpec {
    /// A year, a month from 1 to 12 and a day, as written. Whether the day
    /// exists in that month is not settled yet.
    Absolute { year: u32, month: u32, day: u32 },
    /// A span of time from now.
    Relative(Interval),
    /// A name, or a day and a month.
    FromName(ByName),
}

impl DateSpec {
    /// What every date part that the parser hands out satisfies: a calendar
    /// date has a month from 1 to 12, and a name is one that [`ByName::wf`]
    /// admits.
    pub open spec fn wf(self) -> bool {
        match self {
            DateSpec::Absolute { month, .. } => 1 <= month <= 12,
            DateSpec::FromName(name) => name.wf(),
            DateSpec::Relative(_) => true,
        }
    }

    /// The calendar date of `year`, `month` and `day`, where `month` is one.
    pub open spec fn absolute_spec(year: u32, month: u32, day: u32) -> Result<DateSpec, crate::errors::DateError> {
        if 1 <= month <= 12 {
            Ok(DateSpec::Absolute { year, month, day })
        } else {
            Err(crate::errors::DateError::MonthOutOfRange)
        }
    }

    /// Computes [`DateSpec::absolute_spec`].
    pub fn absolute(year: u32, month: u32, day: u32) -> (r: Result<DateSpec, crate::errors::DateError>)
        ensures
            r == DateSpec::absolute_spec(year, month, day),
            r is Ok ==> r->Ok_0.wf(),
    {
        if 1 <= month && month <= 12 {
            Ok(DateSpec::Absolute { year, month, day })
        } else {
            Err(crate::errors::DateError::MonthOutOfRange)
        }
    }

    /// A day and a month without a year.
    pub fn from_day_month(day: u32, month: u32, direct: Direction) -> (r: DateSpec)
        ensures
            r == DateSpec::FromName(ByName::DayMonth { day, month, direct }),
    {
        DateSpec::FromName(ByName::from_day_month(day, month, direct))
    }
}

/// The time part of a text. The fields are as written; whether they make a
/// time of day is not settled yet.
#[derive(Clone, Copy, Debug, PartialEq, Eq, Structural)]
pub struct TimeSpec {
    pub hour: u32,
    pub min: u32,
    pub sec: u32,
    pub microsec: u32,
    /// Seconds east of UTC, where the text names an offset.
    pub offset: Option<i64>,
}

impl TimeSpec {
    /// A time of day without an offset.
    pub fn new(hour: u32, min: u32, sec: u32, microsec: u32) -> (r: TimeSpec)
        ensures
            r == (TimeSpec { hour, min, sec, microsec, offset: None }),
    {
        TimeSpec { hour, min, sec, microsec, offset: None }
    }

    /// A time of day at `offset` seconds east of UTC.
    pub fn new_with_offset(hour: u32, min: u32, sec: u32, offset: i64, microsec: u32) -> (r:
        TimeSpec)
        ensures
            r == (TimeSpec { hour, min, sec, microsec, offset: Some(offset) }),
    {
        TimeSpec { hour, min, sec, microsec, offset: Some(offset) }
    }
}

/// What a text says: a date part, a time part, or both.
#[derive(Clone, Copy, Debug, PartialEq, Eq, Structural)]
pub struct DateTimeSpec {
    pub date: Option<DateSpec>,
    pub time: Option<TimeSpec>,
}

} // verus!
