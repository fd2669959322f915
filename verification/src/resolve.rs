//! From what a text says to the point in time that it means, given the
//! point in time at which it is said.

use vstd::prelude::*;
use crate::calendar::{
    date_before, days_in_month, in_range, instant_at, lemma_instant_at, lemma_wf_in_range,
    valid_date, weekday_of, Instant, DAY_SECONDS, MAX_YEAR, MIN_YEAR, SECOND_NANOS,
};
use crate::clock::{date_exists, shifted, weekday_index};
use crate::errors::DateError;
use crate::types::{ByName, DateSpec, DateTimeSpec, Direction, Interval, TimeSpec, BILLION};

verus! {

/// The instant that lies `delta` nanoseconds after `t`, where the calendar's
/// range holds it.
pub open spec fn shift_spec(t: Instant, delta: int) -> Option<Instant> {
    if in_range(t@ + delta) {
        Some(instant_at(t@ + delta))
    } else {
        None
    }
}

/// Computes [`shift_spec`].
pub fn shift(t: &Instant, delta: i128) -> (r: Option<Instant>)
    requires
        t.wf(),
    ensures
        r == shift_spec(*t, delta as int),
        r is Some ==> r->Some_0.wf() && r->Some_0@ == t@ + delta,
{
    proof {
        lemma_wf_in_range(*t);
    }
    if delta > 1_000_000_000_000_000_000_000_000 || delta < -1_000_000_000_000_000_000_000_000 {
        return None;
    }
    let (secs, nanos): (i64, u32) = if delta >= 0 {
        let a: u128 = delta as u128;
        ((a / 1_000_000_000) as i64, (a % 1_000_000_000) as u32)
    } else {
        let a: u128 = (-delta) as u128;
        let q: u128 = a / 1_000_000_000;
        let rem: u128 = a % 1_000_000_000;
        if rem == 0 {
            (-(q as i64), 0)
        } else {
            (-(q as i64) - 1, (1_000_000_000 - rem) as u32)
        }
    };
    assert(delta == secs * SECOND_NANOS + nanos);
    let r = shifted(t, secs, nanos);
    proof {
        if r is Some {
            lemma_instant_at(r->Some_0);
        }
    }
    r
}

/// Whether the fields of a time part are a time of the clock.
pub open spec fn clock_valid(ts: TimeSpec) -> bool {
    ts.hour < 24 && ts.min < 60 && ts.sec < 60 && ts.microsec < 1_000_000
}

/// The instant on the day of `day` at the time of day `ts`. Where the text
/// names an offset from UTC, the time is a reading of the clock at that
/// offset, and the instant is that reading brought to UTC. `None` where the
/// time is none of the clock, or the instant lies out of the calendar's
/// range.
pub open spec fn at_time(day: Instant, ts: TimeSpec) -> Option<Instant> {
    if !clock_valid(ts) {
        None
    } else {
        let local = Instant {
            hour: ts.hour,
            minute: ts.min,
            second: ts.sec,
            nanosecond: (ts.microsec * 1000) as u32,
            ..day
        };
        match ts.offset {
            None => Some(local),
            Some(offset) => shift_spec(local, -offset * SECOND_NANOS),
        }
    }
}

impl TimeSpec {
    /// Computes [`at_time`].
    pub fn to_date_time(&self, day: &Instant) -> (r: Option<Instant>)
        requires
            day.wf(),
        ensures
            r == at_time(*day, *self),
            r is Some ==> r->Some_0.wf(),
    {
        if !(self.hour < 24 && self.min < 60 && self.sec < 60 && self.microsec < 1_000_000) {
            return None;
        }
        let local = Instant {
            year: day.year,
            month: day.month,
            day: day.day,
            hour: self.hour,
            minute: self.min,
            second: self.sec,
            nanosecond: self.microsec * 1000,
        };
        match self.offset {
            None => Some(local),
            Some(offset) => shift(&local, -(offset as i128) * 1_000_000_000),
        }
    }
}

/// The instant with the date given and the time of day of `now`, where the
/// calendar has that date.
pub open spec fn on_day(now: Instant, year: int, month: u32, day: u32) -> Option<Instant> {
    if valid_date(year, month as int, day as int) {
        Some(Instant { year: year as i32, month, day, ..now })
    } else {
        None
    }
}

/// Computes [`on_day`].
pub fn on_day_of(now: &Instant, year: i64, month: u32, day: u32) -> (r: Option<Instant>)
    requires
        now.wf(),
    ensures
        r == on_day(*now, year as int, month, day),
        r is Some ==> r->Some_0.wf(),
{
    if year < -262_143 || year > 262_142 {
        return None;
    }
    if date_exists(year as i32, month, day) {
        Some(
            Instant {
                year: year as i32,
                month,
                day,
                hour: now.hour,
                minute: now.minute,
                second: now.second,
                nanosecond: now.nanosecond,
            },
        )
    } else {
        None
    }
}

/// The number of days from a day of the week `today` to the nearest other
/// day that is the day of the week `target`: ahead, from 1 to 7, or with
/// `Direction::Last` back, from -1 to -7. The same day of the week lies a
/// whole week away.
pub open spec fn week_day_shift(today: int, target: int, direct: Direction) -> int {
    if direct == Direction::Last {
        let back = (today - target) % 7;
        if back == 0 {
            -7
        } else {
            -back
        }
    } else {
        let ahead = (target - today) % 7;
        if ahead == 0 {
            7
        } else {
            ahead
        }
    }
}

/// Computes [`week_day_shift`].
pub fn days_to_week_day(today: u32, target: u32, direct: Direction) -> (r: i64)
    requires
        today <= 6,
        target <= 6,
    ensures
        r == week_day_shift(today as int, target as int, direct),
        -7 <= r <= 7,
        r != 0,
{
    if direct == Direction::Last {
        let back = (today + 7 - target) % 7;
        if back == 0 {
            -7
        } else {
            -(back as i64)
        }
    } else {
        let ahead = (target + 7 - today) % 7;
        if ahead == 0 {
            7
        } else {
            ahead as i64
        }
    }
}

/// By how many years the day `day` of `month` in the year of `now` is moved:
/// with `Direction::Next` into the next year where it lies before the day
/// of `now`, with `Direction::Last` into the last year where it lies after.
pub open spec fn year_turn(now: Instant, month: u32, day: u32, direct: Direction) -> int {
    let y = now.year as int;
    match direct {
        Direction::Next => if date_before(
            y,
            month as int,
            day as int,
            y,
            now.month as int,
            now.day as int,
        ) {
            1
        } else {
            0
        },
        Direction::Last => if date_before(
            y,
            now.month as int,
            now.day as int,
            y,
            month as int,
            day as int,
        ) {
            -1
        } else {
            0
        },
        Direction::Here => 0,
    }
}

/// Computes [`year_turn`].
fn turn_of_year(now: &Instant, month: u32, day: u32, direct: Direction) -> (r: i64)
    ensures
        r == year_turn(*now, month, day, direct),
{
    match direct {
        Direction::Next => if month < now.month || (month == now.month && day < now.day) {
            1
        } else {
            0
        },
        Direction::Last => if now.month < month || (now.month == month && now.day < day) {
            -1
        } else {
            0
        },
        Direction::Here => 0,
    }
}

/// An instant on the day that a name means at the time `now`; its time of
/// day is that of `now`.
///
/// A day of the week is the nearest such day after the day of `now`, or
/// before it with `Direction::Last`; the day of `now` itself is never meant.
/// A month is its first day, in the year of `now`, unless that day is past:
/// then in the next year; with `Direction::Last` unless it is still to come:
/// then in the last year. A day and a month are that day in the year of
/// `now`, which must have it; `Direction::Next` and `Direction::Last` move
/// it by a year as they do for a month.
pub open spec fn name_date(name: ByName, now: Instant) -> Option<Instant> {
    match name {
        ByName::WeekDay { day, direct } => if day > 6 {
            None
        } else {
            shift_spec(
                now,
                week_day_shift(weekday_of(now.epoch_days()), day as int, direct) * DAY_SECONDS
                    * SECOND_NANOS,
            )
        },
        ByName::MonthName { month, direct } => {
            let d = if direct == Direction::Here {
                Direction::Next
            } else {
                direct
            };
            on_day(now, now.year + year_turn(now, month, 1, d), month, 1)
        },
        ByName::DayMonth { day, month, direct } => if !valid_date(
            now.year as int,
            month as int,
            day as int,
        ) {
            None
        } else {
            on_day(now, now.year + year_turn(now, month, day, direct), month, day)
        },
    }
}

impl ByName {
    /// Computes [`name_date`].
    pub fn into_date(&self, now: &Instant) -> (r: Option<Instant>)
        requires
            now.wf(),
        ensures
            r == name_date(*self, *now),
            r is Some ==> r->Some_0.wf(),
    {
        match *self {
            ByName::WeekDay { day, direct } => {
                if day > 6 {
                    return None;
                }
                let today = weekday_index(now.year, now.month, now.day);
                let days = days_to_week_day(today, day, direct);
                shift(now, (days as i128) * 86_400_000_000_000)
            },
            ByName::MonthName { month, direct } => {
                let d = if direct == Direction::Here {
                    Direction::Next
                } else {
                    direct
                };
                on_day_of(now, now.year as i64 + turn_of_year(now, month, 1, d), month, 1)
            },
            ByName::DayMonth { day, month, direct } => {
                if !date_exists(now.year, month, day) {
                    return None;
                }
                on_day_of(now, now.year as i64 + turn_of_year(now, month, day, direct), month, day)
            },
        }
    }
}

/// The number of whole months of a span counted in months or years, the
/// part of a month that is left being dropped.
pub open spec fn whole_months(span: Interval) -> int {
    let n = span.billionths * span.unit.months();
    if n >= 0 {
        n / (BILLION as int)
    } else {
        -((-n) / (BILLION as int))
    }
}

/// The instant `months` months after `now`: the month and the year move,
/// the time of day stays, and the day of the month stays too unless the
/// month is too short for it: then it is the last day of the month.
pub open spec fn add_months_spec(now: Instant, months: int) -> Option<Instant> {
    let total = now.year * 12 + (now.month - 1) + months;
    let year = total / 12;
    let month = total % 12 + 1;
    if MIN_YEAR <= year <= MAX_YEAR {
        let last = days_in_month(year, month);
        Some(
            Instant {
                year: year as i32,
                month: month as u32,
                day: if now.day <= last {
                    now.day
                } else {
                    last as u32
                },
                ..now
            },
        )
    } else {
        None
    }
}

/// Computes [`add_months_spec`].
pub fn add_months(now: &Instant, months: i64) -> (r: Option<Instant>)
    requires
        now.wf(),
    ensures
        r == add_months_spec(*now, months as int),
        r is Some ==> r->Some_0.wf(),
{
    if months < -1_000_000_000_000 || months > 1_000_000_000_000 {
        return None;
    }
    let total: i64 = (now.year as i64) * 12 + (now.month as i64 - 1) + months;
    let lifted: u64 = (total + 12_000_000_000_000) as u64;
    let year: i64 = (lifted / 12) as i64 - 1_000_000_000_000;
    let month: u32 = (lifted % 12) as u32 + 1;
    assert(year == total as int / 12 && month == total as int % 12 + 1);
    if year < -262_143 || year > 262_142 {
        return None;
    }
    let mut day: u32 = now.day;
    while !date_exists(year as i32, month, day)
        invariant
            MIN_YEAR <= year <= MAX_YEAR,
            1 <= month <= 12,
            1 <= day <= now.day,
            day >= days_in_month(year as int, month as int) || day == now.day,
        decreases day,
    {
        day = day - 1;
    }
    Some(
        Instant {
            year: year as i32,
            month,
            day,
            hour: now.hour,
            minute: now.minute,
            second: now.second,
            nanosecond: now.nanosecond,
        },
    )
}

/// The instant that lies the span `span` after `now`. A span of seconds,
/// minutes, hours, days or weeks is a length of time. A span of months or
/// years moves the date by its whole months, as [`add_months_spec`] says.
pub open spec fn skip_spec(span: Interval, now: Instant) -> Option<Instant> {
    if span.unit.months() > 0 {
        add_months_spec(now, whole_months(span))
    } else {
        shift_spec(now, span.billionths * span.unit.seconds())
    }
}

impl Interval {
    /// Computes [`skip_spec`].
    pub fn add_to(&self, now: &Instant) -> (r: Option<Instant>)
        requires
            now.wf(),
        ensures
            r == skip_spec(*self, *now),
            r is Some ==> r->Some_0.wf(),
    {
        let per = self.unit.length_in_months();
        if per > 0 {
            let b: i128 = self.billionths as i128;
            let n: i128 = if per == 12 {
                b * 12
            } else {
                b
            };
            let months: i64 = if n >= 0 {
                ((n as u128) / 1_000_000_000) as i64
            } else {
                -((((-n) as u128) / 1_000_000_000) as i64)
            };
            add_months(now, months)
        } else {
            let b: i128 = self.billionths as i128;
            let len: i128 = self.unit.length_in_seconds() as i128;
            assert(-0x8000_0000_0000_0000 * 604_800 <= b * len <= 0x8000_0000_0000_0000 * 604_800)
                by (nonlinear_arith)
                requires
                    -0x8000_0000_0000_0000 <= b <= 0x8000_0000_0000_0000,
                    0 <= len <= 604_800,
            ;
            shift(now, b * len)
        }
    }
}

/// The start of the day of `t`.
pub open spec fn midnight(t: Instant) -> Instant {
    Instant { hour: 0, minute: 0, second: 0, nanosecond: 0, ..t }
}

/// An instant on the day that the date part `date` means at the time `now`.
pub open spec fn date_spec_day(date: DateSpec, now: Instant) -> Option<Instant> {
    match date {
        DateSpec::Absolute { year, month, day } => on_day(now, year as int, month, day),
        DateSpec::FromName(name) => name_date(name, now),
        DateSpec::Relative(span) => skip_spec(span, now),
    }
}

/// The instant that `spec` means at the time `now`.
///
/// The date part gives the day: a calendar date itself, a name as
/// [`name_date`] says, a span as [`skip_spec`] says. The time part gives the
/// time of day on that day, as [`at_time`] says. Without a time part a span
/// keeps the time of day that it arrives at, and any other date means the
/// start of its day. Without a date part the day is that of `now`.
pub open spec fn resolve_spec(spec: DateTimeSpec, now: Instant) -> Result<Instant, DateError> {
    if !now.wf() {
        Err(DateError::BadDate)
    } else {
        match spec.date {
            None => match spec.time {
                None => Err(DateError::NoDate),
                Some(ts) => match at_time(now, ts) {
                    Some(t) => Ok(t),
                    None => Err(DateError::BadTime),
                },
            },
            Some(date) => match date_spec_day(date, now) {
                None => Err(DateError::BadDate),
                Some(day) => match spec.time {
                    Some(ts) => match at_time(day, ts) {
                        Some(t) => Ok(t),
                        None => Err(DateError::BadDate),
                    },
                    None => if date is Relative {
                        Ok(day)
                    } else {
                        Ok(midnight(day))
                    },
                },
            },
        }
    }
}

impl DateSpec {
    /// Computes [`date_spec_day`].
    pub fn to_date(&self, now: &Instant) -> (r: Option<Instant>)
        requires
            now.wf(),
        ensures
            r == date_spec_day(*self, *now),
            r is Some ==> r->Some_0.wf(),
    {
        match self {
            DateSpec::Absolute { year, month, day } => on_day_of(now, *year as i64, *month, *day),
            DateSpec::FromName(name) => name.into_date(now),
            DateSpec::Relative(span) => span.add_to(now),
        }
    }
}

/// Computes [`resolve_spec`].
pub fn resolve(spec: &DateTimeSpec, now: &Instant) -> (r: Result<Instant, DateError>)
    ensures
        r == resolve_spec(*spec, *now),
        r is Ok ==> r->Ok_0.wf(),
{
    if !now.is_wf() {
        return Err(DateError::BadDate);
    }
    match &spec.date {
        None => match &spec.time {
            None => Err(DateError::NoDate),
            Some(ts) => match ts.to_date_time(now) {
                Some(t) => Ok(t),
                None => Err(DateError::BadTime),
            },
        },
        Some(date) => match date.to_date(now) {
            None => Err(DateError::BadDate),
            Some(day) => match &spec.time {
                Some(ts) => match ts.to_date_time(&day) {
                    Some(t) => Ok(t),
                    None => Err(DateError::BadDate),
                },
                None => {
                    if let DateSpec::Relative(_) = date {
                        Ok(day)
                    } else {
                        Ok(
                            Instant {
                                year: day.year,
                                month: day.month,
                                day: day.day,
                                hour: 0,
                                minute: 0,
                                second: 0,
                                nanosecond: 0,
                            },
                        )
                    }
                },
            },
        },
    }
}

} // verus!
