//! What holds of the grammar and of the resolution for every input.

use vstd::prelude::*;
use crate::calendar::{
    date_before, days_in_month, in_range, instant_at, lemma_instant_at, lemma_instant_exists,
    lemma_wf_in_range, weekday_of, Instant, DAY_SECONDS, SECOND_NANOS,
};
use crate::duration_spec;
use crate::errors::DateError;
use crate::grammar::{
    after_month_spec, decimal_spec, direction_token, dotted_spec, informal_date_spec, number, number_spec,
    parse_date_spec, parse_spec, parse_time_spec, shortcut_token, span, subject_spec, token,
    ParserState,
};
use crate::lexer::{int_of, Lexeme};
use crate::names::by_name_of;
use crate::resolve::{
    add_months_spec, at_time, date_spec_day, midnight, name_date, resolve_spec, shift_spec,
    week_day_shift, whole_months,
};
use crate::rules::{day_month, hour_of_day, offset_of, pivot_year};
use crate::types::{ByName, DateSpec, DateTimeSpec, Direction, TimeSpec, TimeUnit, BILLION};

verus! {

/// A year written with one or two digits lies in the century from 1941 to
/// 2040: the years up to 40 after 2000, the others after 1900.
pub proof fn lemma_pivot_window(y: u32)
    requires
        y < 100,
    ensures
        pivot_year(y) == (if y > 40 {
            1900 + y
        } else {
            2000 + y
        }),
        1941 <= pivot_year(y) <= 2040,
        pivot_year(y) % 100 == y,
{
}

/// Adding months never leaves the month that lies that many months on: the
/// day of the month stays where the new month has it, and is the last day
/// of the new month where it has not.
pub proof fn lemma_month_add_clamps(now: Instant, months: int)
    requires
        now.wf(),
        add_months_spec(now, months) is Some,
    ensures
        ({
            let then = add_months_spec(now, months)->Some_0;
            let last = days_in_month(then.year as int, then.month as int);
            &&& then.wf()
            &&& then.year * 12 + then.month == now.year * 12 + now.month + months
            &&& then.day == (if now.day <= last {
                now.day as int
            } else {
                last
            })
            &&& then.hour == now.hour && then.minute == now.minute && then.second == now.second
                && then.nanosecond == now.nanosecond
        }),
{
}

/// A text with a time of day, and a text whose date part is no span, is no
/// duration.
pub proof fn lemma_duration_needs_span(spec: DateTimeSpec)
    ensures
        spec.time is Some ==> duration_spec(spec) is Err,
        spec.date is Some && !(spec.date->Some_0 is Relative) ==> duration_spec(spec) is Err,
        duration_spec(spec) is Ok ==> spec.time is None && spec.date == Some(
            DateSpec::Relative(duration_spec(spec)->Ok_0),
        ),
{
}

/// What a word for a day says: the day that lies `k` days from today, and
/// no time of day.
pub open spec fn day_shift(k: int) -> DateTimeSpec {
    DateTimeSpec { date: Some(span(TimeUnit::Day, k * BILLION, false)), time: None }
}

/// A text that begins with a word for a day has that day as its date part.
pub proof fn lemma_shortcut_parses(st: ParserState, k: i64)
    requires
        shortcut_token(token(st).0) == Some(k),
    ensures
        parse_date_spec(st).0 == Ok::<Option<DateSpec>, DateError>(
            Some(span(TimeUnit::Day, k * BILLION, false)),
        ),
{
}

/// Today is the day of now: `today` means now itself, and so the start of
/// the day where now is the start of its day.
pub proof fn lemma_today_is_now(now: Instant)
    requires
        now.wf(),
    ensures
        resolve_spec(day_shift(0), now) == Ok::<Instant, DateError>(now),
        now == midnight(now) ==> resolve_spec(day_shift(0), now) == Ok::<Instant, DateError>(
            midnight(now),
        ),
{
    lemma_wf_in_range(now);
    lemma_instant_at(now);
}

/// One day back from tomorrow is today.
pub proof fn lemma_tomorrow_less_a_day(now: Instant)
    requires
        now.wf(),
        resolve_spec(day_shift(1), now) is Ok,
    ensures
        resolve_spec(day_shift(-1), resolve_spec(day_shift(1), now)->Ok_0) == resolve_spec(
            day_shift(0),
            now,
        ),
{
    lemma_wf_in_range(now);
    lemma_instant_at(now);
    let day = DAY_SECONDS * SECOND_NANOS;
    assert(shift_spec(now, 1 * BILLION * 86400) is Some);
    lemma_instant_exists(now@ + day);
    let then = instant_at(now@ + day);
    assert(resolve_spec(day_shift(1), now) == Ok::<Instant, DateError>(then));
    assert(then@ + (-1 * BILLION * 86400) == now@);
}

/// Two instants a whole number of days apart have the same time of day.
pub proof fn lemma_days_apart(a: Instant, b: Instant, days: int)
    requires
        a.wf(),
        b.wf(),
        b@ == a@ + days * DAY_SECONDS * SECOND_NANOS,
    ensures
        b.epoch_days() == a.epoch_days() + days,
        b.hour == a.hour && b.minute == a.minute && b.second == a.second && b.nanosecond
            == a.nanosecond,
{
    assert(b.epoch_seconds() == a.epoch_seconds() + days * DAY_SECONDS && b.nanosecond
        == a.nanosecond);
    assert(b.epoch_days() == a.epoch_days() + days && b.second_of_day() == a.second_of_day());
}

/// The way to a day of the week ends on that day of the week, and is from
/// one to seven days long.
pub proof fn lemma_week_day_shift(days: int, target: int, direct: Direction)
    requires
        0 <= target <= 6,
    ensures
        ({
            let ahead = week_day_shift(weekday_of(days), target, direct);
            &&& weekday_of(days + ahead) == target
            &&& direct != Direction::Last ==> 1 <= ahead <= 7
            &&& direct == Direction::Last ==> -7 <= ahead <= -1
        }),
{
}

/// A day of the week is found on the nearest day that is that day of the
/// week and not the day of now: ahead within a week, or with
/// `Direction::Last` back within a week. The time of day is that of now.
pub proof fn lemma_week_day_found(now: Instant, day: u32, direct: Direction)
    requires
        now.wf(),
        day <= 6,
        name_date(ByName::WeekDay { day, direct }, now) is Some,
    ensures
        ({
            let then = name_date(ByName::WeekDay { day, direct }, now)->Some_0;
            let ahead = then.epoch_days() - now.epoch_days();
            &&& then.wf()
            &&& weekday_of(then.epoch_days()) == day
            &&& direct != Direction::Last ==> 1 <= ahead <= 7
            &&& direct == Direction::Last ==> -7 <= ahead <= -1
            &&& then.hour == now.hour && then.minute == now.minute && then.second == now.second
                && then.nanosecond == now.nanosecond
        }),
{
    let days = week_day_shift(weekday_of(now.epoch_days()), day as int, direct);
    lemma_week_day_shift(now.epoch_days(), day as int, direct);
    lemma_instant_exists(now@ + days * DAY_SECONDS * SECOND_NANOS);
    let then = instant_at(now@ + days * DAY_SECONDS * SECOND_NANOS);
    assert(name_date(ByName::WeekDay { day, direct }, now) == Some(then));
    lemma_days_apart(now, then, days);
}

/// A month is found on its first day: in the year of now or the next one,
/// on the first such day that is not before the day of now; with
/// `Direction::Last` in the year of now or the last one, on the last such
/// day that is not after the day of now.
pub proof fn lemma_month_found(now: Instant, month: u32, direct: Direction)
    requires
        now.wf(),
        name_date(ByName::MonthName { month, direct }, now) is Some,
    ensures
        ({
            let then = name_date(ByName::MonthName { month, direct }, now)->Some_0;
            let today = (now.year as int, now.month as int, now.day as int);
            &&& then.wf()
            &&& then.month == month && then.day == 1
            &&& direct != Direction::Last ==> {
                &&& !date_before(then.year as int, month as int, 1, today.0, today.1, today.2)
                &&& then.year == now.year || (then.year == now.year + 1 && date_before(
                    today.0,
                    month as int,
                    1,
                    today.0,
                    today.1,
                    today.2,
                ))
            }
            &&& direct == Direction::Last ==> {
                &&& !date_before(today.0, today.1, today.2, then.year as int, month as int, 1)
                &&& then.year == now.year || (then.year == now.year - 1 && date_before(
                    today.0,
                    today.1,
                    today.2,
                    today.0,
                    month as int,
                    1,
                ))
            }
        }),
{
}

/// A time of day with an offset from UTC is that much earlier in UTC for
/// an offset to the east, and later for one to the west.
pub proof fn lemma_offset_shifts(day: Instant, ts: TimeSpec)
    requires
        day.wf(),
        ts.offset is Some,
        at_time(day, ts) is Some,
    ensures
        ({
            let local = at_time(day, TimeSpec { offset: None, ..ts });
            &&& local is Some
            &&& at_time(day, ts)->Some_0.wf()
            &&& at_time(day, ts)->Some_0@ == local->Some_0@ - ts.offset->Some_0 * SECOND_NANOS
        }),
{
    let local = at_time(day, TimeSpec { offset: None, ..ts })->Some_0;
    lemma_instant_exists(local@ - ts.offset->Some_0 * SECOND_NANOS);
}

/// Whatever a text says, the instant that it means is one of the calendar.
pub proof fn lemma_resolved_wf(spec: DateTimeSpec, now: Instant)
    requires
        resolve_spec(spec, now) is Ok,
    ensures
        resolve_spec(spec, now)->Ok_0.wf(),
{
    assert(now.wf());
    lemma_at_time_wf(now, spec.time);
    if spec.date is Some {
        lemma_day_wf(spec.date->Some_0, now);
        let day = date_spec_day(spec.date->Some_0, now);
        if day is Some {
            lemma_at_time_wf(day->Some_0, spec.time);
        }
    }
}

proof fn lemma_shift_wf(t: Instant, delta: int)
    ensures
        shift_spec(t, delta) is Some ==> shift_spec(t, delta)->Some_0.wf(),
{
    if in_range(t@ + delta) {
        lemma_instant_exists(t@ + delta);
    }
}

proof fn lemma_at_time_wf(day: Instant, time: Option<TimeSpec>)
    requires
        day.wf(),
    ensures
        time is Some && at_time(day, time->Some_0) is Some ==> at_time(day, time->Some_0)->Some_0.wf(),
{
    if time is Some && time->Some_0.offset is Some && at_time(day, time->Some_0) is Some {
        lemma_offset_shifts(day, time->Some_0);
    }
}

proof fn lemma_day_wf(date: DateSpec, now: Instant)
    requires
        now.wf(),
    ensures
        date_spec_day(date, now) is Some ==> date_spec_day(date, now)->Some_0.wf(),
{
    match date {
        DateSpec::Absolute { .. } => {},
        DateSpec::FromName(name) => {
            match name {
                ByName::WeekDay { day, direct } => {
                    if day <= 6 {
                        lemma_shift_wf(
                            now,
                            week_day_shift(weekday_of(now.epoch_days()), day as int, direct)
                                * DAY_SECONDS * SECOND_NANOS,
                        );
                    }
                },
                _ => {},
            }
        },
        DateSpec::Relative(span) => {
            lemma_shift_wf(now, span.billionths * span.unit.seconds());
            if span.unit.months() > 0 && add_months_spec(now, whole_months(span)) is Some {
                lemma_month_add_clamps(now, whole_months(span));
            }
        },
    }
}

/// On the twelve-hour clock twelve is the hour before one: 12 am is hour 0
/// of the day and 12 pm is hour 12, and the hours from 1 to 11 are
/// themselves before noon and twelve more after it.
pub proof fn lemma_twelve_hour_clock(hour: u32)
    requires
        1 <= hour <= 12,
    ensures
        hour_of_day(false, hour) == hour % 12,
        hour_of_day(true, hour) == hour % 12 + 12,
{
}

/// An offset of whole hours is the same written as hours alone and written
/// with a colon and no minutes.
pub proof fn lemma_offset_forms_agree(negative: bool, hours: u32)
    requires
        hours < 100,
    ensures
        offset_of(negative, hours, None) == offset_of(negative, hours, Some(0)),
        offset_of(negative, hours, None) == (if negative {
            -3600 * hours
        } else {
            3600 * hours
        }),
{
}

/// The two dialects read the numbers of a date with a slash in opposite
/// orders: month and day in American usage, day and month elsewhere.
pub proof fn lemma_dialects_swap(first: u32, second: u32)
    ensures
        day_month(first, second, true) == (second, first),
        day_month(first, second, false) == (first, second),
{
}

/// Read in American usage, a date with two slashes has the first number as
/// its month and the second as its day; read elsewhere, the first as its
/// day and the second as its month.
pub proof fn lemma_slash_date_order(st: ParserState, first: u32)
    requires
        informal_date_spec(st, first).0 is Ok,
        informal_date_spec(st, first).0->Ok_0 is Absolute,
    ensures
        ({
            let second = number(st).0->Ok_0;
            let date = informal_date_spec(st, first).0->Ok_0;
            &&& number(st).0 is Ok
            &&& st.american ==> date->month == first && date->day == second
            &&& !st.american ==> date->day == first && date->month == second
        }),
{
}

/// What a date stage may hand out: a date part with a month from 1 to 12,
/// or none together with an hour kept for the time stage.
pub open spec fn date_stage_sound(r: (Result<Option<DateSpec>, DateError>, ParserState)) -> bool {
    match r.0 {
        Ok(Some(date)) => date.wf(),
        Ok(None) => r.1.maybe_time is Some,
        Err(_) => true,
    }
}

proof fn lemma_dotted_sound(st: ParserState, sign: bool, n: u32)
    ensures
        date_stage_sound(decimal_spec(st, sign, n)),
        date_stage_sound(dotted_spec(st, sign, n)),
{
}

proof fn lemma_after_month_sound(st: ParserState, month: u32, name: ByName)
    requires
        1 <= month <= 12,
        name.wf(),
    ensures
        after_month_spec(st, month, name).0 is Ok ==> after_month_spec(st, month, name).0->Ok_0.wf(),
{
}

proof fn lemma_number_sound(st: ParserState, sign: bool, n: u32)
    ensures
        date_stage_sound(number_spec(st, sign, n)),
{
    let (t, s1) = token(st);
    match t {
        Lexeme::Char(c) => {
            if c == '.' {
                lemma_dotted_sound(s1, sign, n);
            }
        },
        _ => {},
    }
}

proof fn lemma_subject_sound(st: ParserState, sign: bool, t: Lexeme)
    ensures
        date_stage_sound(subject_spec(st, sign, t)),
{
    match t {
        Lexeme::Iden(w) => {
            match by_name_of(w, st.direct) {
                Some(ByName::MonthName { month, direct }) => {
                    lemma_after_month_sound(st, month, ByName::MonthName { month, direct });
                },
                _ => {},
            }
        },
        Lexeme::Int(_) => {
            if int_of(t) is Ok {
                lemma_number_sound(st, sign, int_of(t)->Ok_0);
            }
        },
        _ => {},
    }
}

/// The date stage hands out a date part with a month from 1 to 12, or none
/// together with an hour kept for the time stage.
pub proof fn lemma_date_stage_sound(st: ParserState)
    ensures
        date_stage_sound(parse_date_spec(st)),
{
    let (t0, s0) = token(st);
    let sign = t0 == Lexeme::Char('-');
    let (t1, s1) = if sign {
        token(s0)
    } else {
        (t0, s0)
    };
    let s2 = match direction_token(t1) {
        Some(d) => ParserState { direct: d, ..s1 },
        None => s1,
    };
    lemma_subject_sound(token(s2).1, sign, token(s2).0);
    lemma_subject_sound(s2, sign, t1);
}

/// What the parser hands out has a date part or a time part, and a calendar
/// date in it has a month from 1 to 12.
pub proof fn lemma_parsed_has_a_part(st: ParserState)
    requires
        parse_spec(st).0 is Ok,
    ensures
        ({
            let spec = parse_spec(st).0->Ok_0;
            &&& spec.date is Some || spec.time is Some
            &&& spec.date is Some ==> spec.date->Some_0.wf()
        }),
{
    lemma_date_stage_sound(st);
    let (date, s1) = parse_date_spec(st);
    if date == Ok::<Option<DateSpec>, DateError>(None) {
        assert(s1.maybe_time is Some);
        assert(parse_time_spec(s1).0 is Ok ==> parse_time_spec(s1).0->Ok_0 is Some);
    }
}

} // verus!
