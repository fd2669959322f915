//! What the calendar library computes for this one: whether a date exists,
//! its day of the week, and the instant at a distance from another.

use vstd::prelude::*;
use chrono::{Datelike, Timelike};
use crate::calendar::{
    days_from_epoch, in_range, valid_date, weekday_of, Instant, SECOND_NANOS,
};

verus! {

/// The largest number of seconds by which [`shifted`] is asked to move an
/// instant. The calendar's whole range is shorter.
pub const SHIFT_LIMIT: i64 = 9_000_000_000_000_000;

/// `NaiveDate::from_ymd_opt`, asked only whether it finds the date: it does
/// for the days that the months of the Gregorian calendar have, in the
/// years from [`crate::calendar::MIN_YEAR`] to [`crate::calendar::MAX_YEAR`].
#[verifier::external_body]
pub(crate) fn date_exists(year: i32, month: u32, day: u32) -> (b: bool)
    ensures
        b == valid_date(year as int, month as int, day as int),
{
    chrono::NaiveDate::from_ymd_opt(year, month, day).is_some()
}

/// `Datelike::weekday` of a `NaiveDate`, as `Weekday::num_days_from_monday`
/// counts it: the days of the week follow each other from Thursday,
/// 1 January 1970.
#[verifier::external_body]
pub(crate) fn weekday_index(year: i32, month: u32, day: u32) -> (w: u32)
    requires
        valid_date(year as int, month as int, day as int),
    ensures
        w == weekday_of(days_from_epoch(year as int, month as int, day as int)),
{
    chrono::NaiveDate::from_ymd_opt(year, month, day).unwrap().weekday().num_days_from_monday()
}

/// `NaiveDateTime::checked_add_signed` with `TimeDelta::new(secs, nanos)`:
/// the instant that lies `secs` seconds and `nanos` nanoseconds after `t`,
/// or `None` where the calendar's range does not hold it.
#[verifier::external_body]
pub(crate) fn shifted(t: &Instant, secs: i64, nanos: u32) -> (r: Option<Instant>)
    requires
        t.wf(),
        -SHIFT_LIMIT <= secs <= SHIFT_LIMIT,
        nanos < SECOND_NANOS,
    ensures
        r is Some <==> in_range(t@ + secs * SECOND_NANOS + nanos),
        r is Some ==> r->Some_0.wf() && r->Some_0@ == t@ + secs * SECOND_NANOS + nanos,
{
    let d = chrono::NaiveDate::from_ymd_opt(t.year, t.month, t.day)?;
    let n = d.and_hms_nano_opt(t.hour, t.minute, t.second, t.nanosecond)?;
    let r = n.checked_add_signed(chrono::TimeDelta::new(secs, nanos)?)?;
    Some(
        Instant {
            year: r.year(),
            month: r.month(),
            day: r.day(),
            hour: r.hour(),
            minute: r.minute(),
            second: r.second(),
            nanosecond: r.nanosecond(),
        },
    )
}

/// `DateTime::from_timestamp`: the instant that lies `secs` seconds and
/// `nanos` nanoseconds after the start of 1970, or `None` where the
/// calendar's range does not hold it.
#[verifier::external_body]
pub(crate) fn from_timestamp(secs: i64, nanos: u32) -> (r: Option<Instant>)
    requires
        nanos < SECOND_NANOS,
    ensures
        r is Some <==> in_range(secs * SECOND_NANOS + nanos),
        r is Some ==> r->Some_0.wf() && r->Some_0@ == secs * SECOND_NANOS + nanos,
{
    let r = chrono::DateTime::from_timestamp(secs, nanos)?;
    Some(
        Instant {
            year: r.year(),
            month: r.month(),
            day: r.day(),
            hour: r.hour(),
            minute: r.minute(),
            second: r.second(),
            nanosecond: r.nanosecond(),
        },
    )
}

impl Instant {
    /// Decides [`Instant::wf`].
    pub fn is_wf(&self) -> (b: bool)
        ensures
            b == self.wf(),
    {
        date_exists(self.year, self.month, self.day) && self.hour < 24 && self.minute < 60
            && self.second < 60 && self.nanosecond < 1_000_000_000
    }
}

} // verus!
