//! The proleptic Gregorian calendar as arithmetic on integers, and points in
//! time as readings of that calendar and of the clock in UTC.

use vstd::prelude::*;

verus! {

/// The first year of the calendar's range.
pub const MIN_YEAR: i32 = -262_143;

/// The last year of the calendar's range.
pub const MAX_YEAR: i32 = 262_142;

/// The number of seconds in a day.
pub const DAY_SECONDS: i64 = 86_400;

/// The number of nanoseconds in a second.
pub const SECOND_NANOS: i64 = 1_000_000_000;

/// Whether `year` has a 29th of February.
pub open spec fn is_leap_year(year: int) -> bool {
    year % 4 == 0 && (year % 100 != 0 || year % 400 == 0)
}

/// The number of days of `month` (1 to 12) in `year`; 0 for any other month.
pub open spec fn days_in_month(year: int, month: int) -> int {
    if month == 2 {
        if is_leap_year(year) {
            29
        } else {
            28
        }
    } else if month == 4 || month == 6 || month == 9 || month == 11 {
        30
    } else if 1 <= month <= 12 {
        31
    } else {
        0
    }
}

/// Whether the calendar has the day `day` of `month` in `year`, within its
/// range of years.
pub open spec fn valid_date(year: int, month: int, day: int) -> bool {
    &&& MIN_YEAR <= year <= MAX_YEAR
    &&& 1 <= month <= 12
    &&& 1 <= day <= days_in_month(year, month)
}

/// The number of leap years from year 1 up to, and without, `year`.
pub open spec fn leap_years_before(year: int) -> int {
    (year - 1) / 4 - (year - 1) / 100 + (year - 1) / 400
}

/// The number of days from 1 January 1970 to 1 January of `year`.
pub open spec fn days_before_year(year: int) -> int {
    365 * (year - 1970) + leap_years_before(year) - 477
}

/// The number of days of `year` before the first of `month`.
pub open spec fn days_before_month(year: int, month: int) -> int {
    let leap: int = if is_leap_year(year) {
        1
    } else {
        0
    };
    if month <= 1 {
        0
    } else if month == 2 {
        31
    } else if month == 3 {
        59 + leap
    } else if month == 4 {
        90 + leap
    } else if month == 5 {
        120 + leap
    } else if month == 6 {
        151 + leap
    } else if month == 7 {
        181 + leap
    } else if month == 8 {
        212 + leap
    } else if month == 9 {
        243 + leap
    } else if month == 10 {
        273 + leap
    } else if month == 11 {
        304 + leap
    } else {
        334 + leap
    }
}

/// The number of days from 1 January 1970 to the given date.
pub open spec fn days_from_epoch(year: int, month: int, day: int) -> int {
    days_before_year(year) + days_before_month(year, month) + day - 1
}

/// The day of the week, from Monday as 0, of the day that lies `days` days
/// after 1 January 1970, which was a Thursday.
pub open spec fn weekday_of(days: int) -> int {
    (days + 3) % 7
}

/// A point in time, read off the calendar and the clock in UTC.
#[derive(Clone, Copy, Debug, PartialEq, Eq, Structural)]
pub struct Instant {
    pub year: i32,
    pub month: u32,
    pub day: u32,
    pub hour: u32,
    pub minute: u32,
    pub second: u32,
    pub nanosecond: u32,
}

impl Instant {
    /// Whether the fields are a date of the calendar and a time of the
    /// clock. Leap seconds are no times of this clock.
    pub open spec fn wf(self) -> bool {
        &&& valid_date(self.year as int, self.month as int, self.day as int)
        &&& self.hour < 24
        &&& self.minute < 60
        &&& self.second < 60
        &&& self.nanosecond < SECOND_NANOS
    }

    /// The number of days from 1 January 1970 to the day of this instant.
    pub open spec fn epoch_days(self) -> int {
        days_from_epoch(self.year as int, self.month as int, self.day as int)
    }

    /// The number of seconds of its day that lie before this instant.
    pub open spec fn second_of_day(self) -> int {
        self.hour * 3600 + self.minute * 60 + self.second
    }

    /// The number of whole seconds from the start of 1970 to this instant.
    pub open spec fn epoch_seconds(self) -> int {
        self.epoch_days() * DAY_SECONDS + self.second_of_day()
    }

    /// The place of this instant on the line of time: the number of
    /// nanoseconds from the start of 1970.
    pub open spec fn epoch_nanos(self) -> int {
        self.epoch_seconds() * SECOND_NANOS + self.nanosecond
    }
}

impl View for Instant {
    type V = int;

    open spec fn view(&self) -> int {
        self.epoch_nanos()
    }
}

/// The number of nanoseconds from the start of 1970 to the first instant of
/// the calendar's range.
pub open spec fn min_nanos() -> int {
    days_before_year(MIN_YEAR as int) * DAY_SECONDS * SECOND_NANOS
}

/// The number of nanoseconds from the start of 1970 to the end of the
/// calendar's range.
pub open spec fn end_nanos() -> int {
    days_before_year(MAX_YEAR + 1) * DAY_SECONDS * SECOND_NANOS
}

/// Whether the calendar's range holds the instant that lies `n` nanoseconds
/// after the start of 1970.
pub open spec fn in_range(n: int) -> bool {
    min_nanos() <= n < end_nanos()
}

/// The instant that lies `n` nanoseconds after the start of 1970.
pub open spec fn instant_at(n: int) -> Instant {
    choose|t: Instant| t.wf() && t.epoch_nanos() == n
}

/// From one year to the next the count of days grows by the year's length.
pub proof fn lemma_year_length(year: int)
    ensures
        days_before_year(year + 1) == days_before_year(year) + 365 + (if is_leap_year(year) {
            1int
        } else {
            0int
        }),
{
}

/// A later year begins at least 365 days later for each year between.
pub proof fn lemma_years_ordered(a: int, b: int)
    requires
        a <= b,
    ensures
        days_before_year(b) >= days_before_year(a) + 365 * (b - a),
    decreases b - a,
{
    if a < b {
        lemma_years_ordered(a, b - 1);
        lemma_year_length(b - 1);
    }
}

/// Whether the first date comes before the second in the calendar.
pub open spec fn date_before(y1: int, m1: int, d1: int, y2: int, m2: int, d2: int) -> bool {
    y1 < y2 || (y1 == y2 && (m1 < m2 || (m1 == m2 && d1 < d2)))
}

/// A date that comes before another in the calendar lies fewer days after
/// the start of 1970.
pub proof fn lemma_dates_ordered(y1: int, m1: int, d1: int, y2: int, m2: int, d2: int)
    requires
        1 <= m1 <= 12,
        1 <= d1 <= days_in_month(y1, m1),
        1 <= m2 <= 12,
        1 <= d2 <= days_in_month(y2, m2),
        date_before(y1, m1, d1, y2, m2, d2),
    ensures
        days_from_epoch(y1, m1, d1) < days_from_epoch(y2, m2, d2),
{
    if y1 < y2 {
        lemma_year_length(y1);
        lemma_years_ordered(y1 + 1, y2);
    }
}

/// Two instants at the same place on the line of time have the same fields.
pub proof fn lemma_instant_unique(a: Instant, b: Instant)
    requires
        a.wf(),
        b.wf(),
        a.epoch_nanos() == b.epoch_nanos(),
    ensures
        a == b,
{
    assert(a.epoch_seconds() == b.epoch_seconds() && a.nanosecond == b.nanosecond);
    assert(a.epoch_days() == b.epoch_days() && a.second_of_day() == b.second_of_day());
    assert(a.hour == b.hour && a.minute == b.minute && a.second == b.second);
    let (y1, m1, d1) = (a.year as int, a.month as int, a.day as int);
    let (y2, m2, d2) = (b.year as int, b.month as int, b.day as int);
    if date_before(y1, m1, d1, y2, m2, d2) {
        lemma_dates_ordered(y1, m1, d1, y2, m2, d2);
    }
    if date_before(y2, m2, d2, y1, m1, d1) {
        lemma_dates_ordered(y2, m2, d2, y1, m1, d1);
    }
}

/// Every instant of the calendar lies within the calendar's range, which is
/// shorter than twenty thousand billion seconds.
pub proof fn lemma_wf_in_range(t: Instant)
    requires
        t.wf(),
    ensures
        in_range(t.epoch_nanos()),
        -10_000_000_000_000 * SECOND_NANOS <= min_nanos(),
        end_nanos() <= 10_000_000_000_000 * SECOND_NANOS,
{
    lemma_years_ordered(MIN_YEAR as int, t.year as int);
    lemma_year_length(t.year as int);
    lemma_years_ordered(t.year + 1, MAX_YEAR + 1);
}

/// An instant is the one that [`instant_at`] finds at its place.
pub proof fn lemma_instant_at(t: Instant)
    requires
        t.wf(),
    ensures
        instant_at(t.epoch_nanos()) == t,
{
    let u = instant_at(t.epoch_nanos());
    assert(u.wf() && u.epoch_nanos() == t.epoch_nanos());
    lemma_instant_unique(u, t);
}

/// The year in which the day lies that comes `days` days after the start of
/// 1970, searched from the year `from` on.
proof fn lemma_year_of(days: int, from: int) -> (year: int)
    requires
        MIN_YEAR <= from <= MAX_YEAR,
        days_before_year(from) <= days < days_before_year(MAX_YEAR + 1),
    ensures
        from <= year <= MAX_YEAR,
        days_before_year(year) <= days < days_before_year(year + 1),
    decreases MAX_YEAR - from,
{
    if days < days_before_year(from + 1) {
        from
    } else {
        lemma_year_of(days, from + 1)
    }
}

/// Every day of the calendar's range has a date.
pub proof fn lemma_date_of(days: int) -> (date: (int, int, int))
    requires
        days_before_year(MIN_YEAR as int) <= days < days_before_year(MAX_YEAR + 1),
    ensures
        valid_date(date.0, date.1, date.2),
        days_from_epoch(date.0, date.1, date.2) == days,
{
    let year = lemma_year_of(days, MIN_YEAR as int);
    lemma_year_length(year);
    let rest = days - days_before_year(year);
    let month: int = if rest < days_before_month(year, 2) {
        1
    } else if rest < days_before_month(year, 3) {
        2
    } else if rest < days_before_month(year, 4) {
        3
    } else if rest < days_before_month(year, 5) {
        4
    } else if rest < days_before_month(year, 6) {
        5
    } else if rest < days_before_month(year, 7) {
        6
    } else if rest < days_before_month(year, 8) {
        7
    } else if rest < days_before_month(year, 9) {
        8
    } else if rest < days_before_month(year, 10) {
        9
    } else if rest < days_before_month(year, 11) {
        10
    } else if rest < days_before_month(year, 12) {
        11
    } else {
        12
    };
    (year, month, rest - days_before_month(year, month) + 1)
}

/// Every place of the calendar's range on the line of time has its instant:
/// [`instant_at`] finds an instant of the calendar there.
pub proof fn lemma_instant_exists(n: int)
    requires
        in_range(n),
    ensures
        instant_at(n).wf(),
        instant_at(n).epoch_nanos() == n,
{
    let secs = n / (SECOND_NANOS as int);
    let days = secs / (DAY_SECONDS as int);
    let rest = secs % (DAY_SECONDS as int);
    let date = lemma_date_of(days);
    let t = Instant {
        year: date.0 as i32,
        month: date.1 as u32,
        day: date.2 as u32,
        hour: (rest / 3600) as u32,
        minute: (rest % 3600 / 60) as u32,
        second: (rest % 60) as u32,
        nanosecond: (n % (SECOND_NANOS as int)) as u32,
    };
    assert(t.wf());
    assert(t.epoch_nanos() == n);
}

} // verus!
