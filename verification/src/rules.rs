//! The small decisions of the grammar, each a function of the numbers read.

use vstd::prelude::*;
use vstd::string::StrSliceExecFns;
use crate::lexer::{digit, is_digit};
use crate::types::BILLION;

verus! {

/// The year that a number written as a year stands for: a number under 100
/// is a year of the century from 1941 to 2040.
pub open spec fn pivot_year(y: u32) -> u32 {
    if y < 100 {
        if y > 40 {
            (1900 + y) as u32
        } else {
            (2000 + y) as u32
        }
    } else {
        y
    }
}

/// Computes [`pivot_year`].
pub fn pivot(y: u32) -> (r: u32)
    ensures
        r == pivot_year(y),
        y < 100 ==> r == (if y > 40 { 1900 + y } else { 2000 + y }),
        y >= 100 ==> r == y,
{
    if y < 100 {
        if y > 40 {
            1900 + y
        } else {
            2000 + y
        }
    } else {
        y
    }
}

/// The day and the month, in this order, of a date written as two numbers
/// and a slash: the month comes first in American usage, the day elsewhere.
pub open spec fn day_month(first: u32, second: u32, american: bool) -> (u32, u32) {
    if american {
        (second, first)
    } else {
        (first, second)
    }
}

/// Computes [`day_month`].
pub fn order_day_month(first: u32, second: u32, american: bool) -> (r: (u32, u32))
    ensures
        r == day_month(first, second, american),
{
    if american {
        (second, first)
    } else {
        (first, second)
    }
}

/// The hour of the day for an hour of the twelve-hour clock: 12 am is
/// hour 0, the hours after noon gain twelve, and 12 pm stays 12. An hour
/// that the twelve-hour clock does not have is left as it is.
pub open spec fn hour_of_day(pm: bool, hour: u32) -> u32 {
    if pm {
        if hour < 12 {
            (hour + 12) as u32
        } else {
            hour
        }
    } else if hour == 12 {
        0
    } else {
        hour
    }
}

/// Computes [`hour_of_day`].
pub fn twelve_hour(pm: bool, hour: u32) -> (r: u32)
    ensures
        r == hour_of_day(pm, hour),
{
    if pm {
        if hour < 12 {
            hour + 12
        } else {
            hour
        }
    } else if hour == 12 {
        0
    } else {
        hour
    }
}

/// The hours and minutes of an offset from UTC. Written with a colon, the
/// number before it is the hours and `minutes` holds the number after it.
/// Written without, a number under 100 is the hours alone, and a larger one
/// holds the hours in front of its last two digits, which are the minutes.
pub open spec fn offset_parts(first: u32, minutes: Option<u32>) -> (int, int) {
    match minutes {
        Some(m) => (first as int, m as int),
        None => if first < 100 {
            (first as int, 0)
        } else {
            (first as int / 100, first as int % 100)
        },
    }
}

/// The offset from UTC in seconds, east positive.
pub open spec fn offset_of(negative: bool, first: u32, minutes: Option<u32>) -> int {
    let (h, m) = offset_parts(first, minutes);
    if negative {
        -(60 * (m + 60 * h))
    } else {
        60 * (m + 60 * h)
    }
}

/// Computes [`offset_of`].
pub fn offset_seconds(negative: bool, first: u32, minutes: Option<u32>) -> (r: i64)
    ensures
        r == offset_of(negative, first, minutes),
{
    let (h, m): (i64, i64) = match minutes {
        Some(m) => (first as i64, m as i64),
        None => if first < 100 {
            (first as i64, 0)
        } else {
            ((first / 100) as i64, (first % 100) as i64)
        },
    };
    let secs: i64 = 60 * (m + 60 * h);
    if negative {
        -secs
    } else {
        secs
    }
}

/// Whether every character of `s` is a decimal digit.
pub open spec fn all_digits(s: Seq<char>) -> bool {
    forall|i: int| 0 <= i < s.len() ==> is_digit(#[trigger] s[i])
}

/// The value of the digit at place `i` of `s`, and 0 past its end.
pub open spec fn digit_at(s: Seq<char>, i: int) -> int {
    if 0 <= i < s.len() {
        s[i] as u32 - '0' as u32
    } else {
        0
    }
}

/// The microseconds that the digits after the decimal point of a second
/// stand for: the first six digits count, what follows them is cut off.
/// `None` where `s` is empty or holds anything but digits.
pub open spec fn micros_of(s: Seq<char>) -> Option<u32> {
    if s.len() == 0 || !all_digits(s) {
        None
    } else {
        Some(
            (digit_at(s, 0) * 100_000 + digit_at(s, 1) * 10_000 + digit_at(s, 2) * 1_000
                + digit_at(s, 3) * 100 + digit_at(s, 4) * 10 + digit_at(s, 5)) as u32,
        )
    }
}

/// The billionths that the digits after a decimal point stand for: the
/// first nine digits count, what follows them is cut off. `None` where `s`
/// is empty or holds anything but digits.
pub open spec fn billionths_of(s: Seq<char>) -> Option<i64> {
    if s.len() == 0 || !all_digits(s) {
        None
    } else {
        Some(
            (digit_at(s, 0) * 100_000_000 + digit_at(s, 1) * 10_000_000 + digit_at(s, 2)
                * 1_000_000 + digit_at(s, 3) * 100_000 + digit_at(s, 4) * 10_000 + digit_at(s, 5)
                * 1_000 + digit_at(s, 6) * 100 + digit_at(s, 7) * 10 + digit_at(s, 8)) as i64,
        )
    }
}

/// The value of the digit at place `i` of `s`, and 0 past its end.
fn digit_value(s: &str, n: usize, i: usize) -> (r: u32)
    requires
        n == s@.len(),
        all_digits(s@),
    ensures
        r == digit_at(s@, i as int),
        r <= 9,
{
    if i < n {
        let c = s.get_char(i);
        assert(is_digit(s@[i as int]));
        (c as u32) - ('0' as u32)
    } else {
        0
    }
}

/// Decides [`all_digits`] for a text that is not empty.
fn only_digits(s: &str, n: usize) -> (b: bool)
    requires
        n == s@.len(),
    ensures
        b == all_digits(s@),
{
    let mut i: usize = 0;
    while i < n
        invariant
            i <= n,
            n == s@.len(),
            forall|j: int| 0 <= j < i ==> is_digit(#[trigger] s@[j]),
        decreases n - i,
    {
        if !digit(s.get_char(i)) {
            return false;
        }
        i += 1;
    }
    true
}

/// Computes [`billionths_of`].
pub fn fraction_billionths(s: &str) -> (r: Option<i64>)
    ensures
        r == billionths_of(s@),
        r is Some ==> 0 <= r->Some_0 < BILLION,
{
    let n = s.unicode_len();
    if n == 0 || !only_digits(s, n) {
        return None;
    }
    let high: u32 = digit_value(s, n, 0) * 100_000_000 + digit_value(s, n, 1) * 10_000_000
        + digit_value(s, n, 2) * 1_000_000;
    let low: u32 = digit_value(s, n, 3) * 100_000 + digit_value(s, n, 4) * 10_000 + digit_value(
        s,
        n,
        5,
    ) * 1_000 + digit_value(s, n, 6) * 100 + digit_value(s, n, 7) * 10 + digit_value(s, n, 8);
    Some((high + low) as i64)
}

/// Computes [`micros_of`].
pub fn fraction_micros(s: &str) -> (r: Option<u32>)
    ensures
        r == micros_of(s@),
        r is Some ==> r->Some_0 < 1_000_000,
{
    let n = s.unicode_len();
    if n == 0 || !only_digits(s, n) {
        return None;
    }
    Some(
        digit_value(s, n, 0) * 100_000 + digit_value(s, n, 1) * 10_000 + digit_value(s, n, 2)
            * 1_000 + digit_value(s, n, 3) * 100 + digit_value(s, n, 4) * 10 + digit_value(
            s,
            n,
            5,
        ),
    )
}

} // verus!
