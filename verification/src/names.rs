//! Recognition of the English words of the grammar: month and weekday names,
//! units of time, and the words that stand for a day.

use vstd::prelude::*;
use vstd::string::StrSliceExecFns;
use crate::types::{ByName, Direction, TimeUnit};

verus! {

/// The lower-case form of an ASCII capital; any other character unchanged.
pub open spec fn lower(c: char) -> char {
    if 'A' <= c && c <= 'Z' {
        ((c as u8) + 32) as char
    } else {
        c
    }
}

/// Computes [`lower`].
pub fn to_lower(c: char) -> (r: char)
    ensures
        r == lower(c),
{
    if 'A' <= c && c <= 'Z' {
        ((c as u8) + 32) as char
    } else {
        c
    }
}

/// The text with every ASCII capital replaced by its lower-case form.
pub open spec fn lowered(s: Seq<char>) -> Seq<char> {
    Seq::new(s.len(), |i: int| lower(s[i]))
}

/// Whether `s`, ignoring the case of ASCII letters, is the word `w`.
pub open spec fn is_word(s: Seq<char>, w: Seq<char>) -> bool {
    lowered(s) == w
}

/// Decides [`is_word`] for a word given in lower case.
pub fn word_is(s: &str, w: &str) -> (b: bool)
    ensures
        b == is_word(s@, w@),
{
    let n = s.unicode_len();
    if n != w.unicode_len() {
        assert(lowered(s@).len() != w@.len());
        return false;
    }
    let mut i: usize = 0;
    while i < n
        invariant
            i <= n,
            n == s@.len(),
            n == w@.len(),
            forall|j: int| 0 <= j < i ==> lower(s@[j]) == w@[j],
        decreases n - i,
    {
        if to_lower(s.get_char(i)) != w.get_char(i) {
            assert(lowered(s@)[i as int] != w@[i as int]);
            return false;
        }
        i += 1;
    }
    assert(lowered(s@) =~= w@);
    true
}

/// Decides whether two texts are the same.
pub fn same_text(s: &str, w: &str) -> (b: bool)
    ensures
        b == (s@ == w@),
{
    let n = s.unicode_len();
    if n != w.unicode_len() {
        return false;
    }
    let mut i: usize = 0;
    while i < n
        invariant
            i <= n,
            n == s@.len(),
            n == w@.len(),
            forall|j: int| 0 <= j < i ==> s@[j] == w@[j],
        decreases n - i,
    {
        if s.get_char(i) != w.get_char(i) {
            return false;
        }
        i += 1;
    }
    assert(s@ =~= w@);
    true
}

/// Whether `s` has at least three characters and begins, ignoring the case of
/// ASCII letters, with `a`, `b`, `c`.
pub open spec fn begins(s: Seq<char>, a: char, b: char, c: char) -> bool {
    s.len() >= 3 && lower(s[0]) == a && lower(s[1]) == b && lower(s[2]) == c
}

/// The first three characters of `s` in lower case, where it has that many.
pub fn stem(s: &str) -> (r: Option<(char, char, char)>)
    ensures
        r is Some <==> s@.len() >= 3,
        r is Some ==> r->Some_0 == (lower(s@[0]), lower(s@[1]), lower(s@[2])),
{
    if s.unicode_len() < 3 {
        None
    } else {
        Some((to_lower(s.get_char(0)), to_lower(s.get_char(1)), to_lower(s.get_char(2))))
    }
}

/// The month that a word names, from January as 1: a word names a month by
/// its first three letters, whatever follows them.
pub open spec fn month_of(s: Seq<char>) -> Option<u32> {
    if begins(s, 'j', 'a', 'n') {
        Some(1u32)
    } else if begins(s, 'f', 'e', 'b') {
        Some(2u32)
    } else if begins(s, 'm', 'a', 'r') {
        Some(3u32)
    } else if begins(s, 'a', 'p', 'r') {
        Some(4u32)
    } else if begins(s, 'm', 'a', 'y') {
        Some(5u32)
    } else if begins(s, 'j', 'u', 'n') {
        Some(6u32)
    } else if begins(s, 'j', 'u', 'l') {
        Some(7u32)
    } else if begins(s, 'a', 'u', 'g') {
        Some(8u32)
    } else if begins(s, 's', 'e', 'p') {
        Some(9u32)
    } else if begins(s, 'o', 'c', 't') {
        Some(10u32)
    } else if begins(s, 'n', 'o', 'v') {
        Some(11u32)
    } else if begins(s, 'd', 'e', 'c') {
        Some(12u32)
    } else {
        None
    }
}

/// Computes [`month_of`].
pub fn month_name(s: &str) -> (r: Option<u32>)
    ensures
        r == month_of(s@),
        r is Some ==> 1 <= r->Some_0 <= 12,
{
    match stem(s) {
        None => None,
        Some(k) => {
            if k.0 == 'j' && k.1 == 'a' && k.2 == 'n' {
                Some(1)
            } else if k.0 == 'f' && k.1 == 'e' && k.2 == 'b' {
                Some(2)
            } else if k.0 == 'm' && k.1 == 'a' && k.2 == 'r' {
                Some(3)
            } else if k.0 == 'a' && k.1 == 'p' && k.2 == 'r' {
                Some(4)
            } else if k.0 == 'm' && k.1 == 'a' && k.2 == 'y' {
                Some(5)
            } else if k.0 == 'j' && k.1 == 'u' && k.2 == 'n' {
                Some(6)
            } else if k.0 == 'j' && k.1 == 'u' && k.2 == 'l' {
                Some(7)
            } else if k.0 == 'a' && k.1 == 'u' && k.2 == 'g' {
                Some(8)
            } else if k.0 == 's' && k.1 == 'e' && k.2 == 'p' {
                Some(9)
            } else if k.0 == 'o' && k.1 == 'c' && k.2 == 't' {
                Some(10)
            } else if k.0 == 'n' && k.1 == 'o' && k.2 == 'v' {
                Some(11)
            } else if k.0 == 'd' && k.1 == 'e' && k.2 == 'c' {
                Some(12)
            } else {
                None
            }
        },
    }
}

/// The day of the week that a word names, from Monday as 0, by its first
/// three letters.
pub open spec fn week_day_of(s: Seq<char>) -> Option<u32> {
    if begins(s, 'm', 'o', 'n') {
        Some(0u32)
    } else if begins(s, 't', 'u', 'e') {
        Some(1u32)
    } else if begins(s, 'w', 'e', 'd') {
        Some(2u32)
    } else if begins(s, 't', 'h', 'u') {
        Some(3u32)
    } else if begins(s, 'f', 'r', 'i') {
        Some(4u32)
    } else if begins(s, 's', 'a', 't') {
        Some(5u32)
    } else if begins(s, 's', 'u', 'n') {
        Some(6u32)
    } else {
        None
    }
}

/// Computes [`week_day_of`].
pub fn week_day(s: &str) -> (r: Option<u32>)
    ensures
        r == week_day_of(s@),
        r is Some ==> r->Some_0 <= 6,
{
    match stem(s) {
        None => None,
        Some(k) => {
            if k.0 == 'm' && k.1 == 'o' && k.2 == 'n' {
                Some(0)
            } else if k.0 == 't' && k.1 == 'u' && k.2 == 'e' {
                Some(1)
            } else if k.0 == 'w' && k.1 == 'e' && k.2 == 'd' {
                Some(2)
            } else if k.0 == 't' && k.1 == 'h' && k.2 == 'u' {
                Some(3)
            } else if k.0 == 'f' && k.1 == 'r' && k.2 == 'i' {
                Some(4)
            } else if k.0 == 's' && k.1 == 'a' && k.2 == 't' {
                Some(5)
            } else if k.0 == 's' && k.1 == 'u' && k.2 == 'n' {
                Some(6)
            } else {
                None
            }
        },
    }
}

/// The unit of time that a word names. A word of three letters or more names
/// a unit by its first three letters; a shorter one by its first letter.
pub open spec fn unit_of(s: Seq<char>) -> Option<TimeUnit> {
    if s.len() == 0 {
        None
    } else if s.len() < 3 {
        let c = lower(s[0]);
        if c == 's' {
            Some(TimeUnit::Second)
        } else if c == 'm' {
            Some(TimeUnit::Minute)
        } else if c == 'h' {
            Some(TimeUnit::Hour)
        } else if c == 'd' {
            Some(TimeUnit::Day)
        } else if c == 'w' {
            Some(TimeUnit::Week)
        } else if c == 'y' {
            Some(TimeUnit::Year)
        } else {
            None
        }
    } else if begins(s, 's', 'e', 'c') {
        Some(TimeUnit::Second)
    } else if begins(s, 'm', 'i', 'n') {
        Some(TimeUnit::Minute)
    } else if begins(s, 'h', 'o', 'u') {
        Some(TimeUnit::Hour)
    } else if begins(s, 'd', 'a', 'y') {
        Some(TimeUnit::Day)
    } else if begins(s, 'w', 'e', 'e') {
        Some(TimeUnit::Week)
    } else if begins(s, 'm', 'o', 'n') {
        Some(TimeUnit::Month)
    } else if begins(s, 'y', 'e', 'a') {
        Some(TimeUnit::Year)
    } else {
        None
    }
}

/// Computes [`unit_of`].
pub fn time_unit(s: &str) -> (r: Option<TimeUnit>)
    ensures
        r == unit_of(s@),
{
    match stem(s) {
        None => {
            if s.unicode_len() == 0 {
                return None;
            }
            let c = to_lower(s.get_char(0));
            if c == 's' {
                Some(TimeUnit::Second)
            } else if c == 'm' {
                Some(TimeUnit::Minute)
            } else if c == 'h' {
                Some(TimeUnit::Hour)
            } else if c == 'd' {
                Some(TimeUnit::Day)
            } else if c == 'w' {
                Some(TimeUnit::Week)
            } else if c == 'y' {
                Some(TimeUnit::Year)
            } else {
                None
            }
        },
        Some(k) => {
            if k.0 == 's' && k.1 == 'e' && k.2 == 'c' {
                Some(TimeUnit::Second)
            } else if k.0 == 'm' && k.1 == 'i' && k.2 == 'n' {
                Some(TimeUnit::Minute)
            } else if k.0 == 'h' && k.1 == 'o' && k.2 == 'u' {
                Some(TimeUnit::Hour)
            } else if k.0 == 'd' && k.1 == 'a' && k.2 == 'y' {
                Some(TimeUnit::Day)
            } else if k.0 == 'w' && k.1 == 'e' && k.2 == 'e' {
                Some(TimeUnit::Week)
            } else if k.0 == 'm' && k.1 == 'o' && k.2 == 'n' {
                Some(TimeUnit::Month)
            } else if k.0 == 'y' && k.1 == 'e' && k.2 == 'a' {
                Some(TimeUnit::Year)
            } else {
                None
            }
        },
    }
}

/// The number of days from today that a word stands for, where it is one of
/// the words for today, yesterday and tomorrow. These words are matched as
/// they are written, in lower case.
pub open spec fn shortcut_of(s: Seq<char>) -> Option<i64> {
    if s == "now"@ || s == "today"@ || s == "tdy"@ {
        Some(0i64)
    } else if s == "yesterday"@ || s == "yday"@ || s == "ytd"@ {
        Some(-1i64)
    } else if s == "tomorrow"@ || s == "tmr"@ || s == "tmrw"@ {
        Some(1i64)
    } else {
        None
    }
}

/// Computes [`shortcut_of`].
pub fn shortcut(s: &str) -> (r: Option<i64>)
    ensures
        r == shortcut_of(s@),
{
    if same_text(s, "now") || same_text(s, "today") || same_text(s, "tdy") {
        Some(0)
    } else if same_text(s, "yesterday") || same_text(s, "yday") || same_text(s, "ytd") {
        Some(-1)
    } else if same_text(s, "tomorrow") || same_text(s, "tmr") || same_text(s, "tmrw") {
        Some(1)
    } else {
        None
    }
}

/// The direction that a word sets: `next` or `last`, in any case of letters.
pub open spec fn direction_of(s: Seq<char>) -> Option<Direction> {
    if is_word(s, "next"@) {
        Some(Direction::Next)
    } else if is_word(s, "last"@) {
        Some(Direction::Last)
    } else {
        None
    }
}

impl Direction {
    /// Computes [`direction_of`].
    pub fn from_name(s: &str) -> (r: Option<Direction>)
        ensures
            r == direction_of(s@),
    {
        if word_is(s, "next") {
            Some(Direction::Next)
        } else if word_is(s, "last") {
            Some(Direction::Last)
        } else {
            None
        }
    }
}

/// The weekday or month that a word names, with the direction `direct`.
/// Where the first three letters could be either, the weekday wins.
pub open spec fn by_name_of(s: Seq<char>, direct: Direction) -> Option<ByName> {
    match week_day_of(s) {
        Some(day) => Some(ByName::WeekDay { day, direct }),
        None => match month_of(s) {
            Some(month) => Some(ByName::MonthName { month, direct }),
            None => None,
        },
    }
}

impl ByName {
    /// Computes [`by_name_of`].
    pub fn from_name(s: &str, direct: Direction) -> (r: Option<ByName>)
        ensures
            r == by_name_of(s@, direct),
    {
        match week_day(s) {
            Some(day) => Some(ByName::WeekDay { day, direct }),
            None => match month_name(s) {
                Some(month) => Some(ByName::MonthName { month, direct }),
                None => None,
            },
        }
    }
}

/// Whether a word is `am` (`Some(false)`) or `pm` (`Some(true)`), in any case
/// of letters.
pub open spec fn meridiem_of(s: Seq<char>) -> Option<bool> {
    if is_word(s, "pm"@) {
        Some(true)
    } else if is_word(s, "am"@) {
        Some(false)
    } else {
        None
    }
}

/// Computes [`meridiem_of`].
pub fn meridiem(s: &str) -> (r: Option<bool>)
    ensures
        r == meridiem_of(s@),
{
    if word_is(s, "pm") {
        Some(true)
    } else if word_is(s, "am") {
        Some(false)
    } else {
        None
    }
}

} // verus!
