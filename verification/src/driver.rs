//! The front of the library for the words of a command line: they are
//! joined, freed of a leading `in` or `at`, and tried as a count of seconds
//! and as a standard timestamp before they are read as English.

use vstd::prelude::*;
use vstd::string::{StrSliceExecFns, StringExecFns};
use chrono::{Datelike, Timelike};
use crate::calendar::{
    in_range, instant_at, lemma_instant_at, Instant, SECOND_NANOS,
};
use crate::clock::from_timestamp;
use crate::errors::DateError;
use crate::lexer::{digit, is_digit};
use crate::text::{digit_text, join, joined, number_of, parse_number, skip_front, starts_with};
use crate::types::Dialect;
use crate::{date_string_spec, parse_date_string};

verus! {

/// The text with the minutes of its offset from UTC written out, where it
/// ends in an offset of hours alone: `+04` becomes `+04:00`, and `+4` too.
pub open spec fn with_minutes(s: Seq<char>) -> Seq<char> {
    let n = s.len() as int;
    if n >= 3 && s[n - 3] == '+' && is_digit(s[n - 2]) && is_digit(s[n - 1]) {
        s + seq![':', '0', '0']
    } else if n >= 2 && s[n - 2] == '+' && is_digit(s[n - 1]) {
        s.take(n - 2) + seq!['+', '0', s[n - 1], ':', '0', '0']
    } else {
        s
    }
}

/// Computes [`with_minutes`].
pub fn append_min_if_only_hour(input: &str) -> (r: String)
    ensures
        r@ == with_minutes(input@),
{
    proof {
        reveal_strlit(":00");
        reveal_strlit("+0");
    }
    let n = input.unicode_len();
    if n >= 3 {
        if input.get_char(n - 3) == '+' && digit(input.get_char(n - 2)) && digit(
            input.get_char(n - 1),
        ) {
            let r = String::from_str(input).concat(":00");
            assert(r@ =~= input@ + seq![':', '0', '0']);
            return r;
        }
    }
    if n >= 2 {
        let last = input.get_char(n - 1);
        if input.get_char(n - 2) == '+' && digit(last) {
            let mut r = String::from_str(input.substring_char(0, n - 2));
            r.append("+0");
            r.append(digit_text(last));
            r.append(":00");
            assert(r@ =~= input@.take(n - 2) + seq!['+', '0', last, ':', '0', '0']);
            return r;
        }
    }
    String::from_str(input)
}

/// The text without a leading `in` or `at`; `in a` and `in an` stand for 1.
pub open spec fn without_connector(s: Seq<char>) -> Seq<char> {
    if seq!['i', 'n', ' ', 'a', ' '].is_prefix_of(s) {
        seq!['1', ' '] + s.skip(5)
    } else if seq!['i', 'n', ' ', 'a', 'n', ' '].is_prefix_of(s) {
        seq!['1', ' '] + s.skip(6)
    } else if seq!['i', 'n', ' '].is_prefix_of(s) {
        s.skip(3)
    } else if seq!['a', 't', ' '].is_prefix_of(s) {
        s.skip(3)
    } else {
        s
    }
}

/// Computes [`without_connector`].
pub fn strip_connector(s: &str) -> (r: String)
    ensures
        r@ == without_connector(s@),
{
    proof {
        reveal_strlit("in a ");
        reveal_strlit("in an ");
        reveal_strlit("in ");
        reveal_strlit("at ");
        reveal_strlit("1 ");
        assert("in a "@ =~= seq!['i', 'n', ' ', 'a', ' ']);
        assert("in an "@ =~= seq!['i', 'n', ' ', 'a', 'n', ' ']);
        assert("in "@ =~= seq!['i', 'n', ' ']);
        assert("at "@ =~= seq!['a', 't', ' ']);
        assert("1 "@ =~= seq!['1', ' ']);
    }
    if starts_with(s, "in a ") {
        String::from_str("1 ").concat(skip_front(s, 5))
    } else if starts_with(s, "in an ") {
        String::from_str("1 ").concat(skip_front(s, 6))
    } else if starts_with(s, "in ") {
        String::from_str(skip_front(s, 3))
    } else if starts_with(s, "at ") {
        String::from_str(skip_front(s, 3))
    } else {
        String::from_str(s)
    }
}

/// What `str::trim` leaves of a text: the text without the white space at
/// its two ends.
pub uninterp spec fn trimmed(s: Seq<char>) -> Seq<char>;

/// `str::trim`.
#[verifier::external_body]
pub(crate) fn trim(s: &str) -> (r: &str)
    ensures
        r@ == trimmed(s@),
{
    s.trim()
}

/// The instant that a text means as a timestamp of RFC 2822, brought to
/// UTC, where `DateTime::parse_from_rfc2822` accepts the text.
pub uninterp spec fn rfc2822_instant(s: Seq<char>) -> Option<Instant>;

/// `DateTime::parse_from_rfc2822`, and `DateTime::naive_utc` for the fields
/// of what it found.
#[verifier::external_body]
pub(crate) fn parse_rfc2822(s: &str) -> (r: Option<Instant>)
    ensures
        r == rfc2822_instant(s@),
{
    let d = chrono::DateTime::parse_from_rfc2822(s).ok()?.naive_utc();
    Some(
        Instant {
            year: d.year(),
            month: d.month(),
            day: d.day(),
            hour: d.hour(),
            minute: d.minute(),
            second: d.second(),
            nanosecond: d.nanosecond(),
        },
    )
}

/// The instant that a text means as a timestamp of RFC 3339, brought to
/// UTC, where `DateTime::parse_from_rfc3339` accepts the text.
pub uninterp spec fn rfc3339_instant(s: Seq<char>) -> Option<Instant>;

/// `DateTime::parse_from_rfc3339`, and `DateTime::naive_utc` for the fields
/// of what it found.
#[verifier::external_body]
pub(crate) fn parse_rfc3339(s: &str) -> (r: Option<Instant>)
    ensures
        r == rfc3339_instant(s@),
{
    let d = chrono::DateTime::parse_from_rfc3339(s).ok()?.naive_utc();
    Some(
        Instant {
            year: d.year(),
            month: d.month(),
            day: d.day(),
            hour: d.hour(),
            minute: d.minute(),
            second: d.second(),
            nanosecond: d.nanosecond(),
        },
    )
}

/// The instant that a text of digits means as a count from the start of
/// 1970: of milliseconds where the text has thirteen digits and the count
/// reaches a billion seconds, and else of seconds.
pub open spec fn timestamp_of(text: Seq<char>) -> Option<Instant> {
    match number_of(text) {
        None => None,
        Some(n) => if text.len() == 13 && n / 1000 >= 1_000_000_000 && in_range(n * 1_000_000) {
            Some(instant_at(n * 1_000_000))
        } else if in_range(n * SECOND_NANOS) {
            Some(instant_at(n * SECOND_NANOS))
        } else {
            None
        },
    }
}

/// Computes [`timestamp_of`].
pub fn timestamp(text: &str) -> (r: Option<Instant>)
    ensures
        r == timestamp_of(text@),
        r is Some ==> r->Some_0.wf(),
{
    match parse_number(text) {
        None => None,
        Some(n) => {
            if text.unicode_len() == 13 && n / 1000 >= 1_000_000_000 {
                let millis: u32 = (n % 1000) as u32;
                match from_timestamp(n / 1000, millis * 1_000_000) {
                    Some(t) => {
                        proof {
                            lemma_instant_at(t);
                        }
                        return Some(t);
                    },
                    None => {},
                }
            }
            match from_timestamp(n, 0) {
                Some(t) => {
                    proof {
                        lemma_instant_at(t);
                    }
                    Some(t)
                },
                None => None,
            }
        },
    }
}

/// The instant that a standard parser found, where it is one of this
/// calendar and clock.
pub open spec fn accepted(found: Option<Instant>) -> Option<Instant> {
    match found {
        Some(t) => if t.wf() {
            Some(t)
        } else {
            None
        },
        None => None,
    }
}

/// Computes [`accepted`].
pub fn accept(found: Option<Instant>) -> (r: Option<Instant>)
    ensures
        r == accepted(found),
{
    match found {
        Some(t) => if t.is_wf() {
            Some(t)
        } else {
            None
        },
        None => None,
    }
}

/// The text that the words of a command line make.
pub open spec fn prepared(args: Seq<String>) -> Seq<char> {
    with_minutes(trimmed(without_connector(joined(args))))
}

/// The instant that a prepared text means at the time `now`. The text is
/// tried as a timestamp in digits, as a timestamp of RFC 2822, as one of
/// RFC 3339, and at last read as English in American usage.
pub open spec fn prepared_spec(text: Seq<char>, now: Instant) -> Result<Instant, DateError> {
    match timestamp_of(text) {
        Some(t) => Ok(t),
        None => match accepted(rfc2822_instant(text)) {
            Some(t) => Ok(t),
            None => match accepted(rfc3339_instant(text)) {
                Some(t) => Ok(t),
                None => date_string_spec(text, now, Dialect::Us),
            },
        },
    }
}

/// The instant that the words of a command line mean at the time `now`.
pub fn parse_date_args(args: &[String], now: Instant) -> (r: Result<Instant, DateError>)
    ensures
        r == prepared_spec(prepared(args@), now),
        r is Ok ==> r->Ok_0.wf(),
{
    let combined = join(args);
    let stripped = strip_connector(combined.as_str());
    let text = append_min_if_only_hour(trim(stripped.as_str()));
    match timestamp(text.as_str()) {
        Some(t) => Ok(t),
        None => match accept(parse_rfc2822(text.as_str())) {
            Some(t) => Ok(t),
            None => match accept(parse_rfc3339(text.as_str())) {
                Some(t) => Ok(t),
                None => parse_date_string(text.as_str(), now, Dialect::Us),
            },
        },
    }
}

/// The text of an instant as `DateTime::to_rfc3339` writes it for UTC.
pub uninterp spec fn rfc3339_text(t: Instant) -> Seq<char>;

/// `DateTime::to_rfc3339` of the instant in UTC.
#[verifier::external_body]
pub(crate) fn format_rfc3339(t: &Instant) -> (r: String)
    requires
        t.wf(),
    ensures
        r@ == rfc3339_text(*t),
{
    let d = chrono::NaiveDate::from_ymd_opt(t.year, t.month, t.day).unwrap();
    d.and_hms_nano_opt(t.hour, t.minute, t.second, t.nanosecond).unwrap().and_utc().to_rfc3339()
}

/// The text `s` with `to` in place of each `from`, found from the left, a
/// place that is taken not being looked at again.
pub open spec fn replace_all(s: Seq<char>, from: Seq<char>, to: Seq<char>) -> Seq<char>
    decreases s.len(),
{
    if from.len() == 0 || s.len() < from.len() {
        s
    } else if from.is_prefix_of(s) {
        to + replace_all(s.skip(from.len() as int), from, to)
    } else {
        seq![s[0]] + replace_all(s.skip(1), from, to)
    }
}

/// `str::replace`.
#[verifier::external_body]
pub(crate) fn replace(s: &str, from: &str, to: &str) -> (r: String)
    requires
        from@.len() > 0,
    ensures
        r@ == replace_all(s@, from@, to@),
{
    s.replace(from, to)
}

/// The text of an instant in the form of ISO 8601, with `Z` for UTC.
pub open spec fn iso_text(t: Instant) -> Seq<char> {
    replace_all(rfc3339_text(t), "+00:00"@, "Z"@)
}

/// Writes an instant in the form of ISO 8601.
pub fn to_iso(date: Instant) -> (r: String)
    requires
        date.wf(),
    ensures
        r@ == iso_text(date),
{
    proof {
        reveal_strlit("+00:00");
    }
    let full = format_rfc3339(&date);
    replace(full.as_str(), "+00:00", "Z")
}

/// Reads `s` as English in American usage and writes the instant that it
/// means at the time `now`. The text must be one that can be read.
pub fn parse_print(now: Instant, s: &str) -> (r: String)
    requires
        date_string_spec(s@, now, Dialect::Us) is Ok,
    ensures
        r@ == iso_text(date_string_spec(s@, now, Dialect::Us)->Ok_0),
{
    match parse_date_string(s, now, Dialect::Us) {
        Ok(t) => to_iso(t),
        Err(_) => vstd::pervasive::unreached(),
    }
}

/// As [`parse_print`], for any text: `None` where the text cannot be read.
pub fn try_parse_print(now: Instant, s: &str) -> (r: Option<String>)
    ensures
        r is Some <==> date_string_spec(s@, now, Dialect::Us) is Ok,
        r is Some ==> r->Some_0@ == iso_text(date_string_spec(s@, now, Dialect::Us)->Ok_0),
{
    match parse_date_string(s, now, Dialect::Us) {
        Ok(_) => Some(parse_print(now, s)),
        Err(_) => None,
    }
}

} // verus!
