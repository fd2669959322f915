//! The ways in which a text can fail to be a date, a time or a duration.

use vstd::prelude::*;
use vstd::string::StringExecFns;

verus! {

/// Why a text was refused.
#[derive(Clone, Copy, Debug, PartialEq, Eq, Structural)]
pub enum DateError {
    /// The text holds no token at all.
    EmptyInput,
    /// The text ends after a leading `-`.
    NothingAfterSign,
    /// The text ends after `next` or `last`.
    NothingAfterDirection,
    /// A word stands where the name of a weekday or of a month is due.
    ExpectedName,
    /// A number is followed by a word that is no month, no unit of time and
    /// neither `am` nor `pm`.
    ExpectedMonthOrUnit,
    /// A word other than `ago` follows a number and its unit.
    OnlyExpectedAgo,
    /// A word that is no month follows a day and its dot.
    ExpectedMonthAfterDot,
    /// Neither a word nor a number follows a number and its dot.
    UnexpectedAfterDot,
    /// The character cannot stand where it was found.
    UnexpectedChar(char),
    /// The token cannot stand where it was found.
    UnexpectedToken,
    /// A number is due.
    ExpectedInteger,
    /// A number is too large.
    IntegerOutOfRange,
    /// A single character is due.
    ExpectedChar,
    /// A `-` is due between the month and the day; the character was found.
    ExpectedDash(char),
    /// A word is due.
    ExpectedIdentifier,
    /// No digits follow the dot after the seconds.
    ExpectedFraction,
    /// A character other than `+` or `-` follows a time.
    ExpectedSign,
    /// A word other than `am` or `pm` follows a time.
    ExpectedAmPm,
    /// A `:` or a `.` is due after an hour; the character was found.
    ExpectedColonOrDot(char),
    /// A numeric month is not between 1 and 12.
    MonthOutOfRange,
    /// The date does not exist, or is out of the calendar's range.
    BadDate,
    /// The time of day does not exist.
    BadTime,
    /// A duration was asked for and the text holds a time of day.
    UnexpectedTime,
    /// A duration was asked for and the text holds no date part.
    NoDate,
    /// A duration was asked for and the text holds a calendar date.
    UnexpectedAbsolute,
    /// A duration was asked for and the text holds a name or a day and month.
    UnexpectedDateComponent,
}

impl DateError {
    /// The message of the error, as a sequence of characters.
    pub open spec fn text(self) -> Seq<char> {
        match self {
            DateError::EmptyInput => "empty date string"@,
            DateError::NothingAfterSign => "nothing after '-'"@,
            DateError::NothingAfterDirection => "nothing after last/next"@,
            DateError::ExpectedName => "expected week day or month name"@,
            DateError::ExpectedMonthOrUnit => "expected month or time unit"@,
            DateError::OnlyExpectedAgo => "only expected 'ago'"@,
            DateError::ExpectedMonthAfterDot => "expected month name after day with dot"@,
            DateError::UnexpectedAfterDot => "unexpected token after dot"@,
            DateError::UnexpectedChar(_) => "unexpected char"@,
            DateError::UnexpectedToken => "unexpected token"@,
            DateError::ExpectedInteger => "integer expected"@,
            DateError::IntegerOutOfRange => "integer out of range"@,
            DateError::ExpectedChar => "char expected"@,
            DateError::ExpectedDash(_) => "expected '-'"@,
            DateError::ExpectedIdentifier => "iden expected"@,
            DateError::ExpectedFraction => "expected fractional second after '.'"@,
            DateError::ExpectedSign => "expected +/- before timezone"@,
            DateError::ExpectedAmPm => "expected am or pm"@,
            DateError::ExpectedColonOrDot(_) => "expected : or ."@,
            DateError::MonthOutOfRange => "month out of range"@,
            DateError::BadDate => "bad date"@,
            DateError::BadTime => "bad time"@,
            DateError::UnexpectedTime => "unexpected time component"@,
            DateError::NoDate => "could not parse date"@,
            DateError::UnexpectedAbsolute => "unexpected absolute date"@,
            DateError::UnexpectedDateComponent => "unexpected date component"@,
        }
    }

    /// The message of the error.
    pub fn message(&self) -> (m: String)
        ensures
            m@ == self.text(),
    {
        let m: &str = match self {
            DateError::EmptyInput => "empty date string",
            DateError::NothingAfterSign => "nothing after '-'",
            DateError::NothingAfterDirection => "nothing after last/next",
            DateError::ExpectedName => "expected week day or month name",
            DateError::ExpectedMonthOrUnit => "expected month or time unit",
            DateError::OnlyExpectedAgo => "only expected 'ago'",
            DateError::ExpectedMonthAfterDot => "expected month name after day with dot",
            DateError::UnexpectedAfterDot => "unexpected token after dot",
            DateError::UnexpectedChar(_) => "unexpected char",
            DateError::UnexpectedToken => "unexpected token",
            DateError::ExpectedInteger => "integer expected",
            DateError::IntegerOutOfRange => "integer out of range",
            DateError::ExpectedChar => "char expected",
            DateError::ExpectedDash(_) => "expected '-'",
            DateError::ExpectedIdentifier => "iden expected",
            DateError::ExpectedFraction => "expected fractional second after '.'",
            DateError::ExpectedSign => "expected +/- before timezone",
            DateError::ExpectedAmPm => "expected am or pm",
            DateError::ExpectedColonOrDot(_) => "expected : or .",
            DateError::MonthOutOfRange => "month out of range",
            DateError::BadDate => "bad date",
            DateError::BadTime => "bad time",
            DateError::UnexpectedTime => "unexpected time component",
            DateError::NoDate => "could not parse date",
            DateError::UnexpectedAbsolute => "unexpected absolute date",
            DateError::UnexpectedDateComponent => "unexpected date component",
        };
        String::from_str(m)
    }
}

} // verus!
