//! Tokens, and the scanner that cuts the input text into them.

use vstd::prelude::*;
use crate::errors::DateError;

verus! {

/// One lexical unit of the input.
#[derive(Debug)]
pub enum Token {
    /// A number with a fractional part; the scanner of this library never
    /// produces one, since it is told to read integers only.
    Number,
    /// A run of decimal digits, by its value.
    Int(i64),
    /// A text in single or double quotes, without the quotes.
    Str(String),
    /// A word: a letter or underscore, then letters, digits and underscores.
    Iden(String),
    /// Any other character that is not white space.
    Char(char),
    /// A run of digits too long to be a number.
    Error,
    /// The end of the input.
    End,
}

/// A token as a mathematical value: texts are sequences of characters.
pub enum Lexeme {
    Number,
    Int(i64),
    Str(Seq<char>),
    Iden(Seq<char>),
    Char(char),
    Error,
    End,
}

impl View for Token {
    type V = Lexeme;

    open spec fn view(&self) -> Lexeme {
        match self {
            Token::Number => Lexeme::Number,
            Token::Int(n) => Lexeme::Int(*n),
            Token::Str(s) => Lexeme::Str(s@),
            Token::Iden(s) => Lexeme::Iden(s@),
            Token::Char(c) => Lexeme::Char(*c),
            Token::Error => Lexeme::Error,
            Token::End => Lexeme::End,
        }
    }
}

/// `scanlex::Scanner`, which the parser holds without looking inside.
#[verifier::external_type_specification]
#[verifier::external_body]
pub struct ExScanner<'a>(scanlex::Scanner<'a>);

/// The characters that a scanner has not consumed yet: the one in its
/// look-ahead slot, then those still to be read. At the end of the input the
/// slot holds `'\0'`, so the sequence is never empty.
pub uninterp spec fn pending(s: &scanlex::Scanner) -> Seq<char>;

/// The token that `Scanner::get` reads from the pending characters `p` when
/// the scanner reads integers only, and the characters pending after it.
pub uninterp spec fn lex(p: Seq<char>) -> (Lexeme, Seq<char>);

/// The pending characters of a scanner that is about to read `text`.
pub open spec fn start_of(text: Seq<char>) -> Seq<char> {
    if text.len() == 0 {
        seq!['\0']
    } else {
        text
    }
}

/// The pending characters once the first of `p` is consumed.
pub open spec fn rest_of(p: Seq<char>) -> Seq<char> {
    if p.len() > 1 {
        p.skip(1)
    } else {
        seq!['\0']
    }
}

/// `Scanner::new` followed by `Scanner::no_float`: a scanner over `text` that
/// reads integers only. The first character of the text goes to the
/// look-ahead slot.
#[verifier::external_body]
pub(crate) fn scanner_of<'a>(text: &'a str) -> (s: scanlex::Scanner<'a>)
    ensures
        pending(&s) == start_of(text@),
{
    scanlex::Scanner::new(text).no_float()
}

/// `Scanner::get`: reads the next token. What it reads is a function of the
/// pending characters alone, named [`lex`].
#[verifier::external_body]
pub(crate) fn scan_get(s: &mut scanlex::Scanner) -> (t: Token)
    ensures
        t@ == lex(pending(old(s))).0,
        pending(final(s)) == lex(pending(old(s))).1,
        pending(final(s)).len() >= 1,
{
    match s.get() {
        scanlex::Token::Num(_) => Token::Number,
        scanlex::Token::Int(n) => Token::Int(n),
        scanlex::Token::Str(t) => Token::Str(t),
        scanlex::Token::Iden(t) => Token::Iden(t),
        scanlex::Token::Char(c) => Token::Char(c),
        scanlex::Token::Error(_) => Token::Error,
        scanlex::Token::End => Token::End,
    }
}

/// `Scanner::peek`: the character in the look-ahead slot.
#[verifier::external_body]
pub(crate) fn scan_peek(s: &scanlex::Scanner) -> (c: char)
    ensures
        c == pending(s)[0],
{
    s.peek()
}

/// `Scanner::nextch`: hands out the character in the look-ahead slot and
/// refills the slot from the input, with `'\0'` when none is left.
#[verifier::external_body]
pub(crate) fn scan_nextch(s: &mut scanlex::Scanner) -> (c: char)
    ensures
        c == pending(old(s))[0],
        pending(final(s)) == rest_of(pending(old(s))),
{
    s.nextch()
}

/// Whether `c` is one of the ten decimal digits.
pub open spec fn is_digit(c: char) -> bool {
    '0' <= c && c <= '9'
}

/// Decides [`is_digit`].
pub fn digit(c: char) -> (b: bool)
    ensures
        b == is_digit(c),
{
    '0' <= c && c <= '9'
}

/// The number of decimal digits at the front of `s`.
pub open spec fn digit_run(s: Seq<char>) -> int
    decreases s.len(),
{
    if s.len() > 0 && is_digit(s[0]) {
        1 + digit_run(s.skip(1))
    } else {
        0
    }
}

/// What a scanner with the pending characters `p` collects when asked for a
/// run of digits: the character in the look-ahead slot, whatever it is
/// (unless it is `'\0'`), then the digits that follow it.
pub open spec fn grabbed(p: Seq<char>) -> Seq<char> {
    let run = p.subrange(1, 1 + digit_run(p.skip(1)));
    if p[0] == '\0' {
        run
    } else {
        seq![p[0]] + run
    }
}

/// The pending characters after that: from the first character that is no
/// digit, or `'\0'` alone where the input ran out.
pub open spec fn after_grab(p: Seq<char>) -> Seq<char> {
    let k = 1 + digit_run(p.skip(1));
    if k < p.len() {
        p.skip(k)
    } else {
        seq!['\0']
    }
}

/// `Scanner::grab_while` with the test for a decimal digit. It takes the
/// character in the look-ahead slot without testing it, then characters from
/// the input as long as they are digits; the first that is none goes to the
/// look-ahead slot.
#[verifier::external_body]
pub(crate) fn scan_digits(s: &mut scanlex::Scanner) -> (r: String)
    requires
        pending(old(s)).len() >= 1,
    ensures
        r@ == grabbed(pending(old(s))),
        pending(final(s)) == after_grab(pending(old(s))),
{
    s.grab_while(|c| digit(c))
}

impl Token {
    /// The number that a token holds, where it is one that fits 32 bits.
    pub fn to_u32(&self) -> (r: Result<u32, DateError>)
        ensures
            r == int_of(self@),
    {
        match self {
            Token::Int(n) => {
                if 0 <= *n && *n <= 0xffff_ffff {
                    Ok(*n as u32)
                } else {
                    Err(DateError::IntegerOutOfRange)
                }
            },
            _ => Err(DateError::ExpectedInteger),
        }
    }
}

/// The number that a token holds, or why it holds none.
pub open spec fn int_of(t: Lexeme) -> Result<u32, DateError> {
    match t {
        Lexeme::Int(n) => if 0 <= n <= 0xffff_ffff {
            Ok(n as u32)
        } else {
            Err(DateError::IntegerOutOfRange)
        },
        _ => Err(DateError::ExpectedInteger),
    }
}

} // verus!
