//! Small operations on texts.

use vstd::prelude::*;
use vstd::string::{StrSliceExecFns, StringExecFns};
use crate::lexer::{digit, is_digit};
use crate::rules::all_digits;

verus! {

/// Decides whether `s` begins with `p`.
pub fn starts_with(s: &str, p: &str) -> (b: bool)
    ensures
        b == p@.is_prefix_of(s@),
{
    let n = p.unicode_len();
    if s.unicode_len() < n {
        return false;
    }
    let mut i: usize = 0;
    while i < n
        invariant
            i <= n,
            n == p@.len(),
            n <= s@.len(),
            forall|j: int| 0 <= j < i ==> s@[j] == p@[j],
        decreases n - i,
    {
        if s.get_char(i) != p.get_char(i) {
            assert(s@.subrange(0, n as int)[i as int] != p@[i as int]);
            return false;
        }
        i += 1;
    }
    assert(s@.subrange(0, n as int) =~= p@);
    true
}

/// The text `s` without its first `k` characters.
pub(crate) fn skip_front(s: &str, k: usize) -> (r: &str)
    requires
        k <= s@.len(),
    ensures
        r@ == s@.skip(k as int),
{
    let n = s.unicode_len();
    let r = s.substring_char(k, n);
    assert(s@.subrange(k as int, n as int) =~= s@.skip(k as int));
    r
}

/// The digit `c` as a text of one character.
pub(crate) fn digit_text(c: char) -> (r: &'static str)
    requires
        is_digit(c),
    ensures
        r@ == seq![c],
{
    proof {
        reveal_strlit("0");
        reveal_strlit("1");
        reveal_strlit("2");
        reveal_strlit("3");
        reveal_strlit("4");
        reveal_strlit("5");
        reveal_strlit("6");
        reveal_strlit("7");
        reveal_strlit("8");
        reveal_strlit("9");
    }
    let r = if c == '0' {
        "0"
    } else if c == '1' {
        "1"
    } else if c == '2' {
        "2"
    } else if c == '3' {
        "3"
    } else if c == '4' {
        "4"
    } else if c == '5' {
        "5"
    } else if c == '6' {
        "6"
    } else if c == '7' {
        "7"
    } else if c == '8' {
        "8"
    } else {
        "9"
    };
    assert(r@ =~= seq![c]);
    r
}

/// The texts of `parts`, with one space between each two.
pub open spec fn joined(parts: Seq<String>) -> Seq<char>
    decreases parts.len(),
{
    if parts.len() == 0 {
        Seq::empty()
    } else if parts.len() == 1 {
        parts[0]@
    } else {
        joined(parts.drop_last()) + seq![' '] + parts.last()@
    }
}

/// Computes [`joined`].
pub fn join(parts: &[String]) -> (r: String)
    ensures
        r@ == joined(parts@),
{
    let mut out = String::new();
    let n = parts.len();
    let mut i: usize = 0;
    while i < n
        invariant
            i <= n,
            n == parts@.len(),
            out@ == joined(parts@.take(i as int)),
        decreases n - i,
    {
        proof {
            reveal_strlit(" ");
            assert(parts@.take(i + 1).drop_last() =~= parts@.take(i as int));
        }
        if i > 0 {
            out.append(" ");
        }
        out.append(parts[i].as_str());
        assert(out@ =~= joined(parts@.take(i + 1)));
        i += 1;
    }
    assert(parts@.take(n as int) =~= parts@);
    out
}

/// The number that the decimal digits `s` write.
pub open spec fn digits_value(s: Seq<char>) -> int
    decreases s.len(),
{
    if s.len() == 0 {
        0
    } else {
        digits_value(s.drop_last()) * 10 + (s.last() as u32 - '0' as u32)
    }
}

/// A longer run of digits writes no smaller number than its front part.
pub proof fn lemma_digits_grow(s: Seq<char>, i: int)
    requires
        all_digits(s),
        0 <= i <= s.len(),
    ensures
        0 <= digits_value(s.take(i)) <= digits_value(s),
    decreases s.len() - i,
{
    if i == s.len() {
        assert(s.take(i) =~= s);
        lemma_digits_positive(s);
    } else {
        lemma_digits_grow(s, i + 1);
        assert(s.take(i + 1).drop_last() =~= s.take(i));
        assert(is_digit(s[i]));
        lemma_digits_positive(s.take(i));
    }
}

/// A run of digits writes no negative number.
pub proof fn lemma_digits_positive(s: Seq<char>)
    requires
        all_digits(s),
    ensures
        0 <= digits_value(s),
    decreases s.len(),
{
    if s.len() > 0 {
        assert(is_digit(s.last()));
        lemma_digits_positive(s.drop_last());
    }
}

/// The number that a text writes, where the text is made of decimal digits,
/// with at least one, and the number fits 64 bits with a sign.
pub open spec fn number_of(s: Seq<char>) -> Option<i64> {
    if s.len() > 0 && all_digits(s) && digits_value(s) <= i64::MAX {
        Some(digits_value(s) as i64)
    } else {
        None
    }
}

/// Computes [`number_of`].
pub fn parse_number(s: &str) -> (r: Option<i64>)
    ensures
        r == number_of(s@),
{
    let n = s.unicode_len();
    if n == 0 {
        return None;
    }
    let mut acc: i64 = 0;
    let mut i: usize = 0;
    while i < n
        invariant
            i <= n,
            n == s@.len(),
            all_digits(s@.take(i as int)),
            acc == digits_value(s@.take(i as int)),
            acc >= 0,
        decreases n - i,
    {
        let c = s.get_char(i);
        if !digit(c) {
            assert(!is_digit(s@[i as int]));
            return None;
        }
        let d: i64 = ((c as u32) - ('0' as u32)) as i64;
        proof {
            assert(s@.take(i + 1).drop_last() =~= s@.take(i as int));
            assert forall|j: int| 0 <= j < i + 1 implies is_digit(#[trigger] s@.take(i + 1)[j]) by {
                if j < i {
                    assert(is_digit(s@.take(i as int)[j]));
                }
            }
        }
        if acc > (0x7fff_ffff_ffff_ffff - d) / 10 {
            proof {
                if all_digits(s@) {
                    lemma_digits_grow(s@, i + 1);
                }
            }
            return None;
        }
        acc = acc * 10 + d;
        i += 1;
    }
    assert(s@.take(n as int) =~= s@);
    Some(acc)
}

} // verus!
