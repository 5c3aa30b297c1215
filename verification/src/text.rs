//! Character classes, small predicates on text and the two case conversions,
//! stated over `Seq<char>`.

use vstd::prelude::*;
use vstd::std_specs::iter::IteratorSpec;

verus! {

/// The characters with the Unicode property `White_Space`.
pub open spec fn spec_is_whitespace(c: char) -> bool {
    ||| '\u{0009}' <= c <= '\u{000D}'
    ||| c == '\u{0020}'
    ||| c == '\u{0085}'
    ||| c == '\u{00A0}'
    ||| c == '\u{1680}'
    ||| '\u{2000}' <= c <= '\u{200A}'
    ||| c == '\u{2028}'
    ||| c == '\u{2029}'
    ||| c == '\u{202F}'
    ||| c == '\u{205F}'
    ||| c == '\u{3000}'
}

/// Whether `c` is a whitespace character.
#[verifier::when_used_as_spec(spec_is_whitespace)]
pub fn is_whitespace(c: char) -> (b: bool)
    ensures
        b == spec_is_whitespace(c),
{
    ('\u{0009}' <= c && c <= '\u{000D}') || c == '\u{0020}' || c == '\u{0085}' || c == '\u{00A0}'
        || c == '\u{1680}' || ('\u{2000}' <= c && c <= '\u{200A}') || c == '\u{2028}' || c
        == '\u{2029}' || c == '\u{202F}' || c == '\u{205F}' || c == '\u{3000}'
}

/// The decimal digits `0` to `9`.
pub open spec fn spec_is_digit(c: char) -> bool {
    '0' <= c <= '9'
}

/// Whether `c` is a decimal digit.
#[verifier::when_used_as_spec(spec_is_digit)]
pub fn is_digit(c: char) -> (b: bool)
    ensures
        b == spec_is_digit(c),
{
    '0' <= c && c <= '9'
}

/// What `str::to_uppercase` makes of a text: its upper-case form by Unicode's
/// rules, which no table here spells out.
pub uninterp spec fn upper_cased(s: Seq<char>) -> Seq<char>;

/// What `str::to_lowercase` makes of a text: its lower-case form by Unicode's
/// rules, which no table here spells out.
pub uninterp spec fn lower_cased(s: Seq<char>) -> Seq<char>;

/// Calls `str::to_uppercase`. The contract is believed, not proved: it claims
/// no more than that the result depends on the characters of `s` alone, and
/// gives that result its name.
#[verifier::external_body]
pub(crate) fn to_upper(s: &str) -> (upper: String)
    ensures
        upper@ == upper_cased(s@),
{
    s.to_uppercase()
}

/// Calls `str::to_lowercase`. The contract is believed, not proved: it claims
/// no more than that the result depends on the characters of `s` alone, and
/// gives that result its name.
#[verifier::external_body]
pub(crate) fn to_lower(s: &str) -> (lower: String)
    ensures
        lower@ == lower_cased(s@),
{
    s.to_lowercase()
}

/// Whether `a` and `b` hold the same characters, decided in one pass over
/// both.
pub fn text_eq(a: &str, b: &str) -> (same: bool)
    ensures
        same == (a@ == b@),
{
    let mut left = a.chars();
    let mut right = b.chars();
    let ghost mut i: int = 0;
    loop
        invariant
            0 <= i <= a@.len(),
            i <= b@.len(),
            left.remaining() == a@.skip(i),
            right.remaining() == b@.skip(i),
            a@.take(i) == b@.take(i),
        decreases a@.len() - i,
    {
        match left.next() {
            None => {
                let ended = right.next().is_none();
                assert(a@.take(i) == a@);
                assert(ended ==> b@.take(i) == b@);
                return ended;
            },
            Some(x) => match right.next() {
                None => {
                    return false;
                },
                Some(y) => {
                    if x != y {
                        assert(a@[i] == x && b@[i] == y);
                        return false;
                    }
                    assert(a@.take(i + 1) == a@.take(i).push(x));
                    assert(b@.take(i + 1) == b@.take(i).push(y));
                },
            },
        }
        proof {
            i = i + 1;
        }
    }
}

/// Whether `s` begins with `prefix`, character by character.
pub open spec fn has_prefix(s: Seq<char>, prefix: Seq<char>) -> bool {
    prefix.len() <= s.len() && s.take(prefix.len() as int) == prefix
}

/// Decides [`has_prefix`] in one pass over `prefix`.
pub fn starts_with(s: &str, prefix: &str) -> (b: bool)
    ensures
        b == has_prefix(s@, prefix@),
{
    let mut text = s.chars();
    let mut wanted = prefix.chars();
    let ghost mut i: int = 0;
    loop
        invariant
            0 <= i <= prefix@.len(),
            i <= s@.len(),
            text.remaining() == s@.skip(i),
            wanted.remaining() == prefix@.skip(i),
            s@.take(i) == prefix@.take(i),
        decreases prefix@.len() - i,
    {
        match wanted.next() {
            None => {
                assert(prefix@.take(i) == prefix@);
                return true;
            },
            Some(p) => match text.next() {
                None => {
                    return false;
                },
                Some(c) => {
                    if c != p {
                        assert(prefix@.len() <= s@.len() ==> s@.take(prefix@.len() as int)[i]
                            != prefix@[i]);
                        return false;
                    }
                    assert(s@.take(i + 1) == s@.take(i).push(c));
                    assert(prefix@.take(i + 1) == prefix@.take(i).push(p));
                },
            },
        }
        proof {
            i = i + 1;
        }
    }
}

} // verus!
