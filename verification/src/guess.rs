//! Guessing the content type of a request body from its first characters.
//!
//! Each heuristic is a predicate on the body as a sequence of characters, and
//! the function beside it decides that predicate in a single pass. The guesses
//! are cheap and approximate by design: none of them validates a whole body.

use crate::http::ContentType;
use crate::text::{is_digit, is_whitespace};
use std::str::Chars;
use vstd::prelude::*;
use vstd::std_specs::iter::IteratorSpec;

verus! {

/// The characters that may stand for themselves in a URL-encoded key: the
/// unreserved characters of RFC 3986 (ASCII letters and digits, `-`, `.`, `_`
/// and `~`), and `+`, which encodes a space.
pub open spec fn spec_is_key_char(c: char) -> bool {
    ||| 'A' <= c <= 'Z'
    ||| 'a' <= c <= 'z'
    ||| '0' <= c <= '9'
    ||| c == '-'
    ||| c == '.'
    ||| c == '_'
    ||| c == '~'
    ||| c == '+'
}

/// Whether `c` may stand for itself in a URL-encoded key.
#[verifier::when_used_as_spec(spec_is_key_char)]
pub fn is_key_char(c: char) -> (b: bool)
    ensures
        b == spec_is_key_char(c),
{
    ('A' <= c && c <= 'Z') || ('a' <= c && c <= 'z') || ('0' <= c && c <= '9') || c == '-' || c
        == '.' || c == '_' || c == '~' || c == '+'
}

/// The length of the key that `s` begins with: its longest prefix made of key
/// characters and of escapes, an escape being `%` followed by two digits. A
/// `%` that lacks its two digits ends the key and is not part of it.
pub open spec fn key_len(s: Seq<char>) -> nat
    decreases s.len(),
{
    if s.len() >= 1 && is_key_char(s[0]) {
        1 + key_len(s.skip(1))
    } else if s.len() >= 3 && s[0] == '%' && is_digit(s[1]) && is_digit(s[2]) {
        3 + key_len(s.skip(3))
    } else {
        0
    }
}

/// A body looks URL-encoded when it begins with a key that is not empty and
/// `=` follows the key at once.
pub open spec fn looks_like_url_encoded(s: Seq<char>) -> bool {
    let n = key_len(s);
    0 < n < s.len() && s[n as int] == '='
}

/// Guesses whether `s` is URL-encoded (percent-encoded) form data: whether a
/// key followed by `=` stands at its start, as in `a-s.d_f~0+%21=`.
pub fn maybe_url_encoded(s: &str) -> (b: bool)
    ensures
        b == looks_like_url_encoded(s@),
{
    let mut rest = s.chars();
    let mut empty = true;
    let ghost mut i: int = 0;
    loop
        invariant
            0 <= i <= s@.len(),
            rest.remaining() == s@.skip(i),
            key_len(s@) == i + key_len(s@.skip(i)),
            empty <==> i == 0,
        decreases s@.len() - i,
    {
        let ghost tail = s@.skip(i);
        match rest.next() {
            None => {
                return false;
            },
            Some(c) => {
                if is_key_char(c) {
                    proof {
                        assert(tail.skip(1) == s@.skip(i + 1));
                        i = i + 1;
                    }
                } else if c == '%' {
                    let first = rest.next();
                    let second = rest.next();
                    let escaped = match (first, second) {
                        (Some(d1), Some(d2)) => is_digit(d1) && is_digit(d2),
                        _ => false,
                    };
                    if !escaped {
                        return false;
                    }
                    proof {
                        assert(tail.skip(3) == s@.skip(i + 3));
                        i = i + 3;
                    }
                } else {
                    return !empty && c == '=';
                }
            },
        }
        empty = false;
    }
}

/// A body shorter than this many characters is taken for JSON when nothing
/// but an empty object is left of it once whitespace is removed.
pub const SHORT_OBJECT_LIMIT: usize = 20;

/// `s` with its whitespace characters removed.
pub open spec fn without_whitespace(s: Seq<char>) -> Seq<char> {
    s.filter(|c: char| !is_whitespace(c))
}

/// A short body that is the empty object `{}`, whitespace apart.
pub open spec fn is_short_empty_object(s: Seq<char>) -> bool {
    s.len() < SHORT_OBJECT_LIMIT && without_whitespace(s) == seq!['{', '}']
}

/// `s` without the whitespace it begins with.
pub open spec fn trim_start(s: Seq<char>) -> Seq<char>
    decreases s.len(),
{
    if s.len() > 0 && is_whitespace(s[0]) {
        trim_start(s.skip(1))
    } else {
        s
    }
}

/// What is left of `s` after `c` has been read from it, whitespace before `c`
/// passed over; `None` where `s` ends or another character comes first.
pub open spec fn after_char(s: Seq<char>, c: char) -> Option<Seq<char>> {
    let t = trim_start(s);
    if t.len() > 0 && t[0] == c {
        Some(t.skip(1))
    } else {
        None
    }
}

/// What is left of `s` after its first double quote; `None` where it holds
/// none. Whatever stands before that quote is passed over as it is: no escape
/// sequence is known here.
pub open spec fn after_quote(s: Seq<char>) -> Option<Seq<char>>
    decreases s.len(),
{
    if s.len() == 0 {
        None
    } else if s[0] == '"' {
        Some(s.skip(1))
    } else {
        after_quote(s.skip(1))
    }
}

/// Whether `s` opens like an object whose first key is a string: `{`, then a
/// double quote, the key, a closing double quote and `:`, in that order, with
/// nothing but whitespace between them and before the brace.
pub open spec fn opens_keyed_object(s: Seq<char>) -> bool {
    match after_char(s, '{') {
        Some(in_object) => match after_char(in_object, '"') {
            Some(in_key) => match after_quote(in_key) {
                Some(past_key) => after_char(past_key, ':') is Some,
                None => false,
            },
            None => false,
        },
        None => false,
    }
}

/// A body looks like JSON when it is a short empty object or opens like an
/// object with a string key. A value of any other kind at the top level is
/// never taken for JSON, and what follows the first colon is not looked at.
pub open spec fn looks_like_json(s: Seq<char>) -> bool {
    is_short_empty_object(s) || opens_keyed_object(s)
}

/// Reads `rest` up to and including its first character that is no
/// whitespace, and returns that character; `None` at the end of the text.
fn next_visible(rest: &mut Chars<'_>) -> (found: Option<char>)
    requires
        (*old(rest)).decrease() is Some,
    ensures
        (*final(rest)).decrease() is Some,
        ({
            let t = trim_start((*old(rest)).remaining());
            match found {
                Some(c) => t.len() > 0 && t[0] == c && (*final(rest)).remaining() == t.skip(1),
                None => t.len() == 0,
            }
        }),
{
    let ghost start = (*rest).remaining();
    loop
        invariant
            (*rest).decrease() is Some,
            start == (*old(rest)).remaining(),
            trim_start((*rest).remaining()) == trim_start(start),
        decreases (*rest).decrease()->0,
    {
        match rest.next() {
            None => {
                return None;
            },
            Some(c) => {
                if !is_whitespace(c) {
                    return Some(c);
                }
            },
        }
    }
}

/// Reads `rest` up to and including its first double quote, and says whether
/// there was one.
fn skip_past_quote(rest: &mut Chars<'_>) -> (found: bool)
    requires
        (*old(rest)).decrease() is Some,
    ensures
        (*final(rest)).decrease() is Some,
        match after_quote((*old(rest)).remaining()) {
            Some(t) => found && (*final(rest)).remaining() == t,
            None => !found,
        },
{
    let ghost start = (*rest).remaining();
    loop
        invariant
            (*rest).decrease() is Some,
            start == (*old(rest)).remaining(),
            after_quote((*rest).remaining()) == after_quote(start),
        decreases (*rest).decrease()->0,
    {
        match rest.next() {
            None => {
                return false;
            },
            Some(c) => {
                if c == '"' {
                    return true;
                }
            },
        }
    }
}

/// Decides [`opens_keyed_object`], reading no further than the colon.
fn has_keyed_object_opener(s: &str) -> (b: bool)
    ensures
        b == opens_keyed_object(s@),
{
    let mut rest = s.chars();
    if next_visible(&mut rest) != Some('{') {
        return false;
    }
    if next_visible(&mut rest) != Some('"') {
        return false;
    }
    if !skip_past_quote(&mut rest) {
        return false;
    }
    next_visible(&mut rest) == Some(':')
}

/// Removing whitespace from a text to which one character was added keeps
/// that character, unless it is whitespace, behind what the text gave.
proof fn lemma_without_whitespace_push(s: Seq<char>, c: char)
    ensures
        without_whitespace(s.push(c)) == if is_whitespace(c) {
            without_whitespace(s)
        } else {
            without_whitespace(s).push(c)
        },
{
    reveal(Seq::filter);
    assert(s.push(c).drop_last() == s);
}

/// What the characters of a text that are no whitespace spell, as far as an
/// empty object goes.
#[derive(Clone, Copy)]
enum Visible {
    Nothing,
    OpenBrace,
    EmptyObject,
    Other,
}

impl Visible {
    /// Whether `self` says what `visible` spells.
    spec fn describes(self, visible: Seq<char>) -> bool {
        match self {
            Visible::Nothing => visible == Seq::<char>::empty(),
            Visible::OpenBrace => visible == seq!['{'],
            Visible::EmptyObject => visible == seq!['{', '}'],
            Visible::Other => {
                &&& visible != Seq::<char>::empty()
                &&& visible != seq!['{']
                &&& visible != seq!['{', '}']
            },
        }
    }

    /// What is spelt once `c`, which is no whitespace, has been added.
    fn followed_by(self, c: char) -> (next: Visible)
        ensures
            forall|visible: Seq<char>| #[trigger]
                self.describes(visible) ==> next.describes(visible.push(c)),
    {
        let next = match self {
            Visible::Nothing if c == '{' => Visible::OpenBrace,
            Visible::OpenBrace if c == '}' => Visible::EmptyObject,
            _ => Visible::Other,
        };
        assert forall|visible: Seq<char>| #[trigger]
            self.describes(visible) implies next.describes(visible.push(c)) by {
            assert(visible.push(c).drop_last() == visible);
            assert(seq!['{'].drop_last() == Seq::<char>::empty());
            assert(seq!['{', '}'].drop_last() == seq!['{']);
            assert(Seq::<char>::empty().push('{') == seq!['{']);
            assert(seq!['{'].push('}') == seq!['{', '}']);
        }
        next
    }
}

/// Decides [`is_short_empty_object`], reading no more than
/// [`SHORT_OBJECT_LIMIT`] characters.
fn is_short_empty_object_text(s: &str) -> (b: bool)
    ensures
        b == is_short_empty_object(s@),
{
    let mut rest = s.chars();
    let mut kept = Visible::Nothing;
    let mut read: usize = 0;
    proof {
        reveal(Seq::filter);
        assert(s@.take(0) == Seq::<char>::empty());
    }
    while read < SHORT_OBJECT_LIMIT
        invariant
            read <= SHORT_OBJECT_LIMIT,
            read <= s@.len(),
            rest.remaining() == s@.skip(read as int),
            kept.describes(without_whitespace(s@.take(read as int))),
        decreases SHORT_OBJECT_LIMIT - read,
    {
        let ghost seen = s@.take(read as int);
        match rest.next() {
            None => {
                assert(seen == s@);
                return matches!(kept, Visible::EmptyObject);
            },
            Some(c) => {
                proof {
                    lemma_without_whitespace_push(seen, c);
                    assert(s@.take(read + 1) == seen.push(c));
                }
                if !is_whitespace(c) {
                    kept = kept.followed_by(c);
                }
            },
        }
        read += 1;
    }
    false
}

/// Guesses whether `s` is JSON, on the ground that JSON is mostly sent as an
/// object: whether `{`, a key in double quotes and `:` stand at its start,
/// whitespace ignored, or `s` is short and an empty object.
pub fn maybe_json(s: &str) -> (b: bool)
    ensures
        b == looks_like_json(s@),
{
    is_short_empty_object_text(s) || has_keyed_object_opener(s)
}

/// A body that begins with this many hyphens is taken for a multipart body:
/// the boundaries that clients write begin with six hyphens or more.
pub const BOUNDARY_HYPHENS: usize = 5;

/// A body looks like a multipart body when it begins with
/// [`BOUNDARY_HYPHENS`] hyphens.
pub open spec fn looks_like_multipart(s: Seq<char>) -> bool {
    &&& s.len() >= BOUNDARY_HYPHENS
    &&& forall|i: int| 0 <= i < BOUNDARY_HYPHENS ==> s[i] == '-'
}

/// Guesses whether `s` is a multipart body: whether the hyphens of a boundary
/// stand at its start.
pub fn is_multipart(s: &str) -> (b: bool)
    ensures
        b == looks_like_multipart(s@),
{
    let mut rest = s.chars();
    let mut read: usize = 0;
    while read < BOUNDARY_HYPHENS
        invariant
            read <= BOUNDARY_HYPHENS,
            read <= s@.len(),
            rest.remaining() == s@.skip(read as int),
            forall|i: int| 0 <= i < read ==> s@[i] == '-',
        decreases BOUNDARY_HYPHENS - read,
    {
        match rest.next() {
            Some('-') => {},
            _ => {
                return false;
            },
        }
        read += 1;
    }
    true
}

/// The content type that a body is taken for. The heuristics are tried in a
/// fixed order and the first that holds decides, since a body may meet more
/// than one; a body that meets none is text.
pub open spec fn guess(s: Seq<char>) -> ContentType {
    if looks_like_json(s) {
        ContentType::Json
    } else if looks_like_url_encoded(s) {
        ContentType::Form
    } else if looks_like_multipart(s) {
        ContentType::Multipart
    } else {
        ContentType::Text
    }
}

/// Guess the content type of the content provided
pub fn guess_content_type(s: &str) -> (content_type: ContentType)
    ensures
        content_type == guess(s@),
{
    if maybe_json(s) {
        ContentType::Json
    } else if maybe_url_encoded(s) {
        ContentType::Form
    } else if is_multipart(s) {
        ContentType::Multipart
    } else {
        ContentType::Text
    }
}

/// Removing whitespace from a text keeps its first character, unless it is
/// whitespace, before what the rest of the text gives.
proof fn lemma_without_whitespace_first(s: Seq<char>)
    requires
        s.len() > 0,
    ensures
        without_whitespace(s) == if is_whitespace(s[0]) {
            without_whitespace(s.skip(1))
        } else {
            seq![s[0]] + without_whitespace(s.skip(1))
        },
{
    let first = seq![s[0]];
    assert(s == first + s.skip(1));
    Seq::filter_distributes_over_add(first, s.skip(1), |c: char| !is_whitespace(c));
    assert(without_whitespace(first) == if is_whitespace(s[0]) {
        Seq::<char>::empty()
    } else {
        first
    }) by {
        reveal_with_fuel(Seq::filter, 2);
        assert(first.drop_last() == Seq::<char>::empty());
    }
}

/// Where removing whitespace from a text leaves anything, the first character
/// left is the one that the text begins with once trimmed, and the characters
/// after it are those that the rest of the trimmed text leaves.
proof fn lemma_first_visible(s: Seq<char>)
    requires
        without_whitespace(s).len() > 0,
    ensures
        trim_start(s).len() > 0,
        trim_start(s)[0] == without_whitespace(s)[0],
        without_whitespace(trim_start(s).skip(1)) == without_whitespace(s).skip(1),
    decreases s.len(),
{
    if s.len() == 0 {
        reveal(Seq::filter);
    } else {
        lemma_without_whitespace_first(s);
        if is_whitespace(s[0]) {
            lemma_first_visible(s.skip(1));
        } else {
            let visible = seq![s[0]] + without_whitespace(s.skip(1));
            assert(visible.skip(1) == without_whitespace(s.skip(1)));
        }
    }
}

/// A body of fewer than [`SHORT_OBJECT_LIMIT`] characters that is `{}` once
/// whitespace is removed looks like JSON.
pub proof fn lemma_short_empty_object_looks_like_json(s: Seq<char>)
    requires
        s.len() < SHORT_OBJECT_LIMIT,
        without_whitespace(s) == seq!['{', '}'],
    ensures
        looks_like_json(s),
{
}

/// A body of [`SHORT_OBJECT_LIMIT`] characters or more that is `{}` once
/// whitespace is removed does not look like JSON, wherever its whitespace
/// stands: the limit alone tells it from the short empty object.
pub proof fn lemma_long_empty_object_does_not_look_like_json(s: Seq<char>)
    requires
        s.len() >= SHORT_OBJECT_LIMIT,
        without_whitespace(s) == seq!['{', '}'],
    ensures
        !looks_like_json(s),
{
    lemma_first_visible(s);
    let in_object = trim_start(s).skip(1);
    assert(seq!['{', '}'].skip(1) == seq!['}']);
    lemma_first_visible(in_object);
}

/// A body that looks like JSON begins with `{`, whitespace apart.
pub proof fn lemma_json_begins_with_brace(s: Seq<char>)
    requires
        looks_like_json(s),
    ensures
        after_char(s, '{') is Some,
{
    if is_short_empty_object(s) {
        lemma_first_visible(s);
    }
}

/// Text added behind a text that holds more than whitespace is not reached
/// by trimming.
proof fn lemma_trim_start_of_longer(s: Seq<char>, more: Seq<char>)
    requires
        trim_start(s).len() > 0,
    ensures
        trim_start(s + more) == trim_start(s) + more,
    decreases s.len(),
{
    if is_whitespace(s[0]) {
        assert((s + more).skip(1) == s.skip(1) + more);
        lemma_trim_start_of_longer(s.skip(1), more);
    }
}

/// Text added behind a text from which `c` can be read is left over with the
/// rest.
proof fn lemma_after_char_of_longer(s: Seq<char>, c: char, more: Seq<char>)
    requires
        after_char(s, c) is Some,
    ensures
        after_char(s + more, c) == Some(after_char(s, c)->0 + more),
{
    lemma_trim_start_of_longer(s, more);
    assert((trim_start(s) + more).skip(1) == trim_start(s).skip(1) + more);
}

/// Text added behind a text that holds a double quote is left over with the
/// rest.
proof fn lemma_after_quote_of_longer(s: Seq<char>, more: Seq<char>)
    requires
        after_quote(s) is Some,
    ensures
        after_quote(s + more) == Some(after_quote(s)->0 + more),
    decreases s.len(),
{
    assert((s + more).skip(1) == s.skip(1) + more);
    if s[0] != '"' {
        lemma_after_quote_of_longer(s.skip(1), more);
    }
}

/// Once a body opens like an object with a string key, nothing that follows
/// the colon changes that: a document that is cut off or broken further on
/// still looks like JSON.
pub proof fn lemma_object_opening_decides(s: Seq<char>, more: Seq<char>)
    requires
        opens_keyed_object(s),
    ensures
        opens_keyed_object(s + more),
        looks_like_json(s + more),
{
    let in_object = after_char(s, '{')->0;
    let in_key = after_char(in_object, '"')->0;
    let past_key = after_quote(in_key)->0;
    lemma_after_char_of_longer(s, '{', more);
    lemma_after_char_of_longer(in_object, '"', more);
    lemma_after_quote_of_longer(in_key, more);
    lemma_after_char_of_longer(past_key, ':', more);
}

/// A key that ends before a character other than `%` is not made longer by
/// text added behind.
proof fn lemma_key_len_of_longer(s: Seq<char>, more: Seq<char>)
    requires
        key_len(s) < s.len(),
        s[key_len(s) as int] != '%',
    ensures
        key_len(s + more) == key_len(s),
    decreases s.len(),
{
    let longer = s + more;
    if is_key_char(s[0]) {
        assert(longer.skip(1) == s.skip(1) + more);
        lemma_key_len_of_longer(s.skip(1), more);
    } else if s.len() >= 3 && s[0] == '%' && is_digit(s[1]) && is_digit(s[2]) {
        assert(longer.skip(3) == s.skip(3) + more);
        lemma_key_len_of_longer(s.skip(3), more);
    }
}

/// Once a body begins with a key and `=`, nothing that follows changes that.
pub proof fn lemma_key_and_equals_decide(s: Seq<char>, more: Seq<char>)
    requires
        looks_like_url_encoded(s),
    ensures
        looks_like_url_encoded(s + more),
{
    lemma_key_len_of_longer(s, more);
}

/// The heuristic for JSON is tried first: a body that looks like JSON is
/// taken for JSON, also where it looks URL-encoded.
pub proof fn lemma_json_is_tried_first(s: Seq<char>)
    ensures
        looks_like_json(s) ==> guess(s) == ContentType::Json,
        looks_like_json(s) && looks_like_url_encoded(s) ==> guess(s) == ContentType::Json,
{
}

/// A body that looks like JSON meets no other heuristic, so the order of the
/// guesses decides between URL-encoded and multipart bodies only.
pub proof fn lemma_json_meets_no_other_heuristic(s: Seq<char>)
    requires
        looks_like_json(s),
    ensures
        !looks_like_url_encoded(s),
        !looks_like_multipart(s),
{
    lemma_json_begins_with_brace(s);
}

} // verus!
