//! Small operations of std on strings and characters, and what is built on them.
use vstd::prelude::*;
use vstd::std_specs::iter::IteratorSpec;
use vstd::utf8::{decode_utf8, valid_utf8};

verus! {

/// The text that UTF-8 bytes spell, or `None` where they are not UTF-8.
pub open spec fn utf8_text(bytes: Seq<u8>) -> Option<Seq<char>> {
    if valid_utf8(bytes) {
        Some(decode_utf8(bytes))
    } else {
        None
    }
}

/// The text of an optional string.
pub open spec fn text_of(s: Option<String>) -> Option<Seq<char>> {
    match s {
        Some(t) => Some(t@),
        None => None,
    }
}

/// Calls `String::from_utf8`, which fails exactly on bytes that are not
/// UTF-8 and otherwise holds the text they spell; the error becomes `None`.
#[verifier::external_body]
pub(crate) fn string_from_utf8(bytes: Vec<u8>) -> (res: Option<String>)
    ensures
        text_of(res) == utf8_text(bytes@),
{
    String::from_utf8(bytes).ok()
}

/// The characters of Unicode's White_Space property.
pub open spec fn is_white_space(c: char) -> bool {
    ||| '\u{9}' <= c <= '\u{d}'
    ||| c == ' '
    ||| c == '\u{85}'
    ||| c == '\u{a0}'
    ||| c == '\u{1680}'
    ||| '\u{2000}' <= c <= '\u{200a}'
    ||| c == '\u{2028}'
    ||| c == '\u{2029}'
    ||| c == '\u{202f}'
    ||| c == '\u{205f}'
    ||| c == '\u{3000}'
}

/// A text that trimming leaves empty: all its characters are white space.
pub open spec fn is_blank(text: Seq<char>) -> bool {
    forall|i: int| 0 <= i < text.len() ==> is_white_space(#[trigger] text[i])
}

/// Whether a character is white space, by the ranges of Unicode's
/// White_Space property.
pub fn char_is_whitespace(c: char) -> (res: bool)
    ensures
        res == is_white_space(c),
{
    ('\u{9}' <= c && c <= '\u{d}') || c == ' ' || c == '\u{85}' || c == '\u{a0}'
        || c == '\u{1680}' || ('\u{2000}' <= c && c <= '\u{200a}') || c == '\u{2028}'
        || c == '\u{2029}' || c == '\u{202f}' || c == '\u{205f}' || c == '\u{3000}'
}

/// Whether trimming `text` leaves it empty.
pub fn trims_to_empty(text: &str) -> (res: bool)
    ensures
        res == is_blank(text@),
{
    broadcast use vstd::string::group_string_axioms;

    for c in it: text.chars()
        invariant
            it.seq() == text@,
            forall|j: int| 0 <= j < it.index() ==> is_white_space(#[trigger] text@[j]),
    {
        if !char_is_whitespace(c) {
            return false;
        }
    }
    true
}

/// Calls `String::push`, which appends a character.
#[verifier::external_body]
fn push_char(text: &mut String, c: char)
    ensures
        final(text)@ == old(text)@.push(c),
{
    text.push(c)
}

/// Takes the character at position `at` (counted in characters) out of a
/// text: the text without it, and the character; the text unchanged and no
/// character where the text has no such position.
pub fn take_char_at(text: &str, at: usize) -> (res: (String, Option<char>))
    ensures
        at < text@.len() ==> res.0@ == text@.remove(at as int) && res.1 == Some(text@[at as int]),
        at >= text@.len() ==> res.0@ == text@ && res.1 is None,
{
    broadcast use vstd::string::group_string_axioms;

    let mut out = String::new();
    let mut before: usize = at;
    let mut taken: Option<char> = None;
    for c in it: text.chars()
        invariant
            it.seq() == text@,
            taken is None ==> at == before + it.index() && out@ == text@.take(it.index() as int),
            taken is Some ==> at < it.index() && taken == Some(text@[at as int]) && out@ == text@.take(
                it.index() as int,
            ).remove(at as int),
    {
        let ghost k = it.index();
        if taken.is_none() && before == 0 {
            taken = Some(c);
            assert(text@.take(k + 1).remove(at as int) =~= text@.take(k as int));
        } else {
            if taken.is_none() {
                before = before - 1;
                assert(text@.take(k + 1) =~= text@.take(k as int).push(c));
            } else {
                assert(text@.take(k + 1).remove(at as int) =~= text@.take(k as int).remove(
                    at as int,
                ).push(c));
            }
            push_char(&mut out, c);
        }
    }
    assert(text@.take(text@.len() as int) =~= text@);
    (out, taken)
}

} // verus!
