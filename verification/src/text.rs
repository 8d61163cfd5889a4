//! Editing of strings by character position.
//!
//! Positions count characters, never bytes, so every position between zero
//! and the number of characters is a place where a character can go.

use vstd::prelude::*;
use vstd::string::*;

verus! {

/// `String::push` appends the given character to the end of the string and
/// leaves the rest as it was.
pub assume_specification[ String::push ](text: &mut String, ch: char)
    ensures
        final(text)@ == old(text)@.push(ch),
;

/// `String::pop` removes the last character and returns it; on an empty
/// string it returns `None` and changes nothing.
pub assume_specification[ String::pop ](text: &mut String) -> (popped: Option<char>)
    ensures
        old(text)@.len() == 0 ==> popped is None && final(text)@ == old(text)@,
        old(text)@.len() > 0 ==> popped == Some(old(text)@.last()) && final(text)@ == old(
            text,
        )@.drop_last(),
;

/// A copy of `text` with `c` put in before the character at position `at`,
/// or at the end where `at` is the number of characters.
pub(crate) fn insert_char(text: &str, at: usize, c: char) -> (out: String)
    requires
        at <= text@.len(),
    ensures
        out@ == text@.insert(at as int, c),
{
    let count = text.unicode_len();
    let mut out = String::from_str(text.substring_char(0, at));
    out.push(c);
    out.append(text.substring_char(at, count));
    out
}

/// A copy of `text` without the character at position `at`.
pub(crate) fn remove_char(text: &str, at: usize) -> (out: String)
    requires
        at < text@.len(),
    ensures
        out@ == text@.remove(at as int),
{
    let count = text.unicode_len();
    let mut out = String::from_str(text.substring_char(0, at));
    out.append(text.substring_char(at + 1, count));
    out
}

} // verus!
