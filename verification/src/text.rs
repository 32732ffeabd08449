//! Lists of lines, seen as the texts they hold.

use vstd::prelude::*;
use vstd::string::*;

verus! {

/// `String::push` puts one character at the end of a string and leaves the
/// rest of it alone. The standard library's documentation says as much; the
/// call is not verified.
pub assume_specification[ String::push ](text: &mut String, ch: char)
    ensures
        final(text)@ == old(text)@.push(ch),
;

/// The texts of a list of strings, in order.
pub open spec fn texts(lines: Seq<String>) -> Seq<Seq<char>> {
    lines.map_values(|line: String| line@)
}

/// What an optional string holds, if anything.
pub open spec fn opt_text(item: Option<String>) -> Option<Seq<char>> {
    match item {
        Some(text) => Some(text@),
        None => None,
    }
}

/// A truth value written out as a word.
pub open spec fn bool_text(value: bool) -> Seq<char> {
    if value {
        "true"@
    } else {
        "false"@
    }
}

/// A truth value written out as a word.
pub fn bool_str(value: bool) -> (word: &'static str)
    ensures
        word@ == bool_text(value),
{
    if value {
        "true"
    } else {
        "false"
    }
}

/// Adding a line to a list adds its text to the texts of the list.
pub proof fn lemma_texts_push(lines: Seq<String>, line: String)
    ensures
        texts(lines.push(line)) == texts(lines).push(line@),
{
    assert(texts(lines.push(line)) =~= texts(lines).push(line@));
}

/// Adds `line` at the end of `lines`.
pub fn push_line(lines: &mut Vec<String>, line: String)
    ensures
        final(lines)@ == old(lines)@.push(line),
        texts(final(lines)@) == texts(old(lines)@).push(line@),
{
    proof {
        lemma_texts_push(lines@, line);
    }
    lines.push(line);
}

/// Adds a line that holds `text` at the end of `lines`.
pub fn push_text(lines: &mut Vec<String>, text: &str)
    ensures
        texts(final(lines)@) == texts(old(lines)@).push(text@),
{
    push_line(lines, String::from_str(text));
}

} // verus!
