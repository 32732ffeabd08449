//! Lending and giving away: a function that changes a text it has borrowed,
//! one that takes a text for good, and one that only looks at it.

use crate::decimal::{int_decimal, write_nat};
use vstd::prelude::*;
use vstd::string::*;
use vstd::utf8::{encode_scalar, encode_utf8};

verus! {

/// The line that shows a text after a change.
pub open spec fn now_it_says(text: Seq<char>) -> Seq<char> {
    "Now it says: "@ + text
}

/// Joins Hungary to the country whose name was lent, and shows the new name.
/// The caller sees the change.
pub fn add_hungary(country_name: &mut String) -> (line: String)
    ensures
        final(country_name)@ == old(country_name)@ + "-Hungary"@,
        line@ == now_it_says(final(country_name)@),
{
    country_name.append("-Hungary");
    let mut line = String::from_str("Now it says: ");
    line.append(country_name.as_str());
    line
}

/// Joins Hungary to a country name that was given away, and shows the new
/// name. Nothing of the caller's changes: the text is gone with the call.
pub fn add_hungary_1(string_to_add_hungary_to: String) -> (line: String)
    ensures
        line@ == now_it_says(string_to_add_hungary_to@ + "-Hungary"@),
{
    let mut string_to_add_hungary_to = string_to_add_hungary_to;
    string_to_add_hungary_to.append("-Hungary");
    let mut line = String::from_str("Now it says: ");
    line.append(string_to_add_hungary_to.as_str());
    line
}

/// Whether a character is white space: a blank, a tab, a line break, or one of
/// the other characters that Unicode gives the property `White_Space`.
pub open spec fn is_whitespace(c: char) -> bool {
    let code = c as u32;
    ||| 0x09 <= code <= 0x0D
    ||| code == 0x20
    ||| code == 0x85
    ||| code == 0xA0
    ||| code == 0x1680
    ||| 0x2000 <= code <= 0x200A
    ||| code == 0x2028
    ||| code == 0x2029
    ||| code == 0x202F
    ||| code == 0x205F
    ||| code == 0x3000
}

/// Whether a word starts at the given place in a text: the character there is
/// no white space, and it stands at the start of the text or behind white
/// space.
pub open spec fn starts_word(text: Seq<char>, at: int) -> bool {
    !is_whitespace(text[at]) && (at == 0 || is_whitespace(text[at - 1]))
}

/// How many words a text holds, a word being a run of characters that are no
/// white space, as long as it can be.
pub open spec fn word_count(text: Seq<char>) -> nat
    decreases text.len(),
{
    if text.len() == 0 {
        0
    } else {
        word_count(text.drop_last()) + if starts_word(text, text.len() - 1) {
            1nat
        } else {
            0nat
        }
    }
}

/// The line that tells how many words a text holds.
pub open spec fn length_line(text: Seq<char>) -> Seq<char> {
    "It's "@ + int_decimal(word_count(text) as int) + " words long."@
}

/// A text has at most one word for each of its characters.
pub proof fn lemma_word_count_bound(text: Seq<char>)
    ensures
        word_count(text) <= text.len(),
    decreases text.len(),
{
    if text.len() > 0 {
        lemma_word_count_bound(text.drop_last());
    }
}

/// A text has at most as many characters as its encoding in UTF-8 has bytes.
pub proof fn lemma_chars_fit_in_bytes(text: Seq<char>)
    ensures
        text.len() <= encode_utf8(text).len(),
    decreases text.len(),
{
    if text.len() > 0 {
        lemma_chars_fit_in_bytes(text.drop_first());
        assert(encode_scalar(text[0] as u32).len() >= 1);
    }
}

/// Whether `c` is white space.
fn is_space(c: char) -> (space: bool)
    ensures
        space == is_whitespace(c),
{
    let code = c as u32;
    (0x09 <= code && code <= 0x0D) || code == 0x20 || code == 0x85 || code == 0xA0 || code
        == 0x1680 || (0x2000 <= code && code <= 0x200A) || code == 0x2028 || code == 0x2029
        || code == 0x202F || code == 0x205F || code == 0x3000
}

/// Counts the words of `text`.
pub fn count_words(text: &str) -> (count: usize)
    ensures
        count == word_count(text@),
{
    let limit = text.as_bytes().len();
    proof {
        lemma_chars_fit_in_bytes(text@);
    }
    let mut count: usize = 0;
    let mut in_word = false;
    for c in it: text.chars()
        invariant
            it.seq() == text@,
            text@.len() <= limit,
            count == word_count(text@.take(it.index() as int)),
            in_word == (it.index() > 0 && !is_whitespace(text@[it.index() - 1])),
    {
        let ghost index = it.index() as int;
        let space = is_space(c);
        proof {
            let seen = text@.take(index + 1);
            assert(seen.drop_last() =~= text@.take(index));
            assert(seen[index] == c);
            if index > 0 {
                assert(seen[index - 1] == text@[index - 1]);
            }
            lemma_word_count_bound(text@.take(index));
        }
        if !space && !in_word {
            count = count + 1;
        }
        in_word = !space;
    }
    assert(text@.take(text@.len() as int) =~= text@);
    count
}

/// Tells how many words `input` holds.
pub fn get_length(input: &String) -> (line: String)
    ensures
        line@ == length_line(input@),
{
    let mut line = String::from_str("It's ");
    write_nat(count_words(input.as_str()) as u64, &mut line);
    line.append(" words long.");
    assert(line@ =~= length_line(input@));
    line
}

} // verus!
