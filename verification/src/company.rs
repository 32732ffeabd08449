//! Looking through collections: keeping what is there, dropping what is not,
//! and asking whether anything in a collection fits.

use crate::text::{bool_str, bool_text, opt_text};
use vstd::prelude::*;
use vstd::string::*;

verus! {

/// A company: its name, and the name of its chief executive if it has one.
#[derive(Debug, PartialEq, Eq)]
pub struct Company {
    pub name: String,
    pub ceo: Option<String>,
}

impl Company {
    /// A company of the given name. An empty `ceo` means that it has no chief
    /// executive; any other text is that person's name.
    pub fn new(name: &str, ceo: &str) -> (company: Self)
        ensures
            company.name@ == name@,
            ceo@.len() == 0 ==> company.ceo is None,
            ceo@.len() > 0 ==> company.ceo is Some && company.ceo->0@ == ceo@,
    {
        let ceo = if ceo.is_empty() {
            None
        } else {
            Some(ceo.to_string())
        };
        Self { name: name.to_string(), ceo }
    }

    /// The name of the chief executive, if the company has one.
    pub fn get_ceo(&self) -> (ceo: Option<String>)
        ensures
            opt_text(ceo) == opt_text(self.ceo),
    {
        self.ceo.clone()
    }
}

/// The moment that stands in for the present: always the same.
pub fn get_current_datetime() -> (now: String)
    ensures
        now@ == "2024-01-27T23:11:23"@,
{
    "2024-01-27T23:11:23".to_string()
}

/// The question whether a character is in a collection, with its answer.
pub open spec fn inside_line(check: char, inside: bool) -> Seq<char> {
    "Is "@.push(check) + " inside? "@ + bool_text(inside)
}

/// Asks whether `check` is among `char_vec` and answers `true` or `false`.
pub fn in_char_vec(char_vec: &Vec<char>, check: char) -> (line: String)
    ensures
        line@ == inside_line(check, char_vec@.contains(check)),
{
    let mut inside = false;
    let mut index: usize = 0;
    while index < char_vec.len() && !inside
        invariant
            index <= char_vec.len(),
            inside == char_vec@.take(index as int).contains(check),
        decreases char_vec.len() - index,
    {
        let ghost seen = char_vec@.take(index as int);
        let ghost more = char_vec@.take(index + 1);
        inside = char_vec[index] == check;
        proof {
            if inside {
                assert(more[index as int] == check);
            } else {
                assert forall|k: int| 0 <= k < more.len() implies more[k] != check by {
                    if k < index {
                        assert(seen[k] == more[k]);
                    }
                }
            }
        }
        index = index + 1;
    }
    proof {
        if inside {
            let seen = char_vec@.take(index as int);
            let k = choose|k: int| 0 <= k < seen.len() && seen[k] == check;
            assert(char_vec@[k] == check);
        } else {
            assert(char_vec@.take(index as int) =~= char_vec@);
        }
    }
    let mut line = String::from_str("Is ");
    line.push(check);
    line.append(" inside? ");
    line.append(bool_str(inside));
    assert(line@ =~= inside_line(check, char_vec@.contains(check)));
    line
}

} // verus!
