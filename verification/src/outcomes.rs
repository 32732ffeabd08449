//! Values that may be missing and operations that may fail: `Option` for the
//! first, `Result` for the second.

use crate::decimal::{int_decimal, write_int};
use crate::text::{bool_str, bool_text, push_line, push_text, texts};
use vstd::prelude::*;
use vstd::string::*;

verus! {

/// Hands `item` back as it came and notes in `log` that it did.
pub fn return_item<T>(item: T, log: &mut Vec<String>) -> (returned: T)
    ensures
        returned == item,
        texts(final(log)@) == texts(old(log)@).push("here is your item"@),
{
    push_text(log, "here is your item");
    item
}

/// Presents an item, given the text that shows it to a programmer.
pub fn print_item(shown: &str) -> (line: String)
    ensures
        line@ == "Here is your item: "@ + shown@,
{
    let mut line = String::from_str("Here is your item: ");
    line.append(shown);
    line
}

/// A statement, then the question whether the first of two things is greater
/// than the second, then the answer.
pub open spec fn comparison_line(
    statement: Seq<char>,
    input_1: Seq<char>,
    input_2: Seq<char>,
    greater: bool,
) -> Seq<char> {
    statement + "! Is "@ + input_1 + " greater than "@ + input_2 + "? "@ + bool_text(greater)
}

/// Makes a statement and tells whether the first of two things is greater
/// than the second. The three come as the texts that show them, with the
/// outcome of the comparison beside them.
pub fn compare_and_display(statement: &str, input_1: &str, input_2: &str, greater: bool) -> (line:
    String)
    ensures
        line@ == comparison_line(statement@, input_1@, input_2@, greater),
{
    let mut line = String::from_str(statement);
    line.append("! Is ");
    line.append(input_1);
    line.append(" greater than ");
    line.append(input_2);
    line.append("? ");
    line.append(bool_str(greater));
    assert(line@ =~= comparison_line(statement@, input_1@, input_2@, greater));
    line
}

/// The fifth element of `value`, if it has that many.
pub fn try_take_fifth(value: Vec<i32>) -> (fifth: Option<i32>)
    ensures
        value.len() < 5 ==> fifth is None,
        value.len() >= 5 ==> fifth == Some(value[4]),
{
    if value.len() < 5 {
        None
    } else {
        Some(value[4])
    }
}

/// What is said of one entry of a list of optional numbers.
pub open spec fn option_line(item: Option<i32>) -> Seq<char> {
    match item {
        Some(number) => "Found a "@ + int_decimal(number as int) + "!"@,
        None => "Found a None!"@,
    }
}

/// One line for each entry of `my_option`, in order: the number that was
/// found, or that none was.
pub fn handle_options(my_option: &Vec<Option<i32>>) -> (lines: Vec<String>)
    ensures
        texts(lines@) == my_option@.map_values(|item: Option<i32>| option_line(item)),
{
    let mut lines: Vec<String> = Vec::new();
    let mut index: usize = 0;
    while index < my_option.len()
        invariant
            index <= my_option.len(),
            texts(lines@) == my_option@.take(index as int).map_values(
                |item: Option<i32>| option_line(item),
            ),
        decreases my_option.len() - index,
    {
        let mut line = String::new();
        match my_option[index] {
            Some(number) => {
                line.append("Found a ");
                write_int(number as i64, &mut line);
                line.append("!");
            },
            None => {
                line.append("Found a None!");
            },
        }
        assert(line@ =~= option_line(my_option@[index as int]));
        push_line(&mut lines, line);
        assert(texts(lines@) =~= my_option@.take(index + 1).map_values(
            |item: Option<i32>| option_line(item),
        ));
        index = index + 1;
    }
    assert(my_option@.take(index as int) =~= my_option@);
    lines
}

/// An operation that cannot fail.
pub fn check_error() -> (outcome: Result<(), ()>)
    ensures
        outcome is Ok,
{
    Ok(())
}

/// Succeeds on the even numbers and fails on the odd ones.
pub fn see_if_number_is_even(input: i32) -> (outcome: Result<(), ()>)
    ensures
        outcome is Ok <==> input % 2 == 0,
{
    if input % 2 == 0 {
        Ok(())
    } else {
        Err(())
    }
}

/// The complaint about a number that is not five.
pub open spec fn not_five_message(number: i32) -> Seq<char> {
    "Sorry, bad number. Expected: 5 Got: "@ + int_decimal(number as int)
}

/// Accepts five and nothing else: any other number comes back as a
/// complaint that names it.
pub fn check_if_five(number: i32) -> (outcome: Result<i32, String>)
    ensures
        number == 5 ==> outcome == Ok::<i32, String>(5),
        number != 5 ==> outcome is Err && outcome->Err_0@ == not_five_message(number),
{
    match number {
        5 => Ok(number),
        _ => {
            let mut message = String::from_str("Sorry, bad number. Expected: 5 Got: ");
            write_int(number as i64, &mut message);
            Err(message)
        },
    }
}

} // verus!
