//! Reading numbers out of text, and passing a failure on to the caller at the
//! point where it happens.

use crate::decimal::{
    format_int, int_decimal, lemma_parse_decimal_round_trip, parse_i32, parse_i32_spec, parse_u16,
    parse_u16_spec, parse_u32, write_int, ParseIntError,
};
use crate::text::{push_line, texts};
use vstd::prelude::*;
use vstd::string::*;

verus! {

/// The line that reports a number that was read.
pub open spec fn parsed_notice(number: i32) -> Seq<char> {
    "Number parsed successfully into "@ + int_decimal(number as int)
}

/// What a log that held `before` holds after an attempt to read a number:
/// one more line if a number was read, and the same lines if not.
pub open spec fn log_after(before: Seq<Seq<char>>, parsed: Result<i32, ParseIntError>) -> Seq<
    Seq<char>,
> {
    match parsed {
        Ok(number) => before.push(parsed_notice(number)),
        Err(_) => before,
    }
}

/// Adds the line that reports `number` to `log`.
fn log_parsed(number: i32, log: &mut Vec<String>)
    ensures
        texts(final(log)@) == texts(old(log)@).push(parsed_notice(number)),
{
    let mut line = String::from_str("Number parsed successfully into ");
    write_int(number as i64, &mut line);
    push_line(log, line);
}

/// Reads `input` as an `i32`. A number that was read is reported in `log`; a
/// failure is handed back and leaves `log` as it was.
pub fn parse_and_log_str(input: &str, log: &mut Vec<String>) -> (parsed: Result<
    i32,
    ParseIntError,
>)
    ensures
        parsed == parse_i32_spec(input@),
        texts(final(log)@) == log_after(texts(old(log)@), parsed),
{
    let parsed_number = parse_i32(input)?;
    log_parsed(parsed_number, log);
    Ok(parsed_number)
}

/// What reading a text in three steps gives: as a `u16`, whose text is read
/// as a `u32`, whose text is read as an `i32`. The first step decides: what
/// it reads is small enough for the other two.
pub open spec fn parse_str_spec(input: Seq<char>) -> Result<i32, ParseIntError> {
    match parse_u16_spec(input) {
        Ok(number) => Ok(number as i32),
        Err(error) => Err(error),
    }
}

/// Reads `input` as a `u16`, writes that out and reads it as a `u32`, writes
/// that out and reads it as an `i32`. The failure of any step is handed back
/// at once; a number that got through all three is reported in `log`.
pub fn parse_str(input: &str, log: &mut Vec<String>) -> (parsed: Result<i32, ParseIntError>)
    ensures
        parsed == parse_str_spec(input@),
        texts(final(log)@) == log_after(texts(old(log)@), parsed),
{
    let narrow = parse_u16(input)?;
    proof {
        lemma_parse_decimal_round_trip(narrow as int, false, 0, u32::MAX as int);
    }
    let wide = parse_u32(format_int(narrow as i64).as_str())?;
    proof {
        lemma_parse_decimal_round_trip(wide as int, true, i32::MIN as int, i32::MAX as int);
    }
    let parsed_number = parse_i32(format_int(wide as i64).as_str())?;
    log_parsed(parsed_number, log);
    Ok(parsed_number)
}

} // verus!
