//! Decimal text of integers: writing a number out as digits and reading digits
//! back into a number, with the error that a malformed text gives.

use vstd::prelude::*;
use vstd::string::*;

verus! {

/// Why a text could not be read as an integer.
#[derive(Debug, Clone, Copy, PartialEq, Eq, Structural)]
pub enum ParseIntError {
    /// The text has no characters at all.
    Empty,
    /// The text holds a character that is no decimal digit where a digit is due,
    /// or it is a sign with nothing behind it.
    InvalidDigit,
    /// The digits stand for a number above the largest value of the type.
    PosOverflow,
    /// The digits stand for a number below the smallest value of the type.
    NegOverflow,
}

/// Whether `c` is one of the ten ASCII digits.
pub open spec fn is_digit(c: char) -> bool {
    '0' <= c && c <= '9'
}

/// The number that the ASCII digit `c` stands for.
pub open spec fn digit_value(c: char) -> int {
    c as int - 48
}

/// The ASCII digit that stands for `d`, for `d` from 0 to 9.
pub open spec fn digit_char(d: int) -> char
    recommends
        0 <= d < 10,
{
    (d + 48) as u8 as char
}

/// The digits of `n` in base ten, most significant first, without leading zeros.
pub open spec fn nat_decimal(n: nat) -> Seq<char>
    decreases n,
{
    if n < 10 {
        seq![digit_char(n as int)]
    } else {
        nat_decimal(n / 10).push(digit_char((n % 10) as int))
    }
}

/// The decimal text of `n`: a minus sign for a negative number, then its digits.
pub open spec fn int_decimal(n: int) -> Seq<char> {
    if n < 0 {
        seq!['-'] + nat_decimal((-n) as nat)
    } else {
        nat_decimal(n as nat)
    }
}

/// The number that a sequence of digits stands for in base ten; zero for no digits.
pub open spec fn digits_value(digits: Seq<char>) -> int
    decreases digits.len(),
{
    if digits.len() == 0 {
        0
    } else {
        digits_value(digits.drop_last()) * 10 + digit_value(digits.last())
    }
}

/// How many characters at the start of `text` are digits.
pub open spec fn digit_run(text: Seq<char>) -> nat
    decreases text.len(),
{
    if text.len() > 0 && is_digit(text[0]) {
        1 + digit_run(text.drop_first())
    } else {
        0
    }
}

/// What reading `text` as a decimal integer between `min` and `max` gives.
///
/// An empty text is `Empty`. A leading `+` is skipped, and so is a leading `-`
/// where the type is `signed`, which makes the number negative. If nothing is
/// left, the text was a bare sign: `InvalidDigit`. Otherwise the digits at the
/// start of what is left are read as far as they go. If their number is out of
/// range, that is the error, whatever follows them. If it fits and a character
/// that is no digit follows, the error is `InvalidDigit`. If it fits and the
/// digits reach the end of the text, it is the result.
pub open spec fn parse_decimal(text: Seq<char>, signed: bool, min: int, max: int) -> Result<
    int,
    ParseIntError,
> {
    if text.len() == 0 {
        Err(ParseIntError::Empty)
    } else {
        let negative = signed && text[0] == '-';
        let digits = if text[0] == '+' || negative {
            text.drop_first()
        } else {
            text
        };
        let run = digit_run(digits);
        let magnitude = digits_value(digits.take(run as int));
        let value = if negative {
            -magnitude
        } else {
            magnitude
        };
        if digits.len() == 0 {
            Err(ParseIntError::InvalidDigit)
        } else if value > max {
            Err(ParseIntError::PosOverflow)
        } else if value < min {
            Err(ParseIntError::NegOverflow)
        } else if run < digits.len() {
            Err(ParseIntError::InvalidDigit)
        } else {
            Ok(value)
        }
    }
}

/// What reading `text` as an `i32` gives.
pub open spec fn parse_i32_spec(text: Seq<char>) -> Result<i32, ParseIntError> {
    match parse_decimal(text, true, i32::MIN as int, i32::MAX as int) {
        Ok(value) => Ok(value as i32),
        Err(error) => Err(error),
    }
}

/// What reading `text` as a `u32` gives.
pub open spec fn parse_u32_spec(text: Seq<char>) -> Result<u32, ParseIntError> {
    match parse_decimal(text, false, 0, u32::MAX as int) {
        Ok(value) => Ok(value as u32),
        Err(error) => Err(error),
    }
}

/// What reading `text` as a `u16` gives.
pub open spec fn parse_u16_spec(text: Seq<char>) -> Result<u16, ParseIntError> {
    match parse_decimal(text, false, 0, u16::MAX as int) {
        Ok(value) => Ok(value as u16),
        Err(error) => Err(error),
    }
}

/// The run of digits at the start of a text lies within the text, holds digits
/// only, and ends at the end of the text or before a character that is no digit.
pub proof fn lemma_digit_run_bounds(text: Seq<char>)
    ensures
        digit_run(text) <= text.len(),
        forall|k: int| 0 <= k < digit_run(text) ==> is_digit(#[trigger] text[k]),
        digit_run(text) < text.len() ==> !is_digit(text[digit_run(text) as int]),
    decreases text.len(),
{
    if text.len() > 0 && is_digit(text[0]) {
        let rest = text.drop_first();
        lemma_digit_run_bounds(rest);
        assert forall|k: int| 0 <= k < digit_run(text) implies is_digit(#[trigger] text[k]) by {
            if k > 0 {
                assert(text[k] == rest[k - 1]);
            }
        }
        if digit_run(text) < text.len() {
            assert(text[digit_run(text) as int] == rest[digit_run(rest) as int]);
        }
    }
}

/// A text that starts with `count` digits has a run of at least `count`.
pub proof fn lemma_digit_run_at_least(text: Seq<char>, count: nat)
    requires
        count <= text.len(),
        forall|k: int| 0 <= k < count ==> is_digit(#[trigger] text[k]),
    ensures
        digit_run(text) >= count,
    decreases count,
{
    if count > 0 {
        let rest = text.drop_first();
        assert(is_digit(text[0]));
        assert forall|k: int| 0 <= k < count - 1 implies is_digit(#[trigger] rest[k]) by {
            assert(rest[k] == text[k + 1]);
        }
        lemma_digit_run_at_least(rest, (count - 1) as nat);
    }
}

/// The run of digits is the one place where the digits stop: `count` digits
/// followed by the end of the text or by a character that is no digit.
pub proof fn lemma_digit_run_is(text: Seq<char>, count: nat)
    requires
        count <= text.len(),
        forall|k: int| 0 <= k < count ==> is_digit(#[trigger] text[k]),
        count < text.len() ==> !is_digit(text[count as int]),
    ensures
        digit_run(text) == count,
{
    lemma_digit_run_bounds(text);
    lemma_digit_run_at_least(text, count);
    if digit_run(text) > count {
        assert(is_digit(text[count as int]));
    }
}

/// Reading one more digit multiplies what was read by ten and adds the digit.
pub proof fn lemma_digits_value_step(digits: Seq<char>, count: int)
    requires
        0 <= count < digits.len(),
    ensures
        digits_value(digits.take(count + 1)) == digits_value(digits.take(count)) * 10
            + digit_value(digits[count]),
{
    let longer = digits.take(count + 1);
    assert(longer.drop_last() =~= digits.take(count));
    assert(longer.last() == digits[count]);
}

/// Digits never stand for a negative number, and reading more of them never
/// gives less.
pub proof fn lemma_digits_value_grows(digits: Seq<char>, shorter: int, longer: int)
    requires
        0 <= shorter <= longer <= digits.len(),
        forall|k: int| 0 <= k < longer ==> is_digit(#[trigger] digits[k]),
    ensures
        0 <= digits_value(digits.take(shorter)) <= digits_value(digits.take(longer)),
    decreases longer,
{
    if longer == 0 {
        assert(digits.take(0).len() == 0);
    } else {
        lemma_digits_value_step(digits, longer - 1);
        assert(is_digit(digits[longer - 1]));
        if shorter == longer {
            lemma_digits_value_grows(digits, shorter - 1, longer - 1);
        } else {
            lemma_digits_value_grows(digits, shorter, longer - 1);
        }
    }
}

/// The decimal digits of a number are digits, at least one of them, and they
/// stand for that number.
pub proof fn lemma_nat_decimal_reads_back(n: nat)
    ensures
        nat_decimal(n).len() >= 1,
        forall|k: int| 0 <= k < nat_decimal(n).len() ==> is_digit(#[trigger] nat_decimal(n)[k]),
        digits_value(nat_decimal(n)) == n,
    decreases n,
{
    let text = nat_decimal(n);
    if n < 10 {
        assert(text.drop_last().len() == 0);
        assert(digits_value(text.drop_last()) == 0);
        assert(text.last() == digit_char(n as int));
    } else {
        let front = nat_decimal(n / 10);
        lemma_nat_decimal_reads_back(n / 10);
        assert(text.drop_last() =~= front);
        assert(text.last() == digit_char((n % 10) as int));
        assert forall|k: int| 0 <= k < text.len() implies is_digit(#[trigger] text[k]) by {
            if k < front.len() {
                assert(text[k] == front[k]);
            }
        }
    }
}

/// Reading back the decimal text of a number gives that number, for every
/// number that the type can hold.
pub proof fn lemma_parse_decimal_round_trip(n: int, signed: bool, min: int, max: int)
    requires
        min <= n <= max,
        signed || n >= 0,
    ensures
        parse_decimal(int_decimal(n), signed, min, max) == Ok::<int, ParseIntError>(n),
{
    let text = int_decimal(n);
    if n < 0 {
        let digits = nat_decimal((-n) as nat);
        lemma_nat_decimal_reads_back((-n) as nat);
        assert(text[0] == '-');
        assert(text.drop_first() =~= digits);
        lemma_digit_run_is(digits, digits.len());
        assert(digits.take(digits.len() as int) =~= digits);
    } else {
        lemma_nat_decimal_reads_back(n as nat);
        assert(is_digit(text[0]));
        lemma_digit_run_is(text, text.len());
        assert(text.take(text.len() as int) =~= text);
    }
}

/// The one-character text of a digit.
fn digit_str(d: u8) -> (text: &'static str)
    requires
        d < 10,
    ensures
        text@ == seq![digit_char(d as int)],
{
    proof {
        reveal_strlit("0");
        reveal_strlit("1");
        reveal_strlit("2");
        reveal_strlit("3");
        reveal_strlit("4");
        reveal_strlit("5");
        reveal_strlit("6");
        reveal_strlit("7");
        reveal_strlit("8");
        reveal_strlit("9");
    }
    match d {
        0 => "0",
        1 => "1",
        2 => "2",
        3 => "3",
        4 => "4",
        5 => "5",
        6 => "6",
        7 => "7",
        8 => "8",
        _ => "9",
    }
}

/// Appends the decimal digits of `n` to `out`.
pub fn write_nat(n: u64, out: &mut String)
    ensures
        final(out)@ == old(out)@ + nat_decimal(n as nat),
    decreases n,
{
    if n >= 10 {
        write_nat(n / 10, out);
    }
    out.append(digit_str((n % 10) as u8));
}

/// Appends the decimal text of `n` to `out`.
pub fn write_int(n: i64, out: &mut String)
    ensures
        final(out)@ == old(out)@ + int_decimal(n as int),
{
    if n < 0 {
        proof {
            reveal_strlit("-");
        }
        out.append("-");
        let magnitude: u64 = (-(n + 1)) as u64 + 1;
        write_nat(magnitude, out);
        assert(out@ =~= old(out)@ + int_decimal(n as int));
    } else {
        write_nat(n as u64, out);
    }
}

/// The decimal text of `n`.
pub fn format_int(n: i64) -> (text: String)
    ensures
        text@ == int_decimal(n as int),
{
    let mut text = String::new();
    write_int(n, &mut text);
    assert(text@ =~= int_decimal(n as int));
    text
}

/// Reads `text` as a decimal integer between `min` and `max`.
fn parse_bounded(text: &str, signed: bool, min: i64, max: i64) -> (parsed: Result<
    i64,
    ParseIntError,
>)
    requires
        -0x1_0000_0000 <= min <= 0 <= max <= 0x1_0000_0000,
    ensures
        parsed matches Ok(value) ==> parse_decimal(text@, signed, min as int, max as int) == Ok::<
            int,
            ParseIntError,
        >(value as int),
        parsed matches Err(error) ==> parse_decimal(text@, signed, min as int, max as int)
            == Err::<int, ParseIntError>(error),
{
    if text.is_empty() {
        return Err(ParseIntError::Empty);
    }
    let mut at_start = true;
    let mut negative = false;
    let mut acc: i64 = 0;
    let mut any_digit = false;
    let ghost mut start: int = 0;
    for c in it: text.chars()
        invariant
            it.seq() == text@,
            text@.len() > 0,
            -0x1_0000_0000 <= min <= 0 <= max <= 0x1_0000_0000,
            at_start == (it.index() == 0),
            at_start ==> !negative && acc == 0 && !any_digit && start == 0,
            !at_start ==> {
                &&& negative == (signed && text@[0] == '-')
                &&& start == (if text@[0] == '+' || negative {
                    1int
                } else {
                    0int
                })
                &&& start <= it.index()
                &&& any_digit == (start < it.index())
                &&& forall|k: int| start <= k < it.index() ==> is_digit(#[trigger] text@[k])
                &&& acc == (if negative {
                    -digits_value(text@.subrange(start, it.index() as int))
                } else {
                    digits_value(text@.subrange(start, it.index() as int))
                })
                &&& min <= acc <= max
            },
    {
        let ghost index = it.index() as int;
        if at_start && (c == '+' || (signed && c == '-')) {
            negative = c == '-';
            proof {
                start = 1;
                assert(text@.subrange(1, 1).len() == 0);
            }
        } else {
            let ghost digits = text@.subrange(start, text@.len() as int);
            let ghost seen = index - start;
            proof {
                if at_start {
                    assert(text@.subrange(0, 0).len() == 0);
                }
                assert(digits =~= if text@[0] == '+' || negative {
                    text@.drop_first()
                } else {
                    text@
                });
                assert(digits.take(seen) =~= text@.subrange(start, index));
                assert(digits[seen] == c);
                assert forall|k: int| 0 <= k < seen implies is_digit(#[trigger] digits[k]) by {
                    assert(digits[k] == text@[start + k]);
                }
            }
            if !(c >= '0' && c <= '9') {
                proof {
                    lemma_digit_run_is(digits, seen as nat);
                }
                return Err(ParseIntError::InvalidDigit);
            }
            let d: i64 = ((c as u8) - 48) as i64;
            let next: i64 = if negative {
                acc * 10 - d
            } else {
                acc * 10 + d
            };
            proof {
                lemma_digits_value_step(digits, seen);
                assert(digits.take(seen + 1) =~= text@.subrange(start, index + 1));
            }
            if next > max || next < min {
                proof {
                    let run = digit_run(digits);
                    lemma_digit_run_bounds(digits);
                    lemma_digit_run_at_least(digits, (seen + 1) as nat);
                    lemma_digits_value_grows(digits, seen + 1, run as int);
                    lemma_digits_value_grows(digits, 0, seen + 1);
                }
                if next > max {
                    return Err(ParseIntError::PosOverflow);
                } else {
                    return Err(ParseIntError::NegOverflow);
                }
            }
            acc = next;
            any_digit = true;
        }
        at_start = false;
    }
    let ghost digits = text@.subrange(start, text@.len() as int);
    proof {
        assert(digits =~= if text@[0] == '+' || negative {
            text@.drop_first()
        } else {
            text@
        });
    }
    if !any_digit {
        return Err(ParseIntError::InvalidDigit);
    }
    proof {
        assert forall|k: int| 0 <= k < digits.len() implies is_digit(#[trigger] digits[k]) by {
            assert(digits[k] == text@[start + k]);
        }
        lemma_digit_run_is(digits, digits.len());
        assert(digits.take(digits.len() as int) =~= digits);
    }
    Ok(acc)
}

/// Reads `text` as an `i32`: an optional sign, then decimal digits.
pub fn parse_i32(text: &str) -> (parsed: Result<i32, ParseIntError>)
    ensures
        parsed == parse_i32_spec(text@),
{
    match parse_bounded(text, true, i32::MIN as i64, i32::MAX as i64) {
        Ok(value) => Ok(value as i32),
        Err(error) => Err(error),
    }
}

/// Reads `text` as a `u32`: an optional `+`, then decimal digits.
pub fn parse_u32(text: &str) -> (parsed: Result<u32, ParseIntError>)
    ensures
        parsed == parse_u32_spec(text@),
{
    match parse_bounded(text, false, 0, u32::MAX as i64) {
        Ok(value) => Ok(value as u32),
        Err(error) => Err(error),
    }
}

/// Reads `text` as a `u16`: an optional `+`, then decimal digits.
pub fn parse_u16(text: &str) -> (parsed: Result<u16, ParseIntError>)
    ensures
        parsed == parse_u16_spec(text@),
{
    match parse_bounded(text, false, 0, u16::MAX as i64) {
        Ok(value) => Ok(value as u16),
        Err(error) => Err(error),
    }
}

} // verus!
