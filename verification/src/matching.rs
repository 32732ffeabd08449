//! Choosing by pattern: the first arm that fits decides, guards narrow an arm,
//! and a range stands for every number in it.

use crate::decimal::{int_decimal, write_int};
use crate::text::{push_line, push_text, texts};
use vstd::prelude::*;
use vstd::string::*;

verus! {

/// The smallest amount of a color that counts as plenty.
pub const PLENTY: i32 = 10;

/// The verdict on a color given as red, green and blue: the first of the three
/// that falls short is named, and no other.
pub open spec fn color_verdict(rgb: (i32, i32, i32)) -> Seq<char> {
    if rgb.0 < PLENTY {
        "not much red"@
    } else if rgb.1 < PLENTY {
        "not much green"@
    } else if rgb.2 < PLENTY {
        "not much blue"@
    } else {
        "each color has at least 10"@
    }
}

/// Says which color of `rgb` falls short, looking at red, then green, then
/// blue, and stopping at the first that does.
pub fn match_colors(rgb: (i32, i32, i32)) -> (verdict: &'static str)
    ensures
        verdict@ == color_verdict(rgb),
{
    match rgb {
        (r, _, _) if r < PLENTY => "not much red",
        (_, g, _) if g < PLENTY => "not much green",
        (_, _, b) if b < PLENTY => "not much blue",
        _ => "each color has at least 10",
    }
}

/// The line that opens the report on a color.
pub open spec fn color_heading(rgb: (i32, i32, i32)) -> Seq<char> {
    "comparing a color with "@ + int_decimal(rgb.0 as int) + " red, "@ + int_decimal(rgb.2 as int)
        + " blue, and "@ + int_decimal(rgb.1 as int) + " green:"@
}

/// The complaint about one color, if there is too little of it.
pub open spec fn shortfall(amount: i32, color: Seq<char>) -> Seq<Seq<char>> {
    if amount < PLENTY {
        seq!["not much "@ + color]
    } else {
        Seq::empty()
    }
}

/// The full report on a color given as red, green and blue: the heading, a
/// complaint for each of red, blue and green that falls short, in that order,
/// one line of praise if none does, and an empty line.
pub open spec fn color_report(rgb: (i32, i32, i32)) -> Seq<Seq<char>> {
    let complaints = shortfall(rgb.0, "red"@) + shortfall(rgb.2, "blue"@) + shortfall(
        rgb.1,
        "green"@,
    );
    let praise = if complaints.len() == 0 {
        seq!["each color has at least 10"@]
    } else {
        Seq::empty()
    };
    seq![color_heading(rgb)] + complaints + praise + seq![Seq::<char>::empty()]
}

/// Adds the complaint about one color to `lines` if there is too little of
/// it, and says whether there was enough.
fn note_shortfall(amount: i32, color: &str, lines: &mut Vec<String>) -> (enough: bool)
    ensures
        enough == (amount >= PLENTY),
        texts(final(lines)@) == texts(old(lines)@) + shortfall(amount, color@),
{
    if amount < PLENTY {
        let mut line = String::from_str("not much ");
        line.append(color);
        push_line(lines, line);
        assert(texts(lines@) =~= texts(old(lines)@) + shortfall(amount, color@));
        false
    } else {
        assert(texts(lines@) =~= texts(old(lines)@) + shortfall(amount, color@));
        true
    }
}

/// Reports on every color of `rgb`, not only the first that falls short. The
/// lines come back in the order in which they are to be shown.
pub fn match_colors_better_version(rgb: (i32, i32, i32)) -> (lines: Vec<String>)
    ensures
        texts(lines@) == color_report(rgb),
{
    let (red, green, blue) = (rgb.0, rgb.1, rgb.2);
    let mut heading = String::from_str("comparing a color with ");
    write_int(red as i64, &mut heading);
    heading.append(" red, ");
    write_int(blue as i64, &mut heading);
    heading.append(" blue, and ");
    write_int(green as i64, &mut heading);
    heading.append(" green:");
    assert(heading@ =~= color_heading(rgb));
    let mut lines: Vec<String> = Vec::new();
    push_line(&mut lines, heading);
    assert(texts(lines@) =~= seq![color_heading(rgb)]);
    let enough_red = note_shortfall(red, "red", &mut lines);
    let enough_blue = note_shortfall(blue, "blue", &mut lines);
    let enough_green = note_shortfall(green, "green", &mut lines);
    let all_have_at_least_10 = enough_red && enough_blue && enough_green;
    if all_have_at_least_10 {
        push_text(&mut lines, "each color has at least 10");
    }
    proof {
        reveal_strlit("");
        assert(""@ =~= Seq::<char>::empty());
    }
    push_text(&mut lines, "");
    assert(texts(lines@) =~= color_report(rgb));
    lines
}

/// What there is to say about a number: four is unlucky in China, thirteen is
/// lucky in Italy, fourteen to nineteen end in "teen", and the rest is of no
/// interest.
pub open spec fn number_verdict(input: i32) -> Seq<char> {
    if input == 4 {
        int_decimal(input as int) + " is unlucky in China"@
    } else if input == 13 {
        int_decimal(input as int) + " is lucky in Italy"@
    } else if 14 <= input <= 19 {
        "Some other number that ends with --teen: "@ + int_decimal(input as int)
    } else {
        "some other number, I guess"@
    }
}

/// Says what there is to say about `input`.
pub fn match_number(input: i32) -> (verdict: String)
    ensures
        verdict@ == number_verdict(input),
{
    let mut verdict = String::new();
    match input {
        number @ 4 => {
            write_int(number as i64, &mut verdict);
            verdict.append(" is unlucky in China");
        },
        number @ 13 => {
            write_int(number as i64, &mut verdict);
            verdict.append(" is lucky in Italy");
        },
        number @ 14..=19 => {
            verdict.append("Some other number that ends with --teen: ");
            write_int(number as i64, &mut verdict);
        },
        _ => {
            verdict.append("some other number, I guess");
        },
    }
    assert(verdict@ =~= number_verdict(input));
    verdict
}

} // verus!
