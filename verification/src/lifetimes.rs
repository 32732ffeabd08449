//! Text that lives as long as the program, and records that borrow their text
//! from somewhere else.

use crate::decimal::{int_decimal, write_nat};
use vstd::prelude::*;
use vstd::string::*;

verus! {

/// A text that is part of the program itself and so outlives every caller.
pub fn works() -> (text: &'static str)
    ensures
        text@ == "I live forever!"@,
{
    "I live forever!"
}

/// How many hit points one blow costs an adventurer.
pub const BLOW: u32 = 20;

/// An adventurer: a name that is borrowed, and the hit points that are left.
#[derive(Debug, PartialEq, Eq)]
pub struct Adventurer<'a> {
    pub name: &'a str,
    pub hit_points: u32,
}

impl Adventurer<'_> {
    /// The line that tells how an adventurer stands.
    pub open spec fn standing(&self) -> Seq<char> {
        self.name@ + " has "@ + int_decimal(self.hit_points as int) + " hit points left!"@
    }

    /// Takes one blow, which costs [`BLOW`] hit points, and tells how the
    /// adventurer stands after it. An adventurer with fewer hit points than
    /// that cannot take the blow.
    pub fn take_damage(&mut self) -> (line: String)
        requires
            old(self).hit_points >= BLOW,
        ensures
            final(self).hit_points == old(self).hit_points - BLOW,
            final(self).name@ == old(self).name@,
            line@ == final(self).standing(),
    {
        self.hit_points -= BLOW;
        let mut line = String::from_str(self.name);
        line.append(" has ");
        write_nat(self.hit_points as u64, &mut line);
        line.append(" hit points left!");
        assert(line@ =~= self.standing());
        line
    }
}

} // verus!
