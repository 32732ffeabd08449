//! Behaviour shared through traits: methods that every implementor writes for
//! itself, methods that come with the trait, and conversions between types.

use crate::decimal::{int_decimal, write_int, write_nat};
use crate::text::{push_line, push_text, texts};
use vstd::prelude::*;
use vstd::std_specs::convert::FromSpecImpl;
use vstd::string::*;
use vstd::utf8::encode_utf8;

verus! {

/// An animal that is known by its name only.
#[derive(Debug, PartialEq, Eq)]
pub struct Animal {
    pub name: String,
}

/// What anything that is like a dog can do. Each implementor says in its own
/// words what happens.
pub trait DogLike {
    /// What is said when it barks.
    fn bark(&self) -> String;

    /// What is said when it runs.
    fn run(&self) -> String;
}

impl DogLike for Animal {
    fn bark(&self) -> (line: String)
        ensures
            line@ == self.name@ + ", stop barking!!"@,
    {
        let mut line = self.name.clone();
        line.append(", stop barking!!");
        line
    }

    fn run(&self) -> (line: String)
        ensures
            line@ == self.name@ + " is running!"@,
    {
        let mut line = self.name.clone();
        line.append(" is running!");
        line
    }
}

/// A cat: its name and its age in years.
#[derive(Debug, PartialEq, Eq)]
pub struct Cat {
    pub name: String,
    pub age: u8,
}

impl Cat {
    /// The sentence that introduces the cat.
    pub open spec fn display_view(&self) -> Seq<char> {
        self.name@ + " is a cat who is "@ + int_decimal(self.age as int) + " years old"@
    }

    /// The sentence that introduces the cat.
    pub fn to_string(&self) -> (text: String)
        ensures
            text@ == self.display_view(),
    {
        let mut text = self.name.clone();
        text.append(" is a cat who is ");
        write_int(self.age as i64, &mut text);
        text.append(" years old");
        assert(text@ =~= self.display_view());
        text
    }
}

/// `input` with a burst of exclamation marks behind it.
pub fn print_excitedly(input: String) -> (line: String)
    ensures
        line@ == input@ + " !!!!!"@,
{
    input.concat(" !!!!!")
}

/// What a fighter needs of an opponent: it can be hurt, and it can be shown.
pub trait MonsterBehavior: Sized {
    /// Whether the opponent can take a blow of the given strength: each
    /// implementor draws its own line.
    spec fn bears(&self, damage: i32) -> bool;

    /// The opponent as a blow of the given strength leaves it.
    spec fn after_damage(&self, damage: i32) -> Self;

    /// The opponent written out with its fields.
    spec fn debug_view(&self) -> Seq<char>;

    /// Deals a blow of the given strength.
    fn take_damage(&mut self, damage: i32)
        requires
            old(self).bears(damage),
        ensures
            *final(self) == old(self).after_damage(damage),
    ;

    /// The opponent written out with its fields.
    fn debug_text(&self) -> (text: String)
        ensures
            text@ == self.debug_view(),
    ;

    /// The line that shows the opponent as it is now.
    fn display_self(&self) -> (line: String)
        ensures
            line@ == monster_line(self.debug_view()),
    {
        let mut line = String::from_str("The monster is now: ");
        line.append(self.debug_text().as_str());
        line
    }
}

/// The line that shows an opponent, given how it is written out.
pub open spec fn monster_line(debug_view: Seq<char>) -> Seq<char> {
    "The monster is now: "@ + debug_view
}

/// A monster and the health it has left.
#[derive(Debug, Clone, Copy, PartialEq, Eq, Structural)]
pub struct Monster {
    pub health: i32,
}

impl MonsterBehavior for Monster {
    /// A monster bears every blow that leaves its health a number that an
    /// `i32` can hold.
    open spec fn bears(&self, damage: i32) -> bool {
        i32::MIN <= self.health - damage <= i32::MAX
    }

    open spec fn after_damage(&self, damage: i32) -> Self {
        Monster { health: (self.health - damage) as i32 }
    }

    open spec fn debug_view(&self) -> Seq<char> {
        "Monster { health: "@ + int_decimal(self.health as int) + " }"@
    }

    fn take_damage(&mut self, damage: i32) {
        self.health -= damage;
    }

    fn debug_text(&self) -> (text: String) {
        let mut text = String::from_str("Monster { health: ");
        write_int(self.health as i64, &mut text);
        text.append(" }");
        assert(text@ =~= self.debug_view());
        text
    }
}

/// A wizard and the health it has left.
#[derive(Debug, Clone, Copy, PartialEq, Eq, Structural)]
pub struct Wizard {
    pub health: i32,
}

/// A ranger and the health it has left.
#[derive(Debug, Clone, Copy, PartialEq, Eq, Structural)]
pub struct Ranger {
    pub health: i32,
}

/// How hard a sword hits.
pub const SWORD_DAMAGE: i32 = 10;

/// How hard a bare hand hits.
pub const HAND_DAMAGE: i32 = 2;

/// How hard an arrow hits.
pub const BOW_DAMAGE: i32 = 10;

/// How hard a rock hits.
pub const ROCK_DAMAGE: i32 = 4;

/// The distance from which an arrow no longer reaches.
pub const BOW_RANGE: u32 = 10;

/// The distance from which a rock no longer reaches.
pub const ROCK_RANGE: u32 = 3;

/// The report on a blow from close by: the announcement, then the opponent as
/// the blow left it.
pub open spec fn close_report(announcement: Seq<char>, debug_view: Seq<char>) -> Seq<Seq<char>> {
    seq![announcement, monster_line(debug_view)]
}

/// The report on a shot: the announcement, a word of regret if the opponent
/// was out of reach, then the opponent as it is after the shot.
pub open spec fn distance_report(announcement: Seq<char>, reached: bool, debug_view: Seq<char>) -> Seq<
    Seq<char>,
> {
    if reached {
        seq![announcement, monster_line(debug_view)]
    } else {
        seq![announcement, "Too far away!"@, monster_line(debug_view)]
    }
}

/// Fighting at arm's length. Whoever has this trait fights the same way.
pub trait FightClose {
    /// Strikes `opponent` with a sword, and reports.
    fn attack_with_sword<T: MonsterBehavior>(&self, opponent: &mut T) -> (report: Vec<String>)
        requires
            old(opponent).bears(SWORD_DAMAGE),
        ensures
            *final(opponent) == old(opponent).after_damage(SWORD_DAMAGE),
            texts(report@) == close_report(
                "You attack with your sword!"@,
                final(opponent).debug_view(),
            ),
    {
        let mut report: Vec<String> = Vec::new();
        push_text(&mut report, "You attack with your sword!");
        opponent.take_damage(SWORD_DAMAGE);
        push_line(&mut report, opponent.display_self());
        assert(texts(report@) =~= close_report(
            "You attack with your sword!"@,
            opponent.debug_view(),
        ));
        report
    }

    /// Strikes a monster with the bare hand, and reports.
    fn attack_with_hand(&self, opponent: &mut Monster) -> (report: Vec<String>)
        requires
            old(opponent).bears(HAND_DAMAGE),
        ensures
            *final(opponent) == old(opponent).after_damage(HAND_DAMAGE),
            texts(report@) == close_report(
                "You attack with your hand!"@,
                final(opponent).debug_view(),
            ),
    {
        let mut report: Vec<String> = Vec::new();
        push_text(&mut report, "You attack with your hand!");
        opponent.take_damage(HAND_DAMAGE);
        push_line(&mut report, opponent.display_self());
        assert(texts(report@) =~= close_report(
            "You attack with your hand!"@,
            opponent.debug_view(),
        ));
        report
    }
}

impl FightClose for Wizard {

}

impl FightClose for Ranger {

}

/// Fighting from afar. A shot hurts only an opponent that is within reach.
pub trait FightFromDistance {
    /// Shoots an arrow at `opponent`, which is `distance` away, and reports.
    /// The arrow hits from less than [`BOW_RANGE`] away.
    fn attack_with_bow<T: MonsterBehavior>(&self, opponent: &mut T, distance: u32) -> (report: Vec<
        String,
    >)
        requires
            distance < BOW_RANGE ==> old(opponent).bears(BOW_DAMAGE),
        ensures
            distance < BOW_RANGE ==> *final(opponent) == old(opponent).after_damage(BOW_DAMAGE),
            distance >= BOW_RANGE ==> *final(opponent) == *old(opponent),
            texts(report@) == distance_report(
                "You attack with your bow!"@,
                distance < BOW_RANGE,
                final(opponent).debug_view(),
            ),
    {
        let mut report: Vec<String> = Vec::new();
        push_text(&mut report, "You attack with your bow!");
        if distance < BOW_RANGE {
            opponent.take_damage(BOW_DAMAGE);
        } else {
            push_text(&mut report, "Too far away!");
        }
        push_line(&mut report, opponent.display_self());
        assert(texts(report@) =~= distance_report(
            "You attack with your bow!"@,
            distance < BOW_RANGE,
            opponent.debug_view(),
        ));
        report
    }

    /// Throws a rock at `opponent`, which is `distance` away, and reports.
    /// The rock hits from less than [`ROCK_RANGE`] away.
    fn attack_with_rock<T: MonsterBehavior>(&self, opponent: &mut T, distance: u32) -> (report: Vec<
        String,
    >)
        requires
            distance < ROCK_RANGE ==> old(opponent).bears(ROCK_DAMAGE),
        ensures
            distance < ROCK_RANGE ==> *final(opponent) == old(opponent).after_damage(ROCK_DAMAGE),
            distance >= ROCK_RANGE ==> *final(opponent) == *old(opponent),
            texts(report@) == distance_report(
                "You attack with a rock!"@,
                distance < ROCK_RANGE,
                final(opponent).debug_view(),
            ),
    {
        let mut report: Vec<String> = Vec::new();
        push_text(&mut report, "You attack with a rock!");
        if distance < ROCK_RANGE {
            opponent.take_damage(ROCK_DAMAGE);
        } else {
            push_text(&mut report, "Too far away!");
        }
        push_line(&mut report, opponent.display_self());
        assert(texts(report@) =~= distance_report(
            "You attack with a rock!"@,
            distance < ROCK_RANGE,
            opponent.debug_view(),
        ));
        report
    }
}

impl FightFromDistance for Ranger {

}

/// A city: its name and how many people live in it.
#[derive(Debug, PartialEq, Eq)]
pub struct City {
    pub name: String,
    pub population: u32,
}

impl City {
    /// A city with the given name and population.
    pub fn new(name: &str, population: u32) -> (city: Self)
        ensures
            city.name@ == name@,
            city.population == population,
    {
        Self { name: name.to_string(), population }
    }
}

/// A country: the cities in it.
#[derive(Debug, PartialEq, Eq)]
pub struct Country {
    pub cities: Vec<City>,
}

impl From<Vec<City>> for Country {
    fn from(cities: Vec<City>) -> (country: Self) {
        Self { cities }
    }
}

impl FromSpecImpl<Vec<City>> for Country {
    open spec fn obeys_from_spec() -> bool {
        true
    }

    open spec fn from_spec(cities: Vec<City>) -> Self {
        Country { cities }
    }
}

/// How the standard library shows a text to a programmer: between double
/// quotes, with the characters that could mislead written as escapes.
pub uninterp spec fn str_debug(text: Seq<char>) -> Seq<char>;

/// Shows `text` as the standard library shows a `str` under `{:?}`.
///
/// The call goes to `<str as Debug>::fmt` and is not verified. What is
/// believed of it is only that the result depends on the text alone;
/// [`str_debug`] is the name of that result.
#[verifier::external_body]
fn debug_quoted(text: &str) -> (quoted: String)
    ensures
        quoted@ == str_debug(text@),
{
    format!("{:?}", text)
}

/// The line on one city, given its name as it is shown to a programmer.
pub open spec fn city_line_view(quoted_name: Seq<char>, population: u32) -> Seq<char> {
    quoted_name + " has a population of "@ + int_decimal(population as int) + "."@
}

/// The line on one city, given its name as it is shown to a programmer.
pub fn city_line(quoted_name: &str, population: u32) -> (line: String)
    ensures
        line@ == city_line_view(quoted_name@, population),
{
    let mut line = String::from_str(quoted_name);
    line.append(" has a population of ");
    write_nat(population as u64, &mut line);
    line.append(".");
    assert(line@ =~= city_line_view(quoted_name@, population));
    line
}

impl Country {
    /// The line on each city of the country, in order.
    pub open spec fn city_lines(&self) -> Seq<Seq<char>> {
        self.cities@.map_values(|city: City| city_line_view(str_debug(city.name@), city.population))
    }

    /// One line for each city of the country, in order: its name as it is
    /// shown to a programmer, and its population.
    pub fn print_cities(&self) -> (lines: Vec<String>)
        ensures
            texts(lines@) == self.city_lines(),
    {
        let mut lines: Vec<String> = Vec::new();
        let mut index: usize = 0;
        while index < self.cities.len()
            invariant
                index <= self.cities.len(),
                texts(lines@) == self.cities@.take(index as int).map_values(
                    |city: City| city_line_view(str_debug(city.name@), city.population),
                ),
            decreases self.cities.len() - index,
        {
            let city = &self.cities[index];
            let quoted = debug_quoted(city.name.as_str());
            push_line(&mut lines, city_line(quoted.as_str(), city.population));
            assert(texts(lines@) =~= self.cities@.take(index + 1).map_values(
                |city: City| city_line_view(str_debug(city.name@), city.population),
            ));
            index = index + 1;
        }
        assert(self.cities@.take(index as int) =~= self.cities@);
        lines
    }
}

/// The contents of a file, held as text.
#[derive(Debug, PartialEq, Eq)]
pub struct File(pub String);

/// Numbers written one after the other in decimal, with a comma and a space
/// between each two.
pub open spec fn comma_separated(bytes: Seq<u8>) -> Seq<char>
    decreases bytes.len(),
{
    if bytes.len() == 0 {
        Seq::empty()
    } else if bytes.len() == 1 {
        int_decimal(bytes[0] as int)
    } else {
        comma_separated(bytes.drop_last()) + ", "@ + int_decimal(bytes.last() as int)
    }
}

/// A list of bytes as it is shown to a programmer: the numbers in decimal,
/// separated by commas, between square brackets.
pub open spec fn bytes_debug(bytes: Seq<u8>) -> Seq<char> {
    "["@ + comma_separated(bytes) + "]"@
}

impl File {
    /// The file shown as the bytes of its text in UTF-8.
    pub open spec fn display_view(&self) -> Seq<char> {
        bytes_debug(encode_utf8(self.0@))
    }

    /// The file shown as the bytes of its text in UTF-8.
    pub fn to_string(&self) -> (text: String)
        ensures
            text@ == self.display_view(),
    {
        let bytes = self.0.as_str().as_bytes();
        let mut text = String::from_str("[");
        let ghost opening = text@;
        let mut index: usize = 0;
        while index < bytes.len()
            invariant
                index <= bytes.len(),
                text@ == opening + comma_separated(bytes@.take(index as int)),
            decreases bytes.len() - index,
        {
            let ghost done = bytes@.take(index as int);
            let ghost next = bytes@.take(index + 1);
            if index > 0 {
                text.append(", ");
            }
            write_nat(bytes[index] as u64, &mut text);
            proof {
                assert(next.drop_last() =~= done);
                assert(next.last() == bytes@[index as int]);
                assert(text@ =~= opening + comma_separated(next));
            }
            index = index + 1;
        }
        assert(bytes@.take(index as int) =~= bytes@);
        text.append("]");
        text
    }
}

} // verus!
