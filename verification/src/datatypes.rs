//! Records and choices: structs that hold one thing and another, enums that
//! hold one thing or another, and the methods that belong to them.

use crate::decimal::{int_decimal, write_int};
use crate::text::{bool_str, bool_text};
use vstd::prelude::*;
use vstd::string::*;

verus! {

/// What can be seen in the sky, with a remark about it.
#[derive(Debug, PartialEq, Eq)]
pub enum ThingsInTheSky {
    Sun(String),
    Stars(String),
}

impl ThingsInTheSky {
    /// The remark that the value carries.
    pub open spec fn description(&self) -> Seq<char> {
        match self {
            ThingsInTheSky::Sun(description) => description@,
            ThingsInTheSky::Stars(description) => description@,
        }
    }
}

/// What the sky shows at the given hour: the sun from six to eighteen, both
/// included, and the stars at any other hour.
pub fn create_skystate(time: i32) -> (sky: ThingsInTheSky)
    ensures
        (6 <= time <= 18) == (sky is Sun),
        sky is Sun ==> sky.description() == "I can see the sun!"@,
        sky is Stars ==> sky.description() == "I can see the stars!"@,
{
    match time {
        6..=18 => ThingsInTheSky::Sun(String::from_str("I can see the sun!")),
        _ => ThingsInTheSky::Stars(String::from_str("I can see the stars!")),
    }
}

/// The remark to show for a sky.
pub fn check_skystate(state: &ThingsInTheSky) -> (line: &str)
    ensures
        line@ == state.description(),
{
    match state {
        ThingsInTheSky::Sun(description) => description.as_str(),
        ThingsInTheSky::Stars(n) => n.as_str(),
    }
}

/// A mood.
#[derive(Debug, Clone, Copy, PartialEq, Eq, Structural)]
pub enum Mood {
    Happy,
    Sleepy,
    NotBad,
    Angry,
}

/// How happy a mood is, on a scale from one to ten.
pub open spec fn happiness_level(mood: Mood) -> int {
    match mood {
        Mood::Happy => 10,
        Mood::Sleepy => 6,
        Mood::NotBad => 7,
        Mood::Angry => 2,
    }
}

/// How happy `mood` is, on a scale from one to ten.
pub fn match_mood(mood: &Mood) -> (happiness: i32)
    ensures
        happiness == happiness_level(*mood),
{
    let happiness_level = match mood {
        Mood::Happy => 10,
        Mood::Sleepy => 6,
        Mood::NotBad => 7,
        Mood::Angry => 2,
    };
    happiness_level
}

impl Mood {
    /// The name of a mood in plain words.
    pub open spec fn name(self) -> Seq<char> {
        match self {
            Mood::Happy => "happy"@,
            Mood::Angry => "angry"@,
            Mood::NotBad => "not bad"@,
            Mood::Sleepy => "sleepy"@,
        }
    }

    /// The name of the mood in plain words.
    pub fn check(&self) -> (name: &'static str)
        ensures
            name@ == self.name(),
    {
        match self {
            Mood::Happy => "happy",
            Mood::Angry => "angry",
            Mood::NotBad => "not bad",
            Mood::Sleepy => "sleepy",
        }
    }
}

/// A number that is kept unsigned where it is positive and signed where it is
/// not.
#[derive(Debug, Clone, Copy, PartialEq, Eq, Structural)]
pub enum Number {
    U32(u32),
    I32(i32),
}

/// Sorts `input` by its sign: a positive number becomes unsigned, zero and
/// the negative numbers stay signed. The value is kept either way.
pub fn get_number(input: i32) -> (number: Number)
    ensures
        input > 0 ==> number == Number::U32(input as u32),
        input <= 0 ==> number == Number::I32(input),
{
    let number = match input > 0 {
        true => Number::U32(input as u32),
        false => Number::I32(input),
    };
    number
}

/// The two kinds of animal.
#[derive(Debug, Clone, Copy, PartialEq, Eq, Structural)]
pub enum AnimalType {
    Cat,
    Dog,
}

impl AnimalType {
    /// The name of the kind as it is written in the program.
    pub open spec fn name(self) -> Seq<char> {
        match self {
            AnimalType::Cat => "Cat"@,
            AnimalType::Dog => "Dog"@,
        }
    }
}

/// An animal: its age and its kind.
#[derive(Debug, Clone, Copy, PartialEq, Eq, Structural)]
pub struct Animal {
    pub age: u8,
    pub animal_type: AnimalType,
}

impl Animal {
    /// The animal written out with its fields, as a debugging aid shows it.
    pub open spec fn debug_view(self) -> Seq<char> {
        "Animal { age: "@ + int_decimal(self.age as int) + ", animal_type: "@
            + self.animal_type.name() + " }"@
    }

    /// The sentence that tells the kind of the animal.
    pub open spec fn type_sentence(self) -> Seq<char> {
        match self.animal_type {
            AnimalType::Dog => "the animal is a dog"@,
            AnimalType::Cat => "the animal is a cat"@,
        }
    }

    /// A cat of ten years.
    pub fn new_cat() -> (cat: Self)
        ensures
            cat == (Animal { age: 10, animal_type: AnimalType::Cat }),
    {
        Self { age: 10, animal_type: AnimalType::Cat }
    }

    /// The sentence that tells the kind of the animal.
    pub fn check_type(&self) -> (sentence: &'static str)
        ensures
            sentence@ == self.type_sentence(),
    {
        match self.animal_type {
            AnimalType::Dog => "the animal is a dog",
            AnimalType::Cat => "the animal is a cat",
        }
    }

    /// The animal written out with its fields.
    pub fn debug_text(&self) -> (text: String)
        ensures
            text@ == self.debug_view(),
    {
        let mut text = String::from_str("Animal { age: ");
        write_int(self.age as i64, &mut text);
        text.append(", animal_type: ");
        match self.animal_type {
            AnimalType::Cat => text.append("Cat"),
            AnimalType::Dog => text.append("Dog"),
        }
        text.append(" }");
        assert(text@ =~= self.debug_view());
        text
    }

    /// Turns the animal into a dog, whatever it was, and keeps its age. The
    /// line that comes back reports the change and shows the animal after it.
    pub fn change_to_dog(&mut self) -> (report: String)
        ensures
            *final(self) == (Animal { age: old(self).age, animal_type: AnimalType::Dog }),
            report@ == "changed animal to dog! now it's "@ + final(self).debug_view(),
    {
        self.animal_type = AnimalType::Dog;
        let mut report = String::from_str("changed animal to dog! now it's ");
        report.append(self.debug_text().as_str());
        report
    }

    /// Turns the animal into a cat, whatever it was, and keeps its age. The
    /// line that comes back reports the change and shows the animal after it.
    pub fn change_to_cat(&mut self) -> (report: String)
        ensures
            *final(self) == (Animal { age: old(self).age, animal_type: AnimalType::Cat }),
            report@ == "changed animal to cat! now it's "@ + final(self).debug_view(),
    {
        self.animal_type = AnimalType::Cat;
        let mut report = String::from_str("changed animal to cat! now it's ");
        report.append(self.debug_text().as_str());
        report
    }
}

/// A person: the name they go by, their real name, their height in
/// centimetres, and whether they are happy.
#[derive(Debug, PartialEq, Eq)]
pub struct Person {
    pub name: String,
    pub real_name: String,
    pub height: u8,
    pub happiness: bool,
}

/// The question whether somebody of the given name is happy, with its answer.
pub open spec fn happiness_line(name: Seq<char>, happiness: bool) -> Seq<char> {
    "Is "@ + name + " happy? "@ + bool_text(happiness)
}

/// Asks whether `person` is happy and answers: the name they go by, then
/// `true` or `false`.
pub fn check_if_happy(person: &Person) -> (line: String)
    ensures
        line@ == happiness_line(person.name@, person.happiness),
{
    let mut line = String::from_str("Is ");
    line.append(person.name.as_str());
    line.append(" happy? ");
    line.append(bool_str(person.happiness));
    assert(line@ =~= happiness_line(person.name@, person.happiness));
    line
}

/// The same question and answer as [`check_if_happy`], with the two fields
/// that it needs taken out of the person at the door.
pub fn check_if_happy_destructured(person: &Person) -> (line: String)
    ensures
        line@ == happiness_line(person.name@, person.happiness),
{
    let Person { name, happiness, .. } = person;
    let mut line = String::from_str("Is ");
    line.append(name.as_str());
    line.append(" happy? ");
    line.append(bool_str(*happiness));
    assert(line@ =~= happiness_line(person.name@, person.happiness));
    line
}

/// A city: its name today, the name it had before, how many people live in
/// it, and the year of its founding.
#[derive(Debug, PartialEq, Eq)]
pub struct City {
    pub name: String,
    pub name_before: String,
    pub population: u32,
    pub date_founded: u32,
}

impl City {
    /// The sentence that sets the two names of the city side by side.
    pub open spec fn names_line(&self) -> Seq<char> {
        "the city "@ + self.name@ + " used to be called "@ + self.name_before@
    }

    /// A city with the given names and numbers.
    pub fn new(name: &str, name_before: &str, population: u32, date_founded: u32) -> (city: Self)
        ensures
            city.name@ == name@,
            city.name_before@ == name_before@,
            city.population == population,
            city.date_founded == date_founded,
    {
        Self {
            name: String::from_str(name),
            name_before: String::from_str(name_before),
            population,
            date_founded,
        }
    }

    /// The sentence that sets the two names of the city side by side.
    pub fn print_names(&self) -> (line: String)
        ensures
            line@ == self.names_line(),
    {
        let City { name, name_before, .. } = self;
        let mut line = String::from_str("the city ");
        line.append(name.as_str());
        line.append(" used to be called ");
        line.append(name_before.as_str());
        assert(line@ =~= self.names_line());
        line
    }
}

} // verus!
