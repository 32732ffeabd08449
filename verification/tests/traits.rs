use learn_in_a_month::traits::{
    city_line, print_excitedly, Animal, Cat, City, Country, DogLike, FightClose,
    FightFromDistance, File, Monster, MonsterBehavior, Ranger, Wizard,
};

#[test]
fn an_animal_barks_and_runs_in_its_own_words() {
    let rover = Animal { name: "Rover".to_string() };
    assert_eq!(rover.bark(), "Rover, stop barking!!");
    assert_eq!(rover.run(), "Rover is running!");
}

#[test]
fn a_cat_introduces_itself() {
    let mr_mantle = Cat { name: "Reggie Mantle".to_string(), age: 4 };
    assert_eq!(mr_mantle.to_string(), "Reggie Mantle is a cat who is 4 years old");
    assert_eq!(mr_mantle.to_string().chars().count(), 41);
    let old = Cat { name: String::new(), age: 255 };
    assert_eq!(old.to_string(), " is a cat who is 255 years old");
}

#[test]
fn excitement_is_added_behind() {
    assert_eq!(
        print_excitedly("Reggie Mantle is a cat who is 4 years old".to_string()),
        "Reggie Mantle is a cat who is 4 years old !!!!!"
    );
    assert_eq!(print_excitedly(String::new()), " !!!!!");
}

#[test]
fn a_monster_loses_what_the_blow_takes() {
    let mut monster = Monster { health: 40 };
    monster.take_damage(10);
    assert_eq!(monster, Monster { health: 30 });
    monster.take_damage(-5);
    assert_eq!(monster, Monster { health: 35 });
    monster.take_damage(50);
    assert_eq!(monster, Monster { health: -15 });
}

#[test]
fn a_monster_is_shown_with_its_health() {
    for health in [40, 0, -1, i32::MAX, i32::MIN] {
        let monster = Monster { health };
        assert_eq!(monster.debug_text(), format!("{:?}", monster));
        assert_eq!(monster.display_self(), format!("The monster is now: {:?}", monster));
    }
    assert_eq!(Monster { health: 30 }.display_self(), "The monster is now: Monster { health: 30 }");
}

#[test]
fn sword_then_bow() {
    let radagast = Wizard { health: 60 };
    let aragorn = Ranger { health: 80 };
    let mut uruk_hai = Monster { health: 40 };
    assert_eq!(
        radagast.attack_with_sword(&mut uruk_hai),
        vec!["You attack with your sword!", "The monster is now: Monster { health: 30 }"]
    );
    assert_eq!(uruk_hai.health, 30);
    assert_eq!(
        aragorn.attack_with_bow(&mut uruk_hai, 8),
        vec!["You attack with your bow!", "The monster is now: Monster { health: 20 }"]
    );
    assert_eq!(uruk_hai.health, 20);
}

#[test]
fn a_ranger_fights_close_too() {
    let aragorn = Ranger { health: 80 };
    let mut orc = Monster { health: 12 };
    assert_eq!(
        aragorn.attack_with_sword(&mut orc),
        vec!["You attack with your sword!", "The monster is now: Monster { health: 2 }"]
    );
    assert_eq!(
        aragorn.attack_with_hand(&mut orc),
        vec!["You attack with your hand!", "The monster is now: Monster { health: 0 }"]
    );
    assert_eq!(
        aragorn.attack_with_hand(&mut orc),
        vec!["You attack with your hand!", "The monster is now: Monster { health: -2 }"]
    );
    assert_eq!(orc.health, -2);
}

#[test]
fn an_arrow_reaches_less_than_ten() {
    let aragorn = Ranger { health: 80 };
    let mut orc = Monster { health: 40 };
    assert_eq!(
        aragorn.attack_with_bow(&mut orc, 9),
        vec!["You attack with your bow!", "The monster is now: Monster { health: 30 }"]
    );
    assert_eq!(
        aragorn.attack_with_bow(&mut orc, 10),
        vec![
            "You attack with your bow!",
            "Too far away!",
            "The monster is now: Monster { health: 30 }",
        ]
    );
    assert_eq!(
        aragorn.attack_with_bow(&mut orc, 0),
        vec!["You attack with your bow!", "The monster is now: Monster { health: 20 }"]
    );
    assert_eq!(
        aragorn.attack_with_bow(&mut orc, u32::MAX),
        vec![
            "You attack with your bow!",
            "Too far away!",
            "The monster is now: Monster { health: 20 }",
        ]
    );
    assert_eq!(orc.health, 20);
}

#[test]
fn a_rock_reaches_less_than_three() {
    let aragorn = Ranger { health: 80 };
    let mut orc = Monster { health: 40 };
    assert_eq!(
        aragorn.attack_with_rock(&mut orc, 2),
        vec!["You attack with a rock!", "The monster is now: Monster { health: 36 }"]
    );
    assert_eq!(
        aragorn.attack_with_rock(&mut orc, 3),
        vec![
            "You attack with a rock!",
            "Too far away!",
            "The monster is now: Monster { health: 36 }",
        ]
    );
    assert_eq!(orc.health, 36);
}

#[test]
fn a_shot_out_of_reach_needs_no_room_for_the_blow() {
    let aragorn = Ranger { health: 80 };
    let mut frail = Monster { health: i32::MIN };
    assert_eq!(
        aragorn.attack_with_bow(&mut frail, 10),
        vec![
            "You attack with your bow!",
            "Too far away!",
            "The monster is now: Monster { health: -2147483648 }",
        ]
    );
    assert_eq!(frail.health, i32::MIN);
}

#[test]
fn a_city_of_two_fields() {
    let helsinki = City::new("Helsinki", 631_695);
    assert_eq!(helsinki.name, "Helsinki");
    assert_eq!(helsinki.population, 631_695);
}

#[test]
fn a_country_is_made_from_its_cities() {
    let helsinki = City::new("Helsinki", 631_695);
    let turku = City::new("Turku", 186_756);
    let finland = Country::from(vec![helsinki, turku]);
    assert_eq!(finland.cities.len(), 2);
    assert_eq!(finland.cities[0], City::new("Helsinki", 631_695));
    assert_eq!(finland.cities[1], City::new("Turku", 186_756));
    let nowhere: Country = Vec::new().into();
    assert_eq!(nowhere.cities, Vec::<City>::new());
}

#[test]
fn each_city_gets_its_line() {
    let finland =
        Country::from(vec![City::new("Helsinki", 631_695), City::new("Turku", 186_756)]);
    assert_eq!(
        finland.print_cities(),
        vec![
            "\"Helsinki\" has a population of 631695.",
            "\"Turku\" has a population of 186756.",
        ]
    );
    assert_eq!(Country::from(Vec::new()).print_cities(), Vec::<String>::new());
}

#[test]
fn a_city_name_is_shown_with_escapes() {
    let odd = Country::from(vec![City::new("New\n\"York\"", 0), City::new("", u32::MAX)]);
    assert_eq!(
        odd.print_cities(),
        vec![
            "\"New\\n\\\"York\\\"\" has a population of 0.",
            "\"\" has a population of 4294967295.",
        ]
    );
    for city in &odd.cities {
        assert_eq!(
            city_line(&format!("{:?}", city.name), city.population),
            format!("{:?} has a population of {:?}.", city.name, city.population)
        );
    }
}

#[test]
fn a_city_line_from_its_parts() {
    assert_eq!(city_line("\"Turku\"", 186_756), "\"Turku\" has a population of 186756.");
    assert_eq!(city_line("", 0), " has a population of 0.");
}

#[test]
fn a_file_is_shown_as_its_bytes() {
    let file = File(String::from("I am file contents"));
    assert_eq!(
        file.to_string(),
        "[73, 32, 97, 109, 32, 102, 105, 108, 101, 32, 99, 111, 110, 116, 101, 110, 116, 115]"
    );
    assert_eq!(File(String::new()).to_string(), "[]");
    assert_eq!(File("A".to_string()).to_string(), "[65]");
    assert_eq!(File("\u{e9}".to_string()).to_string(), "[195, 169]");
}

#[test]
fn a_file_is_shown_as_the_standard_library_shows_bytes() {
    for text in ["", "a", "ab", "I am file contents", "\u{0}\u{7f}", "\u{ad6c}\u{c6b4}\u{baa8}"] {
        assert_eq!(File(text.to_string()).to_string(), format!("{:?}", text.as_bytes()));
    }
}

#[test]
fn a_file_equals_what_it_holds() {
    let my_file = File(String::from("I am file contents"));
    let my_string = String::from("I am file contents");
    assert!(my_file.0 == my_string);
}
