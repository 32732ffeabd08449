use learn_in_a_month::company::{get_current_datetime, in_char_vec, Company};

#[test]
fn a_company_with_a_chief_executive() {
    let ovintiv = Company::new("Ovintiv", "Brendan McCracken");
    assert_eq!(ovintiv.name, "Ovintiv");
    assert_eq!(ovintiv.ceo, Some("Brendan McCracken".to_string()));
    assert_eq!(ovintiv.get_ceo(), Some("Brendan McCracken".to_string()));
    let umbrella = Company::new("Umbrella Corporation", "Unknown");
    assert_eq!(umbrella.get_ceo(), Some("Unknown".to_string()));
    let blank = Company::new("Blank", " ");
    assert_eq!(blank.get_ceo(), Some(" ".to_string()));
}

#[test]
fn a_company_without_a_chief_executive() {
    let league = Company::new("The Red-Headed League", "");
    assert_eq!(league.name, "The Red-Headed League");
    assert_eq!(league.ceo, None);
    assert_eq!(league.get_ceo(), None);
}

#[test]
fn asking_for_the_chief_executive_changes_nothing() {
    let stark = Company::new("Stark Enterprises", "Tony");
    assert_eq!(stark.get_ceo(), Some("Tony".to_string()));
    assert_eq!(stark.get_ceo(), Some("Tony".to_string()));
    assert_eq!(stark, Company::new("Stark Enterprises", "Tony"));
}

#[test]
fn the_present_never_changes() {
    assert_eq!(get_current_datetime(), "2024-01-27T23:11:23");
    assert_eq!(get_current_datetime(), get_current_datetime());
}

#[test]
fn a_character_is_looked_for() {
    let char_vec = ('a'..'\u{50cd}').collect::<Vec<char>>();
    assert_eq!(in_char_vec(&char_vec, 'i'), "Is i inside? true");
    assert_eq!(in_char_vec(&char_vec, '\u{bf41}'), "Is \u{bf41} inside? false");
    assert_eq!(in_char_vec(&char_vec, '\u{947f}'), "Is \u{947f} inside? false");
    assert_eq!(in_char_vec(&char_vec, 'a'), "Is a inside? true");
    assert_eq!(in_char_vec(&char_vec, '\u{50cc}'), "Is \u{50cc} inside? true");
    assert_eq!(in_char_vec(&char_vec, '\u{50cd}'), "Is \u{50cd} inside? false");
}

#[test]
fn nothing_is_in_an_empty_collection() {
    assert_eq!(in_char_vec(&Vec::new(), 'x'), "Is x inside? false");
    assert_eq!(in_char_vec(&vec!['z', 'y', 'x'], 'x'), "Is x inside? true");
    assert_eq!(in_char_vec(&vec!['z', 'y', 'x'], 'z'), "Is z inside? true");
    assert_eq!(in_char_vec(&vec!['z', 'y', 'x'], 'w'), "Is w inside? false");
}
