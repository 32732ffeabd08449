use learn_in_a_month::borrowing::{add_hungary, add_hungary_1, count_words, get_length};

#[test]
fn a_lent_name_is_changed_for_the_lender() {
    let mut country = String::from("Austria");
    assert_eq!(add_hungary(&mut country), "Now it says: Austria-Hungary");
    assert_eq!(country, "Austria-Hungary");
    assert_eq!(add_hungary(&mut country), "Now it says: Austria-Hungary-Hungary");
    assert_eq!(country, "Austria-Hungary-Hungary");
}

#[test]
fn a_name_given_away_is_changed_and_gone() {
    let country_1 = String::from("Austria");
    assert_eq!(add_hungary_1(country_1), "Now it says: Austria-Hungary");
    assert_eq!(add_hungary_1(String::new()), "Now it says: -Hungary");
}

#[test]
fn words_are_counted() {
    assert_eq!(count_words(""), 0);
    assert_eq!(count_words(" "), 0);
    assert_eq!(count_words(" \t\r\n "), 0);
    assert_eq!(count_words("one"), 1);
    assert_eq!(count_words(" one "), 1);
    assert_eq!(count_words("one two"), 2);
    assert_eq!(count_words("one  two"), 2);
    assert_eq!(count_words("\none\ttwo three\n"), 3);
    assert_eq!(count_words("Here are some more words "), 5);
    assert_eq!(count_words("a b c d e f g h i j"), 10);
}

#[test]
fn a_text_that_grows_is_measured_each_time() {
    let mut my_string = String::new();
    for round in 1..=50 {
        my_string.push_str("Here are some more words ");
        assert_eq!(get_length(&my_string), format!("It's {} words long.", 5 * round));
    }
}

#[test]
fn an_empty_text_has_no_words() {
    assert_eq!(get_length(&String::new()), "It's 0 words long.");
    assert_eq!(get_length(&"   ".to_string()), "It's 0 words long.");
    assert_eq!(get_length(&"word".to_string()), "It's 1 words long.");
}

#[test]
fn word_count_agrees_with_the_standard_library() {
    let mut code: u32 = 0;
    while code <= 0x3100 {
        if let Some(c) = char::from_u32(code) {
            let text = format!("a{}b{}{}c", c, c, c);
            assert_eq!(count_words(&text), text.split_whitespace().count(), "on U+{:04X}", code);
            let alone = c.to_string();
            assert_eq!(count_words(&alone), alone.split_whitespace().count(), "on U+{:04X}", code);
        }
        code += 1;
    }
    for c in ['\u{180e}', '\u{200b}', '\u{2060}', '\u{feff}', '\u{e000}', '\u{10ffff}'] {
        let text = format!("x{}y {}", c, c);
        assert_eq!(count_words(&text), text.split_whitespace().count());
    }
}
