use learn_in_a_month::decimal::ParseIntError;
use learn_in_a_month::parsing::{parse_and_log_str, parse_str};

#[test]
fn a_number_that_was_read_is_logged() {
    let mut log = Vec::new();
    assert_eq!(parse_and_log_str("8", &mut log), Ok(8));
    assert_eq!(parse_and_log_str("6060", &mut log), Ok(6060));
    assert_eq!(parse_and_log_str("-12", &mut log), Ok(-12));
    assert_eq!(
        log,
        vec![
            "Number parsed successfully into 8",
            "Number parsed successfully into 6060",
            "Number parsed successfully into -12",
        ]
    );
}

#[test]
fn a_failure_is_handed_back_and_not_logged() {
    let mut log = vec!["kept".to_string()];
    assert_eq!(parse_and_log_str("Seven", &mut log), Err(ParseIntError::InvalidDigit));
    assert_eq!(parse_and_log_str("9.0", &mut log), Err(ParseIntError::InvalidDigit));
    assert_eq!(parse_and_log_str("nice", &mut log), Err(ParseIntError::InvalidDigit));
    assert_eq!(parse_and_log_str("", &mut log), Err(ParseIntError::Empty));
    assert_eq!(parse_and_log_str("3000000000", &mut log), Err(ParseIntError::PosOverflow));
    assert_eq!(parse_and_log_str("-3000000000", &mut log), Err(ParseIntError::NegOverflow));
    assert_eq!(log, vec!["kept"]);
}

#[test]
fn three_steps_read_what_the_first_reads() {
    let mut log = Vec::new();
    assert_eq!(parse_str("8", &mut log), Ok(8));
    assert_eq!(parse_str("6060", &mut log), Ok(6060));
    assert_eq!(parse_str("65535", &mut log), Ok(65535));
    assert_eq!(parse_str("+0012", &mut log), Ok(12));
    assert_eq!(
        log,
        vec![
            "Number parsed successfully into 8",
            "Number parsed successfully into 6060",
            "Number parsed successfully into 65535",
            "Number parsed successfully into 12",
        ]
    );
}

#[test]
fn three_steps_fail_where_the_first_fails() {
    let mut log = Vec::new();
    assert_eq!(parse_str("Seven", &mut log), Err(ParseIntError::InvalidDigit));
    assert_eq!(parse_str("9.0", &mut log), Err(ParseIntError::InvalidDigit));
    assert_eq!(parse_str("nice", &mut log), Err(ParseIntError::InvalidDigit));
    assert_eq!(parse_str("", &mut log), Err(ParseIntError::Empty));
    assert_eq!(parse_str("-8", &mut log), Err(ParseIntError::InvalidDigit));
    assert_eq!(parse_str("65536", &mut log), Err(ParseIntError::PosOverflow));
    assert_eq!(log, Vec::<String>::new());
}

#[test]
fn three_steps_agree_with_the_standard_library() {
    for text in ["Seven", "8", "9.0", "nice", "6060", "65535", "65536", "", "+7", "-7", "007"] {
        let expected = text
            .parse::<u16>()
            .ok()
            .and_then(|n| n.to_string().parse::<u32>().ok())
            .and_then(|n| n.to_string().parse::<i32>().ok());
        let mut log = Vec::new();
        assert_eq!(parse_str(text, &mut log).ok(), expected);
    }
}
