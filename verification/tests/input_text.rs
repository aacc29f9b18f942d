use clock_face::input::{
    parse_u8, validate_partial_input, value, HoursFormatter, InputValidationError,
    MinutesFormatter, Validation, HOURS_LIMIT, INVALID_INPUT_MESSAGE, MINUTES_LIMIT,
};

const MESSAGE: &str = "Input must be a number between 0 and 24.";

fn message_of(verdict: &Validation) -> Option<String> {
    match verdict {
        Validation::Success => None,
        Validation::Failure(error) => Some(error.to_string()),
    }
}

/// Every text of up to `len` characters over `alphabet`.
fn texts(alphabet: &[char], len: usize) -> Vec<String> {
    let mut all = vec![String::new()];
    let mut last = vec![String::new()];
    for _ in 0..len {
        let mut next = Vec::new();
        for text in &last {
            for c in alphabet {
                let mut longer = text.clone();
                longer.push(*c);
                next.push(longer);
            }
        }
        all.extend(next.iter().cloned());
        last = next;
    }
    all
}

#[test]
fn empty_partial_input_is_accepted() {
    assert!(!validate_partial_input("", 24).is_err());
    assert!(!validate_partial_input("", 0).is_err());
    assert!(matches!(validate_partial_input("", 60), Validation::Success));
}

#[test]
fn partial_input_at_the_limit_is_accepted() {
    assert!(!validate_partial_input("24", 24).is_err());
    assert!(!validate_partial_input("0", 24).is_err());
    assert!(!validate_partial_input("60", 60).is_err());
}

#[test]
fn partial_input_above_the_limit_is_rejected() {
    let verdict = validate_partial_input("25", 24);
    assert!(verdict.is_err());
    assert_eq!(message_of(&verdict), Some(MESSAGE.to_string()));
    assert!(validate_partial_input("61", 60).is_err());
    assert!(validate_partial_input("255", 254).is_err());
    assert!(!validate_partial_input("255", 255).is_err());
}

#[test]
fn partial_input_that_is_no_number_is_rejected() {
    let verdict = validate_partial_input("ab", 24);
    assert!(verdict.is_err());
    assert_eq!(message_of(&verdict), Some(MESSAGE.to_string()));
    for text in ["a", "1a", "a1", " 1", "1 ", "-1", "+", "-", "1.0", "0x1", "1_0", "١٢"] {
        assert!(validate_partial_input(text, 255).is_err(), "{:?}", text);
    }
}

#[test]
fn partial_input_beyond_a_byte_is_rejected() {
    for text in ["256", "300", "999", "1000", "0256", "99999999999999999999999"] {
        let verdict = validate_partial_input(text, 255);
        assert_eq!(message_of(&verdict), Some(MESSAGE.to_string()), "{:?}", text);
    }
}

#[test]
fn partial_input_agrees_with_the_limit_for_every_number() {
    for limit in [0u8, 1, 9, 10, 23, 24, 59, 60, 254, 255] {
        for n in 0..=255u8 {
            let verdict = validate_partial_input(&n.to_string(), limit);
            assert_eq!(verdict.is_err(), n > limit, "{} under {}", n, limit);
        }
    }
}

#[test]
fn committed_empty_text_is_zero() {
    assert_eq!(value("").ok(), Some(0));
}

#[test]
fn committed_text_is_read_as_its_number() {
    assert_eq!(value("0").ok(), Some(0));
    assert_eq!(value("7").ok(), Some(7));
    assert_eq!(value("24").ok(), Some(24));
    assert_eq!(value("25").ok(), Some(25));
    assert_eq!(value("255").ok(), Some(255));
    assert_eq!(value("+5").ok(), Some(5));
    assert_eq!(value("007").ok(), Some(7));
    assert_eq!(value("0000000000000000000000255").ok(), Some(255));
}

#[test]
fn committed_text_that_is_no_number_is_rejected() {
    let outcome = value("ab");
    assert_eq!(outcome.err().map(|e| e.to_string()), Some(MESSAGE.to_string()));
    for text in ["256", "-1", "+", "1 ", " ", "12a", "+-1", "++1", "1+"] {
        let outcome = value(text);
        assert_eq!(outcome.err().map(|e| e.to_string()), Some(MESSAGE.to_string()), "{:?}", text);
    }
}

#[test]
fn parse_u8_reads_what_the_standard_parser_reads() {
    let alphabet = ['0', '1', '2', '5', '6', '9', '+', '-', ' ', 'a', '/', ':', '٣', 'é'];
    for text in texts(&alphabet, 4) {
        assert_eq!(parse_u8(&text), text.parse::<u8>().ok(), "{:?}", text);
    }
    let digits = ['0', '1', '2', '3', '4', '5', '6', '7', '8', '9', '+'];
    for text in texts(&digits, 4) {
        assert_eq!(parse_u8(&text), text.parse::<u8>().ok(), "{:?}", text);
    }
}

#[test]
fn value_reads_what_the_standard_parser_reads() {
    let alphabet = ['0', '2', '5', '6', '9', '+', '-', 'x'];
    for text in texts(&alphabet, 4) {
        let expected = if text.is_empty() { Some(0) } else { text.parse::<u8>().ok() };
        assert_eq!(value(&text).ok(), expected, "{:?}", text);
    }
}

#[test]
fn format_writes_decimal() {
    assert_eq!(clock_face::input::format(&0), "0");
    assert_eq!(clock_face::input::format(&7), "7");
    assert_eq!(clock_face::input::format(&9), "9");
    assert_eq!(clock_face::input::format(&10), "10");
    assert_eq!(clock_face::input::format(&24), "24");
    assert_eq!(clock_face::input::format(&60), "60");
    assert_eq!(clock_face::input::format(&99), "99");
    assert_eq!(clock_face::input::format(&100), "100");
    assert_eq!(clock_face::input::format(&101), "101");
    assert_eq!(clock_face::input::format(&110), "110");
    assert_eq!(clock_face::input::format(&255), "255");
}

#[test]
fn format_writes_what_the_standard_library_writes() {
    for n in 0..=255u8 {
        assert_eq!(clock_face::input::format(&n), n.to_string());
    }
}

#[test]
fn what_format_writes_reads_back() {
    for n in 0..=255u8 {
        let text = clock_face::input::format(&n);
        assert_eq!(value(&text).ok(), Some(n));
        assert_eq!(parse_u8(&text), Some(n));
        assert!(!validate_partial_input(&text, n).is_err());
        assert!(!validate_partial_input(&text, 255).is_err());
        if n > 0 {
            assert!(validate_partial_input(&text, n - 1).is_err());
        }
    }
}

#[test]
fn the_error_carries_its_message() {
    let error = InputValidationError::new("no number");
    assert_eq!(error.to_string(), "no number");
    assert_eq!(InputValidationError::new("").to_string(), "");
    assert_eq!(error.clone().to_string(), "no number");
}

#[test]
fn the_message_is_the_same_for_both_boxes() {
    assert_eq!(INVALID_INPUT_MESSAGE, MESSAGE);
    let hours = HoursFormatter.validate_partial_input("99");
    let minutes = MinutesFormatter.validate_partial_input("99");
    assert_eq!(message_of(&hours), Some(MESSAGE.to_string()));
    assert_eq!(message_of(&minutes), Some(MESSAGE.to_string()));
}

#[test]
fn the_hour_box_lets_through_up_to_24() {
    assert_eq!(HOURS_LIMIT, 24);
    let hours = HoursFormatter;
    assert!(!hours.validate_partial_input("").is_err());
    assert!(!hours.validate_partial_input("0").is_err());
    assert!(!hours.validate_partial_input("23").is_err());
    assert!(!hours.validate_partial_input("24").is_err());
    assert!(hours.validate_partial_input("25").is_err());
    assert!(hours.validate_partial_input("ab").is_err());
    assert_eq!(hours.format(&13), "13");
    assert_eq!(hours.value("13").ok(), Some(13));
    assert_eq!(hours.value("").ok(), Some(0));
    assert!(hours.value("ab").is_err());
}

#[test]
fn the_minute_box_lets_through_up_to_60() {
    assert_eq!(MINUTES_LIMIT, 60);
    let minutes = MinutesFormatter;
    assert!(!minutes.validate_partial_input("").is_err());
    assert!(!minutes.validate_partial_input("25").is_err());
    assert!(!minutes.validate_partial_input("59").is_err());
    assert!(!minutes.validate_partial_input("60").is_err());
    assert!(minutes.validate_partial_input("61").is_err());
    assert!(minutes.validate_partial_input("ab").is_err());
    assert_eq!(minutes.format(&5), "5");
    assert_eq!(minutes.value("05").ok(), Some(5));
    assert_eq!(minutes.value("").ok(), Some(0));
    assert!(minutes.value("ab").is_err());
}
