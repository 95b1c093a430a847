use backlight_stepper::direction::Direction;
use backlight_stepper::error::StepError;
use backlight_stepper::reading::{is_digit_byte, is_space_byte, parse_level};
use backlight_stepper::stepper::Configuration;

#[test]
fn sign_is_plus_or_minus_one() {
    assert_eq!(Direction::Up.sign(), 1);
    assert_eq!(Direction::Down.sign(), -1);
}

#[test]
fn up_and_down_are_the_only_directions() {
    assert_eq!(Direction::parse("up"), Some(Direction::Up));
    assert_eq!(Direction::parse("down"), Some(Direction::Down));
    assert_eq!(Direction::parse("sideways"), None);
    assert_eq!(Direction::parse(""), None);
    assert_eq!(Direction::parse("Up"), None);
    assert_eq!(Direction::parse("DOWN"), None);
    assert_eq!(Direction::parse("uq"), None);
    assert_eq!(Direction::parse("dawn"), None);
    assert_eq!(Direction::parse("up "), None);
    assert_eq!(Direction::parse("dów"), None);
}

#[test]
fn sideways_is_a_usage_error() {
    let args = vec![String::from("sideways")];
    let refused = Direction::from_args(&args);
    assert_eq!(refused, Err(StepError::Usage));
    assert_eq!(refused.unwrap_err().exit_code(), 1);
}

#[test]
fn exactly_one_argument_is_wanted() {
    assert_eq!(Direction::from_args(&Vec::new()), Err(StepError::Usage));
    assert_eq!(Direction::from_args(&vec![String::from("up")]), Ok(Direction::Up));
    assert_eq!(Direction::from_args(&vec![String::from("down")]), Ok(Direction::Down));
    assert_eq!(
        Direction::from_args(&vec![String::from("up"), String::from("down")]),
        Err(StepError::Usage)
    );
}

#[test]
fn levels_are_read_from_decimal_text() {
    assert_eq!(parse_level(b"1000"), Ok(1000));
    assert_eq!(parse_level(b"1000\n"), Ok(1000));
    assert_eq!(parse_level(b" \t42\r\n"), Ok(42));
    assert_eq!(parse_level(b"0"), Ok(0));
    assert_eq!(parse_level(b"007"), Ok(7));
    assert_eq!(parse_level(b"+7"), Ok(7));
    assert_eq!(parse_level(b"4294967295"), Ok(u32::MAX));
    assert_eq!(parse_level(b"0000000004294967295"), Ok(u32::MAX));
}

#[test]
fn anything_else_is_a_failed_reading() {
    assert_eq!(parse_level(b""), Err(StepError::SourceRead));
    assert_eq!(parse_level(b"  \n"), Err(StepError::SourceRead));
    assert_eq!(parse_level(b"+"), Err(StepError::SourceRead));
    assert_eq!(parse_level(b"-1"), Err(StepError::SourceRead));
    assert_eq!(parse_level(b"++1"), Err(StepError::SourceRead));
    assert_eq!(parse_level(b"+ 1"), Err(StepError::SourceRead));
    assert_eq!(parse_level(b"12 34"), Err(StepError::SourceRead));
    assert_eq!(parse_level(b"12a"), Err(StepError::SourceRead));
    assert_eq!(parse_level(b"abc"), Err(StepError::SourceRead));
    assert_eq!(parse_level(b"1.5"), Err(StepError::SourceRead));
    assert_eq!(parse_level(b"4294967296"), Err(StepError::SourceRead));
    assert_eq!(parse_level(b"99999999999999999999999"), Err(StepError::SourceRead));
    assert_eq!(parse_level(&[0x31, 0xC2, 0xA0]), Err(StepError::SourceRead));
}

#[test]
fn bytes_are_classed_as_space_or_digit() {
    for b in [9u8, 10, 11, 12, 13, 32] {
        assert!(is_space_byte(b));
        assert!(!is_digit_byte(b));
    }
    for b in [0u8, 8, 14, 31, 33, 43, 160] {
        assert!(!is_space_byte(b));
    }
    for b in b'0'..=b'9' {
        assert!(is_digit_byte(b));
        assert!(!is_space_byte(b));
    }
    assert!(!is_digit_byte(b'/'));
    assert!(!is_digit_byte(b':'));
}

#[test]
fn configuration_is_made_from_two_readings() {
    let config = Configuration::from_readings(b"1000\n", b"10000\n").unwrap();
    assert_eq!(config.current(), 1000);
    assert_eq!(config.min(), 30);
    assert_eq!(config.max(), 10000);
    let dark = Configuration::from_readings(b"0\n", b"10000\n").unwrap();
    assert_eq!(dark.current(), 30);
    assert_eq!(dark.min(), 30);
    assert_eq!(dark.max(), 10000);
    let small = Configuration::from_readings(b"1", b"1").unwrap();
    assert_eq!((small.min(), small.current(), small.max()), (0, 1, 1));
    assert_eq!(Configuration::from_readings(b"x", b"10000"), Err(StepError::SourceRead));
    assert_eq!(Configuration::from_readings(b"1000", b""), Err(StepError::SourceRead));
    assert_eq!(Configuration::from_readings(b"x", b"0"), Err(StepError::SourceRead));
    assert_eq!(Configuration::from_readings(b"1000", b"x"), Err(StepError::SourceRead));
    assert_eq!(Configuration::from_readings(b"0", b"0"), Err(StepError::DegenerateRange));
    assert_eq!(Configuration::from_readings(b"77", b"0"), Err(StepError::DegenerateRange));
}

#[test]
fn every_error_has_its_own_message_and_a_failing_status() {
    let all = [
        StepError::Usage,
        StepError::SourceRead,
        StepError::DegenerateRange,
        StepError::Apply,
    ];
    for (i, a) in all.iter().enumerate() {
        assert_eq!(a.exit_code(), 1);
        assert!(!a.message().is_empty());
        for b in all.iter().skip(i + 1) {
            assert_ne!(a.message(), b.message());
        }
    }
    assert_eq!(StepError::Usage.message(), "expected exactly one argument: up or down");
}
