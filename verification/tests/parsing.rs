use clickrs::errors::{Error, IntParseError};
use clickrs::eventspec::EventSpec;
use clickrs::numparse::{parse_u64, parse_u8};

#[test]
fn parse_u64_plain() {
    assert_eq!(parse_u64("0"), Ok(0));
    assert_eq!(parse_u64("1500"), Ok(1500));
    assert_eq!(parse_u64("007"), Ok(7));
}

#[test]
fn parse_u64_max_boundary() {
    assert_eq!(parse_u64("18446744073709551615"), Ok(u64::MAX));
    assert_eq!(parse_u64("18446744073709551616"), Err(IntParseError::Overflow));
}

#[test]
fn parse_u64_empty() {
    assert_eq!(parse_u64(""), Err(IntParseError::Empty));
}

#[test]
fn parse_u64_invalid_digit() {
    assert_eq!(parse_u64("9a"), Err(IntParseError::InvalidDigit));
    assert_eq!(parse_u64("-3"), Err(IntParseError::InvalidDigit));
    assert_eq!(parse_u64(" 3"), Err(IntParseError::InvalidDigit));
}

#[test]
fn parse_u64_invalid_digit_beats_overflow() {
    // every character is checked before the value is accumulated
    assert_eq!(
        parse_u64("99999999999999999999999999x"),
        Err(IntParseError::InvalidDigit)
    );
}

#[test]
fn parse_u8_range() {
    assert_eq!(parse_u8("255"), Ok(255));
    assert_eq!(parse_u8("256"), Err(IntParseError::Overflow));
}

#[test]
fn parse_mouse_valid() {
    assert_eq!(
        EventSpec::parse_mouse("3:1500"),
        Ok(EventSpec::MouseEvent(3, 1500))
    );
}

#[test]
fn parse_mouse_splits_at_first_colon() {
    assert_eq!(
        EventSpec::parse_mouse("1:2:3"),
        Err(Error::InputEventInterval(
            "2:3".to_string(),
            IntParseError::InvalidDigit
        ))
    );
}

#[test]
fn parse_mouse_without_colon() {
    assert_eq!(
        EventSpec::parse_mouse("31500"),
        Err(Error::MouseEventSpec("31500".to_string()))
    );
}

#[test]
fn parse_mouse_button_errors() {
    assert_eq!(
        EventSpec::parse_mouse("256:100"),
        Err(Error::MouseEventButton(
            "256".to_string(),
            IntParseError::Overflow
        ))
    );
    assert_eq!(
        EventSpec::parse_mouse("x:100"),
        Err(Error::MouseEventButton(
            "x".to_string(),
            IntParseError::InvalidDigit
        ))
    );
    assert_eq!(
        EventSpec::parse_mouse(":100"),
        Err(Error::MouseEventButton(
            "".to_string(),
            IntParseError::Empty
        ))
    );
}

#[test]
fn parse_mouse_interval_errors() {
    assert_eq!(
        EventSpec::parse_mouse("1:"),
        Err(Error::InputEventInterval(
            "".to_string(),
            IntParseError::Empty
        ))
    );
    assert_eq!(
        EventSpec::parse_mouse("1:18446744073709551616"),
        Err(Error::InputEventInterval(
            "18446744073709551616".to_string(),
            IntParseError::Overflow
        ))
    );
}

#[test]
fn parse_key_valid() {
    assert_eq!(
        EventSpec::parse_key("q:4000"),
        Ok(EventSpec::KeyboardEvent("q".to_string(), 4000))
    );
    assert_eq!(
        EventSpec::parse_key("space bar:0"),
        Ok(EventSpec::KeyboardEvent("space bar".to_string(), 0))
    );
}

#[test]
fn parse_key_without_colon() {
    assert_eq!(
        EventSpec::parse_key("q4000"),
        Err(Error::KeyboardEventSpec("q4000".to_string()))
    );
}

#[test]
fn parse_key_rejects_empty_name() {
    assert_eq!(
        EventSpec::parse_key(":100"),
        Err(Error::KeyboardEventSpec(":100".to_string()))
    );
}

#[test]
fn parse_key_rejects_unprintable_name() {
    assert_eq!(
        EventSpec::parse_key("\t:100"),
        Err(Error::KeyboardEventSpec("\t:100".to_string()))
    );
}

#[test]
fn parse_key_interval_error() {
    assert_eq!(
        EventSpec::parse_key("q:12x"),
        Err(Error::InputEventInterval(
            "12x".to_string(),
            IntParseError::InvalidDigit
        ))
    );
}

#[test]
fn error_descriptions() {
    assert_eq!(
        Error::InputEventInterval("12x".to_string(), IntParseError::InvalidDigit).description(),
        "Input event interval 12x is not valid: invalid digit found in string"
    );
    assert_eq!(
        Error::MouseEventButton("256".to_string(), IntParseError::Overflow).description(),
        "Mouse button 256 is not valid: number too large to fit in target type"
    );
    assert_eq!(
        Error::MouseEventSpec("zap".to_string()).description(),
        "Mouse event specification zap is not valid."
    );
    assert_eq!(
        Error::KeyboardEventSpec(":9".to_string()).description(),
        "Keyboard event specification :9 is not valid."
    );
}

#[test]
fn int_parse_error_descriptions() {
    assert_eq!(
        IntParseError::Empty.description(),
        "cannot parse integer from empty string"
    );
    assert_eq!(
        IntParseError::InvalidDigit.description(),
        "invalid digit found in string"
    );
    assert_eq!(
        IntParseError::Overflow.description(),
        "number too large to fit in target type"
    );
}
