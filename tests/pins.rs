use gegensprech::pins::{parse_u8, PinsError, RGBPins};

fn chars(s: &str) -> Vec<char> {
    s.chars().collect()
}

#[test]
fn u8_pieces_read_like_from_str() {
    for s in ["0", "7", "+9", "255", "007", "256", "", "+", "-1", "1a", " 1", "99999999999"] {
        assert_eq!(parse_u8(&chars(s)), s.parse::<u8>().ok(), "{:?}", s);
    }
}

#[test]
fn rgb_pins_three() {
    let p = RGBPins::parse("17,27,22").unwrap();
    assert_eq!((p.r, p.g, p.b), (17, 27, 22));
    assert!(p.ground.is_empty());
}

#[test]
fn rgb_pins_with_ground_and_mixed_separators() {
    let p = RGBPins::parse("1:2 3-4,5").unwrap();
    assert_eq!((p.r, p.g, p.b), (1, 2, 3));
    assert_eq!(p.ground, vec![4, 5]);
}

#[test]
fn rgb_pins_errors() {
    assert_eq!(RGBPins::parse("1,2"), Err(PinsError::TooFew));
    assert_eq!(RGBPins::parse("1,,2,3"), Err(PinsError::NotANumber));
    assert_eq!(RGBPins::parse("1,2,x"), Err(PinsError::NotANumber));
    assert_eq!(RGBPins::parse("1,2,300"), Err(PinsError::NotANumber));
    assert_eq!(RGBPins::parse(""), Err(PinsError::NotANumber));
    assert_eq!(RGBPins::parse("a"), Err(PinsError::NotANumber));
}
