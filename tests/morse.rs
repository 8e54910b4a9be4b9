use gegensprech::button::Press;
use gegensprech::morse::{Morse, MorseDecoder, MorseWord, WORD_GAP_MS};

#[test]
fn symbol_characters() {
    for c in ['_', '-', '—', 'ー'] {
        assert_eq!(Morse::try_from(c), Ok(Morse::Long));
    }
    for c in ['.', '°', '·', '・'] {
        assert_eq!(Morse::try_from(c), Ok(Morse::Short));
    }
    assert_eq!(Morse::try_from('x').unwrap_err().bad, 'x');
}

#[test]
fn parse_key() {
    let w = MorseWord::try_from("..-").unwrap();
    assert_eq!(w.0, vec![Morse::Short, Morse::Short, Morse::Long]);
    assert_eq!(MorseWord::try_from("").unwrap().0, vec![]);
    assert_eq!(MorseWord::try_from(".a-b").unwrap_err().bad, 'a');
}

#[test]
fn keys_in_other_alphabets_are_equal() {
    assert_eq!(MorseWord::try_from("·—").unwrap(), MorseWord::try_from(".-").unwrap());
    assert_ne!(MorseWord::try_from("-.").unwrap(), MorseWord::try_from(".-").unwrap());
    assert_ne!(MorseWord::try_from(".").unwrap(), MorseWord::try_from("..").unwrap());
}

#[test]
fn text_round_trip() {
    let w = MorseWord::try_from(".-..-").unwrap();
    let t = w.text();
    assert_eq!(t, "·—··—");
    assert_eq!(MorseWord::try_from(&t).unwrap(), w);
}

#[test]
fn decode_short_short_long() {
    let mut d = MorseDecoder::new();
    assert_eq!(d.deadline(0), Some(WORD_GAP_MS));
    assert!(!d.feed(Some(Press::Short(500))));
    assert_eq!(d.deadline(600), Some(600 + WORD_GAP_MS));
    assert!(!d.feed(Some(Press::LongStart(1000))));
    assert_eq!(d.deadline(1300), None);
    assert!(!d.feed(Some(Press::LongEnd(1000, 3000))));
    assert_eq!(d.deadline(3000), Some(3000 + WORD_GAP_MS));
    assert!(d.feed(None));
    assert_eq!(d.finish().0, vec![Morse::Short, Morse::Short, Morse::Long]);
}

#[test]
fn decode_single_short_ends_on_silence() {
    let mut d = MorseDecoder::new();
    assert!(d.deadline(10).is_some());
    assert!(d.feed(None));
    assert_eq!(d.finish().0, vec![Morse::Short]);
}
