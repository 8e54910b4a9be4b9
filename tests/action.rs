use gegensprech::button::Press;
use gegensprech::action::{
    chars_at_most, dispatch, record_deadline, ftrue, parse_tape_time, Gesture, MAX_TIME_CHARS, RECORD_LIMIT_MS, tape_time_ms, ActionSlot, ButtonCommands, ChildPoll, Command, ConfigError,
    Plan, TermStep, Termination, TERM_POLLS, TERM_POLL_MS,
};
use gegensprech::morse::MorseWord;

fn word(s: &str) -> MorseWord {
    MorseWord::try_from(s).unwrap()
}

fn table() -> ButtonCommands {
    ButtonCommands::from_entries(vec![
        (word(".-"), Command::SubProcess { cmd: vec!["/bin/echo".to_string(), "hi".to_string(), "there".to_string()] }),
        (word("..."), Command::LoopTape { time_ms: 30_000, play: true, send: false }),
        (word("-"), Command::LoopTape { time_ms: 90_000, play: false, send: true }),
    ])
    .unwrap()
}

#[test]
fn default_play_is_true() {
    assert!(ftrue());
}

#[test]
fn tape_time_parses_durations() {
    assert_eq!(parse_tape_time("30s").unwrap(), 30_000);
    assert_eq!(parse_tape_time("2min 5s").unwrap(), 125_000);
    assert_eq!(parse_tape_time("1500ms").unwrap(), 1_500);
    assert!(matches!(parse_tape_time("soon"), Err(ConfigError::BadTime)));
}

#[test]
fn tape_time_from_parts() {
    assert_eq!(tape_time_ms(Some((2, 345_678_901))).unwrap(), 2_345);
    assert!(matches!(tape_time_ms(None), Err(ConfigError::BadTime)));
    assert!(matches!(tape_time_ms(Some((u64::MAX / 1000 + 1, 0))), Err(ConfigError::TimeOverflow)));
}

#[test]
fn exec_resolves_words() {
    let t = table();
    assert_eq!(t.tape_time(), Some(90_000));
    match t.exec(&word("·—")) {
        Plan::Spawn { path, args } => {
            assert_eq!(path, "/bin/echo");
            assert_eq!(args, vec!["hi".to_string(), "there".to_string()]);
        }
        other => panic!("{:?}", other),
    }
    assert!(matches!(t.exec(&word("...")), Plan::Tape { time_ms: 30_000, play: true, send: false }));
    assert!(matches!(t.exec(&word("-")), Plan::Tape { time_ms: 90_000, play: false, send: true }));
    assert!(matches!(t.exec(&word("--")), Plan::Nothing));
}

#[test]
fn empty_table() {
    let t = ButtonCommands::empty();
    assert_eq!(t.tape_time(), None);
    assert!(matches!(t.exec(&word(".")), Plan::Nothing));
    let t = ButtonCommands::from_entries(vec![(word("."), Command::SubProcess { cmd: vec!["x".to_string()] })]).unwrap();
    assert_eq!(t.tape_time(), None);
}

#[test]
fn config_errors() {
    let r = ButtonCommands::from_entries(vec![(word(".-"), Command::SubProcess { cmd: vec![] })]);
    assert!(matches!(r, Err(ConfigError::EmptyCommand(_))));
    let r = ButtonCommands::from_entries(vec![
        (word(".-"), Command::LoopTape { time_ms: 1, play: true, send: false }),
        (word("·—"), Command::LoopTape { time_ms: 2, play: true, send: false }),
    ]);
    assert!(matches!(r, Err(ConfigError::DuplicateKey(_))));
}

#[test]
fn slot_hands_out_before_install() {
    let mut s: ActionSlot<u32> = ActionSlot::new();
    assert!(s.is_empty());
    assert_eq!(s.take(), None);
    s.teardown_done();
    s.install(Some(1));
    assert!(!s.is_empty());
    assert_eq!(s.take(), Some(1));
    assert!(s.is_empty());
    s.teardown_done();
    s.install(Some(2));
    assert_eq!(s.take(), Some(2));
    s.teardown_done();
    s.install(None);
    assert!(s.is_empty());
}

#[test]
fn stubborn_child_is_killed_within_budget() {
    let (mut t, mut step) = Termination::start();
    let mut waited: u64 = 0;
    let mut polls: u32 = 0;
    while let TermStep::Wait(ms) = step {
        waited += ms;
        polls += 1;
        step = t.on_poll(ChildPoll::Running);
    }
    assert_eq!(step, TermStep::Kill);
    assert_eq!(polls, TERM_POLLS);
    assert_eq!(waited, 3000);
    assert_eq!(waited, TERM_POLL_MS * TERM_POLLS as u64);
}

#[test]
fn exiting_child_ends_early() {
    let (mut t, step) = Termination::start();
    assert_eq!(step, TermStep::Wait(300));
    assert_eq!(t.on_poll(ChildPoll::Running), TermStep::Wait(300));
    assert_eq!(t.on_poll(ChildPoll::Exited), TermStep::Done);
}

#[test]
fn failed_check_kills_child() {
    let (mut t, _) = Termination::start();
    assert_eq!(t.on_poll(ChildPoll::Failed), TermStep::Kill);
    let (mut t, _) = Termination::start();
    assert_eq!(t.on_poll(ChildPoll::Running), TermStep::Wait(300));
    assert_eq!(t.on_poll(ChildPoll::Failed), TermStep::Kill);
}

#[test]
fn long_time_text_is_refused() {
    assert_eq!(MAX_TIME_CHARS, 12);
    assert_eq!(parse_tape_time("1h 30min 15s").unwrap(), 5_415_000);
    assert!(matches!(parse_tape_time("1h 30min 15s "), Err(ConfigError::TimeTextTooLong)));
    assert!(matches!(parse_tape_time("18446744073709551615s 1000ms"), Err(ConfigError::TimeTextTooLong)));
    assert!(chars_at_most("µµµ", 3));
    assert!(!chars_at_most("µµµ", 2));
    assert!(chars_at_most("", 0));
}

#[test]
fn gestures_and_recording_deadline() {
    assert_eq!(dispatch(Some(Press::Short(3))), Some(Gesture::Decode));
    assert_eq!(dispatch(Some(Press::LongStart(3))), Some(Gesture::Record));
    assert_eq!(dispatch(Some(Press::LongEnd(3, 4))), None);
    assert_eq!(dispatch(None), None);
    assert_eq!(record_deadline(1000), 1000 + RECORD_LIMIT_MS);
    assert_eq!(record_deadline(u64::MAX - 1), u64::MAX);
}
