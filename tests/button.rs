use gegensprech::button::{
    wait_budget, ButtonStep, Button, DebAction, DebPhase, EdgeDeb, EdgeReply, Level, PinPoll, Press,
    LONG_PRESS_MS, SETTLE_MS,
};

#[test]
fn wait_budget_passed_deadline_does_not_block() {
    assert_eq!(wait_budget(Some(5), 10), None);
    assert_eq!(wait_budget(Some(15), 10), Some(Some(5)));
    assert_eq!(wait_budget(Some(10), 10), Some(Some(0)));
    assert_eq!(wait_budget(None, 10), Some(None));
}

#[test]
fn debouncer_reports_a_settled_press() {
    let mut d = EdgeDeb::new();
    assert_eq!(d.begin(None, 100), DebAction::ReadLevel);
    assert_eq!(d.on_level(Level::High), DebAction::WaitEdge(None));
    // a raw edge, then bounces inside the window
    assert_eq!(d.on_edge(true, 120), DebAction::WaitEdge(Some(120 + SETTLE_MS)));
    assert_eq!(d.on_edge(true, 125), DebAction::WaitEdge(Some(125 + SETTLE_MS)));
    assert_eq!(d.on_edge(true, 128), DebAction::WaitEdge(Some(128 + SETTLE_MS)));
    // a quiet window: read the level
    assert_eq!(d.on_edge(false, 138), DebAction::ReadLevel);
    assert_eq!(d.on_level(Level::Low), DebAction::Report(PinPoll::Edge, Level::Low, 120));
    assert_eq!(d.lrs, Level::Low);
}

#[test]
fn debouncer_bounce_back_to_same_level_is_not_an_edge() {
    let mut d = EdgeDeb::new();
    d.begin(Some(1000), 0);
    assert_eq!(d.on_level(Level::High), DebAction::WaitEdge(Some(1000)));
    d.on_edge(true, 10);
    assert_eq!(d.on_edge(false, 20), DebAction::ReadLevel);
    // the line bounced back to where it was: wait again, nothing reported
    assert_eq!(d.on_level(Level::High), DebAction::WaitEdge(Some(1000)));
    assert_eq!(d.phase, DebPhase::Await);
}

#[test]
fn debouncer_bounces_change_nothing() {
    let mut a = EdgeDeb::new();
    a.begin(None, 0);
    a.on_level(Level::High);
    a.on_edge(true, 50);
    let mut b = a;
    for t in 51..58 {
        b.on_edge(true, t);
    }
    assert_eq!(a.on_edge(false, 60), b.on_edge(false, 60));
    assert_eq!(a.on_level(Level::Low), b.on_level(Level::Low));
}

#[test]
fn debouncer_timeout() {
    let mut d = EdgeDeb::new();
    d.begin(Some(500), 0);
    d.on_level(Level::High);
    assert_eq!(d.on_edge(false, 500), DebAction::Report(PinPoll::Timeout, Level::High, 500));
}

#[test]
fn short_press_gives_one_short() {
    let mut b = Button::new();
    assert_eq!(b.plan(None, 0), ButtonStep::Await(None));
    assert_eq!(b.on_edge(PinPoll::Edge, Level::Low, 1000), EdgeReply::Pending);
    assert_eq!(b.plan(None, 1001), ButtonStep::Await(Some(1000 + LONG_PRESS_MS)));
    assert_eq!(b.on_edge(PinPoll::Edge, Level::High, 1100), EdgeReply::Press(Press::Short(1000)));
    assert_eq!(b.longdown, None);
    assert_eq!(b.plan(Some(5000), 1100), ButtonStep::Await(Some(5000)));
}

#[test]
fn long_press_gives_start_then_end() {
    let mut b = Button::new();
    b.on_edge(PinPoll::Edge, Level::Low, 1000);
    b.plan(None, 1000);
    assert_eq!(b.on_edge(PinPoll::Timeout, Level::Low, 1250), EdgeReply::Press(Press::LongStart(1000)));
    // held on: no second start
    assert_eq!(b.plan(Some(3000), 1300), ButtonStep::Await(Some(3000)));
    assert_eq!(b.on_edge(PinPoll::Timeout, Level::Low, 3000), EdgeReply::Silence);
    assert_eq!(b.on_edge(PinPoll::Edge, Level::High, 4000), EdgeReply::Press(Press::LongEnd(1000, 4000)));
    assert_eq!(b.longdown, None);
}

#[test]
fn long_press_seen_late_when_planning() {
    let mut b = Button::new();
    b.on_edge(PinPoll::Edge, Level::Low, 1000);
    assert_eq!(b.plan(None, 1251), ButtonStep::Emit(Press::LongStart(1000)));
    assert_eq!(b.longdown, Some((true, 1000)));
}

#[test]
fn wrong_level_is_inconsistent() {
    let mut b = Button::new();
    assert_eq!(b.on_edge(PinPoll::Edge, Level::High, 10), EdgeReply::Inconsistent);
    b.on_edge(PinPoll::Edge, Level::Low, 20);
    assert_eq!(b.on_edge(PinPoll::Edge, Level::Low, 30), EdgeReply::Inconsistent);
    assert_eq!(b.on_edge(PinPoll::Timeout, Level::Low, 270), EdgeReply::Press(Press::LongStart(20)));
    assert_eq!(b.on_edge(PinPoll::Edge, Level::Low, 300), EdgeReply::Inconsistent);
}

#[test]
fn idle_timeout_is_silence() {
    let mut b = Button::new();
    assert_eq!(b.on_edge(PinPoll::Timeout, Level::High, 10), EdgeReply::Silence);
}

#[test]
fn deadline_saturates_at_largest_time() {
    let mut b = Button::new();
    b.on_edge(PinPoll::Edge, Level::Low, u64::MAX - 10);
    assert_eq!(b.plan(None, u64::MAX - 5), ButtonStep::Await(Some(u64::MAX)));
}
