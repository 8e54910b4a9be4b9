use gegensprech::button::Level;
use gegensprech::status::{
    color_for, strip_colors, LastShown, AudioStatus, CallOnDrop, MtxStatus, Render, Status, StatusIndicators, Update,
};
use std::cell::Cell;

struct Log(Vec<Status>);

impl Render for Log {
    fn shown(&self) -> Option<Status> {
        self.0.last().copied()
    }

    fn render(&mut self, status: &Status) {
        self.0.push(*status);
    }
}

#[test]
fn initial_status() {
    let s = Status::initial();
    assert!(!s.send_status && !s.catchup_status && !s.exited);
    assert_eq!(s.mtx_status, MtxStatus::Starting);
    assert_eq!(s.audio_status, AudioStatus::Idle);
}

#[test]
fn rgb_colors() {
    let (lo, hi) = (Level::Low, Level::High);
    let mut s = Status::initial();
    assert_eq!(color_for(&s), [lo, hi, hi]);
    s.mtx_status = MtxStatus::Good;
    assert_eq!(color_for(&s), [hi, hi, hi]);
    s.send_status = true;
    assert_eq!(color_for(&s), [lo, hi, hi]);
    s.mtx_status = MtxStatus::Disconnected;
    assert_eq!(color_for(&s), [hi, lo, hi]);
    s.audio_status = AudioStatus::Playing;
    assert_eq!(color_for(&s), [lo, hi, lo]);
    s.audio_status = AudioStatus::Recording;
    assert_eq!(color_for(&s), [hi, lo, lo]);
    s.exited = true;
    assert_eq!(color_for(&s), [lo, lo, lo]);
    let mut s = Status::initial();
    s.mtx_status = MtxStatus::Good;
    s.catchup_status = true;
    assert_eq!(color_for(&s), [lo, lo, hi]);
}

#[test]
fn strip_colors_by_flag() {
    let mut s = Status::initial();
    assert_eq!(strip_colors(&s), [(30, 30, 0), (0, 0, 0), (0, 0, 0)]);
    s.mtx_status = MtxStatus::Disconnected;
    s.audio_status = AudioStatus::Recording;
    s.catchup_status = true;
    assert_eq!(strip_colors(&s), [(30, 15, 0), (30, 0, 0), (0, 0, 30)]);
    s.send_status = true;
    s.mtx_status = MtxStatus::Good;
    s.audio_status = AudioStatus::Playing;
    assert_eq!(strip_colors(&s), [(10, 10, 10), (0, 30, 0), (30, 0, 30)]);
    s.exited = true;
    assert_eq!(strip_colors(&s), [(0, 0, 0); 3]);
}

#[test]
fn every_change_is_rendered() {
    let mut ind = StatusIndicators::new(Log(vec![]));
    ind.audio(AudioStatus::Recording);
    ind.send(true);
    ind.caughtup(false);
    ind.mtx(MtxStatus::Good);
    ind.status(Update::Exited);
    let s = ind.get();
    assert_eq!(s.audio_status, AudioStatus::Recording);
    assert!(s.send_status && s.catchup_status && s.exited);
    assert_eq!(s.mtx_status, MtxStatus::Good);
    ind.audio(AudioStatus::Idle);
    ind.caughtup(true);
    assert!(!ind.get().catchup_status);
    assert_eq!(ind.get().audio_status, AudioStatus::Idle);
}

#[test]
fn renderer_sees_each_step() {
    let log = std::rc::Rc::new(std::cell::RefCell::new(vec![]));
    let mut ind = StatusIndicators::new(Shared(log.clone()));
    ind.audio(AudioStatus::Playing);
    ind.audio(AudioStatus::Idle);
    let seen = log.borrow();
    assert_eq!(seen.len(), 3);
    assert_eq!(seen[0], Status::initial());
    assert_eq!(seen[1].audio_status, AudioStatus::Playing);
    assert_eq!(seen[2].audio_status, AudioStatus::Idle);
}

struct Shared(std::rc::Rc<std::cell::RefCell<Vec<Status>>>);

impl Render for Shared {
    fn shown(&self) -> Option<Status> {
        self.0.borrow().last().copied()
    }

    fn render(&mut self, status: &Status) {
        self.0.borrow_mut().push(*status);
    }
}

#[test]
fn unit_renderer() {
    let mut ind = StatusIndicators::new(LastShown::new());
    ind.status(Update::Refresh);
    assert_eq!(ind.get(), Status::initial());
    let mut r = LastShown::new();
    assert_eq!(r.last, None);
    r.render(&Status::initial());
    assert_eq!(r.last, Some(Status::initial()));
}

#[test]
fn call_on_drop_runs_once() {
    let n = Cell::new(0);
    let mut g = CallOnDrop::call(|| n.set(n.get() + 1));
    g.fire();
    g.fire();
    assert_eq!(n.get(), 1);
}
