//! From raw pin transitions to classified presses.
//!
//! Each layer is a state machine that is driven from outside: it says what to
//! wait for next, and is handed what happened. Times are milliseconds on a
//! monotonic clock.
use vstd::prelude::*;

verus! {

/// Electrical level of the button line (pulled up: pressed reads `Low`).
#[derive(Clone, Copy, Debug, PartialEq, Eq, Structural)]
pub enum Level {
    High,
    Low,
}

/// Whether a wait for the pin ended on an edge or ran out.
#[derive(Clone, Copy, Debug, PartialEq, Eq, Structural)]
pub enum PinPoll {
    Edge,
    Timeout,
}

/// A classified press; each time is when the button went down, a `LongEnd`
/// also carries when it came up.
#[derive(Clone, Copy, Debug, PartialEq, Eq, Structural)]
pub enum Press {
    Short(u64),
    LongStart(u64),
    LongEnd(u64, u64),
}

/// Settle window of the debouncer.
pub const SETTLE_MS: u64 = 10;

/// A press held longer than this is long.
pub const LONG_PRESS_MS: u64 = 250;

/// `a + b`, held at the largest time.
pub open spec fn later(a: u64, b: u64) -> u64 {
    if a + b > u64::MAX { u64::MAX } else { (a + b) as u64 }
}

fn later_exec(a: u64, b: u64) -> (r: u64)
    ensures
        r == later(a, b),
{
    if a > u64::MAX - b { u64::MAX } else { a + b }
}

/// How long a wait for a raw edge may block: `None` for an absolute deadline
/// that has already passed (no wait at all), `Some(None)` without a deadline,
/// `Some(Some(ms))` otherwise.
pub open spec fn wait_budget_spec(deadline: Option<u64>, now: u64) -> Option<Option<u64>> {
    match deadline {
        None => Some(None),
        Some(d) => if d < now { None } else { Some(Some((d - now) as u64)) },
    }
}

/// Turns an absolute deadline into the time that a wait for a raw edge may
/// block; a deadline already passed asks for no wait.
pub fn wait_budget(deadline: Option<u64>, now: u64) -> (r: Option<Option<u64>>)
    ensures
        r == wait_budget_spec(deadline, now),
{
    match deadline {
        None => Some(None),
        Some(d) => if d < now { None } else { Some(Some(d - now)) },
    }
}

// ---------------------------------------------------------------- debouncer

/// Where the debouncer stands between two calls.
#[derive(Clone, Copy, Debug, PartialEq, Eq, Structural)]
pub enum DebPhase {
    /// The next step is to read the level.
    Check,
    /// Waiting for a raw edge, up to the caller's deadline.
    Await,
    /// A raw edge came; waiting for a settle window without one.
    Settle,
}

/// What the debouncer asks of its driver.
#[derive(Clone, Copy, Debug, PartialEq, Eq, Structural)]
pub enum DebAction {
    /// Read the line's level and hand it to `on_level`.
    ReadLevel,
    /// Wait for a raw edge until the deadline and hand the outcome to `on_edge`.
    WaitEdge(Option<u64>),
    /// The debounced result: an edge to this level, or a timeout, at this time.
    Report(PinPoll, Level, u64),
}

/// Debouncer over a raw edge source.
#[derive(Clone, Copy, Debug)]
pub struct EdgeDeb {
    /// Last level that was reported.
    pub lrs: Level,
    /// Settle window.
    pub deb: u64,
    pub phase: DebPhase,
    /// Time of the last completed raw wait (or of the start of the call).
    pub pf: u64,
    /// Deadline that the caller gave for this call.
    pub timeout: Option<u64>,
}

pub open spec fn deb_begin_spec(d: EdgeDeb, timeout: Option<u64>, now: u64) -> EdgeDeb {
    EdgeDeb { phase: DebPhase::Check, pf: now, timeout, ..d }
}

pub open spec fn deb_level_spec(d: EdgeDeb, level: Level) -> (EdgeDeb, DebAction) {
    if level != d.lrs {
        (EdgeDeb { lrs: level, phase: DebPhase::Check, ..d }, DebAction::Report(PinPoll::Edge, level, d.pf))
    } else {
        (EdgeDeb { phase: DebPhase::Await, ..d }, DebAction::WaitEdge(d.timeout))
    }
}

pub open spec fn deb_edge_spec(d: EdgeDeb, edge: bool, now: u64) -> (EdgeDeb, DebAction) {
    match d.phase {
        DebPhase::Await => if !edge {
            (EdgeDeb { phase: DebPhase::Check, pf: now, ..d }, DebAction::Report(PinPoll::Timeout, d.lrs, now))
        } else {
            (EdgeDeb { phase: DebPhase::Settle, pf: now, ..d }, DebAction::WaitEdge(Some(later(now, d.deb))))
        },
        _ => if edge {
            (EdgeDeb { phase: DebPhase::Settle, ..d }, DebAction::WaitEdge(Some(later(now, d.deb))))
        } else {
            (EdgeDeb { phase: DebPhase::Check, ..d }, DebAction::ReadLevel)
        },
    }
}

impl EdgeDeb {
    /// A debouncer that takes the line as released.
    pub fn new() -> (r: EdgeDeb)
        ensures
            r.lrs == Level::High,
            r.deb == SETTLE_MS,
            r.phase == DebPhase::Check,
    {
        EdgeDeb { lrs: Level::High, deb: SETTLE_MS, phase: DebPhase::Check, pf: 0, timeout: None }
    }

    /// Starts one debounced wait, up to `timeout`; the first step is always a
    /// read of the level.
    pub fn begin(&mut self, timeout: Option<u64>, now: u64) -> (r: DebAction)
        ensures
            *final(self) == deb_begin_spec(*old(self), timeout, now),
            r == DebAction::ReadLevel,
    {
        self.phase = DebPhase::Check;
        self.pf = now;
        self.timeout = timeout;
        DebAction::ReadLevel
    }

    /// A level differing from the last reported one is an edge at once;
    /// otherwise wait for a raw edge.
    pub fn on_level(&mut self, level: Level) -> (r: DebAction)
        requires
            old(self).phase == DebPhase::Check,
        ensures
            (*final(self), r) == deb_level_spec(*old(self), level),
    {
        if level != self.lrs {
            self.lrs = level;
            DebAction::Report(PinPoll::Edge, level, self.pf)
        } else {
            self.phase = DebPhase::Await;
            DebAction::WaitEdge(self.timeout)
        }
    }

    /// After a raw edge the level is trusted only once a whole settle window
    /// has passed without another one.
    pub fn on_edge(&mut self, edge: bool, now: u64) -> (r: DebAction)
        requires
            old(self).phase != DebPhase::Check,
        ensures
            (*final(self), r) == deb_edge_spec(*old(self), edge, now),
    {
        match self.phase {
            DebPhase::Await => {
                self.pf = now;
                if !edge {
                    self.phase = DebPhase::Check;
                    DebAction::Report(PinPoll::Timeout, self.lrs, now)
                } else {
                    self.phase = DebPhase::Settle;
                    DebAction::WaitEdge(Some(later_exec(now, self.deb)))
                }
            },
            _ => {
                if edge {
                    DebAction::WaitEdge(Some(later_exec(now, self.deb)))
                } else {
                    self.phase = DebPhase::Check;
                    DebAction::ReadLevel
                }
            },
        }
    }
}

// --------------------------------------------------------------- classifier

/// What the classifier asks of its driver.
#[derive(Clone, Copy, Debug, PartialEq, Eq, Structural)]
pub enum ButtonStep {
    /// A press is known without waiting.
    Emit(Press),
    /// Run one debounced wait up to this deadline and hand it to `on_edge`.
    Await(Option<u64>),
}

/// What came of one debounced wait.
#[derive(Clone, Copy, Debug, PartialEq, Eq, Structural)]
pub enum EdgeReply {
    Press(Press),
    /// The wait ran out with nothing pending: the input is silent.
    Silence,
    /// The button went down; the press is not classified yet.
    Pending,
    /// An edge to the level that the line already had: the debouncer broke
    /// its promise of alternating edges.
    Inconsistent,
}

/// Gesture classifier.
///
/// `longdown` is `None` when the button is up, `Some((false, t))` while a
/// press that began at `t` may still be short, and `Some((true, t))` once it
/// has been reported as long.
#[derive(Clone, Copy, Debug)]
pub struct Button {
    pub lpd: u64,
    pub longdown: Option<(bool, u64)>,
}

pub open spec fn plan_spec(b: Button, timeout: Option<u64>, now: u64) -> (Button, ButtonStep) {
    match b.longdown {
        Some((false, down)) => if later(down, b.lpd) < now {
            (Button { longdown: Some((true, down)), ..b }, ButtonStep::Emit(Press::LongStart(down)))
        } else {
            (b, ButtonStep::Await(Some(later(down, b.lpd))))
        },
        _ => (b, ButtonStep::Await(timeout)),
    }
}

pub open spec fn edge_spec(b: Button, poll: PinPoll, level: Level, time: u64) -> (Button, EdgeReply) {
    match b.longdown {
        Some((false, down)) => match poll {
            PinPoll::Timeout => (Button { longdown: Some((true, down)), ..b }, EdgeReply::Press(Press::LongStart(down))),
            PinPoll::Edge => if level == Level::High {
                (Button { longdown: None, ..b }, EdgeReply::Press(Press::Short(down)))
            } else {
                (b, EdgeReply::Inconsistent)
            },
        },
        Some((true, start)) => match poll {
            PinPoll::Timeout => (b, EdgeReply::Silence),
            PinPoll::Edge => if level == Level::High {
                (Button { longdown: None, ..b }, EdgeReply::Press(Press::LongEnd(start, time)))
            } else {
                (b, EdgeReply::Inconsistent)
            },
        },
        None => match poll {
            PinPoll::Timeout => (b, EdgeReply::Silence),
            PinPoll::Edge => if level == Level::Low {
                (Button { longdown: Some((false, time)), ..b }, EdgeReply::Pending)
            } else {
                (b, EdgeReply::Inconsistent)
            },
        },
    }
}

impl Button {
    /// A classifier with the button up.
    pub fn new() -> (r: Button)
        ensures
            r.lpd == LONG_PRESS_MS,
            r.longdown is None,
    {
        Button { lpd: LONG_PRESS_MS, longdown: None }
    }

    /// Next step of a call that waits for a press until `timeout`: a press
    /// that has outlasted the threshold is reported long at once, one that
    /// may still be short waits until the threshold, anything else waits
    /// until `timeout`.
    pub fn plan(&mut self, timeout: Option<u64>, now: u64) -> (r: ButtonStep)
        ensures
            (*final(self), r) == plan_spec(*old(self), timeout, now),
    {
        match self.longdown {
            Some((false, down)) => {
                let limit = later_exec(down, self.lpd);
                if limit < now {
                    self.longdown = Some((true, down));
                    ButtonStep::Emit(Press::LongStart(down))
                } else {
                    ButtonStep::Await(Some(limit))
                }
            },
            _ => ButtonStep::Await(timeout),
        }
    }

    /// Takes the outcome of the debounced wait that `plan` asked for.
    pub fn on_edge(&mut self, poll: PinPoll, level: Level, time: u64) -> (r: EdgeReply)
        ensures
            (*final(self), r) == edge_spec(*old(self), poll, level, time),
    {
        match self.longdown {
            Some((false, down)) => match poll {
                PinPoll::Timeout => {
                    self.longdown = Some((true, down));
                    EdgeReply::Press(Press::LongStart(down))
                },
                PinPoll::Edge => if level == Level::High {
                    self.longdown = None;
                    EdgeReply::Press(Press::Short(down))
                } else {
                    EdgeReply::Inconsistent
                },
            },
            Some((true, start)) => match poll {
                PinPoll::Timeout => EdgeReply::Silence,
                PinPoll::Edge => if level == Level::High {
                    self.longdown = None;
                    EdgeReply::Press(Press::LongEnd(start, time))
                } else {
                    EdgeReply::Inconsistent
                },
            },
            None => match poll {
                PinPoll::Timeout => EdgeReply::Silence,
                PinPoll::Edge => if level == Level::Low {
                    self.longdown = Some((false, time));
                    EdgeReply::Pending
                } else {
                    EdgeReply::Inconsistent
                },
            },
        }
    }
}

// ---------------------------------------------------------------------- laws

/// A raw edge inside the settle window leaves the debouncer exactly as it
/// was, so any number of bounces added there changes nothing that it later
/// reports; it only waits one more window.
pub proof fn lemma_bounce_is_absorbed(d: EdgeDeb, now: u64)
    requires
        d.phase == DebPhase::Settle,
    ensures
        deb_edge_spec(d, true, now) == (d, DebAction::WaitEdge(Some(later(now, d.deb)))),
{
}

/// The level is read only after a settle window without raw edges, and an
/// edge is reported exactly when that settled level differs from the last
/// report; the report then becomes the new last level, so reported edges
/// alternate.
pub proof fn lemma_settled_read_reports(d: EdgeDeb, level: Level, now: u64)
    requires
        d.phase != DebPhase::Check,
    ensures
        deb_edge_spec(d, true, now).1 != DebAction::ReadLevel,
        d.phase == DebPhase::Settle ==> deb_edge_spec(d, false, now).1 == DebAction::ReadLevel,
        ({
            let c = deb_edge_spec(d, false, now).0;
            c.phase == DebPhase::Check ==> {
                let (e, a) = deb_level_spec(c, level);
                &&& (a is Report <==> level != d.lrs)
                &&& (level != d.lrs ==> a == DebAction::Report(PinPoll::Edge, level, c.pf) && e.lrs == level)
                &&& (level == d.lrs ==> e.lrs == d.lrs)
            }
        }),
{
}

/// One thing handed to the debouncer: a level read, or the outcome of a wait
/// for a raw edge (whether one came, and when the wait ended).
#[derive(Clone, Copy, Debug, PartialEq, Eq, Structural)]
pub enum DebInput {
    Read(Level),
    Wait(bool, u64),
}

pub open spec fn deb_step(d: EdgeDeb, i: DebInput) -> (EdgeDeb, DebAction) {
    match i {
        DebInput::Read(l) => deb_level_spec(d, l),
        DebInput::Wait(e, t) => deb_edge_spec(d, e, t),
    }
}

/// The debouncer after a run of inputs.
pub open spec fn deb_after(d: EdgeDeb, evs: Seq<DebInput>) -> EdgeDeb
    decreases evs.len(),
{
    if evs.len() == 0 {
        d
    } else {
        deb_after(deb_step(d, evs[0]).0, evs.drop_first())
    }
}

/// What a run of inputs reports, in order.
pub open spec fn deb_reports(d: EdgeDeb, evs: Seq<DebInput>) -> Seq<DebAction>
    decreases evs.len(),
{
    if evs.len() == 0 {
        Seq::empty()
    } else {
        let (d1, a) = deb_step(d, evs[0]);
        let rest = deb_reports(d1, evs.drop_first());
        if a is Report { seq![a] + rest } else { rest }
    }
}

/// Bounce noise is ignored: adding a raw edge at any point where the
/// debouncer is waiting out a settle window changes neither what it reports
/// nor the state it ends in.
pub proof fn lemma_bounce_noise_ignored(d: EdgeDeb, pre: Seq<DebInput>, t: u64, post: Seq<DebInput>)
    requires
        deb_after(d, pre).phase == DebPhase::Settle,
    ensures
        deb_after(d, pre + seq![DebInput::Wait(true, t)] + post) == deb_after(d, pre + post),
        deb_reports(d, pre + seq![DebInput::Wait(true, t)] + post) == deb_reports(d, pre + post),
    decreases pre.len(),
{
    let noisy = pre + seq![DebInput::Wait(true, t)] + post;
    if pre.len() == 0 {
        assert(noisy[0] == DebInput::Wait(true, t));
        assert(noisy.drop_first() =~= post);
        assert(pre + post =~= post);
        lemma_bounce_is_absorbed(d, t);
    } else {
        let d1 = deb_step(d, pre[0]).0;
        assert(noisy[0] == pre[0]);
        assert(noisy.drop_first() =~= pre.drop_first() + seq![DebInput::Wait(true, t)] + post);
        assert((pre + post)[0] == pre[0]);
        assert((pre + post).drop_first() =~= pre.drop_first() + post);
        lemma_bounce_noise_ignored(d1, pre.drop_first(), t, post);
    }
}

/// What a run of inputs reports, in order, without the times.
pub open spec fn deb_levels(d: EdgeDeb, evs: Seq<DebInput>) -> Seq<(PinPoll, Level)>
    decreases evs.len(),
{
    if evs.len() == 0 {
        Seq::empty()
    } else {
        let (d1, a) = deb_step(d, evs[0]);
        let rest = deb_levels(d1, evs.drop_first());
        match a {
            DebAction::Report(p, l, _) => seq![(p, l)] + rest,
            _ => rest,
        }
    }
}

/// Two debouncers that differ at most in the time they would stamp on a
/// report.
pub open spec fn same_but_time(a: EdgeDeb, b: EdgeDeb) -> bool {
    a == (EdgeDeb { pf: a.pf, ..b })
}

/// A raw edge in the input.
pub open spec fn is_bounce(i: DebInput) -> bool {
    i matches DebInput::Wait(true, _)
}

/// The time stamped on reports changes nothing else: debouncers that differ
/// only in it report the same edges and timeouts and end alike.
pub proof fn lemma_time_only_stamps(a: EdgeDeb, b: EdgeDeb, evs: Seq<DebInput>)
    requires
        same_but_time(a, b),
    ensures
        deb_levels(a, evs) == deb_levels(b, evs),
        same_but_time(deb_after(a, evs), deb_after(b, evs)),
    decreases evs.len(),
{
    if evs.len() > 0 {
        lemma_time_only_stamps(deb_step(a, evs[0]).0, deb_step(b, evs[0]).0, evs.drop_first());
    }
}

proof fn lemma_bounces_absorbed(d: EdgeDeb, bounces: Seq<DebInput>, post: Seq<DebInput>)
    requires
        d.phase == DebPhase::Settle,
        forall|i: int| 0 <= i < bounces.len() ==> is_bounce(#[trigger] bounces[i]),
    ensures
        deb_after(d, bounces + post) == deb_after(d, post),
        deb_levels(d, bounces + post) == deb_levels(d, post),
    decreases bounces.len(),
{
    if bounces.len() > 0 {
        let all = bounces + post;
        assert(is_bounce(bounces[0]));
        assert(all[0] == bounces[0]);
        assert(all.drop_first() =~= bounces.drop_first() + post);
        let rest = bounces.drop_first();
        assert forall|i: int| 0 <= i < rest.len() implies is_bounce(#[trigger] rest[i]) by {
            assert(rest[i] == bounces[i + 1]);
        }
        lemma_bounces_absorbed(d, rest, post);
    }
}

/// A glitch from a stable level is ignored: a raw edge, any bounces after
/// it, a quiet settle window, and a read of the level the line already had
/// report nothing, and afterwards the debouncer reports the same edges and
/// timeouts as if the glitch had never happened; only the times on its
/// reports may differ.
pub proof fn lemma_glitch_ignored(
    d: EdgeDeb,
    t1: u64,
    bounces: Seq<DebInput>,
    t2: u64,
    post: Seq<DebInput>,
)
    requires
        d.phase == DebPhase::Await,
        forall|i: int| 0 <= i < bounces.len() ==> is_bounce(#[trigger] bounces[i]),
    ensures
        ({
            let glitch = seq![DebInput::Wait(true, t1)] + bounces + seq![
                DebInput::Wait(false, t2),
                DebInput::Read(d.lrs),
            ];
            &&& deb_levels(d, glitch + post) == deb_levels(d, post)
            &&& same_but_time(deb_after(d, glitch + post), deb_after(d, post))
        }),
{
    let tail = seq![DebInput::Wait(false, t2), DebInput::Read(d.lrs)] + post;
    let all = seq![DebInput::Wait(true, t1)] + bounces + seq![
        DebInput::Wait(false, t2),
        DebInput::Read(d.lrs),
    ] + post;
    let d1 = deb_step(d, DebInput::Wait(true, t1)).0;
    assert(all[0] == DebInput::Wait(true, t1));
    assert(all.drop_first() =~= bounces + tail);
    lemma_bounces_absorbed(d1, bounces, tail);
    let d2 = deb_step(d1, DebInput::Wait(false, t2)).0;
    assert(tail[0] == DebInput::Wait(false, t2));
    assert(tail.drop_first() =~= seq![DebInput::Read(d.lrs)] + post);
    let r = seq![DebInput::Read(d.lrs)] + post;
    assert(r[0] == DebInput::Read(d.lrs));
    assert(r.drop_first() =~= post);
    let d3 = deb_step(d2, DebInput::Read(d.lrs)).0;
    assert(same_but_time(d3, d));
    lemma_time_only_stamps(d3, d, post);
    assert(deb_after(d2, r) == deb_after(d3, post));
    assert(deb_after(d1, tail) == deb_after(d2, r));
    assert(deb_after(d, all) == deb_after(d1, bounces + tail));
    assert(deb_levels(d2, r) == deb_levels(d3, post));
    assert(deb_levels(d1, tail) == deb_levels(d2, r));
    assert(deb_levels(d, all) == deb_levels(d1, bounces + tail));
}

/// Each reported edge goes to a level other than the last one reported,
/// starting from `last`; timeouts report the level unchanged.
pub open spec fn edges_alternate(last: Level, s: Seq<(PinPoll, Level)>) -> bool
    decreases s.len(),
{
    if s.len() == 0 {
        true
    } else if s[0].0 == PinPoll::Edge {
        s[0].1 != last && edges_alternate(s[0].1, s.drop_first())
    } else {
        s[0].1 == last && edges_alternate(last, s.drop_first())
    }
}

/// Over any run of inputs the debounced edges alternate: none repeats the
/// level that was last reported, so no oscillation that settles back where
/// it was ever shows.
pub proof fn lemma_edges_alternate(d: EdgeDeb, evs: Seq<DebInput>)
    ensures
        edges_alternate(d.lrs, deb_levels(d, evs)),
    decreases evs.len(),
{
    if evs.len() > 0 {
        let (d1, a) = deb_step(d, evs[0]);
        let rest = deb_levels(d1, evs.drop_first());
        lemma_edges_alternate(d1, evs.drop_first());
        match a {
            DebAction::Report(p, l, _) => {
                let s = seq![(p, l)] + rest;
                assert(s[0] == (p, l));
                assert(s.drop_first() =~= rest);
            },
            _ => {},
        }
    }
}

/// A press released before the long-press threshold yields exactly one
/// `Short`, stamped with the time the button went down, and leaves the
/// button up.
pub proof fn lemma_short_press(b: Button, down: u64, now: u64, up: u64, timeout: Option<u64>)
    requires
        b.longdown is None,
        now <= later(down, b.lpd),
    ensures
        ({
            let (b1, r1) = edge_spec(b, PinPoll::Edge, Level::Low, down);
            let (b2, s2) = plan_spec(b1, timeout, now);
            let (b3, r3) = edge_spec(b2, PinPoll::Edge, Level::High, up);
            &&& r1 == EdgeReply::Pending
            &&& s2 == ButtonStep::Await(Some(later(down, b.lpd)))
            &&& r3 == EdgeReply::Press(Press::Short(down))
            &&& b3.longdown is None
        }),
{
}

/// A press held past the threshold yields one `LongStart` with the time it
/// went down, whether the threshold is seen on planning or as the timeout of
/// the wait; it is then held as long.
pub proof fn lemma_long_start(b: Button, down: u64, now: u64, timeout: Option<u64>, t: u64, level: Level)
    requires
        b.longdown == Some((false, down)),
    ensures
        later(down, b.lpd) < now ==> plan_spec(b, timeout, now) == (
            Button { longdown: Some((true, down)), ..b },
            ButtonStep::Emit(Press::LongStart(down)),
        ),
        edge_spec(b, PinPoll::Timeout, level, t) == (
            Button { longdown: Some((true, down)), ..b },
            EdgeReply::Press(Press::LongStart(down)),
        ),
{
}

/// A press held as long yields no second `LongStart`: planning and timeouts
/// leave it as it is, and the release yields exactly one `LongEnd` carrying
/// the original start and the release time, with the button up again.
pub proof fn lemma_long_end(b: Button, down: u64, now: u64, timeout: Option<u64>, t: u64, level: Level, up: u64)
    requires
        b.longdown == Some((true, down)),
    ensures
        plan_spec(b, timeout, now) == (b, ButtonStep::Await(timeout)),
        edge_spec(b, PinPoll::Timeout, level, t) == (b, EdgeReply::Silence),
        edge_spec(b, PinPoll::Edge, Level::High, up) == (
            Button { longdown: None, ..b },
            EdgeReply::Press(Press::LongEnd(down, up)),
        ),
{
}

} // verus!
