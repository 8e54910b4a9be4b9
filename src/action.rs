//! The configured actions, what a decoded word starts, the single slot of
//! the running action, and the policy that ends a subprocess.
use vstd::prelude::*;
use crate::morse::MorseWord;
use vstd::std_specs::iter::IteratorSpec;

verus! {

/// One configured action.
#[derive(Clone, Debug)]
pub enum Command {
    /// Run a program: the first item is its path, the rest its arguments.
    SubProcess { cmd: Vec<String> },
    /// Use the last `time_ms` of the loop tape: play it back, send it, or both.
    LoopTape { time_ms: u64, play: bool, send: bool },
}

/// Why a configuration was refused.
#[derive(Clone, Debug)]
pub enum ConfigError {
    /// A subprocess action without a program.
    EmptyCommand(MorseWord),
    /// Two actions under one word.
    DuplicateKey(MorseWord),
    /// A loop tape time that is not a duration.
    BadTime,
    /// A loop tape time too long to count in milliseconds.
    TimeOverflow,
    /// A loop tape time written with more than `MAX_TIME_CHARS` characters.
    TimeTextTooLong,
}

/// The default of a loop tape action's `play`.
pub fn ftrue() -> (r: bool)
    ensures
        r,
{
    true
}

// ------------------------------------------------------------ loop tape time

/// What `humantime::parse_duration` makes of a text: whole seconds and the
/// nanoseconds beyond them, or `None` where it refuses the text.
pub uninterp spec fn humantime_parts(s: Seq<char>) -> Option<(u64, u32)>;

/// Longest text accepted as a loop tape time.
///
/// In this many characters humantime's grammar (numbers, each followed by a
/// unit of at most a year) cannot reach 10^11 years, about 3.2e18 seconds,
/// far below the seconds a `Duration` holds; so its closing step, which
/// carries whole seconds out of the nanoseconds through `Duration::new`,
/// cannot overflow, and the call does not panic.
pub const MAX_TIME_CHARS: usize = 12;

/// Relies on `humantime::parse_duration` for the duration that a text such
/// as `30s` or `2min 5s` stands for, split by `Duration::as_secs` and
/// `Duration::subsec_nanos` (the latter below one second). Texts longer than
/// `MAX_TIME_CHARS` are left out: on some of them the call panics.
#[verifier::external_body]
fn parse_humantime(s: &str) -> (r: Option<(u64, u32)>)
    requires
        s@.len() <= MAX_TIME_CHARS,
    ensures
        r == humantime_parts(s@),
        r matches Some(p) ==> p.1 < 1_000_000_000,
{
    humantime::parse_duration(s).ok().map(|d| (d.as_secs(), d.subsec_nanos()))
}

/// Whether `s` has at most `n` characters.
pub fn chars_at_most(s: &str, n: usize) -> (r: bool)
    ensures
        r <==> s@.len() <= n,
{
    let mut count: usize = 0;
    let mut chars = s.chars();
    let ghost mut seen: Seq<char> = Seq::empty();
    proof {
        vstd::string::axiom_spec_iter(s);
    }
    loop
        invariant
            seen + chars.remaining() == s@,
            count == seen.len(),
            count <= n,
            chars.obeys_prophetic_iter_laws(),
            chars.decrease() is Some,
        decreases chars.decrease()->0,
    {
        let ghost before = chars;
        let next = chars.next();
        proof {
            vstd::string::next_postcondition(&before, &chars, next);
        }
        match next {
            None => {
                assert(seen =~= s@);
                return true;
            },
            Some(c) => {
                proof {
                    let ghost old_seen = seen;
                    seen = seen.push(c);
                    assert(seen + chars.remaining() =~= s@) by {
                        assert(before.remaining() =~= seq![c] + chars.remaining());
                        assert(old_seen + before.remaining() == s@);
                    }
                }
                if count == n {
                    assert(s@.len() >= seen.len());
                    return false;
                }
                count = count + 1;
            },
        }
    }
}

pub open spec fn tape_time_spec(parts: Option<(u64, u32)>) -> Result<u64, ConfigError> {
    match parts {
        None => Err(ConfigError::BadTime),
        Some((secs, nanos)) => {
            let ms = secs * 1000 + nanos / 1_000_000;
            if ms > u64::MAX { Err(ConfigError::TimeOverflow) } else { Ok(ms as u64) }
        },
    }
}

/// Whole milliseconds of a parsed duration.
pub fn tape_time_ms(parts: Option<(u64, u32)>) -> (r: Result<u64, ConfigError>)
    ensures
        r == tape_time_spec(parts),
{
    match parts {
        None => Err(ConfigError::BadTime),
        Some((secs, nanos)) => {
            let extra: u64 = (nanos / 1_000_000) as u64;
            if secs > (u64::MAX - extra) / 1000 {
                assert(secs * 1000 + extra > u64::MAX) by (nonlinear_arith)
                    requires secs > (u64::MAX - extra) / 1000, extra <= 4294;
                Err(ConfigError::TimeOverflow)
            } else {
                assert(secs * 1000 + extra <= u64::MAX) by (nonlinear_arith)
                    requires secs <= (u64::MAX - extra) / 1000, extra <= 4294;
                Ok(secs * 1000 + extra)
            }
        },
    }
}

/// Parses the `time` of a loop tape action, such as `30s`; a text longer
/// than `MAX_TIME_CHARS` is refused.
pub fn parse_tape_time(s: &str) -> (r: Result<u64, ConfigError>)
    ensures
        s@.len() > MAX_TIME_CHARS ==> r == Err::<u64, ConfigError>(ConfigError::TimeTextTooLong),
        s@.len() <= MAX_TIME_CHARS ==> r == tape_time_spec(humantime_parts(s@)),
{
    if !chars_at_most(s, MAX_TIME_CHARS) {
        return Err(ConfigError::TimeTextTooLong);
    }
    tape_time_ms(parse_humantime(s))
}

// ---------------------------------------------------------------- the table

/// The action that a decoded word resolves to.
#[derive(Clone, Debug)]
pub enum Plan {
    /// No action is configured under the word.
    Nothing,
    /// Start this program with these arguments.
    Spawn { path: String, args: Vec<String> },
    /// Take the last `time_ms` of the loop tape.
    Tape { time_ms: u64, play: bool, send: bool },
}

/// `p` is what the command `c` starts: its program and arguments, or its
/// use of the loop tape.
pub open spec fn plan_of(p: Plan, c: Command) -> bool {
    match c {
        Command::SubProcess { cmd } => p matches Plan::Spawn { path, args } && path == cmd@[0]
            && args@ == cmd@.subrange(1, cmd@.len() as int),
        Command::LoopTape { time_ms, play, send } => p == (Plan::Tape { time_ms, play, send }),
    }
}

pub open spec fn tape_of(c: Command) -> Option<u64> {
    match c {
        Command::LoopTape { time_ms, .. } => Some(time_ms),
        _ => None,
    }
}

/// The longest loop tape time among the entries, if any.
pub open spec fn max_tape(s: Seq<(MorseWord, Command)>) -> Option<u64>
    decreases s.len(),
{
    if s.len() == 0 {
        None
    } else {
        let rest = max_tape(s.drop_last());
        match (rest, tape_of(s.last().1)) {
            (Some(a), Some(b)) => Some(if a >= b { a } else { b }),
            (Some(a), None) => Some(a),
            (None, b) => b,
        }
    }
}

pub open spec fn keys_unique(s: Seq<(MorseWord, Command)>) -> bool {
    forall|i: int, j: int| 0 <= i < j < s.len() ==> s[i].0@ != s[j].0@
}

pub open spec fn programs_named(s: Seq<(MorseWord, Command)>) -> bool {
    forall|i: int| 0 <= i < s.len() ==> match #[trigger] s[i].1 {
        Command::SubProcess { cmd } => cmd@.len() > 0,
        _ => true,
    }
}

/// The actions configured under their words.
#[derive(Clone, Debug)]
pub struct ButtonCommands {
    cmds: Vec<(MorseWord, Command)>,
    tape_ms: Option<u64>,
}

impl ButtonCommands {
    pub closed spec fn entries(&self) -> Seq<(MorseWord, Command)> {
        self.cmds@
    }

    pub closed spec fn tape_spec(&self) -> Option<u64> {
        self.tape_ms
    }

    /// Each word has at most one action, and each program is named.
    pub open spec fn wf(&self) -> bool {
        &&& keys_unique(self.entries())
        &&& programs_named(self.entries())
        &&& self.tape_spec() == max_tape(self.entries())
    }

    /// No actions: what a missing configuration gives.
    pub fn empty() -> (r: ButtonCommands)
        ensures
            r.wf(),
            r.entries().len() == 0,
            r.tape_spec() is None,
    {
        ButtonCommands { cmds: Vec::new(), tape_ms: None }
    }

    /// Length of the loop tape that the actions need: the longest of their
    /// times, or `None` where no action uses it.
    pub fn tape_time(&self) -> (r: Option<u64>)
        ensures
            r == self.tape_spec(),
    {
        self.tape_ms
    }

    /// Builds the table; a subprocess action without a program, or a second
    /// action under a word, refuses the whole configuration.
    pub fn from_entries(entries: Vec<(MorseWord, Command)>) -> (r: Result<ButtonCommands, ConfigError>)
        ensures
            r is Ok <==> keys_unique(entries@) && programs_named(entries@),
            r matches Ok(t) ==> t.wf() && t.entries() == entries@ && t.tape_spec() == max_tape(entries@),
            r matches Err(e) ==> (e is EmptyCommand && !programs_named(entries@)) || (e is DuplicateKey
                && !keys_unique(entries@)),
    {
        let mut i: usize = 0;
        let mut tape: Option<u64> = None;
        while i < entries.len()
            invariant
                i <= entries.len(),
                keys_unique(entries@.subrange(0, i as int)),
                programs_named(entries@.subrange(0, i as int)),
                tape == max_tape(entries@.subrange(0, i as int)),
            decreases entries.len() - i,
        {
            let ghost pre = entries@.subrange(0, i as int);
            let ghost next = entries@.subrange(0, i + 1);
            assert(next.drop_last() =~= pre);
            match &entries[i].1 {
                Command::SubProcess { cmd } => {
                    if cmd.len() == 0 {
                        assert(!programs_named(entries@)) by {
                            assert(match entries@[i as int].1 {
                                Command::SubProcess { cmd } => cmd@.len() == 0,
                                _ => false,
                            });
                        }
                        return Err(ConfigError::EmptyCommand(entries[i].0.clone()));
                    }
                },
                Command::LoopTape { time_ms, .. } => {
                    tape = match tape {
                        Some(a) => Some(if a >= *time_ms { a } else { *time_ms }),
                        None => Some(*time_ms),
                    };
                },
            }
            let mut j: usize = 0;
            while j < i
                invariant
                    i < entries.len(),
                    j <= i,
                    forall|k: int| 0 <= k < j ==> entries@[k].0@ != entries@[i as int].0@,
                decreases i - j,
            {
                if entries[j].0 == entries[i].0 {
                    assert(!keys_unique(entries@));
                    return Err(ConfigError::DuplicateKey(entries[i].0.clone()));
                }
                j = j + 1;
            }
            assert(keys_unique(next));
            assert(programs_named(next)) by {
                assert forall|k: int| 0 <= k < next.len() implies match #[trigger] next[k].1 {
                    Command::SubProcess { cmd } => cmd@.len() > 0,
                    _ => true,
                } by {
                    if k < i {
                        assert(next[k] == pre[k]);
                    }
                }
            }
            i = i + 1;
        }
        assert(entries@.subrange(0, entries.len() as int) =~= entries@);
        Ok(ButtonCommands { cmds: entries, tape_ms: tape })
    }

    /// Position of the action configured under `word`.
    pub fn find(&self, word: &MorseWord) -> (r: Option<usize>)
        ensures
            r matches Some(k) ==> k < self.entries().len() && self.entries()[k as int].0@ == word@,
            r is None ==> forall|k: int| 0 <= k < self.entries().len() ==> self.entries()[k].0@ != word@,
    {
        let mut i: usize = 0;
        while i < self.cmds.len()
            invariant
                i <= self.cmds.len(),
                forall|k: int| 0 <= k < i ==> self.cmds@[k].0@ != word@,
            decreases self.cmds.len() - i,
        {
            if self.cmds[i].0 == *word {
                return Some(i);
            }
            i = i + 1;
        }
        None
    }

    /// What the decoded word starts: the configured action, or nothing where
    /// none is configured under it.
    pub fn exec(&self, word: &MorseWord) -> (r: Plan)
        requires
            self.wf(),
        ensures
            (exists|k: int| 0 <= k < self.entries().len() && self.entries()[k].0@ == word@) ==> exists|k: int|
                0 <= k < self.entries().len() && #[trigger] self.entries()[k].0@ == word@ && plan_of(r, self.entries()[k].1),
            (forall|k: int| 0 <= k < self.entries().len() ==> self.entries()[k].0@ != word@) ==> r is Nothing,
    {
        match self.find(word) {
            None => Plan::Nothing,
            Some(k) => match &self.cmds[k].1 {
                Command::SubProcess { cmd } => {
                    assert(cmd@.len() > 0) by {
                        assert(match self.cmds@[k as int].1 {
                            Command::SubProcess { cmd } => cmd@.len() > 0,
                            _ => true,
                        });
                    }
                    let path = cmd[0].clone();
                    let mut args: Vec<String> = Vec::new();
                    let mut i: usize = 1;
                    while i < cmd.len()
                        invariant
                            1 <= i <= cmd.len(),
                            args@ == cmd@.subrange(1, i as int),
                        decreases cmd.len() - i,
                    {
                        args.push(cmd[i].clone());
                        assert(args@ =~= cmd@.subrange(1, i + 1));
                        i = i + 1;
                    }
                    Plan::Spawn { path, args }
                },
                Command::LoopTape { time_ms, play, send } => Plan::Tape {
                    time_ms: *time_ms,
                    play: *play,
                    send: *send,
                },
            },
        }
    }
}

// --------------------------------------------------------------- the slot

/// The one place where the running background action is held.
///
/// Starting anything goes through three steps: `take` hands the previous
/// action out for teardown, `teardown_done` records that its teardown has
/// completed, and only then does `install` put the next action in. Ghost
/// counts record how many actions were put in and how many teardowns
/// completed.
pub struct ActionSlot<T> {
    current: Option<T>,
    tearing_down: Ghost<bool>,
    installed: Ghost<nat>,
    finished: Ghost<nat>,
}

impl<T> ActionSlot<T> {
    pub closed spec fn held(&self) -> Option<T> {
        self.current
    }

    /// An action was handed out and its teardown has not been reported done.
    pub closed spec fn in_teardown(&self) -> bool {
        self.tearing_down@
    }

    /// How many actions were ever put in.
    pub closed spec fn installed(&self) -> nat {
        self.installed@
    }

    /// How many of them have been torn down.
    pub closed spec fn finished(&self) -> nat {
        self.finished@
    }

    /// Every action put in is held, in teardown, or torn down; never both
    /// held and in teardown.
    pub open spec fn wf(&self) -> bool {
        &&& self.installed() == self.finished() + (if self.held() is Some { 1nat } else { 0nat }) + (
        if self.in_teardown() { 1nat } else { 0nat })
        &&& !(self.held() is Some && self.in_teardown())
    }

    pub fn new() -> (r: ActionSlot<T>)
        ensures
            r.wf(),
            r.held() is None,
            !r.in_teardown(),
            r.installed() == 0,
    {
        ActionSlot { current: None, tearing_down: Ghost(false), installed: Ghost(0), finished: Ghost(0) }
    }

    pub fn is_empty(&self) -> (r: bool)
        ensures
            r <==> self.held() is None,
    {
        self.current.is_none()
    }

    /// Hands the running action out for teardown; the slot is empty after,
    /// and in teardown where an action came out.
    pub fn take(&mut self) -> (r: Option<T>)
        requires
            old(self).wf(),
            !old(self).in_teardown(),
        ensures
            final(self).wf(),
            r == old(self).held(),
            final(self).held() is None,
            final(self).in_teardown() == r is Some,
            final(self).installed() == old(self).installed(),
            final(self).finished() == old(self).finished(),
    {
        let r = self.current.take();
        proof {
            self.tearing_down = Ghost(r is Some);
        }
        r
    }

    /// Records that the teardown of the action handed out by `take` has
    /// completed.
    pub fn teardown_done(&mut self)
        requires
            old(self).wf(),
        ensures
            final(self).wf(),
            !final(self).in_teardown(),
            final(self).held() == old(self).held(),
            final(self).installed() == old(self).installed(),
            final(self).finished() == old(self).finished() + if old(self).in_teardown() { 1nat } else { 0nat },
    {
        proof {
            if self.tearing_down@ {
                self.finished = Ghost(self.finished@ + 1);
            }
            self.tearing_down = Ghost(false);
        }
    }

    /// Puts the next action in; only an empty slot whose previous action has
    /// been torn down takes one.
    pub fn install(&mut self, next: Option<T>)
        requires
            old(self).wf(),
            old(self).held() is None,
            !old(self).in_teardown(),
        ensures
            final(self).wf(),
            final(self).held() == next,
            !final(self).in_teardown(),
            final(self).finished() == old(self).finished(),
            final(self).installed() == old(self).installed() + if next is Some { 1nat } else { 0nat },
    {
        proof {
            if next is Some {
                self.installed = Ghost(self.installed@ + 1);
            }
        }
        self.current = next;
    }
}

/// However requests to start actions follow one another, at most one action
/// is alive at a time (held, or being torn down), and a new one can only be
/// put in once every earlier one has been torn down: teardown of the
/// previous action happens before the start of the next.
pub proof fn lemma_slot_exclusive<T>(s: ActionSlot<T>)
    requires
        s.wf(),
    ensures
        s.installed() <= s.finished() + 1,
        s.installed() == s.finished() + 1 <==> (s.held() is Some || s.in_teardown()),
        s.held() is None && !s.in_teardown() ==> s.installed() == s.finished(),
{
}

// ---------------------------------------------------------- the button loop

/// How long a recording started by a long press may wait for the release.
pub const RECORD_LIMIT_MS: u64 = 20_000;

/// What the button loop does with a press that began a gesture.
#[derive(Clone, Copy, Debug, PartialEq, Eq, Structural)]
pub enum Gesture {
    /// A short press: decode a Morse word, then start its action.
    Decode,
    /// A long press: record until the release.
    Record,
}

/// The gesture that a press received while the button was up begins; a
/// silence, or the end of a long press, begins none.
pub fn dispatch(press: Option<crate::button::Press>) -> (r: Option<Gesture>)
    ensures
        r == match press {
            Some(crate::button::Press::Short(_)) => Some(Gesture::Decode),
            Some(crate::button::Press::LongStart(_)) => Some(Gesture::Record),
            _ => None::<Gesture>,
        },
{
    match press {
        Some(crate::button::Press::Short(_)) => Some(Gesture::Decode),
        Some(crate::button::Press::LongStart(_)) => Some(Gesture::Record),
        _ => None,
    }
}

/// Deadline of the wait for the release that ends a recording begun at `now`.
pub fn record_deadline(now: u64) -> (r: u64)
    ensures
        r == crate::button::later(now, RECORD_LIMIT_MS),
{
    if now > u64::MAX - RECORD_LIMIT_MS { u64::MAX } else { now + RECORD_LIMIT_MS }
}

// -------------------------------------------------------------- termination

/// Pause before each check of a child that was asked to stop.
pub const TERM_POLL_MS: u64 = 300;

/// Checks before the child is killed.
pub const TERM_POLLS: u32 = 10;

/// Longest wait for a child to stop on its own before it is killed.
pub open spec fn escalation_budget_ms() -> nat {
    TERM_POLL_MS as nat * TERM_POLLS as nat
}

/// What a check of the child found.
#[derive(Clone, Copy, Debug, PartialEq, Eq, Structural)]
pub enum ChildPoll {
    Exited,
    Running,
    /// The check itself failed: whether the child still runs is unknown, so
    /// it is killed.
    Failed,
}

/// What the terminator asks of its driver. It only ends on `Done` after a
/// check saw the child exit, or on `Kill`, after which the driver waits for
/// the killed child.
#[derive(Clone, Copy, Debug, PartialEq, Eq, Structural)]
pub enum TermStep {
    /// Sleep this long, then check the child.
    Wait(u64),
    /// Kill the child and wait for it unconditionally.
    Kill,
    /// Nothing more to do.
    Done,
}

/// Graceful-then-forced termination of a child that was sent an interrupt.
#[derive(Clone, Copy, Debug)]
pub struct Termination {
    /// Checks made so far.
    pub polls: u32,
    /// Time spent in the waits asked for so far.
    pub waited_ms: u64,
}

pub open spec fn term_start_spec() -> (Termination, TermStep) {
    (Termination { polls: 0, waited_ms: TERM_POLL_MS }, TermStep::Wait(TERM_POLL_MS))
}

pub open spec fn term_poll_spec(t: Termination, p: ChildPoll) -> (Termination, TermStep) {
    match p {
        ChildPoll::Running => if t.polls + 1 < TERM_POLLS {
            (
                Termination { polls: (t.polls + 1) as u32, waited_ms: (t.waited_ms + TERM_POLL_MS) as u64 },
                TermStep::Wait(TERM_POLL_MS),
            )
        } else {
            (Termination { polls: (t.polls + 1) as u32, ..t }, TermStep::Kill)
        },
        ChildPoll::Failed => (Termination { polls: (t.polls + 1) as u32, ..t }, TermStep::Kill),
        ChildPoll::Exited => (Termination { polls: (t.polls + 1) as u32, ..t }, TermStep::Done),
    }
}

/// The terminator after `n` checks that all found the child still running.
pub open spec fn ignoring(n: nat) -> (Termination, TermStep)
    decreases n,
{
    if n == 0 {
        term_start_spec()
    } else {
        term_poll_spec(ignoring((n - 1) as nat).0, ChildPoll::Running)
    }
}

impl Termination {
    pub open spec fn wf(&self) -> bool {
        &&& self.polls < TERM_POLLS
        &&& self.waited_ms == TERM_POLL_MS * (self.polls + 1)
    }

    /// Starts after the interrupt was sent: the first step is a pause.
    pub fn start() -> (r: (Termination, TermStep))
        ensures
            r == term_start_spec(),
            r.0.wf(),
    {
        (Termination { polls: 0, waited_ms: TERM_POLL_MS }, TermStep::Wait(TERM_POLL_MS))
    }

    /// Takes the outcome of the check that followed a pause.
    pub fn on_poll(&mut self, p: ChildPoll) -> (r: TermStep)
        requires
            old(self).wf(),
        ensures
            (*final(self), r) == term_poll_spec(*old(self), p),
            r is Wait ==> final(self).wf(),
    {
        let polls = self.polls + 1;
        self.polls = polls;
        match p {
            ChildPoll::Running => if polls < TERM_POLLS {
                self.waited_ms = self.waited_ms + TERM_POLL_MS;
                TermStep::Wait(TERM_POLL_MS)
            } else {
                TermStep::Kill
            },
            ChildPoll::Failed => TermStep::Kill,
            ChildPoll::Exited => TermStep::Done,
        }
    }
}

/// A child that ignores the interrupt is waited for exactly `TERM_POLLS`
/// pauses, never longer than the escalation budget in all, and is then
/// killed and waited for. Before that, a check that sees the child exit ends
/// the wait at once, and a failed check has it killed and waited for at
/// once: every path ends with the child seen dead.
pub proof fn lemma_bounded_termination(n: nat, p: ChildPoll)
    requires
        n <= TERM_POLLS,
    ensures
        ignoring(n).0.polls == n,
        ignoring(n).0.waited_ms <= escalation_budget_ms(),
        n < TERM_POLLS ==> ignoring(n).0.wf() && ignoring(n).1 == TermStep::Wait(TERM_POLL_MS),
        n < TERM_POLLS && p == ChildPoll::Exited ==> term_poll_spec(ignoring(n).0, p).1 == TermStep::Done,
        n < TERM_POLLS && p == ChildPoll::Failed ==> term_poll_spec(ignoring(n).0, p).1 == TermStep::Kill,
        n == TERM_POLLS ==> ignoring(n).1 == TermStep::Kill && ignoring(n).0.waited_ms == escalation_budget_ms(),
    decreases n,
{
    if n > 0 {
        lemma_bounded_termination((n - 1) as nat, p);
    }
}

} // verus!
