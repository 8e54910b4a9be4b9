//! The device's status flags, the colours they show, and the aggregator that
//! hands every change to a renderer.
use vstd::prelude::*;
use crate::button::Level;

verus! {

/// Connection to the chat server.
#[derive(Clone, Copy, Debug, PartialEq, Eq, Structural)]
pub enum MtxStatus {
    Starting,
    Good,
    Disconnected,
}

/// What the audio device is doing.
#[derive(Clone, Copy, Debug, PartialEq, Eq, Structural)]
pub enum AudioStatus {
    Recording,
    Playing,
    Idle,
}

/// Independent flags that together decide what the indicator shows.
#[derive(Clone, Copy, Debug, PartialEq, Eq, Structural)]
pub struct Status {
    pub send_status: bool,
    pub catchup_status: bool,
    pub mtx_status: MtxStatus,
    pub audio_status: AudioStatus,
    pub exited: bool,
}

/// Nothing pending, the connection starting, the audio idle.
pub open spec fn initial_status() -> Status {
    Status {
        send_status: false,
        catchup_status: false,
        mtx_status: MtxStatus::Starting,
        audio_status: AudioStatus::Idle,
        exited: false,
    }
}

impl Status {
    pub fn initial() -> (r: Status)
        ensures
            r == initial_status(),
    {
        Status {
            send_status: false,
            catchup_status: false,
            mtx_status: MtxStatus::Starting,
            audio_status: AudioStatus::Idle,
            exited: false,
        }
    }
}

/// Levels of the red, green and blue pins of a plain RGB LED.
pub open spec fn rgb_spec(s: Status) -> [Level; 3] {
    let pending = s.send_status || s.catchup_status;
    let meh = s.mtx_status != MtxStatus::Good;
    if s.exited {
        [Level::Low, Level::Low, Level::Low]
    } else if s.audio_status == AudioStatus::Recording {
        [Level::High, Level::Low, Level::Low]
    } else if s.audio_status == AudioStatus::Playing {
        [Level::Low, Level::High, Level::Low]
    } else if meh && pending {
        [Level::High, Level::Low, Level::High]
    } else if s.send_status {
        [Level::Low, Level::High, Level::High]
    } else if s.catchup_status {
        [Level::Low, Level::Low, Level::High]
    } else if s.mtx_status == MtxStatus::Starting {
        [Level::Low, Level::High, Level::High]
    } else {
        [Level::High, Level::High, Level::High]
    }
}

/// Colour of a plain RGB LED: red while recording, green while playing,
/// magenta for pending work on a bad connection, cyan while sending, blue
/// while others have not heard everything, cyan while connecting, white
/// otherwise, dark after exit.
pub fn color_for(s: &Status) -> (r: [Level; 3])
    ensures
        r == rgb_spec(*s),
{
    let pending = s.send_status || s.catchup_status;
    let meh = s.mtx_status != MtxStatus::Good;
    if s.exited {
        [Level::Low, Level::Low, Level::Low]
    } else if s.audio_status == AudioStatus::Recording {
        [Level::High, Level::Low, Level::Low]
    } else if s.audio_status == AudioStatus::Playing {
        [Level::Low, Level::High, Level::Low]
    } else if meh && pending {
        [Level::High, Level::Low, Level::High]
    } else if s.send_status {
        [Level::Low, Level::High, Level::High]
    } else if s.catchup_status {
        [Level::Low, Level::Low, Level::High]
    } else if s.mtx_status == MtxStatus::Starting {
        [Level::Low, Level::High, Level::High]
    } else {
        [Level::High, Level::High, Level::High]
    }
}

/// Brightness of the coloured LEDs; they are very bright.
pub const LED_H: u8 = 30;

pub open spec fn pending_color(s: Status) -> (u8, u8, u8) {
    if s.send_status {
        (LED_H, 0, LED_H)
    } else if s.catchup_status {
        (0, 0, LED_H)
    } else {
        (0, 0, 0)
    }
}

pub open spec fn audio_color(a: AudioStatus) -> (u8, u8, u8) {
    match a {
        AudioStatus::Recording => (LED_H, 0, 0),
        AudioStatus::Playing => (0, LED_H, 0),
        AudioStatus::Idle => (0, 0, 0),
    }
}

pub open spec fn mtx_color(m: MtxStatus) -> (u8, u8, u8) {
    match m {
        MtxStatus::Starting => (LED_H, LED_H, 0),
        MtxStatus::Good => (10, 10, 10),
        MtxStatus::Disconnected => (LED_H, LED_H / 2, 0),
    }
}

/// Colours of a three-LED strip, first LED first: the connection (yellow
/// starting, dim white good, amber lost), the audio (red recording, green
/// playing), pending work (purple sending, blue catching up); all dark after
/// exit.
pub fn strip_colors(s: &Status) -> (r: [(u8, u8, u8); 3])
    ensures
        s.exited ==> r == [(0u8, 0u8, 0u8), (0u8, 0u8, 0u8), (0u8, 0u8, 0u8)],
        !s.exited ==> r == [mtx_color(s.mtx_status), audio_color(s.audio_status), pending_color(*s)],
{
    if s.exited {
        return [(0, 0, 0), (0, 0, 0), (0, 0, 0)];
    }
    let pending = if s.send_status {
        (LED_H, 0, LED_H)
    } else if s.catchup_status {
        (0, 0, LED_H)
    } else {
        (0, 0, 0)
    };
    let audio = match s.audio_status {
        AudioStatus::Recording => (LED_H, 0, 0),
        AudioStatus::Playing => (0, LED_H, 0),
        AudioStatus::Idle => (0, 0, 0),
    };
    let mtx = match s.mtx_status {
        MtxStatus::Starting => (LED_H, LED_H, 0),
        MtxStatus::Good => (10, 10, 10),
        MtxStatus::Disconnected => (LED_H, LED_H / 2, 0),
    };
    [mtx, audio, pending]
}

/// Something that shows the status; it is handed every change at once.
pub trait Render {
    /// The status shown now, if any was handed over yet.
    spec fn shown(&self) -> Option<Status>;

    fn render(&mut self, status: &Status)
        ensures
            final(self).shown() == Some(*status),
    ;
}

/// A renderer without a display: it keeps the last status handed to it.
#[derive(Clone, Copy, Debug)]
pub struct LastShown {
    pub last: Option<Status>,
}

impl LastShown {
    pub fn new() -> (r: LastShown)
        ensures
            r.last is None,
    {
        LastShown { last: None }
    }
}

impl Render for LastShown {
    open spec fn shown(&self) -> Option<Status> {
        self.last
    }

    fn render(&mut self, status: &Status) {
        self.last = Some(*status);
    }
}

/// One change of the status.
#[derive(Clone, Copy, Debug, PartialEq, Eq, Structural)]
pub enum Update {
    Audio(AudioStatus),
    Mtx(MtxStatus),
    Send(bool),
    CaughtUp(bool),
    Exited,
    /// No change; shows the status again.
    Refresh,
}

pub open spec fn apply(s: Status, u: Update) -> Status {
    match u {
        Update::Audio(a) => Status { audio_status: a, ..s },
        Update::Mtx(m) => Status { mtx_status: m, ..s },
        Update::Send(b) => Status { send_status: b, ..s },
        Update::CaughtUp(c) => Status { catchup_status: !c, ..s },
        Update::Exited => Status { exited: true, ..s },
        Update::Refresh => s,
    }
}

/// The status and the renderer that shows it.
pub struct StatusIndicators<R: Render> {
    render: R,
    status: Status,
}

impl<R: Render> StatusIndicators<R> {
    pub closed spec fn current(&self) -> Status {
        self.status
    }

    /// The renderer, as it stands after what it was handed.
    pub closed spec fn renderer(&self) -> R {
        self.render
    }

    /// The renderer shows the status as it stands.
    pub open spec fn in_sync(&self) -> bool {
        self.renderer().shown() == Some(self.current())
    }

    /// Starts from the initial status and shows it.
    pub fn new(render: R) -> (r: StatusIndicators<R>)
        ensures
            r.current() == initial_status(),
            r.in_sync(),
    {
        let mut r = StatusIndicators { render, status: Status::initial() };
        r.render.render(&r.status);
        r
    }

    /// The status as it stands.
    pub fn get(&self) -> (r: Status)
        ensures
            r == self.current(),
    {
        self.status
    }

    /// Applies one change and shows the result.
    pub fn status(&mut self, update: Update)
        ensures
            final(self).current() == apply(old(self).current(), update),
            final(self).in_sync(),
    {
        match update {
            Update::Audio(a) => self.status.audio_status = a,
            Update::Mtx(m) => self.status.mtx_status = m,
            Update::Send(b) => self.status.send_status = b,
            Update::CaughtUp(c) => self.status.catchup_status = !c,
            Update::Exited => self.status.exited = true,
            Update::Refresh => {},
        }
        self.render.render(&self.status);
    }

    /// The audio device is now recording, playing or idle.
    pub fn audio(&mut self, audio: AudioStatus)
        ensures
            final(self).current() == (Status { audio_status: audio, ..old(self).current() }),
            final(self).in_sync(),
    {
        self.status(Update::Audio(audio));
    }

    /// The connection changed.
    pub fn mtx(&mut self, mtx: MtxStatus)
        ensures
            final(self).current() == (Status { mtx_status: mtx, ..old(self).current() }),
            final(self).in_sync(),
    {
        self.status(Update::Mtx(mtx));
    }

    /// A clip is being sent, or no longer.
    pub fn send(&mut self, sending: bool)
        ensures
            final(self).current() == (Status { send_status: sending, ..old(self).current() }),
            final(self).in_sync(),
    {
        self.status(Update::Send(sending));
    }

    /// Whether everyone else has heard everything sent.
    pub fn caughtup(&mut self, caughtup: bool)
        ensures
            final(self).current() == (Status { catchup_status: !caughtup, ..old(self).current() }),
            final(self).in_sync(),
    {
        self.status(Update::CaughtUp(caughtup));
    }
}

// ------------------------------------------------------------------- guards

/// Marks a value whose end undoes something.
pub trait UndoOnDrop {
}

/// Holds an action to be run once, when its owner is done.
pub struct CallOnDrop<F: FnOnce()>(Option<F>);

impl<F: FnOnce()> CallOnDrop<F> {
    pub closed spec fn action(&self) -> Option<F> {
        self.0
    }

    pub fn call(f: F) -> (r: CallOnDrop<F>)
        ensures
            r.action() == Some(f),
    {
        CallOnDrop(Some(f))
    }

    /// Runs the action, if it has not run yet.
    pub fn fire(&mut self)
        requires
            old(self).action() matches Some(f) ==> f.requires(()),
        ensures
            final(self).action() is None,
            old(self).action() matches Some(f) ==> f.ensures((), ()),
    {
        if let Some(f) = self.0.take() {
            f();
        }
    }
}

impl<F: FnOnce()> UndoOnDrop for CallOnDrop<F> {
}

} // verus!
