//! Raw PCM handling around the audio device: the loop tape, the capture of
//! one clip with cooperative cancellation, and what playback is handed.
//!
//! Samples are signed 16-bit, little endian, mono on capture, at
//! `SAMPLE_RATE`.
use vstd::prelude::*;
use std::collections::VecDeque;

verus! {

broadcast use vstd::std_specs::vecdeque::group_vec_dequeue_axioms;

/// Samples per second on capture and playback.
pub const SAMPLE_RATE: u32 = 48000;

/// Bytes read from the capture stream per block. Cancellation is checked
/// once per block, so it takes effect at most one block late.
pub const BLOCK_BYTES: usize = 2048;

/// Shortest clip that is kept: a tenth of a second. Anything shorter is the
/// startup latency of the audio device, not speech.
pub const MIN_CLIP_SAMPLES: usize = 4800;

/// The sample stored little endian in `lo`, `hi`.
pub open spec fn le16(lo: u8, hi: u8) -> i16 {
    let v = lo as int + 256 * hi as int;
    (if v >= 32768 { v - 65536 } else { v }) as i16
}

/// Low and high byte of a sample.
pub open spec fn lo_byte(s: i16) -> u8 {
    ((if s < 0 { s + 65536 } else { s as int }) % 256) as u8
}

pub open spec fn hi_byte(s: i16) -> u8 {
    ((if s < 0 { s + 65536 } else { s as int }) / 256) as u8
}

/// Bytes read as samples, two at a time; an odd last byte is dropped.
pub open spec fn samples_of(b: Seq<u8>) -> Seq<i16> {
    Seq::new(b.len() / 2, |i: int| le16(b[2 * i], b[2 * i + 1]))
}

/// Samples written as bytes.
pub open spec fn bytes_of(s: Seq<i16>) -> Seq<u8> {
    Seq::new(2 * s.len(), |i: int| if i % 2 == 0 { lo_byte(s[i / 2]) } else { hi_byte(s[i / 2]) })
}

/// Bytes of mono audio in `ms` milliseconds, held at the largest size.
pub open spec fn bytes_for(ms: u64) -> usize {
    let b = ms * (SAMPLE_RATE / 1000) * 2;
    if b > usize::MAX { usize::MAX } else { b as usize }
}

fn sample_from(lo: u8, hi: u8) -> (r: i16)
    ensures
        r == le16(lo, hi),
{
    let v: u32 = lo as u32 + 256 * hi as u32;
    if v >= 32768 { (v as i32 - 65536) as i16 } else { v as i16 }
}

/// Byte count of `ms` milliseconds of mono audio.
pub fn bytes_for_ms(ms: u64) -> (r: usize)
    ensures
        r == bytes_for(ms),
{
    let per_ms: u64 = (SAMPLE_RATE / 1000) as u64 * 2;
    if ms > (usize::MAX as u64) / per_ms {
        assert(ms * 96 > usize::MAX) by (nonlinear_arith)
            requires ms > usize::MAX as u64 / 96;
        usize::MAX
    } else {
        assert(ms * 96 <= usize::MAX) by (nonlinear_arith)
            requires ms <= usize::MAX as u64 / 96;
        (ms * per_ms) as usize
    }
}

/// Reads a block of bytes as samples.
pub fn samples_from_bytes(b: &[u8]) -> (r: Vec<i16>)
    ensures
        r@ == samples_of(b@),
{
    let mut out: Vec<i16> = Vec::new();
    let mut i: usize = 0;
    while i < b.len() / 2
        invariant
            i <= b.len() / 2,
            out@ =~= samples_of(b@).subrange(0, i as int),
        decreases b.len() / 2 - i,
    {
        out.push(sample_from(b[2 * i], b[2 * i + 1]));
        i = i + 1;
    }
    out
}

/// Writes samples as little endian bytes, as the playback stream takes them.
pub fn bytes_from_samples(s: &[i16]) -> (r: Vec<u8>)
    requires
        2 * s@.len() <= usize::MAX,
    ensures
        r@ == bytes_of(s@),
{
    let mut out: Vec<u8> = Vec::new();
    let mut i: usize = 0;
    while i < s.len()
        invariant
            i <= s.len(),
            2 * s@.len() <= usize::MAX,
            out@ =~= bytes_of(s@).subrange(0, 2 * i as int),
        decreases s.len() - i,
    {
        let x = s[i];
        let u: u32 = if x < 0 { (x as i32 + 65536) as u32 } else { x as u32 };
        out.push((u % 256) as u8);
        out.push((u / 256) as u8);
        i = i + 1;
    }
    out
}

// ---------------------------------------------------------------- loop tape

/// The bytes that remain of `old` when `n` more are appended to a tape of
/// `cap` bytes: the oldest go first.
pub open spec fn kept_after(old: Seq<u8>, n: int, cap: int) -> Seq<u8> {
    if old.len() + n > cap { old.subrange(old.len() + n - cap, old.len() as int) } else { old }
}

/// The samples of the most recent `duration_ms` on a tape holding `tape`:
/// all of it where the duration asks for more.
pub open spec fn snapshot(tape: Seq<u8>, duration_ms: u64) -> Seq<i16> {
    let len = tape.len() as int;
    let n = if bytes_for(duration_ms) < len { bytes_for(duration_ms) as int } else { len };
    samples_of(tape.subrange(len - n, len))
}

/// The most recent audio, up to a fixed number of bytes, continuously
/// overwritten by one writer; readers take copies.
pub struct LoopTape {
    tape: VecDeque<u8>,
    bytes: usize,
}

impl LoopTape {
    /// The bytes on the tape, oldest first.
    pub closed spec fn contents(&self) -> Seq<u8> {
        self.tape@
    }

    /// Capacity in bytes.
    pub closed spec fn capacity(&self) -> nat {
        self.bytes as nat
    }

    pub open spec fn wf(&self) -> bool {
        self.contents().len() <= self.capacity()
    }

    /// An empty tape that holds `duration_ms` of audio.
    pub fn new(duration_ms: u64) -> (r: LoopTape)
        ensures
            r.wf(),
            r.contents().len() == 0,
            r.capacity() == bytes_for(duration_ms),
    {
        LoopTape { tape: VecDeque::new(), bytes: bytes_for_ms(duration_ms) }
    }

    /// Capacity in bytes.
    pub fn capacity_bytes(&self) -> (r: usize)
        ensures
            r == self.capacity(),
    {
        self.bytes
    }

    /// Appends one captured block, first dropping the oldest bytes that
    /// would not fit.
    pub fn push_block(&mut self, block: &[u8])
        requires
            old(self).wf(),
            block@.len() <= old(self).capacity(),
            block@.len() % 2 == 0,
        ensures
            final(self).wf(),
            final(self).capacity() == old(self).capacity(),
            final(self).contents() == kept_after(
                old(self).contents(),
                block@.len() as int,
                old(self).capacity() as int,
            ) + block@,
    {
        let ghost start = self.tape@;
        let room = self.bytes - block.len();
        while self.tape.len() > room
            invariant
                self.bytes == old(self).bytes,
                room == self.bytes - block@.len(),
                self.tape@.len() <= start.len(),
                self.tape@ == start.subrange(start.len() - self.tape@.len(), start.len() as int),
                start.len() > room ==> self.tape@.len() >= room,
                start.len() <= room ==> self.tape@.len() == start.len(),
            decreases self.tape@.len(),
        {
            self.tape.pop_front();
        }
        assert(self.tape@ =~= kept_after(start, block@.len() as int, self.bytes as int));
        let ghost kept = self.tape@;
        let mut i: usize = 0;
        while i < block.len()
            invariant
                i <= block@.len(),
                self.bytes == old(self).bytes,
                kept.len() + block@.len() <= self.bytes,
                self.tape@ =~= kept + block@.subrange(0, i as int),
            decreases block@.len() - i,
        {
            self.tape.push_back(block[i]);
            i = i + 1;
        }
        assert(block@.subrange(0, block@.len() as int) =~= block@);
    }

    /// A copy of the most recent `duration_ms` of audio as samples; a
    /// duration longer than the tape gives all of it.
    pub fn get(&self, duration_ms: u64) -> (r: Vec<i16>)
        requires
            self.wf(),
        ensures
            r@ == snapshot(self.contents(), duration_ms),
    {
        let want = bytes_for_ms(duration_ms);
        let len = self.tape.len();
        let n = if want < len { want } else { len };
        let start = len - n;
        let ghost tail = self.tape@.subrange(start as int, len as int);
        let mut out: Vec<i16> = Vec::new();
        let mut i: usize = 0;
        while i < n / 2
            invariant
                len == self.tape@.len(),
                n <= len,
                start == len - n,
                tail == self.tape@.subrange(start as int, len as int),
                i <= n / 2,
                out@ =~= samples_of(tail).subrange(0, i as int),
            decreases n / 2 - i,
        {
            let lo = self.tape[start + 2 * i];
            let hi = self.tape[start + 2 * i + 1];
            out.push(sample_from(lo, hi));
            i = i + 1;
        }
        out
    }
}

/// Asking a full tape for more than it holds gives exactly its capacity:
/// half as many samples as it has bytes.
pub proof fn lemma_tape_clips_to_capacity(t: LoopTape, duration_ms: u64)
    requires
        t.wf(),
        t.contents().len() == t.capacity(),
        bytes_for(duration_ms) >= t.capacity(),
    ensures
        snapshot(t.contents(), duration_ms).len() == t.capacity() / 2,
{
}

// ------------------------------------------------------------------ capture

/// What a check of the stop signal found.
#[derive(Clone, Copy, Debug, PartialEq, Eq, Structural)]
pub enum CancelPoll {
    /// No stop asked for yet.
    Pending,
    /// Stop asked for.
    Fired,
    /// The side that could ask for a stop is gone.
    Closed,
}

/// What the capture loop does after a block.
#[derive(Clone, Copy, Debug, PartialEq, Eq, Structural)]
pub enum Flow {
    Continue,
    Break,
}

/// Why no clip came of a capture.
#[derive(Clone, Copy, Debug, PartialEq, Eq, Structural)]
pub enum CaptureError {
    /// Fewer samples than `MIN_CLIP_SAMPLES`.
    TooShort,
    /// The stop signal's sender went away without asking for a stop.
    Aborted,
}

/// The samples of one clip, gathered block by block.
#[derive(Clone, Debug)]
pub struct Capture {
    pub recorded: Vec<i16>,
}

pub open spec fn capture_finish_spec(recorded: Seq<i16>) -> Result<Seq<i16>, CaptureError> {
    if recorded.len() < MIN_CLIP_SAMPLES { Err(CaptureError::TooShort) } else { Ok(recorded) }
}

impl Capture {
    pub fn new() -> (r: Capture)
        ensures
            r.recorded@.len() == 0,
    {
        Capture { recorded: Vec::new() }
    }

    /// Keeps the samples of one block, then acts on the stop signal as it
    /// stands: go on while none came, stop once one came, fail where it can
    /// no longer come.
    pub fn on_block(&mut self, block: &[u8], cancel: CancelPoll) -> (r: Result<Flow, CaptureError>)
        ensures
            final(self).recorded@ == old(self).recorded@ + samples_of(block@),
            r == match cancel {
                CancelPoll::Pending => Ok(Flow::Continue),
                CancelPoll::Fired => Ok(Flow::Break),
                CancelPoll::Closed => Err(CaptureError::Aborted),
            },
    {
        let mut i: usize = 0;
        let ghost start = self.recorded@;
        while i < block.len() / 2
            invariant
                i <= block@.len() / 2,
                self.recorded@ =~= start + samples_of(block@).subrange(0, i as int),
            decreases block.len() / 2 - i,
        {
            self.recorded.push(sample_from(block[2 * i], block[2 * i + 1]));
            i = i + 1;
        }
        assert(samples_of(block@).subrange(0, (block@.len() / 2) as int) =~= samples_of(block@));
        match cancel {
            CancelPoll::Pending => Ok(Flow::Continue),
            CancelPoll::Fired => Ok(Flow::Break),
            CancelPoll::Closed => Err(CaptureError::Aborted),
        }
    }

    /// The clip's samples, or `TooShort` for a clip under the floor.
    pub fn finish(self) -> (r: Result<Vec<i16>, CaptureError>)
        ensures
            r matches Ok(v) ==> capture_finish_spec(self.recorded@) == Ok::<Seq<i16>, CaptureError>(v@),
            r matches Err(e) ==> capture_finish_spec(self.recorded@) == Err::<Seq<i16>, CaptureError>(e),
    {
        if self.recorded.len() < MIN_CLIP_SAMPLES {
            Err(CaptureError::TooShort)
        } else {
            Ok(self.recorded)
        }
    }
}

/// A capture stopped before it gathered `MIN_CLIP_SAMPLES` samples gives the
/// "too short" error, never a clip, however its blocks came in.
pub proof fn lemma_short_capture_refused(recorded: Seq<i16>)
    requires
        recorded.len() < MIN_CLIP_SAMPLES,
    ensures
        capture_finish_spec(recorded) == Err::<Seq<i16>, CaptureError>(CaptureError::TooShort),
{
}

/// Worst delay, in microseconds, between a stop being asked for and the
/// capture loop seeing it: one block of mono samples.
pub fn cancel_latency_us() -> (r: u64)
    ensures
        r == (BLOCK_BYTES / 2) as nat * 1_000_000 / SAMPLE_RATE as nat,
{
    (BLOCK_BYTES as u64 / 2) * 1_000_000 / SAMPLE_RATE as u64
}

// ---------------------------------------------------------------- the clip

/// A finished recording: the encoded bytes and what is known of them.
#[derive(Clone, Debug)]
pub struct Rec {
    pub data: Vec<u8>,
    /// Length of the audio, in whole milliseconds.
    pub duration_ms: u64,
    pub mimetype: String,
    /// Size of `data` in bytes.
    pub size: u64,
}

impl Rec {
    /// Describes an OGG encoding of `samples` mono samples.
    pub fn new(data: Vec<u8>, samples: usize) -> (r: Rec)
        ensures
            r.data@ == data@,
            r.duration_ms == samples as nat * 1000 / SAMPLE_RATE as nat,
            r.mimetype@ == "media/ogg"@,
            r.size == data@.len(),
    {
        let size = data.len() as u64;
        let duration_ms = samples as u64 / (SAMPLE_RATE as u64 / 1000);
        assert(samples as nat * 1000 / 48000 == samples as nat / 48) by (nonlinear_arith);
        Rec { data, duration_ms, mimetype: String::from_str("media/ogg"), size }
    }
}

// ----------------------------------------------------------------- playback

/// Why a clip cannot be played.
#[derive(Clone, Copy, Debug, PartialEq, Eq, Structural)]
pub enum AudioError {
    /// A stream with no channels.
    InvalidChannels,
    /// More samples than one write can carry.
    TooLong,
}

/// What the playback stream is handed: the bytes to write and its channel
/// count.
#[derive(Clone, Debug)]
pub struct PlaybackJob {
    pub bytes: Vec<u8>,
    pub channels: u16,
}

/// Prepares samples for the playback stream; zero channels is refused.
pub fn play_raw(data: &[i16], channels: u16) -> (r: Result<PlaybackJob, AudioError>)
    ensures
        channels == 0 ==> r == Err::<PlaybackJob, AudioError>(AudioError::InvalidChannels),
        channels != 0 && 2 * data@.len() > usize::MAX ==> r == Err::<PlaybackJob, AudioError>(AudioError::TooLong),
        r is Ok <==> channels != 0 && 2 * data@.len() <= usize::MAX,
        r matches Ok(job) ==> job.bytes@ == bytes_of(data@) && job.channels == channels,
{
    if channels == 0 {
        Err(AudioError::InvalidChannels)
    } else if data.len() > usize::MAX / 2 {
        Err(AudioError::TooLong)
    } else {
        Ok(PlaybackJob { bytes: bytes_from_samples(data), channels })
    }
}

/// The label a clip's declared type goes by in errors.
pub fn mime_label(mimetype: &Option<String>) -> (r: &str)
    ensures
        mimetype matches Some(m) ==> r@ == m@,
        mimetype is None ==> r@ == "MIME unknown"@,
{
    match mimetype {
        Some(m) => m.as_str(),
        None => "MIME unknown",
    }
}

/// Whether the capture utility ended as asked: a clean exit, or the hangup
/// signal.
pub fn capture_exit_ok(success: bool, signal: Option<i32>) -> (r: bool)
    ensures
        r <==> success || signal == Some(1i32),
{
    success || match signal {
        Some(s) => s == 1,
        None => false,
    }
}

/// The report of a failed playback: both outputs where both said something,
/// else the one that did, else a note that it failed silently.
pub fn playback_failure(stdout: &str, stderr: &str) -> (r: String)
    ensures
        r@ == if stdout@.len() > 0 && stderr@.len() > 0 {
            "Msg:\n"@ + stdout@ + "Err:\n"@ + stderr@
        } else if stderr@.len() > 0 {
            stderr@
        } else if stdout@.len() > 0 {
            stdout@
        } else {
            "(silent failure)"@
        },
{
    let out_empty = stdout.is_empty();
    let err_empty = stderr.is_empty();
    proof {
        reveal_strlit("Msg:\n");
        reveal_strlit("Err:\n");
    }
    if !out_empty && !err_empty {
        let mut m = String::from_str("Msg:\n");
        m.append(stdout);
        m.append("Err:\n");
        m.append(stderr);
        m
    } else if !err_empty {
        String::from_str(stderr)
    } else if !out_empty {
        String::from_str(stdout)
    } else {
        String::from_str("(silent failure)")
    }
}

} // verus!
