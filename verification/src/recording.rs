//! The recorder's session bookkeeping: one recording at a time, its name and
//! file, its length when it stops, and the conversion of captured samples to
//! the 16-bit integers written to the WAV file.
use vstd::prelude::*;
use crate::api::result_view;
use crate::text::{decimal, push_decimal};

verus! {

/// A point in time: whole seconds since the Unix epoch and nanoseconds into
/// the current second.
#[derive(Clone, Copy, Debug)]
pub struct Timestamp {
    pub secs: u64,
    pub nanos: u32,
}

/// Milliseconds since the epoch, as `DateTime::timestamp_millis` counts them.
pub open spec fn millis(t: Timestamp) -> nat {
    (t.secs * 1000 + t.nanos / 1_000_000) as nat
}

/// The name of a recording started at `t`: `rec_` and the milliseconds.
pub open spec fn recording_id_text(t: Timestamp) -> Seq<char> {
    "rec_"@ + decimal(millis(t))
}

/// The name of a recording started at `t`.
pub fn recording_id(t: Timestamp) -> (id: String)
    ensures
        id@ == recording_id_text(t),
{
    let mut id = "rec_".to_owned();
    let ms: u128 = (t.secs as u128) * 1000 + (t.nanos as u128) / 1_000_000;
    push_decimal(&mut id, ms);
    id
}

/// The file a recording is written to: its name with the `.wav` extension.
pub fn recording_file_name(id: &str) -> (name: String)
    ensures
        name@ == id@ + ".wav"@,
{
    let mut name = id.to_owned();
    name.append(".wav");
    name
}

/// Nanoseconds from `start` to `end` (negative when `end` is earlier).
pub open spec fn elapsed_nanos(start: Timestamp, end: Timestamp) -> int {
    (end.secs - start.secs) * 1_000_000_000 + (end.nanos - start.nanos)
}

/// Whole seconds from `start` to `end`, rounded toward zero, as
/// `TimeDelta::num_seconds` gives them.
pub open spec fn elapsed_whole_seconds(start: Timestamp, end: Timestamp) -> int {
    let d = elapsed_nanos(start, end);
    if d >= 0 {
        d / 1_000_000_000
    } else {
        -((-d) / 1_000_000_000)
    }
}

/// The length of a recording in seconds, as stored: the whole seconds
/// elapsed, taken as an unsigned 64-bit number (a clock that went backwards
/// wraps around, as the cast does).
pub fn elapsed_seconds(start: Timestamp, end: Timestamp) -> (secs: u64)
    ensures
        secs == (elapsed_whole_seconds(start, end) as u64),
{
    let d: i128 = (end.secs as i128 - start.secs as i128) * 1_000_000_000 + (end.nanos as i128
        - start.nanos as i128);
    let whole: i128 = if d >= 0 {
        d / 1_000_000_000
    } else {
        -((-d) / 1_000_000_000)
    };
    whole as u64
}

/// A recording in progress: its name, its file and when it started.
pub struct RecordingSession {
    pub id: String,
    pub file_path: String,
    pub start_time: Timestamp,
}

/// What a finished recording hands on: its file and its length in seconds.
#[derive(Debug)]
pub struct StopRecordingResult {
    pub audio_path: String,
    pub duration: u64,
}

/// The message given when a recording is started while one is running.
pub const ALREADY_RECORDING_MESSAGE: &'static str = "已在錄音中";

/// The message given when a recording is stopped while none is running.
pub const NOT_RECORDING_MESSAGE: &'static str = "沒有在錄音";

/// The session a recorder holds, by its name, file and start time.
pub type SessionView = Option<(Seq<char>, Seq<char>, Timestamp)>;

/// The view of a session.
pub open spec fn session_view(s: RecordingSession) -> (Seq<char>, Seq<char>, Timestamp) {
    (s.id@, s.file_path@, s.start_time)
}

/// Keeps track of the one recording that may run at a time.
pub struct Recorder {
    current: Option<RecordingSession>,
}

impl View for Recorder {
    type V = SessionView;

    closed spec fn view(&self) -> SessionView {
        match self.current {
            Some(s) => Some(session_view(s)),
            None => None,
        }
    }
}

/// Starting a recording: refused while one runs, the session kept as it was;
/// otherwise the new session is held and its name is returned.
pub open spec fn begin_spec(state: SessionView, session: (Seq<char>, Seq<char>, Timestamp)) -> (
    SessionView,
    Result<Seq<char>, Seq<char>>,
) {
    match state {
        Some(_) => (state, Err(ALREADY_RECORDING_MESSAGE@)),
        None => (Some(session), Ok(session.0)),
    }
}

/// Stopping a recording at `now`: refused when none runs; otherwise the
/// session ends and its file and length in seconds are handed on.
pub open spec fn stop_spec(state: SessionView, now: Timestamp) -> (
    SessionView,
    Result<(Seq<char>, u64), Seq<char>>,
) {
    match state {
        None => (None, Err(NOT_RECORDING_MESSAGE@)),
        Some(s) => (None, Ok((s.1, elapsed_whole_seconds(s.2, now) as u64))),
    }
}

/// The views of the result of stopping a recording.
pub open spec fn stop_result_view(r: Result<StopRecordingResult, String>) -> Result<
    (Seq<char>, u64),
    Seq<char>,
> {
    match r {
        Ok(s) => Ok((s.audio_path@, s.duration)),
        Err(e) => Err(e@),
    }
}

impl Recorder {
    /// A recorder with no recording running.
    pub fn new() -> (r: Recorder)
        ensures
            r@ is None,
    {
        Recorder { current: None }
    }

    /// Whether a recording is running.
    pub fn is_recording(&self) -> (b: bool)
        ensures
            b == self@ is Some,
    {
        self.current.is_some()
    }

    /// Succeeds when no recording runs, so that one may be started.
    pub fn check_idle(&self) -> (r: Result<(), String>)
        ensures
            self@ is Some <==> r is Err,
            r matches Err(e) ==> e@ == ALREADY_RECORDING_MESSAGE@,
    {
        if self.current.is_some() {
            Err(ALREADY_RECORDING_MESSAGE.to_owned())
        } else {
            Ok(())
        }
    }

    /// Holds `session` as the running recording, unless one is running.
    pub fn begin(&mut self, session: RecordingSession) -> (r: Result<String, String>)
        ensures
            (final(self)@, result_view(r)) == begin_spec(old(self)@, session_view(session)),
    {
        if self.current.is_some() {
            return Err(ALREADY_RECORDING_MESSAGE.to_owned());
        }
        let id = session.id.clone();
        self.current = Some(session);
        Ok(id)
    }

    /// Ends the running recording at `now`, handing on its file and length.
    pub fn stop(&mut self, now: Timestamp) -> (r: Result<StopRecordingResult, String>)
        ensures
            (final(self)@, stop_result_view(r)) == stop_spec(old(self)@, now),
    {
        match self.current.take() {
            None => Err(NOT_RECORDING_MESSAGE.to_owned()),
            Some(s) => {
                let duration: u64 = elapsed_seconds(s.start_time, now);
                Ok(StopRecordingResult { audio_path: s.file_path, duration })
            },
        }
    }
}

/// A recording that is begun and then stopped hands on the file it was begun
/// with, and the recorder is free again.
pub proof fn law_stop_returns_begun_file(
    session: (Seq<char>, Seq<char>, Timestamp),
    now: Timestamp,
)
    ensures
        ({
            let (s1, r1) = begin_spec(None, session);
            let (s2, r2) = stop_spec(s1, now);
            &&& r1 == Ok::<Seq<char>, Seq<char>>(session.0)
            &&& r2 matches Ok(res) && res.0 == session.1
            &&& s2 is None
        }),
{
}

/// Only one recording runs at a time: starting another is refused and the
/// running one is kept.
pub proof fn law_one_recording_at_a_time(
    running: (Seq<char>, Seq<char>, Timestamp),
    other: (Seq<char>, Seq<char>, Timestamp),
)
    ensures
        begin_spec(Some(running), other) == (
            Some(running),
            Err::<Seq<char>, Seq<char>>(ALREADY_RECORDING_MESSAGE@),
        ),
{
}

/// Stopping twice: the second stop is refused.
pub proof fn law_second_stop_refused(state: SessionView, t1: Timestamp, t2: Timestamp)
    ensures
        stop_spec(stop_spec(state, t1).0, t2).1 == Err::<(Seq<char>, u64), Seq<char>>(
            NOT_RECORDING_MESSAGE@,
        ),
{
}

/// The 16-bit signed sample that an unsigned 16-bit sample is written as:
/// the same bits read as two's complement.
pub open spec fn u16_sample_as_i16(s: u16) -> int {
    if s < 32768 {
        s as int
    } else {
        s - 65536
    }
}

/// Converts unsigned 16-bit samples to the signed ones the WAV file holds.
pub fn u16_samples_to_i16(data: &[u16]) -> (out: Vec<i16>)
    ensures
        out@.len() == data@.len(),
        forall|i: int| 0 <= i < data@.len() ==> out@[i] as int == u16_sample_as_i16(#[trigger] data@[i]),
{
    let mut out: Vec<i16> = Vec::new();
    let n: usize = data.len();
    let mut i: usize = 0;
    while i < n
        invariant
            n == data@.len(),
            i <= n,
            out@.len() == i,
            forall|j: int| 0 <= j < i ==> out@[j] as int == u16_sample_as_i16(#[trigger] data@[j]),
        decreases n - i,
    {
        let s: u16 = data[i];
        let v: i16 = if s < 32768 {
            s as i16
        } else {
            (s as i32 - 65536) as i16
        };
        out.push(v);
        i = i + 1;
    }
    out
}

/// The layout of the WAV file a recording is written to.
pub struct RecordingFormat {
    pub channels: u16,
    pub sample_rate: u32,
    pub bits_per_sample: u16,
}

/// The WAV layout for a capture device's channels and rate: the same
/// channels and rate, with 16-bit integer samples.
pub fn recording_format(channels: u16, sample_rate: u32) -> (f: RecordingFormat)
    ensures
        f.channels == channels,
        f.sample_rate == sample_rate,
        f.bits_per_sample == 16,
{
    RecordingFormat { channels, sample_rate, bits_per_sample: 16 }
}

} // verus!
