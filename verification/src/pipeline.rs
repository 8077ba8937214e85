//! The record, transcribe, correct and paste pipeline that the push-to-talk
//! key drives, as a state machine: each event (a key event or the result of
//! the last action) gives the next stage and the next action to perform.
use vstd::prelude::*;
use crate::config::AppConfig;
use crate::text::{trim_end, trim_end_seq, lemma_trim_end_shape, is_white_space};

verus! {

/// The text that is put on the clipboard and pasted: the sentence without
/// trailing whitespace, followed by one space, so that sentences pasted one
/// after another stay apart.
pub open spec fn paste_text_spec(text: Seq<char>) -> Seq<char> {
    trim_end_seq(text) + " "@
}

/// The text to paste for a sentence.
pub fn paste_text(text: &str) -> (p: String)
    ensures
        p@ == paste_text_spec(text@),
{
    let mut p = trim_end(text).to_owned();
    p.append(" ");
    p
}

/// A pasted text ends with exactly one separating space: its last character
/// is a space and the one before, if any, is not whitespace.
pub proof fn law_paste_text_ends_with_one_space(text: Seq<char>)
    ensures
        paste_text_spec(text).len() >= 1,
        paste_text_spec(text).last() == ' ',
        paste_text_spec(text).len() >= 2 ==> !is_white_space(
            paste_text_spec(text)[paste_text_spec(text).len() - 2],
        ),
{
    reveal_strlit(" ");
    lemma_trim_end_shape(text);
    let t = trim_end_seq(text);
    let p = paste_text_spec(text);
    assert(p.len() == t.len() + 1);
    assert(p.last() == ' ');
    if p.len() >= 2 {
        assert(p[p.len() - 2] == t.last());
    }
}

/// Where the pipeline stands.
pub enum Stage {
    /// Waiting for the key to be pressed.
    Idle,
    /// A recording is being started.
    Starting,
    /// Recording, waiting for the key to be released.
    Recording,
    /// The recording is being stopped.
    Stopping,
    /// The settings are being read for the recording in `audio_path`.
    LoadingConfig { audio_path: String },
    /// The recording is being transcribed.
    Transcribing { api_key: String, auto_correct: bool },
    /// The transcribed `text` is being corrected.
    Correcting { text: String },
    /// The text is being pasted.
    Pasting,
}

/// How stopping a recording went.
pub enum StopOutcome {
    /// The recording stopped; it is in `audio_path`.
    Stopped { audio_path: String },
    /// Stopping failed; no recording runs any more.
    Failed,
    /// The recorder could not be reached; the recording still runs.
    Skipped,
}

/// What happens to the pipeline: a key event, or how an action went.
pub enum PipelineEvent {
    /// The push-to-talk key went down (`true`) or came up (`false`).
    Hotkey { pressed: bool },
    /// Starting a recording succeeded or not.
    StartDone { started: bool },
    /// How stopping the recording went.
    StopDone { outcome: StopOutcome },
    /// The settings, or `None` when they could not be read.
    ConfigLoaded { config: Option<AppConfig> },
    /// The transcribed text, or `None` when transcription failed.
    Transcribed { text: Option<String> },
    /// The corrected text, or `None` when correction broke off.
    Corrected { text: Option<String> },
    /// The text has been pasted (or pasting failed; nothing depends on it).
    Pasted,
}

/// What the pipeline asks to be done next.
pub enum PipelineAction {
    /// Start a recording.
    StartRecording,
    /// Stop the recording.
    StopRecording,
    /// Read the settings.
    LoadConfig,
    /// Transcribe the recording in `audio_path` with `api_key`.
    Transcribe { api_key: String, audio_path: String },
    /// Correct `text` with `api_key`, with the sentence history as context.
    Correct { api_key: String, text: String },
    /// Put `text` on the clipboard and paste it.
    Paste { text: String },
    /// Nothing: wait for the next key event.
    Wait,
}

/// The view of a stage.
pub enum StageView {
    Idle,
    Starting,
    Recording,
    Stopping,
    LoadingConfig(Seq<char>),
    Transcribing(Seq<char>, bool),
    Correcting(Seq<char>),
    Pasting,
}

/// The view of a stop outcome.
pub enum StopView {
    Stopped(Seq<char>),
    Failed,
    Skipped,
}

/// The view of an event.
pub enum EventView {
    Hotkey(bool),
    StartDone(bool),
    StopDone(StopView),
    ConfigLoaded(Option<(Seq<char>, bool)>),
    Transcribed(Option<Seq<char>>),
    Corrected(Option<Seq<char>>),
    Pasted,
}

/// The view of an action.
pub enum ActionView {
    StartRecording,
    StopRecording,
    LoadConfig,
    Transcribe(Seq<char>, Seq<char>),
    Correct(Seq<char>, Seq<char>),
    Paste(Seq<char>),
    Wait,
}

pub open spec fn stage_view(s: Stage) -> StageView {
    match s {
        Stage::Idle => StageView::Idle,
        Stage::Starting => StageView::Starting,
        Stage::Recording => StageView::Recording,
        Stage::Stopping => StageView::Stopping,
        Stage::LoadingConfig { audio_path } => StageView::LoadingConfig(audio_path@),
        Stage::Transcribing { api_key, auto_correct } => StageView::Transcribing(
            api_key@,
            auto_correct,
        ),
        Stage::Correcting { text } => StageView::Correcting(text@),
        Stage::Pasting => StageView::Pasting,
    }
}

pub open spec fn opt_text_view(t: Option<String>) -> Option<Seq<char>> {
    match t {
        Some(s) => Some(s@),
        None => None,
    }
}

pub open spec fn event_view(e: PipelineEvent) -> EventView {
    match e {
        PipelineEvent::Hotkey { pressed } => EventView::Hotkey(pressed),
        PipelineEvent::StartDone { started } => EventView::StartDone(started),
        PipelineEvent::StopDone { outcome } => EventView::StopDone(
            match outcome {
                StopOutcome::Stopped { audio_path } => StopView::Stopped(audio_path@),
                StopOutcome::Failed => StopView::Failed,
                StopOutcome::Skipped => StopView::Skipped,
            },
        ),
        PipelineEvent::ConfigLoaded { config } => EventView::ConfigLoaded(
            match config {
                Some(c) => Some((c.groq_api_key@, c.auto_correct)),
                None => None,
            },
        ),
        PipelineEvent::Transcribed { text } => EventView::Transcribed(opt_text_view(text)),
        PipelineEvent::Corrected { text } => EventView::Corrected(opt_text_view(text)),
        PipelineEvent::Pasted => EventView::Pasted,
    }
}

pub open spec fn action_view(a: PipelineAction) -> ActionView {
    match a {
        PipelineAction::StartRecording => ActionView::StartRecording,
        PipelineAction::StopRecording => ActionView::StopRecording,
        PipelineAction::LoadConfig => ActionView::LoadConfig,
        PipelineAction::Transcribe { api_key, audio_path } => ActionView::Transcribe(
            api_key@,
            audio_path@,
        ),
        PipelineAction::Correct { api_key, text } => ActionView::Correct(api_key@, text@),
        PipelineAction::Paste { text } => ActionView::Paste(text@),
        PipelineAction::Wait => ActionView::Wait,
    }
}

/// One step of the pipeline. The key starts a recording when pressed while
/// idle and stops it when released while recording; other key events are
/// ignored. A stopped recording is transcribed with the key from the
/// settings (unreadable settings or an empty key end the run), the text is
/// corrected when the settings ask for it (a correction that breaks off
/// leaves the transcribed text), and the result is pasted. A failed start,
/// stop or transcription ends the run; events that do not fit the stage
/// change nothing.
pub open spec fn pipeline_step(s: StageView, e: EventView) -> (StageView, ActionView) {
    match (s, e) {
        (StageView::Idle, EventView::Hotkey(true)) => (StageView::Starting, ActionView::StartRecording),
        (StageView::Recording, EventView::Hotkey(false)) => (
            StageView::Stopping,
            ActionView::StopRecording,
        ),
        (StageView::Starting, EventView::StartDone(started)) => if started {
            (StageView::Recording, ActionView::Wait)
        } else {
            (StageView::Idle, ActionView::Wait)
        },
        (StageView::Stopping, EventView::StopDone(outcome)) => match outcome {
            StopView::Stopped(path) => (StageView::LoadingConfig(path), ActionView::LoadConfig),
            StopView::Failed => (StageView::Idle, ActionView::Wait),
            StopView::Skipped => (StageView::Recording, ActionView::Wait),
        },
        (StageView::LoadingConfig(path), EventView::ConfigLoaded(config)) => match config {
            Some((key, auto_correct)) => if key.len() == 0 {
                (StageView::Idle, ActionView::Wait)
            } else {
                (StageView::Transcribing(key, auto_correct), ActionView::Transcribe(key, path))
            },
            None => (StageView::Idle, ActionView::Wait),
        },
        (StageView::Transcribing(key, auto_correct), EventView::Transcribed(text)) => match text {
            Some(t) => if auto_correct {
                (StageView::Correcting(t), ActionView::Correct(key, t))
            } else {
                (StageView::Pasting, ActionView::Paste(paste_text_spec(t)))
            },
            None => (StageView::Idle, ActionView::Wait),
        },
        (StageView::Correcting(t), EventView::Corrected(corrected)) => match corrected {
            Some(c) => (StageView::Pasting, ActionView::Paste(paste_text_spec(c))),
            None => (StageView::Pasting, ActionView::Paste(paste_text_spec(t))),
        },
        (StageView::Pasting, EventView::Pasted) => (StageView::Idle, ActionView::Wait),
        _ => (s, ActionView::Wait),
    }
}

/// The push-to-talk pipeline.
pub struct Pipeline {
    stage: Stage,
}

impl View for Pipeline {
    type V = StageView;

    closed spec fn view(&self) -> StageView {
        stage_view(self.stage)
    }
}

impl Pipeline {
    /// A pipeline waiting for the key.
    pub fn new() -> (p: Pipeline)
        ensures
            p@ == StageView::Idle,
    {
        Pipeline { stage: Stage::Idle }
    }

    /// Takes an event and gives the next action.
    pub fn handle(&mut self, event: PipelineEvent) -> (action: PipelineAction)
        ensures
            (final(self)@, action_view(action)) == pipeline_step(old(self)@, event_view(event)),
    {
        let mut stage = Stage::Idle;
        std::mem::swap(&mut stage, &mut self.stage);
        let ghost s0 = stage_view(stage);
        let (next, action) = match (stage, event) {
            (Stage::Idle, PipelineEvent::Hotkey { pressed: true }) => (
                Stage::Starting,
                PipelineAction::StartRecording,
            ),
            (Stage::Recording, PipelineEvent::Hotkey { pressed: false }) => (
                Stage::Stopping,
                PipelineAction::StopRecording,
            ),
            (Stage::Starting, PipelineEvent::StartDone { started }) => if started {
                (Stage::Recording, PipelineAction::Wait)
            } else {
                (Stage::Idle, PipelineAction::Wait)
            },
            (Stage::Stopping, PipelineEvent::StopDone { outcome }) => match outcome {
                StopOutcome::Stopped { audio_path } => (
                    Stage::LoadingConfig { audio_path },
                    PipelineAction::LoadConfig,
                ),
                StopOutcome::Failed => (Stage::Idle, PipelineAction::Wait),
                StopOutcome::Skipped => (Stage::Recording, PipelineAction::Wait),
            },
            (Stage::LoadingConfig { audio_path }, PipelineEvent::ConfigLoaded { config }) => {
                match config {
                    Some(c) => {
                        if c.groq_api_key.as_str().is_empty() {
                            (Stage::Idle, PipelineAction::Wait)
                        } else {
                            let key = c.groq_api_key.clone();
                            (
                                Stage::Transcribing {
                                    api_key: c.groq_api_key,
                                    auto_correct: c.auto_correct,
                                },
                                PipelineAction::Transcribe { api_key: key, audio_path },
                            )
                        }
                    },
                    None => (Stage::Idle, PipelineAction::Wait),
                }
            },
            (
                Stage::Transcribing { api_key, auto_correct },
                PipelineEvent::Transcribed { text },
            ) => match text {
                Some(t) => if auto_correct {
                    let tc = t.clone();
                    (Stage::Correcting { text: t }, PipelineAction::Correct { api_key, text: tc })
                } else {
                    let p = paste_text(t.as_str());
                    (Stage::Pasting, PipelineAction::Paste { text: p })
                },
                None => (Stage::Idle, PipelineAction::Wait),
            },
            (Stage::Correcting { text }, PipelineEvent::Corrected { text: corrected }) => {
                match corrected {
                    Some(c) => (Stage::Pasting, PipelineAction::Paste { text: paste_text(c.as_str()) }),
                    None => (Stage::Pasting, PipelineAction::Paste { text: paste_text(text.as_str()) }),
                }
            },
            (Stage::Pasting, PipelineEvent::Pasted) => (Stage::Idle, PipelineAction::Wait),
            (other, _) => (other, PipelineAction::Wait),
        };
        self.stage = next;
        action
    }
}

/// A call the pipeline has the recorder make, as its outcome reports it: a
/// start that succeeded or not, or a stop.
pub enum RecorderCall {
    Start(bool),
    Stop,
}

/// The recorder call that an event reports, if any: the outcome of a start
/// while starting, or of a stop that reached the recorder while stopping.
pub open spec fn recorder_call(s: StageView, e: EventView) -> Option<RecorderCall> {
    match (s, e) {
        (StageView::Starting, EventView::StartDone(started)) => Some(RecorderCall::Start(started)),
        (StageView::Stopping, EventView::StopDone(StopView::Stopped(_))) => Some(RecorderCall::Stop),
        (StageView::Stopping, EventView::StopDone(StopView::Failed)) => Some(RecorderCall::Stop),
        _ => None,
    }
}

/// The stage after one step.
#[verifier::opaque]
pub open spec fn next_stage(s: StageView, e: EventView) -> StageView {
    pipeline_step(s, e).0
}

/// The stage after a run of events, and the recorder calls made on the way.
pub open spec fn pipeline_run(s: StageView, events: Seq<EventView>) -> (StageView, Seq<RecorderCall>)
    decreases events.len(),
{
    if events.len() == 0 {
        (s, Seq::empty())
    } else {
        let before = pipeline_run(s, events.drop_last());
        (
            next_stage(before.0, events.last()),
            match recorder_call(before.0, events.last()) {
                Some(c) => before.1.push(c),
                None => before.1,
            },
        )
    }
}

/// Starts and stops alternate: every stop comes right after a start that
/// succeeded, and no start comes right after a start that succeeded (that
/// recording is stopped first).
pub open spec fn calls_alternate(calls: Seq<RecorderCall>) -> bool {
    forall|i: int|
        0 <= i < calls.len() ==> (#[trigger] calls[i] is Stop ==> i > 0 && calls[i - 1]
            == RecorderCall::Start(true)) && (calls[i] is Start ==> i == 0 || calls[i - 1]
            != RecorderCall::Start(true))
}

/// A recording is open exactly while the pipeline is recording or stopping:
/// then the last recorder call was a start that succeeded.
pub open spec fn recording_open_matches(s: StageView, calls: Seq<RecorderCall>) -> bool {
    if s is Recording || s is Stopping {
        calls.len() > 0 && calls.last() == RecorderCall::Start(true)
    } else {
        calls.len() == 0 || calls.last() != RecorderCall::Start(true)
    }
}

/// How one step moves in and out of an open recording, by the recorder call
/// its event reports.
proof fn lemma_step_stage(s: StageView, e: EventView)
    ensures
        recorder_call(s, e) matches Some(RecorderCall::Start(b)) ==> s is Starting && (b
            ==> next_stage(s, e) is Recording) && (!b ==> next_stage(s, e) is Idle),
        recorder_call(s, e) matches Some(RecorderCall::Stop) ==> s is Stopping && !(next_stage(
            s,
            e,
        ) is Recording) && !(next_stage(s, e) is Stopping),
        recorder_call(s, e) is None ==> ((next_stage(s, e) is Recording || next_stage(
            s,
            e,
        ) is Stopping) <==> (s is Recording || s is Stopping)),
{
    reveal(next_stage);
}

/// Appending a call keeps the calls alternating when a stop follows a start
/// that succeeded and a start does not.
proof fn lemma_push_alternates(calls: Seq<RecorderCall>, c: RecorderCall)
    requires
        calls_alternate(calls),
        c is Stop ==> calls.len() > 0 && calls.last() == RecorderCall::Start(true),
        c is Start ==> calls.len() == 0 || calls.last() != RecorderCall::Start(true),
    ensures
        calls_alternate(calls.push(c)),
{
    let calls2 = calls.push(c);
    assert forall|i: int| 0 <= i < calls2.len() implies (#[trigger] calls2[i] is Stop ==> i > 0
        && calls2[i - 1] == RecorderCall::Start(true)) && (calls2[i] is Start ==> i == 0 || calls2[i
        - 1] != RecorderCall::Start(true)) by {
        if i < calls.len() {
            assert(calls2[i] == calls[i]);
            if i > 0 {
                assert(calls2[i - 1] == calls[i - 1]);
            }
        } else if i > 0 {
            assert(calls2[i - 1] == calls.last());
        }
    }
}

/// Over any run of events from the idle pipeline, the recorder is asked to
/// start and stop in turn: a stop only ever follows a start that succeeded,
/// a start never follows a start that succeeded until that recording is
/// stopped, and a recording is open exactly while the pipeline is recording
/// or stopping.
#[verifier::rlimit(40)]
pub proof fn law_starts_and_stops_alternate(events: Seq<EventView>)
    ensures
        calls_alternate(pipeline_run(StageView::Idle, events).1),
        recording_open_matches(
            pipeline_run(StageView::Idle, events).0,
            pipeline_run(StageView::Idle, events).1,
        ),
    decreases events.len(),
{
    if events.len() > 0 {
        let rest = events.drop_last();
        let e = events.last();
        let before = pipeline_run(StageView::Idle, rest);
        law_starts_and_stops_alternate(rest);
        lemma_step_stage(before.0, e);
        let after = pipeline_run(StageView::Idle, events);
        assert(after.0 == next_stage(before.0, e));
        match recorder_call(before.0, e) {
            Some(c) => {
                assert(after.1 == before.1.push(c));
                lemma_push_alternates(before.1, c);
                assert(after.1.last() == c);
            },
            None => {
                assert(after.1 == before.1);
            },
        }
    }
}

/// A recording is only ever started from the idle stage, by pressing the key.
pub proof fn law_start_only_when_idle(s: StageView, e: EventView)
    ensures
        pipeline_step(s, e).1 is StartRecording ==> s is Idle && e == EventView::Hotkey(true),
{
}

/// A recording is only ever stopped while recording, by releasing the key.
pub proof fn law_stop_only_when_recording(s: StageView, e: EventView)
    ensures
        pipeline_step(s, e).1 is StopRecording ==> s is Recording && e == EventView::Hotkey(false),
{
}

/// Key events are ignored while the pipeline is busy, and a press while
/// recording or a release while idle changes nothing.
pub proof fn law_stray_key_events_ignored(s: StageView, pressed: bool)
    requires
        !(s is Idle && pressed),
        !(s is Recording && !pressed),
    ensures
        pipeline_step(s, EventView::Hotkey(pressed)) == (s, ActionView::Wait),
{
}

/// The whole run: press, recording starts, release, recording stops into
/// `path`, settings with a key are read; the recording is then transcribed
/// with that key, and (with correction off) the transcription is pasted and
/// the pipeline is idle again.
pub proof fn law_press_and_release_transcribes_recording(
    path: Seq<char>,
    key: Seq<char>,
    text: Seq<char>,
)
    requires
        key.len() > 0,
    ensures
        ({
            let (s1, a1) = pipeline_step(StageView::Idle, EventView::Hotkey(true));
            let (s2, a2) = pipeline_step(s1, EventView::StartDone(true));
            let (s3, a3) = pipeline_step(s2, EventView::Hotkey(false));
            let (s4, a4) = pipeline_step(s3, EventView::StopDone(StopView::Stopped(path)));
            let (s5, a5) = pipeline_step(s4, EventView::ConfigLoaded(Some((key, false))));
            let (s6, a6) = pipeline_step(s5, EventView::Transcribed(Some(text)));
            let (s7, a7) = pipeline_step(s6, EventView::Pasted);
            &&& a1 == ActionView::StartRecording
            &&& a2 == ActionView::Wait
            &&& a3 == ActionView::StopRecording
            &&& a4 == ActionView::LoadConfig
            &&& a5 == ActionView::Transcribe(key, path)
            &&& a6 == ActionView::Paste(paste_text_spec(text))
            &&& s7 == StageView::Idle
        }),
{
}

/// With correction on, the corrected text is what is pasted; when the
/// correction breaks off, the transcribed text is pasted instead.
pub proof fn law_corrected_text_is_pasted(key: Seq<char>, text: Seq<char>, corrected: Option<
    Seq<char>,
>)
    ensures
        ({
            let (s1, a1) = pipeline_step(
                StageView::Transcribing(key, true),
                EventView::Transcribed(Some(text)),
            );
            let (s2, a2) = pipeline_step(s1, EventView::Corrected(corrected));
            &&& a1 == ActionView::Correct(key, text)
            &&& a2 == ActionView::Paste(
                paste_text_spec(
                    match corrected {
                        Some(c) => c,
                        None => text,
                    },
                ),
            )
        }),
{
}

/// Every text the pipeline pastes ends with one separating space.
pub proof fn law_pasted_text_is_separated(s: StageView, e: EventView)
    ensures
        pipeline_step(s, e).1 matches ActionView::Paste(t) ==> t.len() >= 1 && t.last() == ' ',
{
    match (s, e) {
        (StageView::Transcribing(_, _), EventView::Transcribed(Some(t))) => {
            law_paste_text_ends_with_one_space(t);
        },
        (StageView::Correcting(t), EventView::Corrected(c)) => {
            law_paste_text_ends_with_one_space(t);
            if let Some(c) = c {
                law_paste_text_ends_with_one_space(c);
            }
        },
        _ => {},
    }
}

/// Settings with a key always send the stopped recording for
/// transcription, whether or not correction is on (correction only decides
/// what happens to the text afterwards); settings without a key, or that
/// could not be read, end the run.
pub proof fn law_settings_with_key_transcribe(
    path: Seq<char>,
    key: Seq<char>,
    auto_correct: bool,
)
    ensures
        key.len() > 0 ==> pipeline_step(
            StageView::LoadingConfig(path),
            EventView::ConfigLoaded(Some((key, auto_correct))),
        ) == (StageView::Transcribing(key, auto_correct), ActionView::Transcribe(key, path)),
        key.len() == 0 ==> pipeline_step(
            StageView::LoadingConfig(path),
            EventView::ConfigLoaded(Some((key, auto_correct))),
        ) == (StageView::Idle, ActionView::Wait),
        pipeline_step(StageView::LoadingConfig(path), EventView::ConfigLoaded(None)) == (
            StageView::Idle,
            ActionView::Wait,
        ),
{
}

/// Whatever the correction gives, the pipeline moves on to pasting, and once
/// pasted it is idle again, so the next press starts a new recording.
pub proof fn law_paste_returns_to_idle(text: Seq<char>, corrected: Option<Seq<char>>)
    ensures
        pipeline_step(StageView::Correcting(text), EventView::Corrected(corrected)).0
            == StageView::Pasting,
        pipeline_step(StageView::Pasting, EventView::Pasted) == (StageView::Idle, ActionView::Wait),
        pipeline_step(StageView::Idle, EventView::Hotkey(true)) == (
            StageView::Starting,
            ActionView::StartRecording,
        ),
{
}

/// The whole run with correction on (the default): press, recording starts,
/// release, recording stops into `path`, settings with a key and correction
/// on are read; the recording is transcribed with that key, the text is
/// corrected, the corrected text (or, when the correction breaks off, the
/// transcribed one) is pasted, the pipeline is idle again, and the next press
/// starts a new recording.
pub proof fn law_corrected_run_returns_to_idle(
    path: Seq<char>,
    key: Seq<char>,
    text: Seq<char>,
    corrected: Option<Seq<char>>,
)
    requires
        key.len() > 0,
    ensures
        ({
            let (s1, a1) = pipeline_step(StageView::Idle, EventView::Hotkey(true));
            let (s2, a2) = pipeline_step(s1, EventView::StartDone(true));
            let (s3, a3) = pipeline_step(s2, EventView::Hotkey(false));
            let (s4, a4) = pipeline_step(s3, EventView::StopDone(StopView::Stopped(path)));
            let (s5, a5) = pipeline_step(s4, EventView::ConfigLoaded(Some((key, true))));
            let (s6, a6) = pipeline_step(s5, EventView::Transcribed(Some(text)));
            let (s7, a7) = pipeline_step(s6, EventView::Corrected(corrected));
            let (s8, a8) = pipeline_step(s7, EventView::Pasted);
            let (s9, a9) = pipeline_step(s8, EventView::Hotkey(true));
            &&& a1 == ActionView::StartRecording
            &&& a3 == ActionView::StopRecording
            &&& a4 == ActionView::LoadConfig
            &&& a5 == ActionView::Transcribe(key, path)
            &&& a6 == ActionView::Correct(key, text)
            &&& a7 == ActionView::Paste(
                paste_text_spec(
                    match corrected {
                        Some(c) => c,
                        None => text,
                    },
                ),
            )
            &&& s8 == StageView::Idle
            &&& a9 == ActionView::StartRecording
        }),
{
}

} // verus!
