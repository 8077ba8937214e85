use voice_type::config::AppConfig;
use voice_type::pipeline::{paste_text, Pipeline, PipelineAction, PipelineEvent, StopOutcome};

fn config(key: &str, auto_correct: bool) -> AppConfig {
    AppConfig { groq_api_key: key.to_string(), auto_correct, auto_start: false }
}

#[test]
fn paste_text_adds_one_space() {
    assert_eq!(paste_text("你好。"), "你好。 ");
    assert_eq!(paste_text("hello  \n"), "hello ");
    assert_eq!(paste_text(""), " ");
}

#[test]
fn full_run_without_correction() {
    let mut p = Pipeline::new();
    assert!(matches!(p.handle(PipelineEvent::Hotkey { pressed: true }), PipelineAction::StartRecording));
    assert!(matches!(p.handle(PipelineEvent::StartDone { started: true }), PipelineAction::Wait));
    assert!(matches!(p.handle(PipelineEvent::Hotkey { pressed: true }), PipelineAction::Wait));
    assert!(matches!(p.handle(PipelineEvent::Hotkey { pressed: false }), PipelineAction::StopRecording));
    let a = p.handle(PipelineEvent::StopDone {
        outcome: StopOutcome::Stopped { audio_path: "r.wav".to_string() },
    });
    assert!(matches!(a, PipelineAction::LoadConfig));
    match p.handle(PipelineEvent::ConfigLoaded { config: Some(config("k", false)) }) {
        PipelineAction::Transcribe { api_key, audio_path } => {
            assert_eq!(api_key, "k");
            assert_eq!(audio_path, "r.wav");
        }
        _ => panic!("expected transcription"),
    }
    match p.handle(PipelineEvent::Transcribed { text: Some("文字\n".to_string()) }) {
        PipelineAction::Paste { text } => assert_eq!(text, "文字 "),
        _ => panic!("expected paste"),
    }
    assert!(matches!(p.handle(PipelineEvent::Pasted), PipelineAction::Wait));
    assert!(matches!(p.handle(PipelineEvent::Hotkey { pressed: true }), PipelineAction::StartRecording));
}

#[test]
fn run_with_correction_and_fallback() {
    let mut p = Pipeline::new();
    p.handle(PipelineEvent::Hotkey { pressed: true });
    p.handle(PipelineEvent::StartDone { started: true });
    p.handle(PipelineEvent::Hotkey { pressed: false });
    p.handle(PipelineEvent::StopDone { outcome: StopOutcome::Stopped { audio_path: "a".to_string() } });
    p.handle(PipelineEvent::ConfigLoaded { config: Some(config("k", true)) });
    match p.handle(PipelineEvent::Transcribed { text: Some("原文".to_string()) }) {
        PipelineAction::Correct { api_key, text } => {
            assert_eq!(api_key, "k");
            assert_eq!(text, "原文");
        }
        _ => panic!("expected correction"),
    }
    match p.handle(PipelineEvent::Corrected { text: None }) {
        PipelineAction::Paste { text } => assert_eq!(text, "原文 "),
        _ => panic!("expected paste"),
    }
}

#[test]
fn failures_end_the_run() {
    let mut p = Pipeline::new();
    p.handle(PipelineEvent::Hotkey { pressed: true });
    assert!(matches!(p.handle(PipelineEvent::StartDone { started: false }), PipelineAction::Wait));
    // Back to idle: a release is ignored, a press starts again.
    assert!(matches!(p.handle(PipelineEvent::Hotkey { pressed: false }), PipelineAction::Wait));
    assert!(matches!(p.handle(PipelineEvent::Hotkey { pressed: true }), PipelineAction::StartRecording));
    p.handle(PipelineEvent::StartDone { started: true });
    p.handle(PipelineEvent::Hotkey { pressed: false });
    p.handle(PipelineEvent::StopDone { outcome: StopOutcome::Stopped { audio_path: "a".to_string() } });
    assert!(matches!(
        p.handle(PipelineEvent::ConfigLoaded { config: Some(config("", true)) }),
        PipelineAction::Wait
    ));
    assert!(matches!(p.handle(PipelineEvent::Hotkey { pressed: true }), PipelineAction::StartRecording));
}

#[test]
fn skipped_stop_keeps_recording() {
    let mut p = Pipeline::new();
    p.handle(PipelineEvent::Hotkey { pressed: true });
    p.handle(PipelineEvent::StartDone { started: true });
    p.handle(PipelineEvent::Hotkey { pressed: false });
    assert!(matches!(p.handle(PipelineEvent::StopDone { outcome: StopOutcome::Skipped }), PipelineAction::Wait));
    assert!(matches!(p.handle(PipelineEvent::Hotkey { pressed: false }), PipelineAction::StopRecording));
    assert!(matches!(p.handle(PipelineEvent::StopDone { outcome: StopOutcome::Failed }), PipelineAction::Wait));
    assert!(matches!(p.handle(PipelineEvent::Hotkey { pressed: true }), PipelineAction::StartRecording));
}
