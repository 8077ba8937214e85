//! Verified core of a hold-to-talk voice typing tool: the sentence history
//! that feeds context to the text corrector, the correction prompt, the
//! handling of transcription and correction replies, the recorder session,
//! the global hotkey state machine and the record/transcribe/paste pipeline.
pub mod text;
pub mod history;
pub mod api;
pub mod config;
pub mod recording;
pub mod hotkey;
pub mod pipeline;
pub mod autostart;

