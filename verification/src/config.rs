//! The user's settings and the checks made on them before a transcription.
use vstd::prelude::*;
use crate::text::{is_blank, is_blank_text};

verus! {

/// The settings kept in the configuration file next to the program.
#[derive(Debug)]
pub struct AppConfig {
    /// The key for the speech-to-text and correction service.
    pub groq_api_key: String,
    /// Whether transcribed text goes through the corrector.
    pub auto_correct: bool,
    /// Whether the program starts when the user logs in.
    pub auto_start: bool,
}

impl Default for AppConfig {
    /// The settings of a first start: no key, correction on, autostart off.
    fn default() -> (c: Self)
        ensures
            c.groq_api_key@ == Seq::<char>::empty(),
            c.auto_correct,
            !c.auto_start,
    {
        AppConfig { groq_api_key: String::new(), auto_correct: true, auto_start: false }
    }
}

/// The message given when a transcription is asked for without a key.
pub const MISSING_KEY_MESSAGE: &'static str = "請先設定 Groq API Key";

/// The key to transcribe with, or the request to set one when it is empty.
pub fn require_api_key(config: &AppConfig) -> (r: Result<String, String>)
    ensures
        config.groq_api_key@.len() == 0 ==> (r matches Err(e) && e@ == MISSING_KEY_MESSAGE@),
        config.groq_api_key@.len() > 0 ==> (r matches Ok(k) && k@ == config.groq_api_key@),
{
    if config.groq_api_key.as_str().is_empty() {
        Err(MISSING_KEY_MESSAGE.to_owned())
    } else {
        Ok(config.groq_api_key.clone())
    }
}

/// Whether transcribed text goes through the corrector: only with correction
/// switched on, and never for blank text.
pub fn wants_correction(config: &AppConfig, text: &str) -> (r: bool)
    ensures
        r == (config.auto_correct && !is_blank(text@)),
{
    config.auto_correct && !is_blank_text(text)
}

} // verus!
