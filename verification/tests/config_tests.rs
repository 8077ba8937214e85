use voice_type::config::{require_api_key, wants_correction, AppConfig};

#[test]
fn default_config() {
    let c = AppConfig::default();
    assert_eq!(c.groq_api_key, "");
    assert!(c.auto_correct);
    assert!(!c.auto_start);
}

#[test]
fn missing_key_is_refused() {
    let c = AppConfig::default();
    assert_eq!(require_api_key(&c), Err("請先設定 Groq API Key".to_string()));
    let c = AppConfig { groq_api_key: "SECRET-REDACTED".to_string(), auto_correct: true, auto_start: false };
    assert_eq!(require_api_key(&c), Ok("SECRET-REDACTED".to_string()));
}

#[test]
fn correction_only_when_enabled_and_not_blank() {
    let on = AppConfig { groq_api_key: "k".to_string(), auto_correct: true, auto_start: false };
    let off = AppConfig { groq_api_key: "k".to_string(), auto_correct: false, auto_start: false };
    assert!(wants_correction(&on, "文字"));
    assert!(!wants_correction(&on, " \n "));
    assert!(!wants_correction(&off, "文字"));
}
