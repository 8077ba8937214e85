use voice_type::history::{
    correction_context, get_context, history, push_history, record_correction, CorrectionStart,
    HISTORY_LIMIT,
};

#[test]
fn history_starts_empty() {
    let h = history();
    assert!(get_context(&h).is_empty());
}

#[test]
fn history_keeps_trimmed_sentences_oldest_first() {
    let mut h = history();
    push_history(&mut h, "  第一句。 ");
    push_history(&mut h, "second\n");
    assert_eq!(get_context(&h), vec!["第一句。".to_string(), "second".to_string()]);
}

#[test]
fn history_ignores_blank_sentences() {
    let mut h = history();
    push_history(&mut h, "one");
    push_history(&mut h, "   \t\n");
    push_history(&mut h, "");
    assert_eq!(get_context(&h), vec!["one".to_string()]);
}

#[test]
fn history_drops_oldest_beyond_limit() {
    let mut h = history();
    for i in 0..7 {
        push_history(&mut h, &format!("s{}", i));
    }
    let ctx = get_context(&h);
    assert_eq!(ctx.len(), HISTORY_LIMIT);
    assert_eq!(ctx, vec!["s2", "s3", "s4", "s5", "s6"]);
}

#[test]
fn history_trims_unicode_whitespace() {
    let mut h = history();
    push_history(&mut h, "\u{3000}全形空白\u{3000}");
    assert_eq!(get_context(&h), vec!["全形空白".to_string()]);
}

#[test]
fn correction_context_skips_blank_text() {
    let mut h = history();
    push_history(&mut h, "prior");
    match correction_context(&h, "  ", true) {
        CorrectionStart::Unchanged { text } => assert_eq!(text, "  "),
        CorrectionStart::Ask { .. } => panic!("blank text must not be sent"),
    }
    assert_eq!(get_context(&h), vec!["prior".to_string()]);
    match correction_context(&h, "text", true) {
        CorrectionStart::Ask { context } => assert_eq!(context, vec!["prior".to_string()]),
        CorrectionStart::Unchanged { .. } => panic!("expected a request"),
    }
    match correction_context(&h, "text", false) {
        CorrectionStart::Ask { context } => assert!(context.is_empty()),
        CorrectionStart::Unchanged { .. } => panic!("expected a request"),
    }
}

#[test]
fn record_correction_uses_reply_or_original() {
    let mut h = history();
    let out = record_correction(&mut h, "原文", Ok("校正後 ".to_string()));
    assert_eq!(out, "校正後 ");
    let out = record_correction(&mut h, "fallback", Err("LLM request failed".to_string()));
    assert_eq!(out, "fallback");
    assert_eq!(get_context(&h), vec!["校正後".to_string(), "fallback".to_string()]);
}
