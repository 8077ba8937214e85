use voice_type::api::{
    correction_outcome, correction_prompt, format_status, status_text, transcription_outcome,
};

const HEAD: &str = "你是一個專業的中文語音轉文字校正助手。\n";
const RULES: &str = "請校正以下這句語音轉文字的內容：\n1. 修正錯別字與同音字（可參考前文判斷正確用字，例如「再/在」「的/得/地」「他/她/它」）\n2. 加上適當的標點符號\n3. 移除贅字和語氣詞（如：那個、就是、然後、嗯、啊、呃）\n4. 保持原意，不要改變內容，不要續寫，不要加評論\n5. 只輸出校正後的本句文字\n6. 一律輸出繁體中文\n7. 科技／AI 術語優先：API、LLM、GitHub、Whisper、prompt、token 等術語保留英文原文，不要翻譯\n\n本句原文：";

#[test]
fn prompt_without_context() {
    let p = correction_prompt("今天天氣很好", &[]);
    assert_eq!(p, format!("{}{}今天天氣很好", HEAD, RULES));
}

#[test]
fn prompt_with_context_lists_sentences() {
    let ctx = vec!["第一句。".to_string(), "第二句。".to_string()];
    let p = correction_prompt("第三句", &ctx);
    let expected = format!(
        "{}前文（已校正過的內容，供參考以維持語意連貫）：\n第一句。\n第二句。\n\n{}第三句",
        HEAD, RULES
    );
    assert_eq!(p, expected);
}

#[test]
fn status_text_has_reason_phrase() {
    assert_eq!(status_text(404), "404 Not Found");
    assert_eq!(status_text(200), "200 OK");
    assert_eq!(status_text(599), "599 <unknown status code>");
}

#[test]
fn format_status_with_and_without_reason() {
    assert_eq!(format_status(418, Some("I'm a teapot")), "418 I'm a teapot");
    assert_eq!(format_status(7, None), "7 <unknown status code>");
}

#[test]
fn transcription_error_status() {
    let r = transcription_outcome(401, "{\"error\":\"bad key\"}", Err("x".to_string()));
    assert_eq!(r, Err("API error (401 Unauthorized): {\"error\":\"bad key\"}".to_string()));
}

#[test]
fn transcription_parse_error() {
    let r = transcription_outcome(200, "not json", Err("expected value at line 1 column 1".to_string()));
    assert_eq!(r, Err("JSON parse error: expected value at line 1 column 1".to_string()));
}

#[test]
fn transcription_success() {
    let r = transcription_outcome(200, "{\"text\":\"你好\"}", Ok("你好".to_string()));
    assert_eq!(r, Ok("你好".to_string()));
}

#[test]
fn correction_error_status_keeps_original() {
    let r = correction_outcome("原文", 500, Err("ignored".to_string()));
    assert_eq!(r, Ok("原文".to_string()));
}

#[test]
fn correction_parse_error() {
    let r = correction_outcome("原文", 200, Err("missing field `choices`".to_string()));
    assert_eq!(r, Err("LLM JSON error: missing field `choices`".to_string()));
}

#[test]
fn correction_first_choice_trimmed() {
    let r = correction_outcome("原文", 200, Ok(vec!["  校正。\n".to_string(), "other".to_string()]));
    assert_eq!(r, Ok("校正。".to_string()));
}

#[test]
fn correction_without_choices_keeps_original() {
    let r = correction_outcome("原文", 200, Ok(vec![]));
    assert_eq!(r, Ok("原文".to_string()));
}

#[test]
fn prompt_asks_for_traditional_chinese_and_english_terms() {
    let p = correction_prompt("我再家", &[]);
    assert!(p.contains("一律輸出繁體中文"));
    for term in ["API", "LLM", "GitHub", "Whisper", "prompt", "token"] {
        assert!(p.contains(term));
    }
    assert!(p.contains("保留英文原文，不要翻譯"));
    assert!(p.ends_with("本句原文：我再家"));
}
