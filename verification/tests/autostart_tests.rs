use voice_type::autostart::{autostart_enabled, quoted_exe_path};
use voice_type::text::{is_blank_text, push_decimal};

#[test]
fn exe_path_is_quoted() {
    assert_eq!(quoted_exe_path("C:\\Apps\\voice-type.exe"), "\"C:\\Apps\\voice-type.exe\"");
}

#[test]
fn autostart_matches_only_this_program() {
    let exe = "C:\\Apps\\voice-type.exe";
    assert!(autostart_enabled(Some(exe), Some("\"C:\\Apps\\voice-type.exe\"")));
    assert!(!autostart_enabled(Some(exe), Some("C:\\Apps\\voice-type.exe")));
    assert!(!autostart_enabled(Some(exe), Some("\"D:\\old\\voice-type.exe\"")));
    assert!(!autostart_enabled(None, Some("\"C:\\Apps\\voice-type.exe\"")));
    assert!(!autostart_enabled(Some(exe), None));
}

#[test]
fn blank_text_detection() {
    assert!(is_blank_text(""));
    assert!(is_blank_text(" \t\u{3000}\n"));
    assert!(!is_blank_text(" x "));
}

#[test]
fn decimal_rendering() {
    let mut s = String::from("n=");
    push_decimal(&mut s, 0);
    assert_eq!(s, "n=0");
    let mut s = String::new();
    push_decimal(&mut s, 1_234_567_890_123);
    assert_eq!(s, "1234567890123");
}
