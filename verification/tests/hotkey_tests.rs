use voice_type::hotkey::{HotkeyHook, VK_F9, WM_KEYDOWN, WM_KEYUP, WM_SYSKEYDOWN, WM_SYSKEYUP};

#[test]
fn press_and_release_give_events() {
    let mut h = HotkeyHook::new();
    assert_eq!(h.on_key_message(0, WM_KEYDOWN, VK_F9), Some(true));
    assert!(h.is_pressing());
    assert_eq!(h.on_key_message(0, WM_KEYUP, VK_F9), Some(false));
    assert!(!h.is_pressing());
}

#[test]
fn key_repeat_and_stray_release_are_ignored() {
    let mut h = HotkeyHook::new();
    assert_eq!(h.on_key_message(0, WM_KEYUP, VK_F9), None);
    assert_eq!(h.on_key_message(0, WM_SYSKEYDOWN, VK_F9), Some(true));
    assert_eq!(h.on_key_message(0, WM_KEYDOWN, VK_F9), None);
    assert_eq!(h.on_key_message(0, WM_SYSKEYUP, VK_F9), Some(false));
}

#[test]
fn other_keys_and_negative_codes_are_ignored() {
    let mut h = HotkeyHook::new();
    assert_eq!(h.on_key_message(0, WM_KEYDOWN, 0x41), None);
    assert_eq!(h.on_key_message(-1, WM_KEYDOWN, VK_F9), None);
    assert!(!h.is_pressing());
}

#[test]
fn events_alternate_over_a_run() {
    let mut h = HotkeyHook::new();
    let msgs = [
        (0, WM_KEYDOWN),
        (0, WM_KEYDOWN),
        (0, WM_KEYUP),
        (0, WM_KEYUP),
        (0, WM_SYSKEYDOWN),
        (0, WM_KEYUP),
    ];
    let events: Vec<bool> = msgs.iter().filter_map(|&(c, w)| h.on_key_message(c, w, VK_F9)).collect();
    assert_eq!(events, vec![true, false, true, false]);
}
