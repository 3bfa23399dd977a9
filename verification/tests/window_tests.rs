use wispr::config::{default_config, ShortcutConfig};
use wispr::strings::{split_pieces, text_equals};
use wispr::window::{
    default_device_label, dictionary_listing, has_part, is_shortcut_key, key_name_matches, record_button_label,
    record_button_message, record_button_sensitive, selected_device, AppStatus, KeyEvent,
    ShortcutTracker, ThreadSafeState, WindowMessage, KEY_F1, KEY_F2, KEY_SPACE,
};

fn key(keyval: u32, shift: bool, alt: bool, control: bool) -> KeyEvent {
    KeyEvent { keyval, shift, alt, control }
}

fn shortcuts() -> ShortcutConfig {
    default_config("/tmp".to_string()).shortcuts
}

#[test]
fn window_state_starts_idle() {
    let s = ThreadSafeState::new();
    assert_eq!(s.status, AppStatus::Idle);
    assert_eq!(s.transcript, "");
    assert!(!s.is_recording());
}

#[test]
fn window_state_start_and_stop() {
    let mut s = ThreadSafeState::new();
    s.stop();
    assert_eq!(s.status, AppStatus::Idle);
    s.start();
    assert!(s.is_recording());
    s.start();
    assert!(s.is_recording());
    s.stop();
    assert_eq!(s.status, AppStatus::Transcribing);
    s.stop();
    assert_eq!(s.status, AppStatus::Transcribing);
}

#[test]
fn finished_transcription_is_shown_and_the_window_is_idle_again() {
    let mut s = ThreadSafeState::new();
    s.start();
    s.stop();
    assert_eq!(s.transcription_finished(Ok("hello".to_string())), "hello");
    assert_eq!(s.transcript, "hello");
    assert_eq!(s.status, AppStatus::Idle);
    assert_eq!(s.transcription_finished(Err("no key".to_string())), "Error: no key");
    assert_eq!(s.transcript, "Error: no key");
    assert_eq!(s.status, AppStatus::Idle);
}

#[test]
fn record_button_asks_by_status() {
    assert!(matches!(record_button_message(AppStatus::Idle), Some(WindowMessage::StartRecording)));
    assert!(matches!(
        record_button_message(AppStatus::Recording),
        Some(WindowMessage::StopRecording)
    ));
    assert!(record_button_message(AppStatus::Transcribing).is_none());
}

#[test]
fn record_button_looks_by_status() {
    assert_eq!(record_button_label(AppStatus::Idle), "● Record");
    assert_eq!(record_button_label(AppStatus::Recording), "■ Stop");
    assert_eq!(record_button_label(AppStatus::Transcribing), "Processing...");
    assert!(record_button_sensitive(AppStatus::Idle));
    assert!(record_button_sensitive(AppStatus::Recording));
    assert!(!record_button_sensitive(AppStatus::Transcribing));
}

#[test]
fn selected_device_is_the_default_for_the_marked_entry() {
    assert_eq!(selected_device(None), None);
    assert_eq!(selected_device(Some("Built-in Audio (Default)")), None);
    assert_eq!(selected_device(Some("(Default)")), None);
    assert_eq!(selected_device(Some("USB Mic")), Some("USB Mic".to_string()));
    assert_eq!(selected_device(Some("USB (default)")), Some("USB (default)".to_string()));
    assert_eq!(selected_device(Some("")), Some(String::new()));
}

#[test]
fn texts_are_compared_exactly() {
    assert!(text_equals("Shift", "Shift"));
    assert!(!text_equals("Shift", "shift"));
    assert!(!text_equals("Shift", "Shift "));
    assert!(text_equals("", ""));
}

#[test]
fn split_pieces_cuts_at_every_separator() {
    assert_eq!(split_pieces("Alt+Shift+C", '+'), vec!["Alt", "Shift", "C"]);
    assert_eq!(split_pieces("space", '+'), vec!["space"]);
    assert_eq!(split_pieces("", '+'), vec![""]);
    assert_eq!(split_pieces("+", '+'), vec!["", ""]);
    assert_eq!(split_pieces("Ctrl+", '+'), vec!["Ctrl", ""]);
    assert_eq!(split_pieces("+a++b", '+'), vec!["", "a", "", "b"]);
    assert_eq!(split_pieces("日本+語", '+'), vec!["日本", "語"]);
}

#[test]
fn has_part_looks_for_the_whole_part() {
    let parts = split_pieces("Alt+Shift+C", '+');
    assert!(has_part(&parts, "Alt"));
    assert!(has_part(&parts, "Shift"));
    assert!(has_part(&parts, "C"));
    assert!(!has_part(&parts, "Ctrl"));
    assert!(!has_part(&parts, "shift"));
    assert!(!has_part(&parts, "Al"));
}

#[test]
fn key_names() {
    assert_eq!(KEY_SPACE, 0x20);
    assert_eq!(KEY_F1, 0xffbe);
    assert_eq!(KEY_F2, 0xffbf);
    assert!(key_name_matches("space", 0x20));
    assert!(!key_name_matches("space", 0x21));
    assert!(key_name_matches("f1", 0xffbe));
    assert!(key_name_matches("f2", 0xffbf));
    assert!(!key_name_matches("f1", 0xffbf));
    assert!(key_name_matches("r", 'r' as u32));
    assert!(key_name_matches("c", 'c' as u32));
    assert!(key_name_matches("x", 'x' as u32));
    assert!(key_name_matches("q", 'q' as u32));
    assert!(!key_name_matches("q", 'r' as u32));
    assert!(!key_name_matches("f3", 0xffc0));
    assert!(!key_name_matches("", 0x20));
    assert!(!key_name_matches("enter", 0xff0d));
    assert!(!key_name_matches("é", 'é' as u32));
}

#[test]
fn key_name_of_one_byte_that_is_no_letter_goes_for_every_key() {
    assert!(key_name_matches("1", '1' as u32));
    assert!(key_name_matches("1", 'z' as u32));
    assert!(key_name_matches("/", 0xffbe));
    assert!(key_name_matches("Q", 'q' as u32));
    assert!(key_name_matches("Q", 'r' as u32));
}

#[test]
fn shortcut_needs_the_key_and_exactly_its_modifiers() {
    assert!(is_shortcut_key(&key(0x20, true, false, false), "Shift+space"));
    assert!(!is_shortcut_key(&key(0x20, false, false, false), "Shift+space"));
    assert!(!is_shortcut_key(&key(0x20, true, true, false), "Shift+space"));
    assert!(!is_shortcut_key(&key(0x20, true, false, true), "Shift+space"));
    assert!(!is_shortcut_key(&key('a' as u32, true, false, false), "Shift+space"));
    assert!(is_shortcut_key(&key('c' as u32, true, true, false), "Alt+Shift+C"));
    assert!(!is_shortcut_key(&key('c' as u32, true, false, false), "Alt+Shift+C"));
    assert!(is_shortcut_key(&key('x' as u32, true, true, false), "Alt+Shift+X"));
    assert!(is_shortcut_key(&key('r' as u32, false, false, true), "Ctrl+R"));
    assert!(is_shortcut_key(&key('r' as u32, false, false, true), "Control+r"));
    assert!(!is_shortcut_key(&key('r' as u32, false, false, false), "Control+r"));
    assert!(is_shortcut_key(&key(0xffbe, false, false, false), "F1"));
    assert!(is_shortcut_key(&key(0xffbf, false, true, false), "Alt+F2"));
}

#[test]
fn shortcut_key_name_is_read_in_any_case() {
    assert!(is_shortcut_key(&key(0x20, true, false, false), "Shift+SPACE"));
    assert!(is_shortcut_key(&key(0x20, true, false, false), "Shift+Space"));
    assert!(is_shortcut_key(&key('q' as u32, false, false, false), "Q"));
}

#[test]
fn shortcut_modifier_names_are_read_exactly() {
    // "shift" is no modifier name, so Shift must not be held.
    assert!(is_shortcut_key(&key(0x20, false, false, false), "shift+space"));
    assert!(!is_shortcut_key(&key(0x20, true, false, false), "shift+space"));
}

#[test]
fn shortcut_without_a_key_name_matches_nothing() {
    assert!(!is_shortcut_key(&key(0x20, false, false, false), ""));
    assert!(!is_shortcut_key(&key(0x20, true, false, false), "Shift"));
    assert!(!is_shortcut_key(&key(0x20, false, false, true), "Ctrl+"));
}

#[test]
fn recording_shortcut_starts_on_press_and_stops_on_release() {
    let sc = shortcuts();
    let space = key(0x20, true, false, false);
    let mut t = ShortcutTracker::new();
    assert!(!t.pressed);
    assert!(t.key_released(&space, &sc).is_none());
    assert!(matches!(t.key_pressed(&space, &sc), Some(WindowMessage::StartRecording)));
    assert!(t.pressed);
    // The key repeats while it is held.
    assert!(t.key_pressed(&space, &sc).is_none());
    assert!(t.pressed);
    assert!(matches!(t.key_released(&space, &sc), Some(WindowMessage::StopRecording)));
    assert!(!t.pressed);
    assert!(t.key_released(&space, &sc).is_none());
}

#[test]
fn other_shortcuts_clear_and_show_the_transcript() {
    let sc = shortcuts();
    let mut t = ShortcutTracker::new();
    assert!(matches!(
        t.key_pressed(&key('c' as u32, true, true, false), &sc),
        Some(WindowMessage::UpdateTranscript(ref text)) if text.is_empty()
    ));
    assert!(matches!(
        t.key_pressed(&key('x' as u32, true, true, false), &sc),
        Some(WindowMessage::ShowTranscript)
    ));
    assert!(t.key_pressed(&key('y' as u32, true, true, false), &sc).is_none());
    assert!(!t.pressed);
    assert!(t.key_released(&key('c' as u32, true, true, false), &sc).is_none());
}

#[test]
fn dictionary_listing_shows_each_replacement() {
    let words = vec![
        ("wispr".to_string(), Some("ウィスパー".to_string())),
        ("odd".to_string(), None),
        ("rust".to_string(), Some("ラスト".to_string())),
    ];
    assert_eq!(dictionary_listing(Some(&words)), "「wispr」→「ウィスパー」\n「rust」→「ラスト」\n");
}

#[test]
fn dictionary_listing_of_no_words() {
    assert_eq!(dictionary_listing(Some(&Vec::new())), "登録されている単語はありません");
}

#[test]
fn dictionary_listing_of_nothing_to_show() {
    assert_eq!(dictionary_listing(None), "辞書の読み込みに失敗しました");
    let words = vec![("odd".to_string(), None)];
    assert_eq!(dictionary_listing(Some(&words)), "辞書の読み込みに失敗しました");
}

#[test]
fn default_entry_selects_the_default_device() {
    assert_eq!(default_device_label("Built-in Audio"), "Built-in Audio (Default)");
    assert_eq!(default_device_label(""), " (Default)");
    for name in ["Built-in Audio", "", "USB (Default) Mic", "日本語"] {
        assert_eq!(selected_device(Some(&default_device_label(name))), None);
    }
}
