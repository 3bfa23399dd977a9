use wispr::tray::{
    create_default_icon, menu_message, AppState, AppStatus, HandlerStep, MenuEntry, TrayMessage,
    ICON_CHANNELS, ICON_SIZE,
};

#[test]
fn icon_names() {
    assert_eq!(AppStatus::Idle.icon_name(), "microphone-sensitivity-muted-symbolic");
    assert_eq!(AppStatus::Recording.icon_name(), "microphone-sensitivity-high-symbolic");
    assert_eq!(AppStatus::Transcribing.icon_name(), "system-run-symbolic");
}

#[test]
fn tooltips() {
    assert_eq!(AppStatus::Idle.tooltip(), "Wispr - Click to start recording");
    assert_eq!(AppStatus::Recording.tooltip(), "Wispr - Recording... Click to stop");
    assert_eq!(AppStatus::Transcribing.tooltip(), "Wispr - Processing audio...");
}

#[test]
fn menu_item_labels() {
    assert_eq!(AppStatus::Idle.menu_item_label(), "Start Recording");
    assert_eq!(AppStatus::Recording.menu_item_label(), "Stop Recording");
    assert_eq!(AppStatus::Transcribing.menu_item_label(), "Processing...");
}

#[test]
fn toggle_goes_from_idle_over_recording_to_transcribing() {
    let mut s = AppState::new();
    assert_eq!(s.status, AppStatus::Idle);
    assert_eq!(s.toggle_recording(), Some(TrayMessage::StartRecording));
    assert_eq!(s.status, AppStatus::Recording);
    assert_eq!(s.toggle_recording(), Some(TrayMessage::StopRecording));
    assert_eq!(s.status, AppStatus::Transcribing);
    assert_eq!(s.toggle_recording(), None);
    assert_eq!(s.status, AppStatus::Transcribing);
}

#[test]
fn menu_entries() {
    assert_eq!(menu_message(AppStatus::Idle, MenuEntry::Record), Some(TrayMessage::StartRecording));
    assert_eq!(
        menu_message(AppStatus::Recording, MenuEntry::Record),
        Some(TrayMessage::StopRecording)
    );
    assert_eq!(menu_message(AppStatus::Transcribing, MenuEntry::Record), None);
    for status in [AppStatus::Idle, AppStatus::Recording, AppStatus::Transcribing] {
        assert_eq!(menu_message(status, MenuEntry::Transcript), Some(TrayMessage::ShowTranscript));
        assert_eq!(menu_message(status, MenuEntry::Quit), Some(TrayMessage::Exit));
    }
}

#[test]
fn handler_forwards_requests_and_follows_the_status() {
    let mut s = AppState::new();
    assert_eq!(
        s.handle_message(TrayMessage::StartRecording),
        HandlerStep::Forward(TrayMessage::StartRecording)
    );
    assert_eq!(s.status, AppStatus::Recording);
    assert_eq!(
        s.handle_message(TrayMessage::ShowTranscript),
        HandlerStep::Forward(TrayMessage::ShowTranscript)
    );
    assert_eq!(s.status, AppStatus::Recording);
    assert_eq!(
        s.handle_message(TrayMessage::StopRecording),
        HandlerStep::Forward(TrayMessage::StopRecording)
    );
    assert_eq!(s.status, AppStatus::Transcribing);
    assert_eq!(s.handle_message(TrayMessage::UpdateStatus(AppStatus::Idle)), HandlerStep::Continue);
    assert_eq!(s.status, AppStatus::Idle);
    assert_eq!(s.handle_message(TrayMessage::Exit), HandlerStep::Exit);
    assert_eq!(s.status, AppStatus::Idle);
}

#[test]
fn default_icon_is_a_square_of_one_colour() {
    let icon = create_default_icon(0, 0, 255, 255);
    assert_eq!(ICON_SIZE, 22);
    assert_eq!(ICON_CHANNELS, 4);
    assert_eq!(icon.width, 22);
    assert_eq!(icon.height, 22);
    assert_eq!(icon.channels, 4);
    assert_eq!(icon.data.len(), 22 * 22 * 4);
    for pixel in icon.data.chunks(4) {
        assert_eq!(pixel, [0, 0, 255, 255]);
    }
    let other = create_default_icon(1, 2, 3, 4);
    assert_eq!(&other.data[..8], &[1, 2, 3, 4, 1, 2, 3, 4]);
    assert_eq!(&other.data[1932..], &[1, 2, 3, 4]);
}
