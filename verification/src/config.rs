//! The configuration record that the rest of the library consumes.

use vstd::prelude::*;
use vstd::string::StringExecFns;

verus! {

/// Settings of a recording session.
#[derive(Debug, Clone)]
pub struct RecordingConfig {
    /// Upper bound on the length of a session, in seconds.
    pub max_duration_secs: u64,
    /// Sample rate to record at; 0 keeps the device's own rate.
    pub sample_rate: u32,
    /// Whether a sound is played when recording starts and stops.
    pub play_sounds: bool,
    /// Whether the silence-based automatic stop is switched off.
    pub disable_silence_detection: bool,
}

/// Settings of the user interface.
#[derive(Debug, Clone)]
pub struct UiConfig {
    /// Dark mode preference.
    pub dark_mode: bool,
    /// Whether a notification is shown for a transcription.
    pub notification_enabled: bool,
}

/// Keyboard shortcuts, each written as modifiers and a key joined by `+`.
#[derive(Debug, Clone)]
pub struct ShortcutConfig {
    /// Held down to record, released to transcribe.
    pub toggle_recording: String,
    /// Clears the transcript.
    pub clear_transcript: String,
    /// Copies the transcript to the clipboard.
    pub copy_to_clipboard: String,
    /// Whether the text is pasted automatically after transcription.
    pub auto_paste: bool,
}

/// The whole configuration.
#[derive(Debug, Clone)]
pub struct Config {
    /// Key for the transcription service.
    pub api_key: String,
    /// Directory in which recordings are kept.
    pub temp_dir: String,
    /// Recording settings.
    pub recording: RecordingConfig,
    /// User interface settings.
    pub ui: UiConfig,
    /// Keyboard shortcut settings.
    pub shortcuts: ShortcutConfig,
}

/// The configuration used when none is stored yet, with recordings kept in
/// `temp_dir`.
///
/// Sessions last at most five minutes at 44.1 kHz, sounds are played and
/// silence detection is on.
pub fn default_config(temp_dir: String) -> (config: Config)
    ensures
        config.api_key@ == Seq::<char>::empty(),
        config.temp_dir == temp_dir,
        config.recording.max_duration_secs == 300,
        config.recording.sample_rate == 44100,
        config.recording.play_sounds,
        !config.recording.disable_silence_detection,
        config.ui.dark_mode,
        config.ui.notification_enabled,
        config.shortcuts.toggle_recording@ == "Shift+space"@,
        config.shortcuts.clear_transcript@ == "Alt+Shift+C"@,
        config.shortcuts.copy_to_clipboard@ == "Alt+Shift+X"@,
        config.shortcuts.auto_paste,
{
    Config {
        api_key: String::new(),
        temp_dir,
        recording: RecordingConfig {
            max_duration_secs: 300,
            sample_rate: 44100,
            play_sounds: true,
            disable_silence_detection: false,
        },
        ui: UiConfig { dark_mode: true, notification_enabled: true },
        shortcuts: ShortcutConfig {
            toggle_recording: String::from_str("Shift+space"),
            clear_transcript: String::from_str("Alt+Shift+C"),
            copy_to_clipboard: String::from_str("Alt+Shift+X"),
            auto_paste: true,
        },
    }
}

} // verus!
