//! The main window's side of the application: its state, what its controls
//! show and ask for, and how keyboard shortcuts are recognised.

use vstd::prelude::*;
use vstd::string::{StrSliceExecFns, StringExecFns, StringSliceAdditionalSpecFns};
use vstd::utf8::encode_utf8;
use crate::config::ShortcutConfig;
use crate::strings::{contains, has_substring, pieces, split_pieces, text_equals, text_view, texts};
pub use crate::tray::AppStatus;

verus! {

/// What is sent to the window.
#[derive(Debug, Clone)]
pub enum WindowMessage {
    /// Leave the application.
    Exit,
    /// Start recording.
    StartRecording,
    /// Stop recording and work on it.
    StopRecording,
    /// Show the transcript.
    ShowTranscript,
    /// Show a new status.
    UpdateStatus(AppStatus),
    /// Show a new transcript.
    UpdateTranscript(String),
}

/// The part of the window's state that threads share.
#[derive(Debug, Clone)]
pub struct ThreadSafeState {
    /// What the application is doing.
    pub status: AppStatus,
    /// The transcript on display.
    pub transcript: String,
}

/// What the record button asks for when it is clicked: to start when idle,
/// to stop while recording, nothing while a recording is worked on.
pub open spec fn record_click(status: AppStatus) -> Option<WindowMessage> {
    match status {
        AppStatus::Idle => Some(WindowMessage::StartRecording),
        AppStatus::Recording => Some(WindowMessage::StopRecording),
        AppStatus::Transcribing => None,
    }
}

/// The label of the record button.
pub open spec fn record_label(status: AppStatus) -> Seq<char> {
    match status {
        AppStatus::Idle => "● Record"@,
        AppStatus::Recording => "■ Stop"@,
        AppStatus::Transcribing => "Processing..."@,
    }
}

/// The device to record from for the text chosen in the device list:
/// the default device for none and for the entry marked as default, else the
/// device of that name.
pub open spec fn device_for(choice: Option<Seq<char>>) -> Option<Seq<char>> {
    match choice {
        None => None,
        Some(text) => if has_substring(text, "(Default)"@) {
            None
        } else {
            Some(text)
        },
    }
}

/// The text of the device list's entry for the default device.
pub open spec fn default_entry(name: Seq<char>) -> Seq<char> {
    name + " (Default)"@
}

/// The transcript shown after the work on a recording has ended: the text,
/// or the error.
pub open spec fn shown_transcript(outcome: Result<Seq<char>, Seq<char>>) -> Seq<char> {
    match outcome {
        Ok(text) => text,
        Err(error) => "Error: "@ + error,
    }
}

/// The view of an optional text.
pub open spec fn choice_view(choice: Option<&str>) -> Option<Seq<char>> {
    match choice {
        Some(text) => Some(text@),
        None => None,
    }
}

impl ThreadSafeState {
    /// The state of a window that has just opened.
    pub fn new() -> (state: ThreadSafeState)
        ensures
            state.status == AppStatus::Idle,
            state.transcript@.len() == 0,
    {
        ThreadSafeState { status: AppStatus::Idle, transcript: String::new() }
    }

    /// Whether the application is recording.
    pub fn is_recording(&self) -> (recording: bool)
        ensures
            recording == (self.status == AppStatus::Recording),
    {
        match self.status {
            AppStatus::Recording => true,
            _ => false,
        }
    }

    /// Notes that recording starts. While recording, nothing changes.
    pub fn start(&mut self)
        ensures
            final(self).status == AppStatus::Recording,
            final(self).transcript == old(self).transcript,
    {
        self.status = AppStatus::Recording;
    }

    /// Notes that recording stops and the work on the recording begins.
    /// Unless recording, nothing changes.
    pub fn stop(&mut self)
        ensures
            final(self).status == if old(self).status == AppStatus::Recording {
                AppStatus::Transcribing
            } else {
                old(self).status
            },
            final(self).transcript == old(self).transcript,
    {
        if self.is_recording() {
            self.status = AppStatus::Transcribing;
        }
    }

    /// Notes how the work on a recording ended and returns what to show. The
    /// application is idle afterwards, so that it can record again.
    pub fn transcription_finished(&mut self, outcome: Result<String, String>) -> (shown: String)
        ensures
            final(self).status == AppStatus::Idle,
            final(self).transcript@ == shown@,
            shown@ == shown_transcript(
                match outcome {
                    Ok(text) => Ok(text@),
                    Err(error) => Err(error@),
                },
            ),
    {
        let shown: String = match outcome {
            Ok(text) => text,
            Err(error) => {
                let mut message: String = String::from_str("Error: ");
                message.append(error.as_str());
                message
            },
        };
        self.transcript = shown.clone();
        self.status = AppStatus::Idle;
        shown
    }
}

/// Says what a click on the record button asks for.
pub fn record_button_message(status: AppStatus) -> (message: Option<WindowMessage>)
    ensures
        message == record_click(status),
{
    match status {
        AppStatus::Idle => Some(WindowMessage::StartRecording),
        AppStatus::Recording => Some(WindowMessage::StopRecording),
        AppStatus::Transcribing => None,
    }
}

/// Words the label of the record button.
pub fn record_button_label(status: AppStatus) -> (label: &'static str)
    ensures
        label@ == record_label(status),
{
    match status {
        AppStatus::Idle => "● Record",
        AppStatus::Recording => "■ Stop",
        AppStatus::Transcribing => "Processing...",
    }
}

/// Whether the record button can be clicked: not while a recording is worked
/// on.
pub fn record_button_sensitive(status: AppStatus) -> (sensitive: bool)
    ensures
        sensitive == (status != AppStatus::Transcribing),
{
    match status {
        AppStatus::Transcribing => false,
        _ => true,
    }
}

/// Words the device list's entry for the default device.
pub fn default_device_label(name: &str) -> (label: String)
    ensures
        label@ == default_entry(name@),
{
    let mut label: String = String::from_str(name);
    label.append(" (Default)");
    label
}

/// The entry for the default device selects the default device, whatever
/// the device is called.
pub proof fn lemma_default_entry_selects_default(name: Seq<char>)
    ensures
        device_for(Some(default_entry(name))) is None,
{
    reveal_strlit(" (Default)");
    reveal_strlit("(Default)");
    let entry = default_entry(name);
    let at: int = name.len() as int + 1;
    assert(entry.subrange(at, at + "(Default)"@.len()) =~= "(Default)"@);
}

/// Names the device to record from for the text chosen in the device list.
pub fn selected_device(choice: Option<&str>) -> (device: Option<String>)
    ensures
        text_view(device) == device_for(choice_view(choice)),
{
    match choice {
        None => None,
        Some(text) => if contains(text, "(Default)") {
            None
        } else {
            Some(String::from_str(text))
        },
    }
}

/// The key value of the space bar.
pub const KEY_SPACE: u32 = 0x20;

/// The key value of the function key F1.
pub const KEY_F1: u32 = 0xffbe;

/// The key value of the function key F2.
pub const KEY_F2: u32 = 0xffbf;

/// A key that was pressed or released, with the modifiers held at that
/// moment.
#[derive(Debug, Clone, Copy, PartialEq, Eq, Structural)]
pub struct KeyEvent {
    /// The key's value as the windowing system reports it.
    pub keyval: u32,
    /// Whether Shift is held.
    pub shift: bool,
    /// Whether Alt is held.
    pub alt: bool,
    /// Whether Control is held.
    pub control: bool,
}

/// Remembers whether the recording shortcut is held down.
#[derive(Debug, Clone, Copy, PartialEq, Eq, Structural)]
pub struct ShortcutTracker {
    /// Whether the recording shortcut is held down.
    pub pressed: bool,
}

/// A text in lower case, as `str::to_lowercase` gives it.
pub uninterp spec fn lowercased_text(text: Seq<char>) -> Seq<char>;

/// Calls `str::to_lowercase`.
#[verifier::external_body]
fn to_lowercase(text: &str) -> (out: String)
    ensures
        out@ == lowercased_text(text@),
{
    text.to_lowercase()
}

/// Whether a character is a lower-case Latin letter.
pub open spec fn is_lower_letter(c: char) -> bool {
    'a' <= c <= 'z'
}

/// Whether the key named `key`, a name in lower case, is the key with the
/// value `keyval`.
///
/// `f1`, `f2` and `space` name their keys. A name of one byte names the key
/// of its letter; if it is no letter, every key goes for it. Other names
/// name no key.
pub open spec fn key_matches(key: Seq<char>, keyval: u32) -> bool {
    if key == "f1"@ {
        keyval == KEY_F1
    } else if key == "f2"@ {
        keyval == KEY_F2
    } else if key == "space"@ {
        keyval == KEY_SPACE
    } else if encode_utf8(key).len() == 1 {
        is_lower_letter(key[0]) ==> keyval == key[0] as u32
    } else {
        false
    }
}

/// Whether a key event is the shortcut written as `shortcut`: parts joined
/// by `+`, the last of them the key's name in any case, among them the
/// modifiers `Shift`, `Alt` and `Control` or `Ctrl`. The event must be of
/// that key, with exactly the modifiers that are named.
pub open spec fn shortcut_matches(event: KeyEvent, shortcut: Seq<char>) -> bool {
    let parts = pieces(shortcut, '+');
    &&& key_matches(lowercased_text(parts.last()), event.keyval)
    &&& event.shift == parts.contains("Shift"@)
    &&& event.alt == parts.contains("Alt"@)
    &&& event.control == (parts.contains("Control"@) || parts.contains("Ctrl"@))
}

/// What a key press or release asks for.
#[derive(Debug, Clone, Copy, PartialEq, Eq, Structural)]
pub enum ShortcutAction {
    /// Start recording.
    StartRecording,
    /// Stop recording.
    StopRecording,
    /// Clear the transcript.
    ClearTranscript,
    /// Show the transcript.
    ShowTranscript,
    /// Nothing: the key is no shortcut and goes on to whoever wants it.
    Nothing,
}

/// What a key press asks for: the recording shortcut, unless it is held
/// already, asks to start recording; else the shortcut that clears the
/// transcript asks to clear it; else the shortcut that copies asks to show
/// the transcript.
pub open spec fn press_action(pressed: bool, event: KeyEvent, shortcuts: ShortcutConfig)
    -> ShortcutAction {
    if shortcut_matches(event, shortcuts.toggle_recording@) && !pressed {
        ShortcutAction::StartRecording
    } else if shortcut_matches(event, shortcuts.clear_transcript@) {
        ShortcutAction::ClearTranscript
    } else if shortcut_matches(event, shortcuts.copy_to_clipboard@) {
        ShortcutAction::ShowTranscript
    } else {
        ShortcutAction::Nothing
    }
}

/// What a key release asks for: letting go of the recording shortcut while
/// it is held asks to stop recording.
pub open spec fn release_action(pressed: bool, event: KeyEvent, shortcuts: ShortcutConfig)
    -> ShortcutAction {
    if pressed && shortcut_matches(event, shortcuts.toggle_recording@) {
        ShortcutAction::StopRecording
    } else {
        ShortcutAction::Nothing
    }
}

impl ShortcutAction {
    /// Whether a message is the one that carries out this action.
    pub open spec fn is_carried_by(self, message: Option<WindowMessage>) -> bool {
        match self {
            ShortcutAction::StartRecording => message matches Some(WindowMessage::StartRecording),
            ShortcutAction::StopRecording => message matches Some(WindowMessage::StopRecording),
            ShortcutAction::ClearTranscript => message matches Some(
                WindowMessage::UpdateTranscript(text),
            ) && text@.len() == 0,
            ShortcutAction::ShowTranscript => message matches Some(WindowMessage::ShowTranscript),
            ShortcutAction::Nothing => message is None,
        }
    }
}

/// Tells whether one of the parts is the given text.
pub fn has_part(parts: &Vec<String>, text: &str) -> (found: bool)
    ensures
        found == texts(parts@).contains(text@),
{
    let mut i: usize = 0;
    while i < parts.len()
        invariant
            i <= parts.len(),
            forall|j: int| 0 <= j < i ==> texts(parts@)[j] != text@,
        decreases parts.len() - i,
    {
        if text_equals(parts[i].as_str(), text) {
            assert(texts(parts@)[i as int] == text@);
            return true;
        }
        i += 1;
    }
    false
}

/// Tells whether the key named `key`, a name in lower case, is the key with
/// the value `keyval`.
pub fn key_name_matches(key: &str, keyval: u32) -> (matches: bool)
    ensures
        matches == key_matches(key@, keyval),
{
    if text_equals(key, "f1") {
        keyval == KEY_F1
    } else if text_equals(key, "f2") {
        keyval == KEY_F2
    } else if text_equals(key, "space") {
        keyval == KEY_SPACE
    } else if key.as_bytes().len() == 1 {
        assert(key@.len() > 0) by {
            if key@.len() == 0 {
                assert(encode_utf8(key@).len() == 0);
            }
        }
        let letter: char = key.get_char(0);
        if 'a' <= letter && letter <= 'z' {
            keyval == letter as u32
        } else {
            true
        }
    } else {
        false
    }
}

/// Tells whether a key event is the shortcut written as `shortcut`.
pub fn is_shortcut_key(event: &KeyEvent, shortcut: &str) -> (matches: bool)
    ensures
        matches == shortcut_matches(*event, shortcut@),
{
    let parts: Vec<String> = split_pieces(shortcut, '+');
    let last: usize = parts.len() - 1;
    assert(texts(parts@).last() == parts@[last as int]@);
    let key: String = to_lowercase(parts[last].as_str());
    let key_ok: bool = key_name_matches(key.as_str(), event.keyval);
    let shift_needed: bool = has_part(&parts, "Shift");
    let alt_needed: bool = has_part(&parts, "Alt");
    let control_needed: bool = has_part(&parts, "Control") || has_part(&parts, "Ctrl");
    key_ok && event.shift == shift_needed && event.alt == alt_needed && event.control
        == control_needed
}

impl ShortcutTracker {
    /// A tracker with no key held.
    pub fn new() -> (tracker: ShortcutTracker)
        ensures
            !tracker.pressed,
    {
        ShortcutTracker { pressed: false }
    }

    /// Handles a key press. A message in return means that the key was a
    /// shortcut and goes no further.
    pub fn key_pressed(&mut self, event: &KeyEvent, shortcuts: &ShortcutConfig) -> (message:
        Option<WindowMessage>)
        ensures
            press_action(old(self).pressed, *event, *shortcuts).is_carried_by(message),
            final(self).pressed == (old(self).pressed || press_action(
                old(self).pressed,
                *event,
                *shortcuts,
            ) == ShortcutAction::StartRecording),
    {
        if !self.pressed && is_shortcut_key(event, shortcuts.toggle_recording.as_str()) {
            self.pressed = true;
            Some(WindowMessage::StartRecording)
        } else if is_shortcut_key(event, shortcuts.clear_transcript.as_str()) {
            Some(WindowMessage::UpdateTranscript(String::new()))
        } else if is_shortcut_key(event, shortcuts.copy_to_clipboard.as_str()) {
            Some(WindowMessage::ShowTranscript)
        } else {
            None
        }
    }

    /// Handles a key release. A message in return means that the key was
    /// the recording shortcut and goes no further.
    pub fn key_released(&mut self, event: &KeyEvent, shortcuts: &ShortcutConfig) -> (message:
        Option<WindowMessage>)
        ensures
            release_action(old(self).pressed, *event, *shortcuts).is_carried_by(message),
            final(self).pressed == (old(self).pressed && release_action(
                old(self).pressed,
                *event,
                *shortcuts,
            ) != ShortcutAction::StopRecording),
    {
        if self.pressed && is_shortcut_key(event, shortcuts.toggle_recording.as_str()) {
            self.pressed = false;
            Some(WindowMessage::StopRecording)
        } else {
            None
        }
    }
}

/// The line that shows one replacement of the dictionary.
pub open spec fn listing_line(original: Seq<char>, replacement: Seq<char>) -> Seq<char> {
    "「"@ + original + "」→「"@ + replacement + "」\n"@
}

/// The lines that show the replacements that are texts, in order.
pub open spec fn listing_lines(words: Seq<(String, Option<String>)>) -> Seq<char>
    decreases words.len(),
{
    if words.len() == 0 {
        Seq::empty()
    } else {
        let before = listing_lines(words.drop_last());
        match words.last().1 {
            Some(replacement) => before + listing_line(words.last().0@, replacement@),
            None => before,
        }
    }
}

/// What the dictionary view shows for the words read from the stored
/// dictionary, or for none where it could not be read: a line for each
/// replacement that is a text; a remark where there is no word; and a remark
/// where nothing else is to be shown.
pub open spec fn listing_text(words: Option<Seq<(String, Option<String>)>>) -> Seq<char> {
    let content = match words {
        None => Seq::empty(),
        Some(words) => if words.len() == 0 {
            "登録されている単語はありません"@
        } else {
            listing_lines(words)
        },
    };
    if content.len() == 0 {
        "辞書の読み込みに失敗しました"@
    } else {
        content
    }
}

/// Writes what the dictionary view shows.
pub fn dictionary_listing(words: Option<&Vec<(String, Option<String>)>>) -> (content: String)
    ensures
        content@ == listing_text(
            match words {
                Some(w) => Some(w@),
                None => None,
            },
        ),
{
    let mut content: String = String::new();
    match words {
        None => {},
        Some(words) => {
            if words.len() == 0 {
                content.append("登録されている単語はありません");
            } else {
                let mut i: usize = 0;
                while i < words.len()
                    invariant
                        i <= words.len(),
                        content@ == listing_lines(words@.take(i as int)),
                    decreases words.len() - i,
                {
                    proof {
                        assert(words@.take(i + 1).drop_last() =~= words@.take(i as int));
                    }
                    match &words[i].1 {
                        Some(replacement) => {
                            content.append("「");
                            content.append(words[i].0.as_str());
                            content.append("」→「");
                            content.append(replacement.as_str());
                            content.append("」\n");
                            assert(content@ =~= listing_lines(words@.take(i + 1)));
                        },
                        None => {},
                    }
                    i += 1;
                }
                proof {
                    assert(words@.take(i as int) =~= words@);
                }
            }
        },
    }
    if content.as_str().is_empty() {
        content.append("辞書の読み込みに失敗しました");
    }
    content
}

} // verus!
