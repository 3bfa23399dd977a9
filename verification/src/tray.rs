//! The tray icon's side of the application: what is shown for each status,
//! and what a click or a message leads to.

use vstd::prelude::*;

verus! {

/// Width and height of the tray icon, in pixels.
pub const ICON_SIZE: u32 = 22;

/// Bytes per pixel of the tray icon: red, green, blue, alpha.
pub const ICON_CHANNELS: u32 = 4;

/// What the application is doing.
#[derive(Debug, Clone, Copy, PartialEq, Eq, Structural)]
pub enum AppStatus {
    /// Waiting for a recording to start.
    Idle,
    /// Recording.
    Recording,
    /// Working on a recording.
    Transcribing,
}

/// What is sent to and from the tray.
#[derive(Debug, Clone, Copy, PartialEq, Eq, Structural)]
pub enum TrayMessage {
    /// Start recording.
    StartRecording,
    /// Stop recording and work on it.
    StopRecording,
    /// Show the transcript.
    ShowTranscript,
    /// Show a new status.
    UpdateStatus(AppStatus),
    /// Leave the application.
    Exit,
}

/// An entry of the tray's menu.
#[derive(Debug, Clone, Copy, PartialEq, Eq, Structural)]
pub enum MenuEntry {
    /// Starts or stops recording.
    Record,
    /// Shows the transcript.
    Transcript,
    /// Leaves the application.
    Quit,
}

/// What the handler of the tray's messages does after a message.
#[derive(Debug, Clone, Copy, PartialEq, Eq, Structural)]
pub enum HandlerStep {
    /// Wait for the next message.
    Continue,
    /// Hand the message on to the main thread, then wait for the next.
    Forward(TrayMessage),
    /// End.
    Exit,
}

/// The pixels of an icon.
#[derive(Debug, Clone)]
pub struct IconData {
    /// The pixels row by row, each as red, green, blue and alpha.
    pub data: Vec<u8>,
    /// Width in pixels.
    pub width: u32,
    /// Height in pixels.
    pub height: u32,
    /// Bytes per pixel.
    pub channels: u32,
}

/// The state of the tray.
#[derive(Debug, Clone, Copy, PartialEq, Eq, Structural)]
pub struct AppState {
    /// What the application is doing.
    pub status: AppStatus,
}

impl AppStatus {
    /// The name of the icon for this status.
    pub open spec fn icon_text(self) -> Seq<char> {
        match self {
            AppStatus::Idle => "microphone-sensitivity-muted-symbolic"@,
            AppStatus::Recording => "microphone-sensitivity-high-symbolic"@,
            AppStatus::Transcribing => "system-run-symbolic"@,
        }
    }

    /// The tooltip for this status.
    pub open spec fn tooltip_text(self) -> Seq<char> {
        match self {
            AppStatus::Idle => "Wispr - Click to start recording"@,
            AppStatus::Recording => "Wispr - Recording... Click to stop"@,
            AppStatus::Transcribing => "Wispr - Processing audio..."@,
        }
    }

    /// The label of the menu's first entry for this status.
    pub open spec fn menu_item_text(self) -> Seq<char> {
        match self {
            AppStatus::Idle => "Start Recording"@,
            AppStatus::Recording => "Stop Recording"@,
            AppStatus::Transcribing => "Processing..."@,
        }
    }

    /// The status after a click that toggles recording: an idle application
    /// records, a recording one works on the recording, a working one goes on.
    pub open spec fn toggled(self) -> AppStatus {
        match self {
            AppStatus::Idle => AppStatus::Recording,
            AppStatus::Recording => AppStatus::Transcribing,
            AppStatus::Transcribing => AppStatus::Transcribing,
        }
    }

    /// What a click that toggles recording asks for in this status.
    pub open spec fn toggle_message(self) -> Option<TrayMessage> {
        match self {
            AppStatus::Idle => Some(TrayMessage::StartRecording),
            AppStatus::Recording => Some(TrayMessage::StopRecording),
            AppStatus::Transcribing => None,
        }
    }

    /// Names the icon for this status.
    pub fn icon_name(&self) -> (name: &'static str)
        ensures
            name@ == self.icon_text(),
    {
        match self {
            AppStatus::Idle => "microphone-sensitivity-muted-symbolic",
            AppStatus::Recording => "microphone-sensitivity-high-symbolic",
            AppStatus::Transcribing => "system-run-symbolic",
        }
    }

    /// Words the tooltip for this status.
    pub fn tooltip(&self) -> (text: &'static str)
        ensures
            text@ == self.tooltip_text(),
    {
        match self {
            AppStatus::Idle => "Wispr - Click to start recording",
            AppStatus::Recording => "Wispr - Recording... Click to stop",
            AppStatus::Transcribing => "Wispr - Processing audio...",
        }
    }

    /// Words the label of the menu's first entry for this status.
    pub fn menu_item_label(&self) -> (text: &'static str)
        ensures
            text@ == self.menu_item_text(),
    {
        match self {
            AppStatus::Idle => "Start Recording",
            AppStatus::Recording => "Stop Recording",
            AppStatus::Transcribing => "Processing...",
        }
    }
}

/// What choosing a menu entry asks for: the first entry starts a recording
/// when idle and stops one that runs, the others always do their one thing.
pub open spec fn menu_entry_message(status: AppStatus, entry: MenuEntry) -> Option<TrayMessage> {
    match entry {
        MenuEntry::Record => status.toggle_message(),
        MenuEntry::Transcript => Some(TrayMessage::ShowTranscript),
        MenuEntry::Quit => Some(TrayMessage::Exit),
    }
}

/// Says what choosing a menu entry asks for.
pub fn menu_message(status: AppStatus, entry: MenuEntry) -> (message: Option<TrayMessage>)
    ensures
        message == menu_entry_message(status, entry),
{
    match entry {
        MenuEntry::Record => match status {
            AppStatus::Idle => Some(TrayMessage::StartRecording),
            AppStatus::Recording => Some(TrayMessage::StopRecording),
            AppStatus::Transcribing => None,
        },
        MenuEntry::Transcript => Some(TrayMessage::ShowTranscript),
        MenuEntry::Quit => Some(TrayMessage::Exit),
    }
}

impl AppState {
    /// The status after the handler has seen a message.
    pub open spec fn status_after(self, message: TrayMessage) -> AppStatus {
        match message {
            TrayMessage::StartRecording => AppStatus::Recording,
            TrayMessage::StopRecording => AppStatus::Transcribing,
            TrayMessage::UpdateStatus(status) => status,
            TrayMessage::ShowTranscript => self.status,
            TrayMessage::Exit => self.status,
        }
    }

    /// What the handler does with a message.
    pub open spec fn step_for(message: TrayMessage) -> HandlerStep {
        match message {
            TrayMessage::Exit => HandlerStep::Exit,
            TrayMessage::UpdateStatus(_) => HandlerStep::Continue,
            _ => HandlerStep::Forward(message),
        }
    }

    /// The state of a tray that has just appeared.
    pub fn new() -> (state: AppState)
        ensures
            state.status == AppStatus::Idle,
    {
        AppState { status: AppStatus::Idle }
    }

    /// Toggles recording and says what to ask the main thread for.
    pub fn toggle_recording(&mut self) -> (message: Option<TrayMessage>)
        ensures
            final(self).status == old(self).status.toggled(),
            message == old(self).status.toggle_message(),
    {
        match self.status {
            AppStatus::Idle => {
                self.status = AppStatus::Recording;
                Some(TrayMessage::StartRecording)
            },
            AppStatus::Recording => {
                self.status = AppStatus::Transcribing;
                Some(TrayMessage::StopRecording)
            },
            AppStatus::Transcribing => None,
        }
    }

    /// Handles one message to the tray: requests to record and to show the
    /// transcript are handed on, with the status following the request; a new
    /// status is taken over; a request to leave ends the handler.
    pub fn handle_message(&mut self, message: TrayMessage) -> (step: HandlerStep)
        ensures
            final(self).status == old(self).status_after(message),
            step == AppState::step_for(message),
    {
        match message {
            TrayMessage::Exit => HandlerStep::Exit,
            TrayMessage::StartRecording => {
                self.status = AppStatus::Recording;
                HandlerStep::Forward(TrayMessage::StartRecording)
            },
            TrayMessage::StopRecording => {
                self.status = AppStatus::Transcribing;
                HandlerStep::Forward(TrayMessage::StopRecording)
            },
            TrayMessage::ShowTranscript => HandlerStep::Forward(TrayMessage::ShowTranscript),
            TrayMessage::UpdateStatus(status) => {
                self.status = status;
                HandlerStep::Continue
            },
        }
    }
}

/// The bytes of `pixels` pixels of one colour.
pub open spec fn solid_pixels(pixels: nat, r: u8, g: u8, b: u8, a: u8) -> Seq<u8> {
    Seq::new(
        pixels * 4,
        |i: int|
            if i % 4 == 0 {
                r
            } else if i % 4 == 1 {
                g
            } else if i % 4 == 2 {
                b
            } else {
                a
            },
    )
}

/// Paints the default icon: a square of [`ICON_SIZE`] pixels in one colour.
pub fn create_default_icon(r: u8, g: u8, b: u8, a: u8) -> (icon: IconData)
    ensures
        icon.width == ICON_SIZE,
        icon.height == ICON_SIZE,
        icon.channels == ICON_CHANNELS,
        icon.data@ == solid_pixels((ICON_SIZE * ICON_SIZE) as nat, r, g, b, a),
{
    let mut data: Vec<u8> = Vec::new();
    let pixels: u32 = ICON_SIZE * ICON_SIZE;
    let mut i: u32 = 0;
    while i < pixels
        invariant
            i <= pixels,
            pixels == ICON_SIZE * ICON_SIZE,
            data@ == solid_pixels(i as nat, r, g, b, a),
        decreases pixels - i,
    {
        data.push(r);
        data.push(g);
        data.push(b);
        data.push(a);
        assert(data@ =~= solid_pixels((i + 1) as nat, r, g, b, a));
        i += 1;
    }
    IconData { data, width: ICON_SIZE, height: ICON_SIZE, channels: ICON_CHANNELS }
}

} // verus!
