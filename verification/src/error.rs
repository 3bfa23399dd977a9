//! Why a recording session could not be started.

use vstd::prelude::*;
use vstd::string::StringExecFns;

verus! {

/// A fatal condition found while a session is prepared. No session exists
/// after any of them.
#[derive(Debug, Clone, Copy, PartialEq, Eq, Structural)]
pub enum RecorderError {
    /// Neither the requested device nor a default input device is there.
    NoInputDevice,
    /// The chosen device does not tell its name.
    DeviceNameUnavailable,
    /// The chosen device offers no default input configuration.
    NoDefaultConfig,
    /// The device delivers unsigned 16-bit samples.
    UnsupportedSampleFormat,
    /// The device delivers samples in a representation other than 16-bit
    /// integers or 32-bit floats.
    UnknownSampleFormat,
    /// The session's timestamp does not lie in the years 1970 to 9999.
    InvalidClock,
}

impl RecorderError {
    /// The text shown for this error.
    pub open spec fn message_text(self) -> Seq<char> {
        match self {
            RecorderError::NoInputDevice => "No input device found"@,
            RecorderError::DeviceNameUnavailable => "Input device name is not available"@,
            RecorderError::NoDefaultConfig => "Failed to get default input config"@,
            RecorderError::UnsupportedSampleFormat => "Unsupported sample format: U16"@,
            RecorderError::UnknownSampleFormat => "Unknown sample format"@,
            RecorderError::InvalidClock => "Session timestamp is out of range"@,
        }
    }

    /// Renders the error for the user.
    pub fn message(&self) -> (text: String)
        ensures
            text@ == self.message_text(),
    {
        match self {
            RecorderError::NoInputDevice => String::from_str("No input device found"),
            RecorderError::DeviceNameUnavailable => String::from_str(
                "Input device name is not available",
            ),
            RecorderError::NoDefaultConfig => String::from_str(
                "Failed to get default input config",
            ),
            RecorderError::UnsupportedSampleFormat => String::from_str(
                "Unsupported sample format: U16",
            ),
            RecorderError::UnknownSampleFormat => String::from_str("Unknown sample format"),
            RecorderError::InvalidClock => String::from_str("Session timestamp is out of range"),
        }
    }
}

} // verus!
