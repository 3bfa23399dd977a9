//! What a session is made of: its clock, the name of its output file, and
//! the plan that the caller carries out to bring it to life.

use vstd::prelude::*;
use vstd::string::StringExecFns;
use crate::device::DeviceChoice;
use crate::stream::{StreamPlan, WavHeader};
use crate::watchdog::Watchdog;

verus! {

/// The last second that a session's timestamp can name: the end of the year
/// 9999, counted from the start of 1970.
pub const MAX_STAMP_SECS: i64 = 253_402_300_799;

/// An output file smaller than this, in bytes, has most likely lost its
/// audio.
pub const MIN_PLAUSIBLE_FILE_SIZE: u64 = 100;

/// Milliseconds the caller waits after a stop, so that the last buffers can
/// reach the output file.
pub const STOP_SETTLE_MILLIS: u64 = 500;

/// The moment at which a session starts, read once from the system.
#[derive(Debug, Clone, Copy, PartialEq, Eq, Structural)]
pub struct SessionClock {
    /// Seconds since the start of 1970 in universal time.
    pub unix_secs: u64,
    /// Seconds since the start of 1970 on the local wall clock.
    pub local_secs: i64,
}

/// What the caller does to bring a planned session to life: open the device,
/// create the output file with the header, install the capture sink, start
/// the stream and let the watchdog run.
#[derive(Debug, Clone)]
pub struct SessionPlan {
    /// The device to record from.
    pub device: DeviceChoice,
    /// Whether the default device stands in for a requested one that is not
    /// there, which deserves a warning.
    pub fell_back: bool,
    /// The effective stream configuration.
    pub stream: StreamPlan,
    /// The header of the output file.
    pub header: WavHeader,
    /// The path of the output file.
    pub output_file: String,
    /// The watchdog of the session, not yet polled.
    pub watchdog: Watchdog,
}

/// What a request to start recording comes to.
#[derive(Debug, Clone)]
pub enum StartAction {
    /// A session is running already; there is nothing to do.
    AlreadyRecording,
    /// A new session was created and waits to be carried out.
    Begin(SessionPlan),
}

/// The text `%Y%m%d_%H%M%S` of a wall-clock time, as chrono formats it.
pub uninterp spec fn stamp_text(local_secs: i64) -> Seq<char>;

/// Whether a wall-clock time can be named in a session's file name.
pub open spec fn stamp_in_range(local_secs: i64) -> bool {
    0 <= local_secs <= MAX_STAMP_SECS
}

/// The path of the recording made at `stamp` in the directory `dir`.
pub open spec fn recording_path_text(dir: Seq<char>, stamp: Seq<char>) -> Seq<char> {
    dir + "/recording_"@ + stamp + ".wav"@
}

/// Calls chrono's `DateTime::from_timestamp` and `DateTime::format` with the
/// pattern `%Y%m%d_%H%M%S`. The result is chrono's text for that second, which
/// is a function of the second alone; within the years 1970 to 9999 chrono
/// accepts every second and the formatting cannot fail.
#[verifier::external_body]
fn format_stamp(local_secs: i64) -> (stamp: String)
    requires
        stamp_in_range(local_secs),
    ensures
        stamp@ == stamp_text(local_secs),
{
    chrono::DateTime::from_timestamp(local_secs, 0)
        .unwrap_or_default()
        .format("%Y%m%d_%H%M%S")
        .to_string()
}

/// Names the recording made at `stamp` in the directory `dir`.
pub fn recording_path(dir: &str, stamp: &str) -> (path: String)
    ensures
        path@ == recording_path_text(dir@, stamp@),
{
    let mut path: String = String::from_str(dir);
    path.append("/recording_");
    path.append(stamp);
    path.append(".wav");
    path
}

/// Names the recording of a session that starts at the wall-clock time
/// `local_secs`, or nothing if that time cannot be named.
pub fn session_path(dir: &str, local_secs: i64) -> (path: Option<String>)
    ensures
        match path {
            Some(p) => stamp_in_range(local_secs) && p@ == recording_path_text(
                dir@,
                stamp_text(local_secs),
            ),
            None => !stamp_in_range(local_secs),
        },
{
    if 0 <= local_secs && local_secs <= MAX_STAMP_SECS {
        let stamp: String = format_stamp(local_secs);
        Some(recording_path(dir, stamp.as_str()))
    } else {
        None
    }
}

/// Whether an output file of this size has most likely lost its audio, which
/// deserves a warning after the session has stopped.
pub fn is_implausibly_small(file_size: u64) -> (small: bool)
    ensures
        small == (file_size < MIN_PLAUSIBLE_FILE_SIZE),
{
    file_size < MIN_PLAUSIBLE_FILE_SIZE
}

} // verus!
