//! Stream negotiation: from a device's default configuration and the
//! configured overrides to the effective stream of a session and the header
//! of its output file.

use vstd::prelude::*;
use crate::error::RecorderError;

verus! {

/// How a device represents one sample.
#[derive(Debug, Clone, Copy, PartialEq, Eq, Structural)]
pub enum SampleFormat {
    /// Signed 16-bit integers.
    I16,
    /// 32-bit floats.
    F32,
    /// Unsigned 16-bit integers.
    U16,
    /// Any other representation.
    Other,
}

/// A sample representation that can be recorded.
#[derive(Debug, Clone, Copy, PartialEq, Eq, Structural)]
pub enum SampleKind {
    /// Signed 16-bit integers, stored as they come.
    I16,
    /// 32-bit floats, converted to 16-bit PCM.
    F32,
}

/// The default input configuration of a device.
#[derive(Debug, Clone, Copy, PartialEq, Eq, Structural)]
pub struct StreamDefaults {
    /// Number of channels.
    pub channels: u16,
    /// Samples per second and channel.
    pub sample_rate: u32,
    /// Representation of a sample.
    pub format: SampleFormat,
}

/// The effective stream configuration of a session. The buffer size is not
/// part of it: it is always left to the audio backend.
#[derive(Debug, Clone, Copy, PartialEq, Eq, Structural)]
pub struct StreamPlan {
    /// Number of channels.
    pub channels: u16,
    /// Samples per second and channel.
    pub sample_rate: u32,
    /// Representation in which the samples arrive.
    pub kind: SampleKind,
}

/// Header of the output file: uncompressed integer PCM.
#[derive(Debug, Clone, Copy, PartialEq, Eq, Structural)]
pub struct WavHeader {
    /// Number of channels.
    pub channels: u16,
    /// Samples per second and channel.
    pub sample_rate: u32,
    /// Bits per stored sample.
    pub bits_per_sample: u16,
}

/// Bits per stored sample, whatever the device delivers.
pub const BITS_PER_SAMPLE: u16 = 16;

/// The rate a session runs at: the configured rate unless it is 0.
pub open spec fn effective_rate(device_rate: u32, configured_rate: u32) -> u32 {
    if configured_rate > 0 {
        configured_rate
    } else {
        device_rate
    }
}

/// What negotiation yields for a default configuration and a configured rate.
pub open spec fn negotiated(defaults: StreamDefaults, configured_rate: u32) -> Result<
    StreamPlan,
    RecorderError,
> {
    match defaults.format {
        SampleFormat::I16 => Ok(
            StreamPlan {
                channels: defaults.channels,
                sample_rate: effective_rate(defaults.sample_rate, configured_rate),
                kind: SampleKind::I16,
            },
        ),
        SampleFormat::F32 => Ok(
            StreamPlan {
                channels: defaults.channels,
                sample_rate: effective_rate(defaults.sample_rate, configured_rate),
                kind: SampleKind::F32,
            },
        ),
        SampleFormat::U16 => Err(RecorderError::UnsupportedSampleFormat),
        SampleFormat::Other => Err(RecorderError::UnknownSampleFormat),
    }
}

/// Derives the effective stream from the device's defaults: the channel
/// count is kept, a nonzero configured rate replaces the device's, and only
/// 16-bit integer and 32-bit float samples are accepted.
pub fn negotiate(defaults: &StreamDefaults, configured_rate: u32) -> (plan: Result<
    StreamPlan,
    RecorderError,
>)
    ensures
        plan == negotiated(*defaults, configured_rate),
{
    let sample_rate: u32 = if configured_rate > 0 {
        configured_rate
    } else {
        defaults.sample_rate
    };
    match defaults.format {
        SampleFormat::I16 => Ok(
            StreamPlan { channels: defaults.channels, sample_rate, kind: SampleKind::I16 },
        ),
        SampleFormat::F32 => Ok(
            StreamPlan { channels: defaults.channels, sample_rate, kind: SampleKind::F32 },
        ),
        SampleFormat::U16 => Err(RecorderError::UnsupportedSampleFormat),
        SampleFormat::Other => Err(RecorderError::UnknownSampleFormat),
    }
}

impl StreamPlan {
    /// The header that matches this stream: same channel count and rate,
    /// 16 bits per sample.
    pub open spec fn header(self) -> WavHeader {
        WavHeader {
            channels: self.channels,
            sample_rate: self.sample_rate,
            bits_per_sample: BITS_PER_SAMPLE,
        }
    }

    /// Builds the header of the session's output file.
    pub fn wav_header(&self) -> (header: WavHeader)
        ensures
            header == self.header(),
    {
        WavHeader {
            channels: self.channels,
            sample_rate: self.sample_rate,
            bits_per_sample: BITS_PER_SAMPLE,
        }
    }
}

} // verus!
