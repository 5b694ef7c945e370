//! How the audio device is asked to play what a decoder produces.

use crate::constants::AudioFormat;
use crate::rational::trunc_div;
use vstd::prelude::*;

verus! {

/// How many decoded audio frames may wait between the player and the device.
pub const DEVICE_QUEUE_CAPACITY: usize = 100;

/// The number of channels every playback stream is opened with.
pub const PLAYBACK_CHANNELS: i32 = 2;

/// What an audio device stream is asked for. An absent part leaves the choice
/// to the device.
#[derive(Debug, Clone, Copy, PartialEq, Eq, Structural)]
pub struct AudioSpec {
    pub freq: Option<i32>,
    pub channels: Option<i32>,
    pub format: Option<AudioFormat>,
}

/// The machine type of one sample of a playback stream.
#[derive(Debug, Clone, Copy, PartialEq, Eq, Structural)]
pub enum SampleKind {
    U8,
    I8,
    I16,
    I32,
    F32,
}

/// How to open the playback stream: the request to make of the device and
/// the sample type to open it with.
#[derive(Debug, Clone, Copy, PartialEq, Eq, Structural)]
pub struct PlaybackPlan {
    pub spec: AudioSpec,
    pub sample: SampleKind,
}

/// The sample type a device format is played with, for the formats that can
/// be played.
pub open spec fn sample_kind_of(format: Option<AudioFormat>) -> Option<SampleKind> {
    match format {
        Some(AudioFormat::S16LE) => Some(SampleKind::I16),
        Some(AudioFormat::S32LE) => Some(SampleKind::I32),
        Some(AudioFormat::F32LE) => Some(SampleKind::F32),
        Some(AudioFormat::U8) => Some(SampleKind::U8),
        Some(AudioFormat::S8) => Some(SampleKind::I8),
        _ => None,
    }
}

/// The frequency to ask for: float streams are asked for at the frequency
/// divided by the channel count, all others at the frequency as it is.
pub open spec fn playback_freq(spec: AudioSpec) -> Option<i32> {
    match spec.freq {
        Some(freq) if spec.format == Some(AudioFormat::F32LE) => Some(
            trunc_div(freq as int, PLAYBACK_CHANNELS as int) as i32,
        ),
        _ => spec.freq,
    }
}

/// The plan for `spec`, where its format can be played.
pub open spec fn plan_of(spec: AudioSpec) -> Option<PlaybackPlan> {
    match sample_kind_of(spec.format) {
        Some(sample) => Some(
            PlaybackPlan {
                spec: AudioSpec {
                    freq: playback_freq(spec),
                    channels: Some(PLAYBACK_CHANNELS),
                    format: spec.format,
                },
                sample,
            },
        ),
        None => None,
    }
}

/// Decides how the playback stream for `spec` is opened. The stream always
/// has two channels. `None` means that the format cannot be played.
pub fn playback_plan(spec: AudioSpec) -> (plan: Option<PlaybackPlan>)
    ensures
        plan == plan_of(spec),
{
    let sample = match spec.format {
        Some(AudioFormat::S16LE) => SampleKind::I16,
        Some(AudioFormat::S32LE) => SampleKind::I32,
        Some(AudioFormat::F32LE) => SampleKind::F32,
        Some(AudioFormat::U8) => SampleKind::U8,
        Some(AudioFormat::S8) => SampleKind::I8,
        _ => { return None; },
    };
    let freq = match (spec.freq, sample) {
        (Some(freq), SampleKind::F32) => Some(freq / PLAYBACK_CHANNELS),
        _ => spec.freq,
    };
    Some(
        PlaybackPlan {
            spec: AudioSpec { freq, channels: Some(PLAYBACK_CHANNELS), format: spec.format },
            sample,
        },
    )
}

} // verus!
