//! What the decode engine reports of an opened container, as plain values.

use crate::constants::{Pixel, Sample};
use crate::rational::Rational;
use vstd::prelude::*;

verus! {

/// The kind of data an elementary stream carries.
#[derive(Debug, Clone, Copy, PartialEq, Eq, Structural)]
pub enum MediaKind {
    Unknown,
    Video,
    Audio,
    Data,
    Subtitle,
    Attachment,
}

/// What a video decoder reports once it is built from a stream's parameters.
#[derive(Debug, Clone, Copy, PartialEq, Eq)]
pub struct VideoProbe {
    pub width: u32,
    pub height: u32,
    pub format: Pixel,
    pub aspect_ratio: Rational,
    pub frame_rate: Option<Rational>,
}

/// What an audio decoder reports once it is built from a stream's parameters.
#[derive(Debug, Clone, Copy, PartialEq, Eq)]
pub struct AudioProbe {
    pub rate: u32,
    pub channels: u16,
    pub layout_channels: i32,
    pub format: Sample,
}

/// A codec context built from a stream's parameters: its medium, its time
/// base, and the decoder of either kind where one could be opened.
#[derive(Debug, Clone, Copy, PartialEq, Eq)]
pub struct CodecProbe {
    pub medium: MediaKind,
    pub time_base: Rational,
    pub video: Option<VideoProbe>,
    pub audio: Option<AudioProbe>,
}

/// One elementary stream of an opened container. `codec` is absent where no
/// codec context could be built from the stream's parameters.
#[derive(Debug, Clone, Copy, PartialEq, Eq)]
pub struct StreamProbe {
    pub index: usize,
    pub id: i32,
    pub time_base: Rational,
    pub rate: Rational,
    pub codec: Option<CodecProbe>,
}

/// An opened container: its best video stream and its best audio stream,
/// where it has one.
#[derive(Debug, Clone, Copy, PartialEq, Eq)]
pub struct InputProbe {
    pub video: Option<StreamProbe>,
    pub audio: Option<StreamProbe>,
}

impl StreamProbe {
    /// The video decoder of the stream, where one was opened.
    pub open spec fn video_decoder(self) -> Option<VideoProbe> {
        match self.codec {
            Some(codec) => codec.video,
            None => None,
        }
    }

    /// The audio decoder of the stream, where one was opened.
    pub open spec fn audio_decoder(self) -> Option<AudioProbe> {
        match self.codec {
            Some(codec) => codec.audio,
            None => None,
        }
    }

    pub fn get_video_decoder(&self) -> (decoder: Option<VideoProbe>)
        ensures
            decoder == self.video_decoder(),
    {
        match self.codec {
            Some(codec) => codec.video,
            None => None,
        }
    }

    pub fn get_audio_decoder(&self) -> (decoder: Option<AudioProbe>)
        ensures
            decoder == self.audio_decoder(),
    {
        match self.codec {
            Some(codec) => codec.audio,
            None => None,
        }
    }
}

} // verus!
