//! From what a container reports of a stream to what the pipeline keeps of
//! it.

use crate::audio::AudioSpec;
use crate::constants::{audio_format_of, ConvFormat};
use crate::pipeline::{PacketMarker, StreamInfo};
use crate::probe::{CodecProbe, MediaKind, StreamProbe};
use crate::rational::Rational;
use vstd::prelude::*;

verus! {

/// The frame rate of a stream: what its video decoder reports, where it is
/// a video stream with a decoder.
pub open spec fn decoder_fps(codec: CodecProbe) -> Option<Rational> {
    if codec.medium == MediaKind::Video && codec.video is Some {
        codec.video->0.frame_rate
    } else {
        None
    }
}

impl ConvFormat<PacketMarker> for StreamProbe {
    open spec fn convertible(&self) -> bool {
        true
    }

    open spec fn converted(&self) -> PacketMarker {
        PacketMarker { stream_index: self.index, stream_id: self.id }
    }

    fn convert(&self) -> (to: PacketMarker) {
        PacketMarker { stream_index: self.index, stream_id: self.id }
    }
}

impl ConvFormat<StreamInfo> for StreamProbe {
    /// A stream can be described once a codec context was built for it.
    open spec fn convertible(&self) -> bool {
        self.codec is Some
    }

    /// The description of a stream in a container: the container's time base
    /// for it and the medium of its codec. A video stream with a decoder has
    /// the decoder's frame rate, or else the rate the container declares. An
    /// audio stream with a decoder has the decoder's rate and format, and
    /// the channel count of its layout.
    open spec fn converted(&self) -> StreamInfo {
        let codec = self.codec->0;
        StreamInfo {
            time_base: self.time_base,
            kind: codec.medium,
            fps: if codec.medium == MediaKind::Video && codec.video is Some {
                if codec.video->0.frame_rate is Some {
                    codec.video->0.frame_rate
                } else {
                    Some(self.rate)
                }
            } else {
                None
            },
            audio_spec: if codec.medium == MediaKind::Audio && codec.audio is Some {
                Some(
                    AudioSpec {
                        freq: Some(codec.audio->0.rate as i32),
                        channels: Some(codec.audio->0.layout_channels),
                        format: Some(audio_format_of(codec.audio->0.format)),
                    },
                )
            } else {
                None
            },
        }
    }

    fn convert(&self) -> (to: StreamInfo) {
        let codec = self.codec.unwrap();
        let mut fps = None;
        let mut spec = None;
        match codec.medium {
            MediaKind::Video => {
                if let Some(video) = codec.video {
                    fps = video.frame_rate;
                    if fps.is_none() {
                        fps = Some(self.rate);
                    }
                }
            },
            MediaKind::Audio => {
                if let Some(audio) = codec.audio {
                    spec = Some(
                        AudioSpec {
                            freq: Some(audio.rate as i32),
                            channels: Some(audio.layout_channels),
                            format: Some(audio.format.convert()),
                        },
                    );
                }
            },
            _ => {},
        }
        StreamInfo { time_base: self.time_base, kind: codec.medium, fps, audio_spec: spec }
    }
}

impl ConvFormat<StreamInfo> for CodecProbe {
    open spec fn convertible(&self) -> bool {
        true
    }

    /// The description of a stream known by its codec alone: the codec's
    /// time base and medium. A video codec with a decoder has the decoder's
    /// frame rate, if it reports one. An audio codec with a decoder has the
    /// decoder's rate, channel count and format.
    open spec fn converted(&self) -> StreamInfo {
        StreamInfo {
            time_base: self.time_base,
            kind: self.medium,
            fps: decoder_fps(*self),
            audio_spec: if self.medium == MediaKind::Audio && self.audio is Some {
                Some(
                    AudioSpec {
                        freq: Some(self.audio->0.rate as i32),
                        channels: Some(self.audio->0.channels as i32),
                        format: Some(audio_format_of(self.audio->0.format)),
                    },
                )
            } else {
                None
            },
        }
    }

    fn convert(&self) -> (to: StreamInfo) {
        let mut fps = None;
        let mut spec = None;
        match self.medium {
            MediaKind::Video => {
                if let Some(video) = self.video {
                    fps = video.frame_rate;
                }
            },
            MediaKind::Audio => {
                if let Some(audio) = self.audio {
                    spec = Some(
                        AudioSpec {
                            freq: Some(audio.rate as i32),
                            channels: Some(audio.channels as i32),
                            format: Some(audio.format.convert()),
                        },
                    );
                }
            },
            _ => {},
        }
        StreamInfo { time_base: self.time_base, kind: self.medium, fps, audio_spec: spec }
    }
}

} // verus!
