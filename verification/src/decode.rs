//! A decoder on a single thread: what it takes to open a medium for it,
//! and what the thread does on each command.

use crate::audio::AudioSpec;
use crate::constants::{audio_format_of, AudioFormat, ConvFormat};
use crate::pipeline::Route;
use crate::probe::InputProbe;
use crate::rational::{trunc_div, Rational};
use crate::utils::{
    can_time_frames, frame_time_ms, frame_time_ms_defined, frame_time_ns, frame_time_ns_defined,
    height_from_ar, Range, RangeCheck, ScalingFlag,
};
use vstd::prelude::*;

verus! {

/// Why a medium could not be opened.
#[derive(Debug, Clone, Copy, PartialEq, Eq, Structural)]
pub enum MDecodeError {
    /// The resource could not be found or read.
    FileNotFound,
    /// The container lacks a stream that is needed to play it.
    VideoStreamNotFound,
    /// A decoder or a scaler could not be built for a stream.
    ContextCantBeInitialized,
}

/// How a single decoder thread prepares pictures for the window.
#[derive(Debug, Clone, Copy, PartialEq, Eq)]
pub struct MDecodeOptions {
    pub scaling_flag: ScalingFlag,
    /// How many frames may be decoded ahead: the upper bound stops the
    /// decoder, the lower bound tells that it has fallen behind.
    pub look_range: Range,
    pub window_default_size: (u32, u32),
}

impl MDecodeOptions {
    /// The options of a decoder that is given none.
    pub open spec fn default_options() -> MDecodeOptions {
        MDecodeOptions {
            scaling_flag: ScalingFlag::Bilinear,
            look_range: Range { min: 2, max: 15 },
            window_default_size: (1152, 648),
        }
    }
}

impl Default for MDecodeOptions {
    fn default() -> (options: MDecodeOptions)
        ensures
            options == MDecodeOptions::default_options(),
    {
        MDecodeOptions {
            scaling_flag: ScalingFlag::Bilinear,
            look_range: Range::new(2, 15),
            window_default_size: (1152, 648),
        }
    }
}

/// What the renderer is told of a medium before its first frame.
#[derive(Debug, Clone, Copy, PartialEq, Eq)]
pub struct MediaInfo {
    pub v_width: u32,
    pub v_height: u32,
    pub video_rate: Rational,
    pub aspect_ratio: Rational,
    pub frame_time_ns: i32,
    pub frame_time_ms: i32,
    pub audio_spec: AudioSpec,
}

/// A decoded picture on its way to the renderer.
#[derive(Debug, Clone, PartialEq, Eq)]
pub struct MDecodeVideoFrame<V> {
    pub video_frame: V,
}

/// A decoded run of samples on its way to the audio device.
#[derive(Debug, Clone, PartialEq, Eq)]
pub struct MDecodeAudioFrame<A> {
    pub audio_frame: A,
}

/// A command to the decoder thread.
#[derive(Debug, Clone, PartialEq, Eq)]
pub enum DecoderCommand {
    Open(String),
    Goto(u32),
    Option(MDecodeOptions),
    Take,
    Clean,
}

/// What the decoder thread sends back.
#[derive(Debug, Clone, PartialEq, Eq)]
pub enum DecoderOutput<V, A> {
    Video(MDecodeVideoFrame<V>),
    Audio(MDecodeAudioFrame<A>),
    MediaInfo(MediaInfo),
}

/// What the decoder thread keeps of an opened medium, besides the decoders
/// themselves: which streams it decodes, with what options, into pictures
/// of what size.
#[derive(Debug, Clone, Copy, PartialEq, Eq)]
pub struct MDecodeInner {
    pub current_video_stream_index: usize,
    pub current_audio_stream_index: usize,
    pub options: MDecodeOptions,
    pub media_info: MediaInfo,
    /// The size of the pictures that the scaler produces.
    pub target_size: (u32, u32),
}

impl MDecodeInner {
    pub fn get_media_info(&self) -> (info: &MediaInfo)
        ensures
            *info == self.media_info,
    {
        &self.media_info
    }
}

/// The size that pictures of `width` by `height` are scaled to: as wide as
/// the window, and as high as that width asks for at the picture's own
/// aspect ratio.
pub open spec fn target_size_of(width: u32, height: u32, options: MDecodeOptions) -> (u32, u32) {
    (
        options.window_default_size.0,
        ((options.window_default_size.0 * height) / (width as int)) as u32,
    )
}

/// Whether the target size of pictures of `width` by `height` can be
/// computed.
pub open spec fn scalable(width: u32, height: u32, options: MDecodeOptions) -> bool {
    0 < width <= i32::MAX && height <= i32::MAX && options.window_default_size.0 * height
        <= u32::MAX
}

/// Why `input` cannot be decoded with `options`, if it cannot: the resource
/// was not opened; or it lacks a video or an audio stream; or one of the two
/// has no decoder, or the duration of a frame or the size of the scaled
/// picture cannot be computed.
pub open spec fn decoder_error(input: Option<InputProbe>, options: MDecodeOptions) -> Option<
    MDecodeError,
> {
    if input is None {
        Some(MDecodeError::FileNotFound)
    } else if input->0.video is None || input->0.audio is None {
        Some(MDecodeError::VideoStreamNotFound)
    } else if input->0.video->0.video_decoder() is None || input->0.audio->0.audio_decoder()
        is None {
        Some(MDecodeError::ContextCantBeInitialized)
    } else if !frame_time_ms_defined(input->0.video->0.rate) || !frame_time_ns_defined(
        input->0.video->0.rate,
    ) {
        Some(MDecodeError::ContextCantBeInitialized)
    } else if !scalable(
        input->0.video->0.video_decoder()->0.width,
        input->0.video->0.video_decoder()->0.height,
        options,
    ) {
        Some(MDecodeError::ContextCantBeInitialized)
    } else {
        None
    }
}

/// What is kept of `input`, decoded with `options`.
pub open spec fn decoder_of(input: InputProbe, options: MDecodeOptions) -> MDecodeInner {
    let v_stream = input.video->0;
    let a_stream = input.audio->0;
    let video = v_stream.video_decoder()->0;
    let audio = a_stream.audio_decoder()->0;
    MDecodeInner {
        current_video_stream_index: v_stream.index,
        current_audio_stream_index: a_stream.index,
        options,
        media_info: MediaInfo {
            v_width: video.width,
            v_height: video.height,
            video_rate: v_stream.rate,
            aspect_ratio: video.aspect_ratio,
            frame_time_ms: trunc_div(1000 * v_stream.rate.1, v_stream.rate.0 as int) as i32,
            frame_time_ns: ((1_000_000_000 * v_stream.rate.1) / (v_stream.rate.0 as int)) as i32,
            audio_spec: AudioSpec {
                freq: Some(audio.rate as i32),
                channels: Some(audio.channels as i32),
                format: Some(audio_format_of(audio.format)),
            },
        },
        target_size: target_size_of(video.width, video.height, options),
    }
}

/// Decides how to decode a container, given what opening it brought: `None`
/// where it could not be opened, its best streams otherwise. Without
/// `decode_options` the decoder runs with [`MDecodeOptions::default_options`].
pub fn get_decoder(input: Option<InputProbe>, decode_options: Option<MDecodeOptions>) -> (inner:
    Result<MDecodeInner, MDecodeError>)
    ensures
        ({
            let options = match decode_options {
                Some(options) => options,
                None => MDecodeOptions::default_options(),
            };
            match decoder_error(input, options) {
                Some(error) => inner == Err::<MDecodeInner, MDecodeError>(error),
                None => inner == Ok::<MDecodeInner, MDecodeError>(decoder_of(input->0, options)),
            }
        }),
{
    let input = match input {
        Some(input) => input,
        None => {
            return Err(MDecodeError::FileNotFound);
        },
    };
    let (v_stream, a_stream) = match (input.video, input.audio) {
        (Some(v_stream), Some(a_stream)) => (v_stream, a_stream),
        _ => {
            return Err(MDecodeError::VideoStreamNotFound);
        },
    };
    let (video, audio) = match (v_stream.get_video_decoder(), a_stream.get_audio_decoder()) {
        (Some(video), Some(audio)) => (video, audio),
        _ => {
            return Err(MDecodeError::ContextCantBeInitialized);
        },
    };
    let options = match decode_options {
        Some(options) => options,
        None => MDecodeOptions::default(),
    };
    if !can_time_frames(v_stream.rate) {
        return Err(MDecodeError::ContextCantBeInitialized);
    }
    let window_width = options.window_default_size.0;
    if video.width == 0 || video.width > 0x7fff_ffff || video.height > 0x7fff_ffff {
        return Err(MDecodeError::ContextCantBeInitialized);
    }
    let wide_window: u64 = window_width as u64;
    let wide_height: u64 = video.height as u64;
    assert(wide_window * wide_height <= 0xffff_ffff * 0x7fff_ffff) by (nonlinear_arith)
        requires
            wide_window <= 0xffff_ffff,
            wide_height <= 0x7fff_ffff,
    ;
    if wide_window * wide_height > 0xffff_ffff {
        return Err(MDecodeError::ContextCantBeInitialized);
    }
    let media_info = MediaInfo {
        v_width: video.width,
        v_height: video.height,
        video_rate: v_stream.rate,
        aspect_ratio: video.aspect_ratio,
        frame_time_ms: frame_time_ms(v_stream.rate),
        frame_time_ns: frame_time_ns(v_stream.rate),
        audio_spec: AudioSpec {
            freq: Some(audio.rate as i32),
            channels: Some(audio.channels as i32),
            format: Some(audio.format.convert()),
        },
    };
    let ar = Rational::new(video.width as i32, video.height as i32);
    Ok(
        MDecodeInner {
            current_video_stream_index: v_stream.index,
            current_audio_stream_index: a_stream.index,
            options,
            media_info,
            target_size: (window_width, height_from_ar(ar, window_width)),
        },
    )
}

/// What the decoder thread does after a command.
#[derive(Debug, Clone, PartialEq, Eq)]
pub enum DecoderStep {
    /// Go on: decode if that is allowed, else wait.
    Continue,
    /// Open the medium at this path, then go on.
    Open(String),
    /// The command is not supported, or makes no sense now: nothing changed.
    Unsupported,
    /// End the thread.
    Finish,
    /// End the process: the commander is gone while a medium is open.
    Abort,
}

/// The mathematical state of the decoder thread: the frames sent and not yet
/// taken, the bounds on that number, and whether a medium is open.
pub struct DecoderLoopModel {
    pub to_take: u32,
    pub look_range: Range,
    pub opened: bool,
}

impl DecoderLoopModel {
    /// The state that a command leaves the thread in. The channel carries
    /// `None` for the order to end.
    pub open spec fn after_command(self, command: Option<DecoderCommand>) -> DecoderLoopModel {
        match command {
            Some(DecoderCommand::Open(_)) if self.opened => DecoderLoopModel { to_take: 0, ..self },
            Some(DecoderCommand::Take) if self.opened && self.to_take > 0 => DecoderLoopModel {
                to_take: (self.to_take - 1) as u32,
                ..self
            },
            Some(DecoderCommand::Clean) if !self.opened => DecoderLoopModel { to_take: 0, ..self },
            _ => self,
        }
    }

    /// What the thread does after a command. Going to a position is never
    /// supported; new options are supported, and ignored, while a medium is
    /// open; a frame can be taken only while a medium is open and a frame is
    /// outstanding.
    pub open spec fn step_on(self, command: Option<DecoderCommand>) -> DecoderStep {
        match command {
            None => if self.opened {
                DecoderStep::Abort
            } else {
                DecoderStep::Finish
            },
            Some(DecoderCommand::Open(path)) => DecoderStep::Open(path),
            Some(DecoderCommand::Goto(_)) => DecoderStep::Unsupported,
            Some(DecoderCommand::Option(_)) => if self.opened {
                DecoderStep::Continue
            } else {
                DecoderStep::Unsupported
            },
            Some(DecoderCommand::Take) => if self.opened && self.to_take > 0 {
                DecoderStep::Continue
            } else {
                DecoderStep::Unsupported
            },
            Some(DecoderCommand::Clean) => DecoderStep::Continue,
        }
    }

    /// The thread decodes while a medium is open and the number of frames
    /// outstanding is not above the upper bound.
    pub open spec fn may_decode(self) -> bool {
        self.opened && self.look_range.check_inclusive(self.to_take) != RangeCheck::Higher
    }
}

/// The device request that the decoder thread's audio side starts with.
pub open spec fn initial_audio_spec() -> AudioSpec {
    AudioSpec { freq: Some(22050), channels: Some(2), format: Some(AudioFormat::F32LE) }
}

/// The decisions of a single thread that reads a container and decodes both
/// of its streams, held back by the number of frames that the renderer has
/// not taken yet.
pub struct DecoderLoop {
    to_take: u32,
    look_range: Range,
    inner: Option<MDecodeInner>,
}

impl View for DecoderLoop {
    type V = DecoderLoopModel;

    closed spec fn view(&self) -> DecoderLoopModel {
        DecoderLoopModel {
            to_take: self.to_take,
            look_range: self.look_range,
            opened: self.inner is Some,
        }
    }
}

impl DecoderLoop {
    /// What is kept of the medium that is open, if one is.
    pub closed spec fn medium(&self) -> Option<MDecodeInner> {
        self.inner
    }

    /// Returns [`initial_audio_spec`].
    pub fn audio_spec() -> (spec: AudioSpec)
        ensures
            spec == initial_audio_spec(),
    {
        AudioSpec { freq: Some(44100 / 2), channels: Some(2), format: Some(AudioFormat::F32LE) }
    }

    pub fn to_take(&self) -> (count: u32)
        ensures
            count == self@.to_take,
    {
        self.to_take
    }

    pub fn inner(&self) -> (inner: Option<MDecodeInner>)
        ensures
            inner == self.medium(),
    {
        self.inner
    }

    /// Takes in what the command channel gave: see
    /// [`DecoderLoopModel::after_command`] and [`DecoderLoopModel::step_on`].
    pub fn on_command(&mut self, command: Option<DecoderCommand>) -> (step: DecoderStep)
        ensures
            final(self)@ == old(self)@.after_command(command),
            final(self).medium() == old(self).medium(),
            step == old(self)@.step_on(command),
    {
        let opened = self.inner.is_some();
        match command {
            None => if opened {
                DecoderStep::Abort
            } else {
                DecoderStep::Finish
            },
            Some(DecoderCommand::Open(path)) => {
                if opened {
                    self.to_take = 0;
                }
                DecoderStep::Open(path)
            },
            Some(DecoderCommand::Goto(_)) => DecoderStep::Unsupported,
            Some(DecoderCommand::Option(_)) => if opened {
                DecoderStep::Continue
            } else {
                DecoderStep::Unsupported
            },
            Some(DecoderCommand::Take) => {
                if opened && self.to_take > 0 {
                    self.to_take = self.to_take - 1;
                    DecoderStep::Continue
                } else {
                    DecoderStep::Unsupported
                }
            },
            Some(DecoderCommand::Clean) => {
                if !opened {
                    self.to_take = 0;
                }
                DecoderStep::Continue
            },
        }
    }

    /// Takes in the medium that was opened on the thread's request.
    pub fn on_opened(&mut self, inner: MDecodeInner)
        ensures
            final(self)@ == (DecoderLoopModel { opened: true, ..old(self)@ }),
            final(self).medium() == Some(inner),
    {
        self.inner = Some(inner);
    }

    /// Tells whether the thread may decode now: see
    /// [`DecoderLoopModel::may_decode`].
    pub fn may_decode(&self) -> (allowed: bool)
        ensures
            allowed == self@.may_decode(),
    {
        if self.inner.is_none() {
            return false;
        }
        match self.look_range.range_check_inclusive(self.to_take) {
            RangeCheck::Higher => false,
            _ => true,
        }
    }

    /// Takes in that a picture was sent to the renderer: one more frame is
    /// outstanding. The count stops at `u32::MAX`.
    pub fn on_video_sent(&mut self)
        ensures
            final(self)@ == (DecoderLoopModel {
                to_take: if old(self)@.to_take < u32::MAX {
                    (old(self)@.to_take + 1) as u32
                } else {
                    u32::MAX
                },
                ..old(self)@
            }),
            final(self).medium() == old(self).medium(),
    {
        if self.to_take < u32::MAX {
            self.to_take = self.to_take + 1;
        }
    }

    /// Picks the decoder for a unit of the stream `stream_index`: the audio
    /// decoder for the audio stream of the open medium, else the video
    /// decoder for its video stream, else none.
    pub fn route(&self, stream_index: usize) -> (route: Route)
        ensures
            route == match self.medium() {
                Some(inner) => if stream_index == inner.current_audio_stream_index {
                    Route::Audio
                } else if stream_index == inner.current_video_stream_index {
                    Route::Video
                } else {
                    Route::Discard
                },
                None => Route::Discard,
            },
    {
        match self.inner {
            Some(inner) => {
                if stream_index == inner.current_audio_stream_index {
                    Route::Audio
                } else if stream_index == inner.current_video_stream_index {
                    Route::Video
                } else {
                    Route::Discard
                }
            },
            None => Route::Discard,
        }
    }
}

/// The state of a decoder thread as it starts: no medium is open, and two
/// frames count as outstanding. Without `decode_options` the bounds are
/// those of [`MDecodeOptions::default_options`].
pub fn init(decode_options: Option<MDecodeOptions>) -> (state: DecoderLoop)
    ensures
        state@ == (DecoderLoopModel {
            to_take: 2,
            look_range: match decode_options {
                Some(options) => options.look_range,
                None => MDecodeOptions::default_options().look_range,
            },
            opened: false,
        }),
        state.medium() is None,
{
    let options = match decode_options {
        Some(options) => options,
        None => MDecodeOptions::default(),
    };
    DecoderLoop { to_take: 2, look_range: options.look_range, inner: None }
}

/// The handle that the renderer holds on the decoder thread.
#[derive(Debug, Clone, Copy, PartialEq, Eq)]
pub struct MDecode {
    pub is_active: bool,
}

impl MDecode {
    /// Marks the decoder as active and gives the command that has the
    /// thread open the medium at `path`.
    pub fn open_video(&mut self, path: String, decode_options: Option<MDecodeOptions>) -> (command:
        Result<DecoderCommand, MDecodeError>)
        ensures
            final(self).is_active,
            command == Ok::<DecoderCommand, MDecodeError>(DecoderCommand::Open(path)),
    {
        self.is_active = true;
        Ok(DecoderCommand::Open(path))
    }

    /// The answer to what the thread sent: each frame or notice that
    /// arrives is acknowledged as taken; the end of the medium is not.
    pub fn next<V, A>(&self, output: &Option<DecoderOutput<V, A>>) -> (reply: Option<DecoderCommand>)
        ensures
            reply == if *output is Some {
                Some(DecoderCommand::Take)
            } else {
                None
            },
    {
        match output {
            Some(_) => Some(DecoderCommand::Take),
            None => None,
        }
    }
}

} // verus!
