//! The formats of samples and pixels, as decoders name them and as the
//! devices name them, and the conversion between the two.

use vstd::prelude::*;

verus! {

/// A conversion from a description in one vocabulary into another.
///
/// `converted` says what the result is and `convertible` on which values
/// the conversion is defined; `convert` computes it.
pub trait ConvFormat<To> {
    spec fn convertible(&self) -> bool;

    spec fn converted(&self) -> To;

    fn convert(&self) -> (to: To)
        requires
            self.convertible(),
        ensures
            to == self.converted(),
    ;
}

/// How the samples of several channels are laid out in a decoded buffer.
#[derive(Debug, Clone, Copy, PartialEq, Eq, Structural)]
pub enum SampleType {
    Packed,
    Planar,
}

/// The sample format of decoded audio, as a decoder names it.
#[derive(Debug, Clone, Copy, PartialEq, Eq, Structural)]
pub enum Sample {
    Unspecified,
    U8(SampleType),
    I16(SampleType),
    I32(SampleType),
    I64(SampleType),
    F32(SampleType),
    F64(SampleType),
}

/// The sample format of an audio device stream.
#[derive(Debug, Clone, Copy, PartialEq, Eq, Structural)]
pub enum AudioFormat {
    UNKNOWN,
    U8,
    S8,
    S16LE,
    S16BE,
    S32LE,
    S32BE,
    F32LE,
    F32BE,
}

/// The pixel format of a decoded picture, as a decoder names it. `Other`
/// stands for every format that has no counterpart on a surface.
#[derive(Debug, Clone, Copy, PartialEq, Eq, Structural)]
pub enum Pixel {
    RGB24,
    BGR24,
    ARGB,
    RGBA,
    ABGR,
    BGRA,
    RGB565LE,
    BGR565LE,
    NV12,
    NV21,
    YUYV422,
    UYVY422,
    YVYU422,
    RGB32,
    YUV420P,
    YUV422P,
    Other,
}

/// The pixel format of a presentation surface.
#[derive(Debug, Clone, Copy, PartialEq, Eq, Structural)]
pub enum PixelFormat {
    UNKNOWN,
    RGB24,
    BGR24,
    ARGB8888,
    RGBA8888,
    ABGR8888,
    BGRA8888,
    RGB565,
    BGR565,
    RGB332,
    NV12,
    NV21,
    YUY2,
    UYVY,
    YVYU,
}

/// The device format that plays samples of the decoder format `sample`.
/// Eight-bit, 16-bit, 32-bit integer and 32-bit float samples have one;
/// 64-bit samples and the absent format have none.
pub open spec fn audio_format_of(sample: Sample) -> AudioFormat {
    match sample {
        Sample::U8(_) => AudioFormat::U8,
        Sample::I16(_) => AudioFormat::S16LE,
        Sample::I32(_) => AudioFormat::S32LE,
        Sample::F32(_) => AudioFormat::F32LE,
        Sample::Unspecified | Sample::I64(_) | Sample::F64(_) => AudioFormat::UNKNOWN,
    }
}

/// The surface format that shows pictures of the decoder format `pixel`.
pub open spec fn pixel_format_of(pixel: Pixel) -> PixelFormat {
    match pixel {
        Pixel::RGB24 => PixelFormat::RGB24,
        Pixel::BGR24 => PixelFormat::BGR24,
        Pixel::ARGB => PixelFormat::ARGB8888,
        Pixel::RGBA => PixelFormat::RGBA8888,
        Pixel::ABGR => PixelFormat::ABGR8888,
        Pixel::BGRA => PixelFormat::BGRA8888,
        Pixel::RGB565LE => PixelFormat::RGB565,
        Pixel::BGR565LE => PixelFormat::BGR565,
        Pixel::NV12 => PixelFormat::NV12,
        Pixel::NV21 => PixelFormat::NV21,
        Pixel::YUYV422 => PixelFormat::YUY2,
        Pixel::UYVY422 => PixelFormat::UYVY,
        Pixel::YVYU422 => PixelFormat::YVYU,
        Pixel::RGB32 => PixelFormat::RGB332,
        Pixel::YUV420P => PixelFormat::UYVY,
        Pixel::YUV422P => PixelFormat::YUY2,
        Pixel::Other => PixelFormat::UNKNOWN,
    }
}

impl ConvFormat<AudioFormat> for Sample {
    open spec fn convertible(&self) -> bool {
        true
    }

    open spec fn converted(&self) -> AudioFormat {
        audio_format_of(*self)
    }

    fn convert(&self) -> (to: AudioFormat) {
        match self {
            Sample::Unspecified => AudioFormat::UNKNOWN,
            Sample::U8(_) => AudioFormat::U8,
            Sample::I16(_) => AudioFormat::S16LE,
            Sample::I32(_) => AudioFormat::S32LE,
            Sample::I64(_) => AudioFormat::UNKNOWN,
            Sample::F32(_) => AudioFormat::F32LE,
            Sample::F64(_) => AudioFormat::UNKNOWN,
        }
    }
}

impl ConvFormat<PixelFormat> for Pixel {
    open spec fn convertible(&self) -> bool {
        true
    }

    open spec fn converted(&self) -> PixelFormat {
        pixel_format_of(*self)
    }

    fn convert(&self) -> (to: PixelFormat) {
        match self {
            Pixel::RGB24 => PixelFormat::RGB24,
            Pixel::BGR24 => PixelFormat::BGR24,
            Pixel::ARGB => PixelFormat::ARGB8888,
            Pixel::RGBA => PixelFormat::RGBA8888,
            Pixel::ABGR => PixelFormat::ABGR8888,
            Pixel::BGRA => PixelFormat::BGRA8888,
            Pixel::RGB565LE => PixelFormat::RGB565,
            Pixel::BGR565LE => PixelFormat::BGR565,
            Pixel::NV12 => PixelFormat::NV12,
            Pixel::NV21 => PixelFormat::NV21,
            Pixel::YUYV422 => PixelFormat::YUY2,
            Pixel::UYVY422 => PixelFormat::UYVY,
            Pixel::YVYU422 => PixelFormat::YVYU,
            Pixel::RGB32 => PixelFormat::RGB332,
            Pixel::YUV420P => PixelFormat::UYVY,
            Pixel::YUV422P => PixelFormat::YUY2,
            _ => PixelFormat::UNKNOWN,
        }
    }
}

} // verus!
