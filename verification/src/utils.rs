//! Ranges, picture sizes and the arithmetic of frame rates, time bases and
//! timestamps.

use crate::audio::AudioSpec;
use crate::constants::{audio_format_of, ConvFormat, Pixel};
use crate::probe::{AudioProbe, InputProbe};
use crate::rational::{magnitude, magnitude_of, trunc_div, Rational};
use vstd::arithmetic::div_mod::{
    lemma_div_pos_is_pos, lemma_fundamental_div_mod, lemma_fundamental_div_mod_converse,
    lemma_mod_bound,
};
use vstd::prelude::*;

verus! {

/// Where a number lies relative to a [`Range`].
#[derive(Debug, Clone, Copy, PartialEq, Eq, Structural)]
pub enum RangeCheck {
    Lower,
    InRange,
    Higher,
}

/// A pair of bounds on a `u32` quantity.
#[derive(Debug, Clone, Copy, PartialEq, Eq, Structural)]
pub struct Range {
    pub min: u32,
    pub max: u32,
}

impl Range {
    /// Where `num` lies when both bounds belong to the range. A number above
    /// `max` is `Higher` even if it is also below `min`.
    pub open spec fn check_inclusive(self, num: u32) -> RangeCheck {
        if num > self.max {
            RangeCheck::Higher
        } else if num < self.min {
            RangeCheck::Lower
        } else {
            RangeCheck::InRange
        }
    }

    /// Where `num` lies when neither bound belongs to the range. A number at
    /// or above `max` is `Higher` even if it is also at or below `min`.
    pub open spec fn check_exclusive(self, num: u32) -> RangeCheck {
        if num >= self.max {
            RangeCheck::Higher
        } else if num <= self.min {
            RangeCheck::Lower
        } else {
            RangeCheck::InRange
        }
    }

    pub fn new(min: u32, max: u32) -> (r: Range)
        ensures
            r.min == min,
            r.max == max,
    {
        Range { min, max }
    }

    pub fn range_check_inclusive(&self, num: u32) -> (c: RangeCheck)
        ensures
            c == self.check_inclusive(num),
    {
        if num > self.max {
            return RangeCheck::Higher;
        }
        if num < self.min {
            return RangeCheck::Lower;
        }
        RangeCheck::InRange
    }

    pub fn range_check(&self, num: u32) -> (c: RangeCheck)
        ensures
            c == self.check_exclusive(num),
    {
        if num >= self.max {
            return RangeCheck::Higher;
        }
        if num <= self.min {
            return RangeCheck::Lower;
        }
        RangeCheck::InRange
    }
}

/// The unit in which a waiting time is counted.
#[derive(Debug, Clone, Copy, PartialEq, Eq, Structural)]
pub enum TimeScale {
    Nano,
    Mili,
}

impl TimeScale {
    /// How many units of the scale make one second.
    pub open spec fn per_second(self) -> nat {
        match self {
            TimeScale::Nano => 1_000_000_000,
            TimeScale::Mili => 1_000,
        }
    }

    pub fn units_per_second(&self) -> (units: u64)
        ensures
            units == self.per_second(),
    {
        match self {
            TimeScale::Nano => 1_000_000_000,
            TimeScale::Mili => 1_000,
        }
    }
}

/// The height that goes with `width` at `aspect_ratio`, rounded down.
pub fn height_from_ar(aspect_ratio: Rational, width: u32) -> (height: u32)
    requires
        aspect_ratio.0 > 0,
        aspect_ratio.1 >= 0,
        width * aspect_ratio.1 <= u32::MAX,
    ensures
        height == (width * aspect_ratio.1) / (aspect_ratio.0 as int),
{
    width * (aspect_ratio.1 as u32) / (aspect_ratio.0 as u32)
}

/// `height` scaled by the second part of `aspect_ratio` over the first,
/// rounded down.
pub fn width_from_ar(aspect_ratio: Rational, height: u32) -> (width: u32)
    requires
        aspect_ratio.0 > 0,
        aspect_ratio.1 >= 0,
        height * aspect_ratio.1 <= u32::MAX,
    ensures
        width == (height * aspect_ratio.1) / (aspect_ratio.0 as int),
{
    height * (aspect_ratio.1 as u32) / (aspect_ratio.0 as u32)
}

/// The inputs on which [`frame_time_ms`] is defined.
pub open spec fn frame_time_ms_defined(rate: Rational) -> bool {
    rate.0 != 0 && -2_147_483 <= rate.1 <= 2_147_483
}

/// The inputs on which [`frame_time_ns`] is defined.
pub open spec fn frame_time_ns_defined(rate: Rational) -> bool {
    rate.0 > 0 && rate.1 >= 0 && (1_000_000_000 * rate.1) / (rate.0 as int) <= i32::MAX
}

/// The duration of one frame at `rate` frames per second, in milliseconds,
/// rounded toward zero.
pub fn frame_time_ms(rate: Rational) -> (ms: i32)
    requires
        frame_time_ms_defined(rate),
    ensures
        ms == trunc_div(1000 * rate.1, rate.0 as int),
{
    let scaled: u32 = 1000 * magnitude(rate.1);
    let quotient: u32 = scaled / magnitude(rate.0);
    proof {
        lemma_fundamental_div_mod(scaled as int, magnitude_of(rate.0 as int));
        lemma_mod_bound(scaled as int, magnitude_of(rate.0 as int));
        lemma_div_pos_is_pos(scaled as int, magnitude_of(rate.0 as int));
        assert(quotient <= scaled) by (nonlinear_arith)
            requires
                scaled == magnitude_of(rate.0 as int) * quotient + scaled % (magnitude_of(
                    rate.0 as int,
                ) as u32),
                magnitude_of(rate.0 as int) >= 1,
                quotient >= 0,
                scaled % (magnitude_of(rate.0 as int) as u32) >= 0,
        ;
    }
    if (rate.1 < 0) == (rate.0 < 0) {
        quotient as i32
    } else {
        -(quotient as i32)
    }
}

/// The duration of one frame at `rate` frames per second, in nanoseconds,
/// rounded down.
pub fn frame_time_ns(rate: Rational) -> (ns: i32)
    requires
        frame_time_ns_defined(rate),
    ensures
        ns == (1_000_000_000 * rate.1) / (rate.0 as int),
{
    let quotient: u64 = 1_000_000_000u64 * (rate.1 as u64) / (rate.0 as u64);
    quotient as i32
}

/// Tells whether [`frame_time_ms`] and [`frame_time_ns`] are both defined on
/// `rate`.
pub fn can_time_frames(rate: Rational) -> (b: bool)
    ensures
        b == (frame_time_ms_defined(rate) && frame_time_ns_defined(rate)),
{
    if rate.0 > 0 && rate.1 >= 0 && rate.1 <= 2_147_483 {
        let quotient: u64 = 1_000_000_000u64 * (rate.1 as u64) / (rate.0 as u64);
        quotient <= 0x7fff_ffff
    } else {
        false
    }
}

/// Timestamp units of `time_base` per frame at `frame_rate`:
/// `(1 / frame_rate) / time_base` rounded toward zero, and `0` where either
/// numerator is `0`.
pub open spec fn ticks_per_frame(time_base: Rational, frame_rate: Rational) -> int {
    if time_base.0 == 0 || frame_rate.0 == 0 {
        0
    } else {
        trunc_div(frame_rate.1 * time_base.1, frame_rate.0 * time_base.0)
    }
}

/// Computes [`ticks_per_frame`].
pub fn calculate_tpf_from_time_base(time_base: Rational, frame_rate: Rational) -> (tpf: i64)
    ensures
        tpf == ticks_per_frame(time_base, frame_rate),
{
    if time_base.0 == 0 || frame_rate.0 == 0 {
        return 0;
    }
    let a: u64 = magnitude(frame_rate.1) as u64;
    let b: u64 = magnitude(time_base.1) as u64;
    let c: u64 = magnitude(frame_rate.0) as u64;
    let d: u64 = magnitude(time_base.0) as u64;
    assert(a * b <= 0x8000_0000 * 0x8000_0000) by (nonlinear_arith)
        requires
            a <= 0x8000_0000,
            b <= 0x8000_0000,
    ;
    assert(1 <= c * d <= 0x8000_0000 * 0x8000_0000) by (nonlinear_arith)
        requires
            1 <= c <= 0x8000_0000,
            1 <= d <= 0x8000_0000,
    ;
    let numerator: u64 = a * b;
    let denominator: u64 = c * d;
    let quotient: u64 = numerator / denominator;
    proof {
        lemma_fundamental_div_mod(numerator as int, denominator as int);
        lemma_mod_bound(numerator as int, denominator as int);
        assert(quotient <= numerator) by (nonlinear_arith)
            requires
                numerator == denominator * quotient + numerator % denominator,
                denominator >= 1,
                quotient >= 0,
                numerator % denominator >= 0,
        ;
        let n = frame_rate.1 * time_base.1;
        let m = frame_rate.0 * time_base.0;
        assert(magnitude_of(n) == a * b && (n < 0) == ((frame_rate.1 < 0) != (time_base.1 < 0)
            && n != 0)) by (nonlinear_arith)
            requires
                n == frame_rate.1 * time_base.1,
                a == magnitude_of(frame_rate.1 as int),
                b == magnitude_of(time_base.1 as int),
        ;
        assert(magnitude_of(m) == c * d && (m < 0) == ((frame_rate.0 < 0) != (time_base.0 < 0)))
            by (nonlinear_arith)
            requires
                m == frame_rate.0 * time_base.0,
                c == magnitude_of(frame_rate.0 as int),
                d == magnitude_of(time_base.0 as int),
                frame_rate.0 != 0,
                time_base.0 != 0,
        ;
        if numerator == 0 {
            assert(quotient == 0);
        }
    }
    let top_negative = (frame_rate.1 < 0) != (time_base.1 < 0);
    let bottom_negative = (frame_rate.0 < 0) != (time_base.0 < 0);
    if top_negative == bottom_negative || numerator == 0 {
        quotient as i64
    } else {
        -(quotient as i64)
    }
}

/// The duration of one unit of `time_base` in units of `scale`.
///
/// A zero numerator gives `0`. Otherwise a ratio below zero gives `0`, a
/// ratio over a zero denominator gives `u64::MAX`, and any other ratio gives
/// `numerator * scale / denominator` rounded down.
pub open spec fn wait_from_rational(time_base: Rational, scale: TimeScale) -> int {
    if time_base.0 == 0 {
        0
    } else if (time_base.0 < 0) != (time_base.1 < 0) {
        0
    } else if time_base.1 == 0 {
        u64::MAX as int
    } else {
        (magnitude_of(time_base.0 as int) * scale.per_second()) / magnitude_of(
            time_base.1 as int,
        )
    }
}

/// Computes [`wait_from_rational`].
pub fn calculate_wait_from_rational(time_base: Rational, scale: TimeScale) -> (wait: u64)
    ensures
        wait == wait_from_rational(time_base, scale),
{
    let scale_val: u64 = scale.units_per_second();
    if time_base.0 == 0 {
        return 0;
    }
    if (time_base.0 < 0) != (time_base.1 < 0) {
        return 0;
    }
    if time_base.1 == 0 {
        return u64::MAX;
    }
    let numerator: u64 = magnitude(time_base.0) as u64;
    assert(numerator * scale_val <= 0x8000_0000 * 1_000_000_000) by (nonlinear_arith)
        requires
            numerator <= 0x8000_0000,
            scale_val <= 1_000_000_000,
    ;
    numerator * scale_val / (magnitude(time_base.1) as u64)
}

/// The duration of one unit of `time_base` in nanoseconds, without its sign,
/// rounded down.
pub fn time_base_to_ns(time_base: Rational) -> (ns: u32)
    requires
        time_base.1 != 0,
        -2 <= time_base.0 <= 2,
    ensures
        ns == (1_000_000_000 * magnitude_of(time_base.0 as int)) / magnitude_of(
            time_base.1 as int,
        ),
{
    let scaled: u32 = 1_000_000_000 * magnitude(time_base.0);
    scaled / magnitude(time_base.1)
}

/// The timestamp `pts`, counted in units of `from`, counted in units of `to`
/// instead: `pts * from / to`, rounded down.
pub open spec fn rescaled_pts(pts: int, from: Rational, to: Rational) -> int
    recommends
        from.1 > 0,
        to.0 > 0,
{
    (pts * from.0 * to.1) / (from.1 * to.0)
}

/// The quotient of `a` by a positive `d`, rounded down.
pub fn floor_div(a: i128, d: i128) -> (q: i128)
    requires
        d > 0,
        a > i128::MIN + d,
    ensures
        q == (a as int) / (d as int),
{
    if a >= 0 {
        a / d
    } else {
        let m: i128 = -a;
        let c: i128 = (m + (d - 1)) / d;
        proof {
            let t = (m + (d - 1)) as int;
            lemma_fundamental_div_mod(t, d as int);
            lemma_mod_bound(t, d as int);
            let r = (d - 1) - (t % (d as int));
            assert(a as int == (d as int) * (-(c as int)) + r) by (nonlinear_arith)
                requires
                    t == (d as int) * (c as int) + t % (d as int),
                    t == -(a as int) + (d as int) - 1,
                    r == (d as int) - 1 - t % (d as int),
            ;
            lemma_fundamental_div_mod_converse(a as int, d as int, -(c as int), r);
        }
        -c
    }
}

/// Converts a timestamp from one time base into another: see
/// [`rescaled_pts`]. The result is `None` where the division is undefined,
/// that is unless `from.1` and `to.0` are both positive, and where the result
/// does not fit in `i64`.
pub fn convert_pts(pts: i64, from: Rational, to: Rational) -> (converted: Option<i64>)
    ensures
        converted is Some <==> from.1 > 0 && to.0 > 0 && i64::MIN <= rescaled_pts(
            pts as int,
            from,
            to,
        ) <= i64::MAX,
        converted is Some ==> converted->0 == rescaled_pts(pts as int, from, to),
{
    if from.1 <= 0 || to.0 <= 0 {
        return None;
    }
    let wide_pts: i128 = pts as i128;
    let from_num: i128 = from.0 as i128;
    let to_den: i128 = to.1 as i128;
    let from_den: i128 = from.1 as i128;
    let to_num: i128 = to.0 as i128;
    assert(-0x8000_0000_0000_0000 * 0x8000_0000 <= wide_pts * from_num
        <= 0x8000_0000_0000_0000 * 0x8000_0000) by (nonlinear_arith)
        requires
            -0x8000_0000_0000_0000 <= wide_pts < 0x8000_0000_0000_0000,
            -0x8000_0000 <= from_num < 0x8000_0000,
    ;
    let in_seconds: i128 = wide_pts * from_num;
    assert(-0x4000_0000_0000_0000_0000_0000 * 0x8000_0000 <= in_seconds * to_den
        <= 0x4000_0000_0000_0000_0000_0000 * 0x8000_0000) by (nonlinear_arith)
        requires
            -0x4000_0000_0000_0000_0000_0000 <= in_seconds <= 0x4000_0000_0000_0000_0000_0000,
            -0x8000_0000 <= to_den < 0x8000_0000,
    ;
    let numerator: i128 = in_seconds * to_den;
    assert(0 < from_den * to_num <= 0x8000_0000 * 0x8000_0000) by (nonlinear_arith)
        requires
            0 < from_den < 0x8000_0000,
            0 < to_num < 0x8000_0000,
    ;
    let denominator: i128 = from_den * to_num;
    let quotient: i128 = floor_div(numerator, denominator);
    if quotient < i64::MIN as i128 || quotient > i64::MAX as i128 {
        None
    } else {
        Some(quotient as i64)
    }
}

/// The resampling method a picture scaler is built with.
#[derive(Debug, Clone, Copy, PartialEq, Eq, Structural)]
pub enum ScalingFlag {
    FastBilinear,
    Bilinear,
    Bicubic,
    Point,
    Area,
    Lanczos,
}

/// How decoded pictures are prepared for the window.
#[derive(Debug, Clone, Copy, PartialEq, Eq)]
pub struct MDecodeOptions {
    pub scaling_flag: ScalingFlag,
    /// How many frames may be decoded ahead: the upper bound stops the
    /// decoder, the lower bound tells that it has fallen behind.
    pub look_range: Range,
    pub window_default_size: (u32, u32),
    pub pixel_format: Pixel,
}

impl MDecodeOptions {
    /// The options of a decoder that is given none.
    pub open spec fn default_options() -> MDecodeOptions {
        MDecodeOptions {
            scaling_flag: ScalingFlag::Bilinear,
            look_range: Range { min: 5, max: 15 },
            window_default_size: (1920, 1080),
            pixel_format: Pixel::RGB24,
        }
    }

    /// The options the player runs with.
    pub open spec fn player_options() -> MDecodeOptions {
        MDecodeOptions {
            scaling_flag: ScalingFlag::Bilinear,
            look_range: Range { min: 10, max: 100 },
            window_default_size: (1920, 1080),
            pixel_format: Pixel::RGB24,
        }
    }

    /// Returns [`MDecodeOptions::player_options`].
    pub fn opts() -> (options: MDecodeOptions)
        ensures
            options == MDecodeOptions::player_options(),
    {
        MDecodeOptions {
            scaling_flag: ScalingFlag::Bilinear,
            look_range: Range::new(10, 100),
            window_default_size: (1920, 1080),
            pixel_format: Pixel::RGB24,
        }
    }
}

impl Default for MDecodeOptions {
    fn default() -> (options: MDecodeOptions)
        ensures
            options == MDecodeOptions::default_options(),
    {
        MDecodeOptions {
            look_range: Range::new(5, 15),
            scaling_flag: ScalingFlag::Bilinear,
            window_default_size: (1920, 1080),
            pixel_format: Pixel::RGB24,
        }
    }
}

/// Half of a decoder's sample rate, read as a signed number and rounded
/// toward zero.
pub open spec fn halved_rate(rate: u32) -> i32 {
    trunc_div((rate as i32) as int, 2) as i32
}

impl ConvFormat<AudioSpec> for AudioProbe {
    open spec fn convertible(&self) -> bool {
        true
    }

    /// The device request for what an audio decoder produces: half its
    /// sample rate, the channels of its layout, its format's device format.
    open spec fn converted(&self) -> AudioSpec {
        AudioSpec {
            freq: Some(halved_rate(self.rate)),
            channels: Some(self.layout_channels),
            format: Some(audio_format_of(self.format)),
        }
    }

    fn convert(&self) -> (to: AudioSpec) {
        let rate: i32 = self.rate as i32;
        AudioSpec {
            freq: Some(rate / 2),
            channels: Some(self.layout_channels),
            format: Some(self.format.convert()),
        }
    }
}

/// What the player needs to know of an opened medium before the first frame.
#[derive(Debug, Clone, Copy, PartialEq, Eq)]
pub struct MediaInfo {
    pub v_width: u32,
    pub v_height: u32,
    pub video_rate: Rational,
    pub aspect_ratio: Rational,
    pub frame_time_ns: i32,
    pub frame_time_ms: i32,
    pub audio_spec: AudioSpec,
    pub time_base: Rational,
}

impl InputProbe {
    /// A medium can be described when it has a video and an audio stream,
    /// a decoder was opened for each, and one frame of the video stream
    /// lasts a time that can be counted.
    pub open spec fn describable(self) -> bool {
        &&& self.video is Some
        &&& self.audio is Some
        &&& self.video->0.video_decoder() is Some
        &&& self.audio->0.audio_decoder() is Some
        &&& frame_time_ms_defined(self.video->0.rate)
        &&& frame_time_ns_defined(self.video->0.rate)
    }

    /// Tells whether the medium is [`InputProbe::describable`].
    pub fn is_describable(&self) -> (b: bool)
        ensures
            b == self.describable(),
    {
        match (self.video, self.audio) {
            (Some(v_stream), Some(a_stream)) => {
                v_stream.get_video_decoder().is_some() && a_stream.get_audio_decoder().is_some()
                    && can_time_frames(v_stream.rate)
            },
            _ => false,
        }
    }
}

impl MediaInfo {
    /// The description of a describable medium: the picture as the video
    /// decoder reports it, the frame rate as the container declares it, and
    /// the audio request at the audio decoder's own rate and channel count.
    pub open spec fn of_input(input: InputProbe) -> MediaInfo
        recommends
            input.describable(),
    {
        let v_stream = input.video->0;
        let video = v_stream.video_decoder()->0;
        let audio = input.audio->0.audio_decoder()->0;
        MediaInfo {
            v_width: video.width,
            v_height: video.height,
            video_rate: v_stream.rate,
            aspect_ratio: video.aspect_ratio,
            frame_time_ms: trunc_div(1000 * v_stream.rate.1, v_stream.rate.0 as int) as i32,
            frame_time_ns: ((1_000_000_000 * v_stream.rate.1) / (v_stream.rate.0 as int)) as i32,
            audio_spec: AudioSpec {
                freq: Some(audio.rate as i32),
                channels: Some(audio.channels as i32),
                format: Some(audio_format_of(audio.format)),
            },
            time_base: v_stream.codec->0.time_base,
        }
    }

    /// Describes an opened medium.
    pub fn get_media_info_from_input(input: InputProbe) -> (info: MediaInfo)
        requires
            input.describable(),
        ensures
            info == MediaInfo::of_input(input),
    {
        let v_stream = input.video.unwrap();
        let a_stream = input.audio.unwrap();
        let video_decoder = v_stream.get_video_decoder().unwrap();
        let audio_decoder = a_stream.get_audio_decoder().unwrap();
        MediaInfo {
            v_width: video_decoder.width,
            v_height: video_decoder.height,
            video_rate: v_stream.rate,
            aspect_ratio: video_decoder.aspect_ratio,
            frame_time_ms: frame_time_ms(v_stream.rate),
            frame_time_ns: frame_time_ns(v_stream.rate),
            audio_spec: AudioSpec {
                freq: Some(audio_decoder.rate as i32),
                channels: Some(audio_decoder.channels as i32),
                format: Some(audio_decoder.format.convert()),
            },
            time_base: v_stream.codec.unwrap().time_base,
        }
    }
}

} // verus!
